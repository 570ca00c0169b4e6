use vstd::prelude::*;
use crate::layer::{is_stack, Layer};
use crate::service::{erases, BoxedService, Service};

verus! {

/// A stack of layers splits at any point into the stack of its first part
/// around the stack of the rest: stacking `front + back` around a terminal
/// service gives the same layering as stacking `back` around that service and
/// then `front` around the result. The wrapping order is thus fixed by the
/// order of the list alone: earlier layers are further out, so they see a
/// request earlier and its response later than any layer listed after them.
pub proof fn stack_splits<Req, Res>(
    front: Seq<Box<dyn Layer<Req, Res>>>,
    back: Seq<Box<dyn Layer<Req, Res>>>,
    terminal: BoxedService<Req, Res>,
    chain: Seq<BoxedService<Req, Res>>,
    stacked: BoxedService<Req, Res>,
)
    requires
        is_stack(front + back, terminal, chain, stacked),
    ensures
        is_stack(back, terminal, chain.subrange(front.len() as int, chain.len() as int), chain[front.len() as int]),
        is_stack(front, chain[front.len() as int], chain.subrange(0, front.len() as int + 1), stacked),
{
    let layers = front + back;
    let n = front.len() as int;
    let inner = chain.subrange(n, chain.len() as int);
    let outer = chain.subrange(0, n + 1);
    assert forall|i: int, req: Req, res: Res|
        0 <= i < back.len() && #[trigger] inner[i].0.answers(req, res)
            implies back[i].wraps(inner[i + 1], req, res) by {
        assert(inner[i] == chain[n + i]);
        assert(inner[i + 1] == chain[n + i + 1]);
        assert(layers[n + i] == back[i]);
    }
    assert forall|i: int, req: Req, res: Res|
        0 <= i < front.len() && #[trigger] outer[i].0.answers(req, res)
            implies front[i].wraps(outer[i + 1], req, res) by {
        assert(outer[i] == chain[i]);
        assert(layers[i] == front[i]);
    }
}

/// The outermost layer of a non-empty stack is the first one listed: the
/// stacked service answers only as that layer allows over the stack of the
/// remaining layers.
pub proof fn first_layer_is_outermost<Req, Res>(
    layers: Seq<Box<dyn Layer<Req, Res>>>,
    terminal: BoxedService<Req, Res>,
    chain: Seq<BoxedService<Req, Res>>,
    stacked: BoxedService<Req, Res>,
    req: Req,
    res: Res,
)
    requires
        layers.len() > 0,
        is_stack(layers, terminal, chain, stacked),
        stacked.0.answers(req, res),
    ensures
        is_stack(layers.drop_first(), terminal, chain.drop_first(), chain[1]),
        layers[0].wraps(chain[1], req, res),
{
    let first = seq![layers[0]];
    let rest = layers.drop_first();
    assert(first + rest =~= layers);
    stack_splits(first, rest, terminal, chain, stacked);
    assert(chain.subrange(1, chain.len() as int) =~= chain.drop_first());
}

/// A handle made by [`BoxedService::new`] answers exactly as the service moved
/// into it: a response that the handle gives for a request is one that the
/// service itself may give for it, and the other way round. Erasing a service's
/// type changes nothing of what it does.
pub proof fn erased_service_answers_as_before<Req: 'static, Res: 'static, S: Service<Req, Res>>(
    handle: BoxedService<Req, Res>,
    service: S,
    req: Req,
    res: Res,
)
    requires
        erases(handle, service),
    ensures
        handle.answers(req, res) == service.answers(req, res),
{
}

} // verus!
