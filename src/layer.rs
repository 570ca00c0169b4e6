use vstd::prelude::*;
use crate::service::BoxedService;

verus! {

/// Wraps a service in additional behaviour, producing a new service.
pub trait Layer<Req, Res>: Send + Sync + 'static {
    /// Whether the wrapped service may give `res` for `req` when the service it
    /// wraps is `inner`. An implementation that keeps this default claims nothing.
    open spec fn wraps(&self, inner: BoxedService<Req, Res>, req: Req, res: Res) -> bool {
        true
    }

    /// Adds this layer around `inner`, which the result takes over.
    fn layer(&self, inner: BoxedService<Req, Res>) -> (outer: BoxedService<Req, Res>)
        ensures
            forall|req: Req, res: Res| #[trigger] outer.0.answers(req, res) ==> self.wraps(inner, req, res),
    ;
}

/// Whether `chain` records how `stacked` was built from `terminal` by `layers`:
/// `chain` starts at `stacked`, ends at `terminal`, and each `chain[i]` is the
/// service that `layers[i]` produced around `chain[i + 1]`, so that it answers
/// only as `layers[i]` allows over `chain[i + 1]`.
///
/// `layers[0]` is therefore the outermost layer: it sees a request first and its
/// response last; `layers[1]` comes next on the way in and just before it on the
/// way out; the terminal service sits innermost.
pub open spec fn is_stack<Req, Res>(
    layers: Seq<Box<dyn Layer<Req, Res>>>,
    terminal: BoxedService<Req, Res>,
    chain: Seq<BoxedService<Req, Res>>,
    stacked: BoxedService<Req, Res>,
) -> bool {
    &&& chain.len() == layers.len() + 1
    &&& chain[0] == stacked
    &&& chain[layers.len() as int] == terminal
    &&& forall|i: int, req: Req, res: Res|
        0 <= i < layers.len() && #[trigger] chain[i].0.answers(req, res) ==> layers[i].wraps(
            chain[i + 1],
            req,
            res,
        )
}

/// Applies `layers` around `terminal`, the first of them outermost.
///
/// The last layer is applied first, right around `terminal`, and the first one
/// last; so a request passes the layers' pre-processing in the order in which
/// they are listed, and the response passes their post-processing in the
/// reverse order.
pub fn stack<Req: 'static, Res: 'static>(
    layers: &Vec<Box<dyn Layer<Req, Res>>>,
    terminal: BoxedService<Req, Res>,
) -> (r: BoxedService<Req, Res>)
    ensures
        exists|chain: Seq<BoxedService<Req, Res>>| is_stack(layers@, terminal, chain, r),
{
    let ghost t = terminal;
    let mut svc = terminal;
    let mut i: usize = layers.len();
    let ghost mut chain: Seq<BoxedService<Req, Res>> = seq![t];
    while i > 0
        invariant
            i <= layers.len(),
            chain.len() == layers.len() - i + 1,
            chain[0] == svc,
            chain[chain.len() - 1] == t,
            forall|j: int, req: Req, res: Res|
                0 <= j < layers.len() - i && #[trigger] chain[j].0.answers(req, res)
                    ==> layers@[i + j].wraps(chain[j + 1], req, res),
        decreases i,
    {
        i = i - 1;
        svc = layers[i].layer(svc);
        proof {
            let old_chain = chain;
            chain = seq![svc].add(old_chain);
            assert forall|j: int, req: Req, res: Res|
                0 <= j < layers.len() - i && #[trigger] chain[j].0.answers(req, res)
                    implies layers@[i + j].wraps(chain[j + 1], req, res) by {
                if j > 0 {
                    assert(chain[j] == old_chain[j - 1]);
                    assert(chain[j + 1] == old_chain[j]);
                }
            }
        }
    }
    assert(is_stack(layers@, t, chain, svc)) by {
        assert forall|j: int, req: Req, res: Res|
            0 <= j < layers.len() && #[trigger] chain[j].0.answers(req, res)
                implies layers@[j].wraps(chain[j + 1], req, res) by {
            assert(layers@[i + j] == layers@[j]);
        }
    }
    svc
}

} // verus!
