use vstd::prelude::*;

verus! {

/// Converts a request into a response.
///
/// `run` has no error channel: a failure inside the service must already have
/// been turned into a response by the time `run` returns. The response type may
/// itself be a suspended computation that yields the final response.
pub trait Service<Req, Res>: Send {
    /// Whether `res` is a response that this service, as it stands now, may give
    /// for `req`. An implementation that keeps this default claims nothing.
    open spec fn answers(&self, req: Req, res: Res) -> bool {
        true
    }

    /// Consumes one request and yields exactly one response for it.
    fn run(&mut self, req: Req) -> (res: Res)
        ensures
            old(self).answers(req, res),
    ;
}

/// What a readiness query reports.
#[derive(PartialEq, Eq, Structural, Clone, Copy, Debug)]
pub enum Readiness {
    Ready,
    Pending,
}

/// Whether `handle` answers exactly as `service` does, for every request and
/// response.
pub open spec fn erases<Req, Res, S: Service<Req, Res>>(handle: BoxedService<Req, Res>, service: S) -> bool {
    forall|req: Req, res: Res| #[trigger] handle.0.answers(req, res) == service.answers(req, res)
}

/// Relies on `Box::new` and on Rust's unsizing coercion of `Box<S>` into
/// `Box<dyn Service>`: the value moves into the box as it is, and a call
/// through the trait object dispatches to `S`'s own implementation, so the
/// handle answers as `S` does. Verus follows this coercion at concrete types
/// but not at a type parameter.
#[verifier::external_body]
fn erase<Req, Res, S: Service<Req, Res> + 'static>(service: S) -> (r: BoxedService<Req, Res>)
    ensures
        erases(r, service),
{
    BoxedService(Box::new(service))
}

/// A type-erased service: the sole owner of one boxed [`Service`].
#[verifier::reject_recursive_types(Req)]
#[verifier::reject_recursive_types(Res)]
pub struct BoxedService<Req, Res>(pub Box<dyn Service<Req, Res>>);

impl<Req: 'static, Res: 'static> BoxedService<Req, Res> {
    /// Moves `service` into a new handle, which becomes its only owner.
    pub fn new<S: Service<Req, Res> + 'static>(service: S) -> (r: Self)
        ensures
            erases(r, service),
    {
        erase(service)
    }

    /// The handle never asks its caller to wait: it always reports that it is
    /// ready, whatever the state of the service inside. A service that is not
    /// ready after all answers the following call with a failure response.
    pub fn poll_ready(&mut self) -> (r: Readiness)
        ensures
            r == Readiness::Ready,
            *final(self) == *old(self),
    {
        Readiness::Ready
    }
}

impl<Req: 'static, Res: 'static> Service<Req, Res> for BoxedService<Req, Res> {
    /// Forwarding adds no behaviour: the handle answers as its content does.
    open spec fn answers(&self, req: Req, res: Res) -> bool {
        self.0.answers(req, res)
    }

    fn run(&mut self, req: Req) -> (res: Res) {
        self.0.run(req)
    }
}

} // verus!
