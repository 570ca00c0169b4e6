use vstd::prelude::*;

verus! {

/// What a handler failure becomes once it crosses the adapter boundary: a
/// description that a response can carry.
pub struct Failure {
    message: String,
}

impl View for Failure {
    type V = Seq<char>;

    closed spec fn view(&self) -> Seq<char> {
        self.message@
    }
}

impl Failure {
    /// A failure described by `message`.
    pub fn new(message: String) -> (r: Self)
        ensures
            r@ == message@,
    {
        Failure { message }
    }

    /// The description that the failure carries.
    pub fn message(&self) -> (r: &String)
        ensures
            r@ == self@,
    {
        &self.message
    }
}

/// The failure-containment step of a backend adapter.
///
/// `path` is what identifies the request, captured before the request was
/// handed to the backend service; `outcome` is what that service produced. A
/// success passes through unchanged. A failure is handed, together with the
/// path, to `error_response`, the response type's way of describing a failure,
/// and what it builds is the response. Exactly one response comes out either way.
pub fn contain<Res, F: FnOnce(String, Failure) -> Res>(
    path: String,
    outcome: Result<Res, Failure>,
    error_response: F,
) -> (r: Res)
    requires
        match outcome {
            Ok(_) => true,
            Err(e) => error_response.requires((path, e)),
        },
    ensures
        match outcome {
            Ok(res) => r == res,
            Err(e) => error_response.ensures((path, e), r),
        },
{
    match outcome {
        Ok(res) => res,
        Err(e) => error_response(path, e),
    }
}

} // verus!
