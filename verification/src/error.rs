//! The error that the clients report: a message.

use vstd::prelude::*;

verus! {

/// A failed call, with the message that says why.
#[derive(Debug, PartialEq, Eq)]
pub struct ApiError {
    pub message: String,
}

impl ApiError {
    /// An error with the message `message`.
    pub fn new(message: String) -> (r: ApiError)
        ensures
            r.message@ == message@,
    {
        ApiError { message }
    }
}

/// Whether every outcome of `s` succeeded.
pub open spec fn all_ok<T>(s: Seq<Result<T, ApiError>>) -> bool {
    forall|i: int| 0 <= i < s.len() ==> #[trigger] s[i] is Ok
}

/// The values of a run of outcomes when all succeeded, else the error of
/// the first that failed.
pub fn first_error<T>(outcomes: Vec<Result<T, ApiError>>) -> (r: Result<Vec<T>, ApiError>)
    ensures
        r is Ok <==> all_ok(outcomes@),
        r matches Ok(v) ==> v@.len() == outcomes@.len() && forall|i: int|
            0 <= i < v@.len() ==> #[trigger] outcomes@[i] == Ok::<T, ApiError>(v@[i]),
        r matches Err(e) ==> exists|k: int|
            0 <= k < outcomes@.len() && outcomes@[k] == Err::<T, ApiError>(e) && forall|j: int|
                0 <= j < k ==> #[trigger] outcomes@[j] is Ok,
{
    let ghost orig = outcomes@;
    let mut rest = outcomes;
    let mut oks: Vec<T> = Vec::new();
    while rest.len() > 0
        invariant
            orig == outcomes@,
            oks@.len() + rest@.len() == orig.len(),
            rest@ == orig.skip(oks@.len() as int),
            forall|i: int| 0 <= i < oks@.len() ==> #[trigger] orig[i] == Ok::<T, ApiError>(oks@[i]),
        decreases rest@.len(),
    {
        let ghost k = oks@.len() as int;
        let x = rest.remove(0);
        assert(x == orig[k]);
        match x {
            Ok(v) => {
                oks.push(v);
                assert(rest@ =~= orig.skip(oks@.len() as int));
            },
            Err(e) => {
                assert(forall|j: int| 0 <= j < k ==> #[trigger] orig[j] is Ok);
                assert(orig[k] == Err::<T, ApiError>(e));
                assert(!(orig[k] is Ok));
                return Err(e);
            },
        }
    }
    assert(all_ok(orig)) by {
        assert forall|i: int| 0 <= i < orig.len() implies #[trigger] orig[i] is Ok by {
            assert(orig[i] == Ok::<T, ApiError>(oks@[i]));
        }
    }
    Ok(oks)
}

} // verus!
