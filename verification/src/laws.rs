//! The laws the dispatcher obeys, stated over [`crate::proxy::dispatch_spec`]
//! and the byte shapes of [`crate::codec`].

use vstd::prelude::*;

use crate::codec::{err_return_bytes, ok_return_bytes, success_shaped};
use crate::proxy::{
    dispatch_spec, error_decoding, error_encoding, Error, OutcomeView, PlatformOutcomeView,
};

verus! {

/// When the target constructor returns success — the platform completes with
/// a success-shaped return carrying the new account's address — the dispatch
/// reports exactly that address.
pub proof fn lemma_success_reported(address: Seq<u8>)
    requires
        address.len() == 32,
    ensures
        dispatch_spec(PlatformOutcomeView::Completed(ok_return_bytes(address)))
            == OutcomeView::Success(address),
{
    let b = ok_return_bytes(address);
    assert(success_shaped(b));
    assert(b.subrange(1, 33) =~= address);
}

/// When the target constructor declares failure, the dispatch forwards the
/// constructor's encoded error value byte-for-byte: nothing is decoded,
/// dropped or synthesized on the error path.
pub proof fn lemma_declared_error_preserved(payload: Seq<u8>)
    ensures
        dispatch_spec(PlatformOutcomeView::Completed(err_return_bytes(payload)))
            == OutcomeView::ConstructorError(payload),
{
    let b = err_return_bytes(payload);
    assert(!success_shaped(b));
    assert(b.subrange(1, b.len() as int) =~= payload);
}

/// Round trip for a declared error value: the payload the dispatch forwards
/// for a constructor that failed with `e` decodes, under the error type's
/// own scheme, back to exactly `e`.
pub proof fn lemma_error_round_trip(e: Error)
    ensures
        error_decoding(error_encoding(e)) == Some(e),
        dispatch_spec(PlatformOutcomeView::Completed(err_return_bytes(error_encoding(e))))
            == OutcomeView::ConstructorError(error_encoding(e)),
{
    lemma_declared_error_preserved(error_encoding(e));
}

/// A trap propagates as a trap: the dispatch never turns an unrecoverable
/// abort into an observable success or error value.
pub proof fn lemma_trap_propagates()
    ensures
        dispatch_spec(PlatformOutcomeView::Trapped) == OutcomeView::Trap,
{
}

/// No silent success: the dispatch reports a new address exactly when the
/// platform completed with a success-shaped return. In particular a failed
/// deployment — a trap, a collision of a reused salt, a declared error — is
/// never reported as a success.
pub proof fn lemma_no_silent_success(outcome: PlatformOutcomeView)
    ensures
        (dispatch_spec(outcome) is Success) <==> (outcome matches
            PlatformOutcomeView::Completed(b) && success_shaped(b)),
{
}

} // verus!
