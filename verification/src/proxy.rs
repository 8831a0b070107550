//! The deployment dispatcher.
//!
//! A single stateless operation: build the creation call for a caller-chosen
//! code template, and translate the platform's raw outcome into the proxy's
//! own result. The platform primitive that performs the deployment is a host
//! operation of the ledger; the contract shell around this library issues the
//! request built here and hands the raw outcome back to [`dispatch_outcome`].

use vstd::prelude::*;

use crate::codec::{
    call_input, declared_error_payload, declared_error_shaped, success_address, success_shaped,
    Encoded,
};

verus! {

/// A platform-defined fixed-size account identifier, held as its 32 raw
/// bytes.
#[derive(Debug, PartialEq, Eq)]
pub struct AccountId {
    pub bytes: Vec<u8>,
}

impl View for AccountId {
    type V = Seq<u8>;

    open spec fn view(&self) -> Seq<u8> {
        self.bytes@
    }
}

impl AccountId {
    /// An account identifier is exactly 32 bytes.
    pub open spec fn wf(&self) -> bool {
        self@.len() == 32
    }
}

/// The content hash naming the code template to instantiate. Opaque to the
/// proxy: it is forwarded without any local validity check, and an
/// unresolvable hash is the platform's failure to report.
#[derive(Debug, PartialEq, Eq)]
pub struct CodeHash {
    pub bytes: Vec<u8>,
}

impl View for CodeHash {
    type V = Seq<u8>;

    open spec fn view(&self) -> Seq<u8> {
        self.bytes@
    }
}

/// A reference to a freshly created contract account, built from the raw
/// account identifier the platform hands back. It exists only as a typed
/// call target; the dispatcher immediately unwraps it to the identifier.
#[derive(Debug, PartialEq, Eq)]
pub struct ContractRef(pub AccountId);

impl ContractRef {
    pub fn from_account_id(account_id: AccountId) -> (r: Self)
        ensures
            r.0 == account_id,
    {
        ContractRef(account_id)
    }
}

/// Everything the platform's creation primitive is handed for one
/// deployment: the code template, the full call input, the forwarded value,
/// and the address-derivation salt.
#[derive(Debug, PartialEq, Eq)]
pub struct CreateRequest {
    pub code_hash: CodeHash,
    pub input: Vec<u8>,
    pub endowment: u128,
    pub salt: Vec<u8>,
}

/// The raw outcome of the platform's creation primitive: either the call ran
/// to completion and returned bytes in the declared return shape, or the
/// deployed code aborted unrecoverably and left no usable payload.
#[derive(Debug, PartialEq, Eq)]
pub enum PlatformOutcome {
    Completed(Vec<u8>),
    Trapped,
}

/// Spec-level image of a [`PlatformOutcome`].
pub enum PlatformOutcomeView {
    Completed(Seq<u8>),
    Trapped,
}

impl View for PlatformOutcome {
    type V = PlatformOutcomeView;

    open spec fn view(&self) -> PlatformOutcomeView {
        match self {
            PlatformOutcome::Completed(bytes) => PlatformOutcomeView::Completed(bytes@),
            PlatformOutcome::Trapped => PlatformOutcomeView::Trapped,
        }
    }
}

/// The tri-state result of one deployment attempt. Exactly one variant is
/// produced per dispatch; a trap carries no payload and is never passed off
/// as a constructor-declared error.
#[derive(Debug, PartialEq, Eq)]
pub enum Outcome {
    /// The constructor returned successfully: a new account exists at this
    /// address.
    Success(AccountId),
    /// The constructor explicitly declared failure; the raw, undecoded bytes
    /// of its error value are forwarded byte-for-byte.
    ConstructorError(Vec<u8>),
    /// The deployed code aborted unrecoverably, or the completed return bytes
    /// did not fit the declared return shape; the proxy's own invocation must
    /// abort in turn.
    Trap,
}

/// Spec-level image of an [`Outcome`].
pub enum OutcomeView {
    Success(Seq<u8>),
    ConstructorError(Seq<u8>),
    Trap,
}

impl View for Outcome {
    type V = OutcomeView;

    open spec fn view(&self) -> OutcomeView {
        match self {
            Outcome::Success(address) => OutcomeView::Success(address@),
            Outcome::ConstructorError(payload) => OutcomeView::ConstructorError(payload@),
            Outcome::Trap => OutcomeView::Trap,
        }
    }
}

/// How a platform outcome is translated, stated over the byte shapes of
/// [`crate::codec`]: a success-shaped return yields the new address, an
/// error-shaped return yields the constructor's raw error payload, and a
/// trap — or a completed return that fits neither shape — yields a trap.
pub open spec fn dispatch_spec(outcome: PlatformOutcomeView) -> OutcomeView {
    match outcome {
        PlatformOutcomeView::Trapped => OutcomeView::Trap,
        PlatformOutcomeView::Completed(b) => {
            if success_shaped(b) {
                OutcomeView::Success(success_address(b))
            } else if declared_error_shaped(b) {
                OutcomeView::ConstructorError(declared_error_payload(b))
            } else {
                OutcomeView::Trap
            }
        },
    }
}

/// Decodes the completed return bytes under the declared return shape
/// "either a contract reference or an opaque error payload". `None` means
/// the bytes fit neither arm of that shape.
pub fn decode_return(bytes: &Vec<u8>) -> (r: Option<Result<ContractRef, Encoded>>)
    ensures
        success_shaped(bytes@) ==> (r matches Some(res) && res matches Ok(c) && c.0@
            == success_address(bytes@)),
        declared_error_shaped(bytes@) ==> (r matches Some(res) && res matches Err(p) && p@
            == declared_error_payload(bytes@)),
        !success_shaped(bytes@) && !declared_error_shaped(bytes@) ==> r is None,
{
    if bytes.len() == 0 {
        return None;
    }
    let tag = bytes[0];
    if tag == 0 {
        if bytes.len() < 33 {
            return None;
        }
        let mut address: Vec<u8> = Vec::new();
        let mut i: usize = 1;
        while i < 33
            invariant
                1 <= i <= 33,
                bytes@.len() >= 33,
                address@ == bytes@.subrange(1, i as int),
            decreases 33 - i,
        {
            address.push(bytes[i]);
            assert(bytes@.subrange(1, i + 1 as int)
                == bytes@.subrange(1, i as int).push(bytes@[i as int]));
            i = i + 1;
        }
        Some(Ok(ContractRef::from_account_id(AccountId { bytes: address })))
    } else if tag == 1 {
        let mut payload: Vec<u8> = Vec::new();
        let n = bytes.len();
        let mut i: usize = 1;
        while i < n
            invariant
                1 <= i <= n,
                n == bytes@.len(),
                payload@ == bytes@.subrange(1, i as int),
            decreases n - i,
        {
            payload.push(bytes[i]);
            assert(bytes@.subrange(1, i + 1 as int)
                == bytes@.subrange(1, i as int).push(bytes@[i as int]));
            i = i + 1;
        }
        assert(payload@ == declared_error_payload(bytes@));
        Some(Err(Encoded(payload)))
    } else {
        None
    }
}

/// Maps the platform's raw outcome onto the proxy's tri-state result,
/// exactly as [`dispatch_spec`] states it.
pub fn dispatch_outcome(outcome: PlatformOutcome) -> (r: Outcome)
    ensures
        r@ == dispatch_spec(outcome@),
        r matches Outcome::Success(address) ==> address.wf(),
{
    match outcome {
        PlatformOutcome::Trapped => Outcome::Trap,
        PlatformOutcome::Completed(bytes) => match decode_return(&bytes) {
            Some(res) => match res {
                Ok(contract_ref) => Outcome::Success(contract_ref.0),
                Err(err) => Outcome::ConstructorError(err.0),
            },
            None => Outcome::Trap,
        },
    }
}

impl Outcome {
    /// The message-level result: an address on success, the raw error
    /// payload on a declared error. A trap is not representable here — it
    /// propagates by aborting the proxy's own invocation instead — so a
    /// trapped outcome is left out by precondition rather than converted
    /// into a synthesized error payload.
    pub fn message_result(self) -> (r: Result<AccountId, Vec<u8>>)
        requires
            !(self is Trap),
        ensures
            self matches Outcome::Success(address) ==> (r matches Ok(a) && a == address),
            self matches Outcome::ConstructorError(payload) ==> (r matches Err(p) && p
                == payload),
    {
        match self {
            Outcome::Success(address) => Ok(address),
            Outcome::ConstructorError(payload) => Err(payload),
            Outcome::Trap => vstd::pervasive::unreached(),
        }
    }
}

/// The deployment proxy itself: a callable account with no storage of its
/// own, whose one operation deploys a code template on behalf of its caller.
pub struct InstantiationProxy {}

impl InstantiationProxy {
    /// Bootstrap constructor used to exercise the proxy: succeeds when asked
    /// to. A `false` flag makes the constructor abort its own deployment by
    /// panicking; the library's verified functions do not panic, so that
    /// input is left out here and the panic stays with the contract shell.
    pub fn new(success: bool) -> (r: Self)
        requires
            success,
    {
        InstantiationProxy {}
    }

    /// Bootstrap constructor with a declared failure path: succeeds on
    /// `true` and reports [`Error::Failed`] on `false`.
    pub fn new_failable(success: bool) -> (r: Result<Self, Error>)
        ensures
            success ==> r is Ok,
            !success ==> (r matches Err(e) && e == Error::Failed),
    {
        if success {
            Ok(InstantiationProxy {})
        } else {
            Err(Error::Failed)
        }
    }

    /// Builds the single creation call for one deployment: the call input is
    /// the selector followed by the encoded arguments, the endowment — the
    /// value attached to the proxy's own invocation — is forwarded in full,
    /// and the caller's salt is passed through for address derivation. The
    /// proxy keeps no state across invocations.
    pub fn instantiate(
        &mut self,
        code_hash: CodeHash,
        constructor_selector: [u8; 4],
        encoded_args: Vec<u8>,
        salt: Vec<u8>,
        endowment: u128,
    ) -> (r: CreateRequest)
        ensures
            r.code_hash@ == code_hash@,
            r.input@ == call_input(constructor_selector@, encoded_args@),
            r.endowment == endowment,
            r.salt@ == salt@,
            *final(self) == *old(self),
    {
        let mut input: Vec<u8> = Vec::new();
        let mut i: usize = 0;
        while i < 4
            invariant
                i <= 4,
                input@ == constructor_selector@.subrange(0, i as int),
            decreases 4 - i,
        {
            input.push(constructor_selector[i]);
            assert(constructor_selector@.subrange(0, i + 1 as int)
                == constructor_selector@.subrange(0, i as int).push(
                constructor_selector@[i as int]));
            i = i + 1;
        }
        assert(constructor_selector@.subrange(0, 4) == constructor_selector@);
        Encoded(encoded_args).encode_to(&mut input);
        CreateRequest { code_hash, input, endowment, salt }
    }
}

/// The declared error of the failable bootstrap constructor.
#[derive(Debug, PartialEq, Eq, Structural, Clone, Copy)]
pub enum Error {
    Failed,
}

/// The codec index under which [`Error::Failed`] travels on the wire.
pub const FAILED_CODEC_INDEX: u8 = 42;

/// The encoding of a declared constructor error: a single index byte naming
/// the variant (a fieldless variant carries nothing more).
pub open spec fn error_encoding(e: Error) -> Seq<u8> {
    match e {
        Error::Failed => seq![FAILED_CODEC_INDEX],
    }
}

/// Decoding with [`Error`]'s own scheme: the first byte names the variant;
/// bytes past the variant's body are left for the surrounding framing.
pub open spec fn error_decoding(b: Seq<u8>) -> Option<Error> {
    if b.len() >= 1 && b[0] == FAILED_CODEC_INDEX {
        Some(Error::Failed)
    } else {
        None
    }
}

impl Error {
    /// Encodes this error exactly as [`error_encoding`] states.
    pub fn encode(&self) -> (r: Vec<u8>)
        ensures
            r@ == error_encoding(*self),
    {
        let mut out: Vec<u8> = Vec::new();
        match self {
            Error::Failed => out.push(FAILED_CODEC_INDEX),
        }
        out
    }

    /// Decodes an error value exactly as [`error_decoding`] states: `None`
    /// when the input names no variant of this type.
    pub fn decode(input: &Vec<u8>) -> (r: Option<Error>)
        ensures
            r == error_decoding(input@),
    {
        if input.len() >= 1 && input[0] == FAILED_CODEC_INDEX {
            Some(Error::Failed)
        } else {
            None
        }
    }
}

} // verus!
