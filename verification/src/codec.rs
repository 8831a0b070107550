//! Byte-level encoding rules the proxy relies on.
//!
//! The proxy never interprets constructor arguments or constructor errors: it
//! forwards them as opaque byte payloads. This module holds the payload type
//! and the spec-level description of the two byte layouts the proxy does
//! understand: the call input (`selector ++ arguments`) and the declared
//! return shape of a creation call ("either an address or an opaque error
//! payload", laid out as a tag byte followed by the corresponding body).

use vstd::prelude::*;

verus! {

/// An opaque byte payload, forwarded verbatim.
///
/// It carries the ABI-encoded constructor arguments on the way in and the
/// constructor's own encoded error value on the way out. Writing it appends
/// its bytes unchanged; reading it takes every remaining input byte.
#[derive(Debug, PartialEq, Eq)]
pub struct Encoded(pub Vec<u8>);

impl View for Encoded {
    type V = Seq<u8>;

    open spec fn view(&self) -> Seq<u8> {
        self.0@
    }
}

impl Encoded {
    /// Writes the payload bytes verbatim onto `dest`, with no framing of its
    /// own: the platform's framing determines where the payload ends.
    pub fn encode_to(&self, dest: &mut Vec<u8>)
        ensures
            final(dest)@ == old(dest)@ + self@,
    {
        let n = self.0.len();
        let mut i: usize = 0;
        while i < n
            invariant
                i <= n,
                n == self.0.len(),
                dest@ == old(dest)@ + self.0@.subrange(0, i as int),
            decreases n - i,
        {
            dest.push(self.0[i]);
            assert(self.0@.subrange(0, i + 1 as int)
                == self.0@.subrange(0, i as int).push(self.0@[i as int]));
            i = i + 1;
        }
        assert(self.0@.subrange(0, n as int) == self.0@);
    }

    /// Wraps every remaining input byte as an opaque payload.
    pub fn decode(input: &Vec<u8>) -> (r: Encoded)
        ensures
            r@ == input@,
    {
        let n = input.len();
        let mut buffer: Vec<u8> = Vec::new();
        let mut i: usize = 0;
        while i < n
            invariant
                i <= n,
                n == input.len(),
                buffer@ == input@.subrange(0, i as int),
            decreases n - i,
        {
            buffer.push(input[i]);
            assert(input@.subrange(0, i + 1 as int)
                == input@.subrange(0, i as int).push(input@[i as int]));
            i = i + 1;
        }
        assert(input@.subrange(0, n as int) == input@);
        Encoded(buffer)
    }
}

/// The full call input handed to the platform: the four selector bytes first,
/// then the encoded arguments, with no length prefix.
pub open spec fn call_input(selector: Seq<u8>, args: Seq<u8>) -> Seq<u8> {
    selector + args
}

/// A completed creation call reports success as a tag byte of zero followed
/// by the 32-byte address of the new account.
pub open spec fn success_shaped(b: Seq<u8>) -> bool {
    b.len() >= 33 && b[0] == 0
}

/// The address carried by a success-shaped return.
pub open spec fn success_address(b: Seq<u8>) -> Seq<u8> {
    b.subrange(1, 33)
}

/// A completed creation call reports a constructor-declared error as a tag
/// byte of one followed by the error's own encoding; every remaining byte
/// belongs to that opaque payload.
pub open spec fn declared_error_shaped(b: Seq<u8>) -> bool {
    b.len() >= 1 && b[0] == 1
}

/// The raw, undecoded error payload carried by an error-shaped return.
pub open spec fn declared_error_payload(b: Seq<u8>) -> Seq<u8> {
    b.subrange(1, b.len() as int)
}

/// The return bytes a successful constructor produces for a new account at
/// `address`.
pub open spec fn ok_return_bytes(address: Seq<u8>) -> Seq<u8> {
    seq![0u8] + address
}

/// The return bytes a constructor produces when it declares failure with the
/// encoded error `payload`.
pub open spec fn err_return_bytes(payload: Seq<u8>) -> Seq<u8> {
    seq![1u8] + payload
}

} // verus!
