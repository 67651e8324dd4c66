//! The shared wire format of the control channel: one authenticated request
//! per connection, in fixed order — the raw session secret, two 32-bit length
//! words, the key bytes, the value bytes — answered by one 32-bit status word.
//! Both endpoint roles in this crate (the client framing in `injector` and
//! the server parsing in `agent`) speak exactly this layout.

use vstd::prelude::*;

use crate::wire::{le_bytes_of_u32, u32_to_le_bytes};

verus! {

/// Length in bytes of the session secret. The secret crosses the wire raw,
/// with no framing byte before it: its length is fixed and known to both
/// sides, so a peer that sends a secret of any other length merely fails the
/// byte-for-byte comparison of the first `PASSWORD_LEN` stream bytes.
pub const PASSWORD_LEN: usize = 32;

/// Upper bound the agent enforces on the key and the value, so a malicious
/// or buggy peer cannot drive an unbounded allocation with a huge length
/// word. A length word at or beyond `0x8000_0000` is a negative 32-bit
/// count; every such word exceeds this bound and is rejected with the rest.
pub const MAX_COMPONENT_LEN: usize = 1048576;

/// Status word the agent returns without mutating anything when a
/// well-formed frame carries a key or value with an embedded NUL byte: the
/// operating-system code for an invalid argument.
pub const STATUS_INVALID_COMPONENT: i32 = 22;

/// Status word meaning the mutation succeeded inside the child.
pub const STATUS_OK: i32 = 0;

/// True when `b` holds an embedded terminator byte. Keys and values become
/// NUL-terminated C strings inside the child, so such bytes are invalid in
/// either component.
pub open spec fn has_nul(b: Seq<u8>) -> bool {
    exists|i: int| 0 <= i < b.len() && b[i] == 0u8
}

/// A key or value the protocol can carry: free of terminator bytes and
/// within the agent's allocation bound.
pub open spec fn valid_component(b: Seq<u8>) -> bool {
    &&& !has_nul(b)
    &&& b.len() <= MAX_COMPONENT_LEN
}

/// The exact byte sequence a client sends for one mutation request.
pub open spec fn request_encoding(secret: Seq<u8>, key: Seq<u8>, value: Seq<u8>) -> Seq<u8> {
    secret + le_bytes_of_u32(key.len() as u32) + le_bytes_of_u32(value.len() as u32) + key + value
}

/// True when `b` holds no embedded terminator byte.
pub fn nul_free(b: &[u8]) -> (r: bool)
    ensures
        r == !has_nul(b@),
{
    let mut i: usize = 0;
    while i < b.len()
        invariant
            i <= b@.len(),
            forall|j: int| 0 <= j < i ==> b@[j] != 0u8,
        decreases b@.len() - i,
    {
        if b[i] == 0 {
            return false;
        }
        i = i + 1;
    }
    true
}

/// True when `b` may travel as a key or value: NUL-free and within bound.
pub fn component_ok(b: &[u8]) -> (r: bool)
    ensures
        r == valid_component(b@),
{
    b.len() <= MAX_COMPONENT_LEN && nul_free(b)
}

/// Appends every byte of `src` to `out`.
fn copy_into(out: &mut Vec<u8>, src: &[u8])
    ensures
        final(out)@ == old(out)@ + src@,
{
    let mut i: usize = 0;
    while i < src.len()
        invariant
            i <= src@.len(),
            out@ == old(out)@ + src@.subrange(0, i as int),
        decreases src@.len() - i,
    {
        let b = src[i];
        out.push(b);
        proof {
            assert(old(out)@ + src@.subrange(0, i as int) + seq![b] =~= old(out)@ + src@.subrange(
                0,
                i as int + 1,
            ));
        }
        i = i + 1;
    }
    proof {
        assert(src@.subrange(0, src@.len() as int) =~= src@);
    }
}

/// Builds the full request frame for one mutation.
pub fn encode_request(secret: &[u8], key: &[u8], value: &[u8]) -> (r: Vec<u8>)
    requires
        secret@.len() == PASSWORD_LEN,
        key@.len() <= MAX_COMPONENT_LEN,
        value@.len() <= MAX_COMPONENT_LEN,
    ensures
        r@ == request_encoding(secret@, key@, value@),
{
    let mut out: Vec<u8> = Vec::new();
    copy_into(&mut out, secret);
    let mut key_len = u32_to_le_bytes(key.len() as u32);
    out.append(&mut key_len);
    let mut value_len = u32_to_le_bytes(value.len() as u32);
    out.append(&mut value_len);
    copy_into(&mut out, key);
    copy_into(&mut out, value);
    proof {
        assert(out@ =~= request_encoding(secret@, key@, value@));
    }
    out
}

} // verus!
