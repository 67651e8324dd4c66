//! The agent's side of the control protocol: what the native component
//! loaded into the child does with the bytes it receives on one accepted
//! connection. The decision — reject silently, answer a failure status, or
//! mutate the child's environment — is a pure function of the configured
//! secret and the received bytes, written and verified here; the native
//! shim's accept loop feeds it and carries out the outcome.

use vstd::prelude::*;

use crate::protocol::{
    has_nul, valid_component, request_encoding, nul_free, MAX_COMPONENT_LEN, PASSWORD_LEN,
    STATUS_INVALID_COMPONENT,
};
use crate::wire::{le_bytes_of_u32, u32_of_le_bytes, u32_from_le_bytes, lemma_u32_le_round_trip};

verus! {

/// What the agent does with one connection's bytes.
pub enum RequestOutcome {
    /// Close the connection without any response: the secret did not match,
    /// or the frame was malformed — truncated, or carrying a negative or
    /// implausibly large length word. All of these look identical to the
    /// peer, by design, so a caller cannot learn which check failed.
    Reject,
    /// Answer this failure status and keep the environment untouched: the
    /// frame was well formed but the key or the value holds an embedded
    /// terminator byte.
    RespondError { status: i32 },
    /// Mutate the child's environment with exactly these bytes, then answer
    /// the mutation primitive's own status.
    Mutate { key: Vec<u8>, value: Vec<u8> },
}

/// `RequestOutcome`, with the payload as mathematical sequences, for
/// contracts and laws.
pub enum RequestStep {
    Reject,
    RespondError { status: i32 },
    Mutate { key: Seq<u8>, value: Seq<u8> },
}

impl RequestOutcome {
    /// The outcome this value denotes.
    pub open spec fn step(&self) -> RequestStep {
        match self {
            RequestOutcome::Reject => RequestStep::Reject,
            RequestOutcome::RespondError { status } => RequestStep::RespondError {
                status: *status,
            },
            RequestOutcome::Mutate { key, value } => RequestStep::Mutate {
                key: key@,
                value: value@,
            },
        }
    }
}

/// The agent's decision on the bytes `data` received over one connection,
/// under session secret `secret`. The agent reads the frame from the front
/// of the stream and ignores anything past it.
pub open spec fn parse_request_spec(secret: Seq<u8>, data: Seq<u8>) -> RequestStep {
    if data.len() < PASSWORD_LEN || data.subrange(0, PASSWORD_LEN as int) != secret {
        RequestStep::Reject
    } else if data.len() < PASSWORD_LEN + 8 {
        RequestStep::Reject
    } else {
        let key_len = u32_of_le_bytes(data.subrange(32, 36)) as int;
        let value_len = u32_of_le_bytes(data.subrange(36, 40)) as int;
        if key_len > MAX_COMPONENT_LEN || value_len > MAX_COMPONENT_LEN {
            RequestStep::Reject
        } else if data.len() < 40 + key_len + value_len {
            RequestStep::Reject
        } else {
            let key = data.subrange(40, 40 + key_len);
            let value = data.subrange(40 + key_len, 40 + key_len + value_len);
            if has_nul(key) || has_nul(value) {
                RequestStep::RespondError { status: STATUS_INVALID_COMPONENT }
            } else {
                RequestStep::Mutate { key, value }
            }
        }
    }
}

/// Compares `data[0..PASSWORD_LEN]` with the secret in constant time: every
/// byte is examined whether or not an earlier one already differed, so the
/// comparison's duration leaks nothing about where a mismatch sits.
fn secret_matches(secret: &[u8], data: &[u8]) -> (r: bool)
    requires
        secret@.len() == PASSWORD_LEN,
        data@.len() >= PASSWORD_LEN,
    ensures
        r == (data@.subrange(0, PASSWORD_LEN as int) == secret@),
{
    let mut diff: u8 = 0;
    let mut i: usize = 0;
    while i < PASSWORD_LEN
        invariant
            i <= PASSWORD_LEN,
            secret@.len() == PASSWORD_LEN,
            data@.len() >= PASSWORD_LEN,
            (diff == 0) <==> (forall|j: int| 0 <= j < i ==> data@[j] == secret@[j]),
        decreases PASSWORD_LEN - i,
    {
        let a = data[i];
        let b = secret[i];
        proof {
            assert(((a ^ b) == 0) == (a == b)) by (bit_vector);
            assert(((diff | (a ^ b)) == 0) == (diff == 0 && (a ^ b) == 0)) by (bit_vector);
        }
        diff = diff | (a ^ b);
        i = i + 1;
    }
    proof {
        if diff == 0 {
            assert(data@.subrange(0, PASSWORD_LEN as int) =~= secret@);
        } else {
            let j = choose|j: int| 0 <= j < PASSWORD_LEN && data@[j] != secret@[j];
            assert(data@.subrange(0, PASSWORD_LEN as int)[j] != secret@[j]);
        }
    }
    diff == 0
}

/// Copies `data[start..start + count]` into a fresh vector.
fn read_exact(data: &[u8], start: usize, count: usize) -> (r: Vec<u8>)
    requires
        start + count <= data@.len(),
    ensures
        r@ == data@.subrange(start as int, start as int + count as int),
{
    let n = data.len();
    let mut out: Vec<u8> = Vec::new();
    let mut i: usize = 0;
    while i < count
        invariant
            i <= count,
            start + count <= n,
            n == data@.len(),
            out@ =~= data@.subrange(start as int, start as int + i as int),
        decreases count - i,
    {
        out.push(data[start + i]);
        i = i + 1;
    }
    out
}

/// Decides one connection: authenticate, read the two length words, bound
/// them, read the components, and demand that neither holds a terminator
/// byte. No branch of this decision can make the agent exit or take the
/// child down; the worst outcome for the peer is a silently closed
/// connection.
pub fn parse_request(secret: &[u8], data: &[u8]) -> (r: RequestOutcome)
    requires
        secret@.len() == PASSWORD_LEN,
    ensures
        r.step() == parse_request_spec(secret@, data@),
{
    if data.len() < PASSWORD_LEN {
        return RequestOutcome::Reject;
    }
    if !secret_matches(secret, data) {
        return RequestOutcome::Reject;
    }
    if data.len() < PASSWORD_LEN + 8 {
        return RequestOutcome::Reject;
    }
    let key_len_word = u32_from_le_bytes(&data[32..36]);
    let value_len_word = u32_from_le_bytes(&data[36..40]);
    if key_len_word > MAX_COMPONENT_LEN as u32 || value_len_word > MAX_COMPONENT_LEN as u32 {
        return RequestOutcome::Reject;
    }
    let key_len = key_len_word as usize;
    let value_len = value_len_word as usize;
    if data.len() < 40 + key_len + value_len {
        return RequestOutcome::Reject;
    }
    let key = read_exact(data, 40, key_len);
    let value = read_exact(data, 40 + key_len, value_len);
    if !nul_free(key.as_slice()) || !nul_free(value.as_slice()) {
        return RequestOutcome::RespondError { status: STATUS_INVALID_COMPONENT };
    }
    RequestOutcome::Mutate { key, value }
}

/// Law: a frame built with the right secret around valid components parses
/// on the agent side to exactly the mutation that was requested — nothing is
/// lost, reordered or interleaved between framing and parsing.
pub proof fn lemma_request_round_trip(secret: Seq<u8>, key: Seq<u8>, value: Seq<u8>)
    requires
        secret.len() == PASSWORD_LEN,
        valid_component(key),
        valid_component(value),
    ensures
        parse_request_spec(secret, request_encoding(secret, key, value)) == (RequestStep::Mutate {
            key,
            value,
        }),
{
    let data = request_encoding(secret, key, value);
    lemma_u32_le_round_trip(key.len() as u32);
    lemma_u32_le_round_trip(value.len() as u32);
    assert(data.subrange(0, PASSWORD_LEN as int) =~= secret);
    assert(data.subrange(32, 36) =~= le_bytes_of_u32(key.len() as u32));
    assert(data.subrange(36, 40) =~= le_bytes_of_u32(value.len() as u32));
    let key_len = u32_of_le_bytes(data.subrange(32, 36)) as int;
    let value_len = u32_of_le_bytes(data.subrange(36, 40)) as int;
    assert(key_len == key.len());
    assert(value_len == value.len());
    assert(data.subrange(40, 40 + key_len) =~= key);
    assert(data.subrange(40 + key_len, 40 + key_len + value_len) =~= value);
}

/// Law: the agent answers or mutates only behind an exact byte-for-byte
/// match of the first `PASSWORD_LEN` stream bytes against the session
/// secret. A caller holding the wrong secret — of the right length or any
/// other, since the stream carries no length marker — receives the very same
/// silent rejection as a malformed frame, so nothing distinguishes the two.
pub proof fn lemma_auth_gate(secret: Seq<u8>, data: Seq<u8>)
    requires
        secret.len() == PASSWORD_LEN,
    ensures
        parse_request_spec(secret, data) != RequestStep::Reject ==> data.len() >= PASSWORD_LEN
            && data.subrange(0, PASSWORD_LEN as int) == secret,
        data.len() >= PASSWORD_LEN && data.subrange(0, PASSWORD_LEN as int) != secret
            ==> parse_request_spec(secret, data) == RequestStep::Reject,
        data.len() < PASSWORD_LEN ==> parse_request_spec(secret, data) == RequestStep::Reject,
{
}

/// The child's environment table after the agent applies one successful
/// mutation: the key now maps to the value, and no other entry moves. The
/// agent serializes every call into the native mutation primitive behind one
/// process-wide lock, so concurrent requests apply in some total order, each
/// one whole.
pub open spec fn env_after_set(
    env: Map<Seq<u8>, Seq<u8>>,
    key: Seq<u8>,
    value: Seq<u8>,
) -> Map<Seq<u8>, Seq<u8>> {
    env.insert(key, value)
}

/// Law: after a successful mutation the child's own environment read of the
/// key yields exactly the value that was set.
pub proof fn lemma_set_then_read(env: Map<Seq<u8>, Seq<u8>>, key: Seq<u8>, value: Seq<u8>)
    ensures
        env_after_set(env, key, value).contains_key(key),
        env_after_set(env, key, value)[key] == value,
{
}

/// Law: two successful mutations for different keys are both visible
/// afterwards, each with its own whole value, whichever order the agent's
/// lock serialized them in — the table ends the same either way.
pub proof fn lemma_distinct_sets_both_visible(
    env: Map<Seq<u8>, Seq<u8>>,
    key1: Seq<u8>,
    value1: Seq<u8>,
    key2: Seq<u8>,
    value2: Seq<u8>,
)
    requires
        key1 != key2,
    ensures
        env_after_set(env_after_set(env, key1, value1), key2, value2)[key1] == value1,
        env_after_set(env_after_set(env, key1, value1), key2, value2)[key2] == value2,
        env_after_set(env_after_set(env, key1, value1), key2, value2) == env_after_set(
            env_after_set(env, key2, value2),
            key1,
            value1,
        ),
{
    assert(env_after_set(env_after_set(env, key1, value1), key2, value2) =~= env_after_set(
        env_after_set(env, key2, value2),
        key1,
        value1,
    ));
}

} // verus!
