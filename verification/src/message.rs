//! The canonical, versioned message that signers sign: a replay nonce, a
//! domain tag, and the already-serialized call parameters, encoded
//! deterministically.  The encoding is injective over its three inputs, so
//! no two distinct checks ever share message bytes.

use vstd::prelude::*;

verus! {

/// The version-0 payload: what one signature covers.
#[derive(Clone, Debug)]
pub struct MessageV0 {
    /// The replay counter consumed by this check.
    pub nonce: u64,
    /// The caller-chosen tag binding the signature to one call context.
    pub domain: u32,
    /// The call parameters, already serialized by the caller.
    pub parameters: Vec<u8>,
}

/// The versioned message envelope.  Versioning lets the payload evolve
/// without breaking the verifiability of old signatures.
#[derive(Clone, Debug)]
pub enum Message {
    V0(MessageV0),
}

/// The big-endian bytes of a 32-bit value.
pub open spec fn u32_be_bytes(n: u32) -> Seq<u8> {
    seq![
        ((n >> 24) & 0xff) as u8,
        ((n >> 16) & 0xff) as u8,
        ((n >> 8) & 0xff) as u8,
        (n & 0xff) as u8,
    ]
}

/// The big-endian bytes of a 64-bit value.
pub open spec fn u64_be_bytes(n: u64) -> Seq<u8> {
    seq![
        ((n >> 56) & 0xff) as u8,
        ((n >> 48) & 0xff) as u8,
        ((n >> 40) & 0xff) as u8,
        ((n >> 32) & 0xff) as u8,
        ((n >> 24) & 0xff) as u8,
        ((n >> 16) & 0xff) as u8,
        ((n >> 8) & 0xff) as u8,
        (n & 0xff) as u8,
    ]
}

/// The canonical bytes of a version-0 message: a 4-byte version tag of zero,
/// the nonce, the domain, then the parameter bytes.  All prefix fields have
/// fixed width, so the encoding is injective.
pub open spec fn message_v0_bytes(nonce: u64, domain: u32, parameters: Seq<u8>) -> Seq<u8> {
    u32_be_bytes(0) + u64_be_bytes(nonce) + u32_be_bytes(domain) + parameters
}

/// The canonical bytes of a message envelope.
pub open spec fn message_bytes(m: Message) -> Seq<u8> {
    match m {
        Message::V0(v) => message_v0_bytes(v.nonce, v.domain, v.parameters@),
    }
}

/// Appends the big-endian bytes of a 32-bit value.
fn push_u32_be(out: &mut Vec<u8>, n: u32)
    ensures
        final(out)@ == old(out)@ + u32_be_bytes(n),
{
    out.push(((n >> 24) & 0xff) as u8);
    out.push(((n >> 16) & 0xff) as u8);
    out.push(((n >> 8) & 0xff) as u8);
    out.push((n & 0xff) as u8);
    proof {
        assert(out@ =~= old(out)@ + u32_be_bytes(n));
    }
}

/// Appends the big-endian bytes of a 64-bit value.
fn push_u64_be(out: &mut Vec<u8>, n: u64)
    ensures
        final(out)@ == old(out)@ + u64_be_bytes(n),
{
    out.push(((n >> 56) & 0xff) as u8);
    out.push(((n >> 48) & 0xff) as u8);
    out.push(((n >> 40) & 0xff) as u8);
    out.push(((n >> 32) & 0xff) as u8);
    out.push(((n >> 24) & 0xff) as u8);
    out.push(((n >> 16) & 0xff) as u8);
    out.push(((n >> 8) & 0xff) as u8);
    out.push((n & 0xff) as u8);
    proof {
        assert(out@ =~= old(out)@ + u64_be_bytes(n));
    }
}

/// Encodes a version-0 message from its parts, without taking ownership of
/// the parameter bytes.
pub fn serialize_v0(nonce: u64, domain: u32, parameters: &Vec<u8>) -> (r: Vec<u8>)
    ensures
        r@ == message_v0_bytes(nonce, domain, parameters@),
{
    let mut out: Vec<u8> = Vec::new();
    push_u32_be(&mut out, 0);
    push_u64_be(&mut out, nonce);
    push_u32_be(&mut out, domain);
    let mut i: usize = 0;
    while i < parameters.len()
        invariant
            i <= parameters.len(),
            out@ == u32_be_bytes(0) + u64_be_bytes(nonce) + u32_be_bytes(domain)
                + parameters@.take(i as int),
        decreases parameters.len() - i,
    {
        out.push(parameters[i]);
        proof {
            assert(parameters@.take(i + 1) =~= parameters@.take(i as int).push(parameters@[i as int]));
            assert(out@ =~= u32_be_bytes(0) + u64_be_bytes(nonce) + u32_be_bytes(domain)
                + parameters@.take(i + 1));
        }
        i = i + 1;
    }
    proof {
        assert(parameters@.take(parameters@.len() as int) =~= parameters@);
    }
    out
}

impl Message {
    /// Encodes the envelope into its canonical bytes.
    pub fn serialize(&self) -> (r: Vec<u8>)
        ensures
            r@ == message_bytes(*self),
    {
        match self {
            Message::V0(v) => serialize_v0(v.nonce, v.domain, &v.parameters),
        }
    }
}

/// Big-endian encoding of a 32-bit value is injective.
proof fn lemma_u32_be_bytes_injective(a: u32, b: u32)
    ensures
        u32_be_bytes(a) == u32_be_bytes(b) ==> a == b,
{
    if u32_be_bytes(a) == u32_be_bytes(b) {
        assert(u32_be_bytes(a)[0] == u32_be_bytes(b)[0]);
        assert(u32_be_bytes(a)[1] == u32_be_bytes(b)[1]);
        assert(u32_be_bytes(a)[2] == u32_be_bytes(b)[2]);
        assert(u32_be_bytes(a)[3] == u32_be_bytes(b)[3]);
        assert((((a >> 24) & 0xff) as u8 == ((b >> 24) & 0xff) as u8
            && ((a >> 16) & 0xff) as u8 == ((b >> 16) & 0xff) as u8
            && ((a >> 8) & 0xff) as u8 == ((b >> 8) & 0xff) as u8
            && (a & 0xff) as u8 == (b & 0xff) as u8) ==> a == b) by (bit_vector);
    }
}

/// Big-endian encoding of a 64-bit value is injective.
proof fn lemma_u64_be_bytes_injective(a: u64, b: u64)
    ensures
        u64_be_bytes(a) == u64_be_bytes(b) ==> a == b,
{
    if u64_be_bytes(a) == u64_be_bytes(b) {
        assert(u64_be_bytes(a)[0] == u64_be_bytes(b)[0]);
        assert(u64_be_bytes(a)[1] == u64_be_bytes(b)[1]);
        assert(u64_be_bytes(a)[2] == u64_be_bytes(b)[2]);
        assert(u64_be_bytes(a)[3] == u64_be_bytes(b)[3]);
        assert(u64_be_bytes(a)[4] == u64_be_bytes(b)[4]);
        assert(u64_be_bytes(a)[5] == u64_be_bytes(b)[5]);
        assert(u64_be_bytes(a)[6] == u64_be_bytes(b)[6]);
        assert(u64_be_bytes(a)[7] == u64_be_bytes(b)[7]);
        assert((((a >> 56) & 0xff) as u8 == ((b >> 56) & 0xff) as u8
            && ((a >> 48) & 0xff) as u8 == ((b >> 48) & 0xff) as u8
            && ((a >> 40) & 0xff) as u8 == ((b >> 40) & 0xff) as u8
            && ((a >> 32) & 0xff) as u8 == ((b >> 32) & 0xff) as u8
            && ((a >> 24) & 0xff) as u8 == ((b >> 24) & 0xff) as u8
            && ((a >> 16) & 0xff) as u8 == ((b >> 16) & 0xff) as u8
            && ((a >> 8) & 0xff) as u8 == ((b >> 8) & 0xff) as u8
            && (a & 0xff) as u8 == (b & 0xff) as u8) ==> a == b) by (bit_vector);
    }
}

/// The canonical encoding is injective: two version-0 messages with the same
/// bytes agree on nonce, domain, and parameters.  Equivalently, changing any
/// one of the three changes the signed bytes, so distinct checks never
/// collide on the message they sign.
pub proof fn lemma_message_v0_bytes_injective(
    n1: u64,
    d1: u32,
    p1: Seq<u8>,
    n2: u64,
    d2: u32,
    p2: Seq<u8>,
)
    ensures
        message_v0_bytes(n1, d1, p1) == message_v0_bytes(n2, d2, p2) ==> (n1 == n2 && d1 == d2
            && p1 == p2),
{
    if message_v0_bytes(n1, d1, p1) == message_v0_bytes(n2, d2, p2) {
        let m1 = message_v0_bytes(n1, d1, p1);
        let m2 = message_v0_bytes(n2, d2, p2);
        assert(m1.len() == 16 + p1.len());
        assert(m2.len() == 16 + p2.len());
        assert(u64_be_bytes(n1) =~= u64_be_bytes(n2)) by {
            assert forall|j: int| 0 <= j < 8 implies u64_be_bytes(n1)[j] == u64_be_bytes(n2)[j] by {
                assert(m1[4 + j] == u64_be_bytes(n1)[j]);
                assert(m2[4 + j] == u64_be_bytes(n2)[j]);
            }
        }
        lemma_u64_be_bytes_injective(n1, n2);
        assert(u32_be_bytes(d1) =~= u32_be_bytes(d2)) by {
            assert forall|j: int| 0 <= j < 4 implies u32_be_bytes(d1)[j] == u32_be_bytes(d2)[j] by {
                assert(m1[12 + j] == u32_be_bytes(d1)[j]);
                assert(m2[12 + j] == u32_be_bytes(d2)[j]);
            }
        }
        lemma_u32_be_bytes_injective(d1, d2);
        assert(p1 =~= p2) by {
            assert forall|j: int| 0 <= j < p1.len() implies p1[j] == p2[j] by {
                assert(m1[16 + j] == p1[j]);
                assert(m2[16 + j] == p2[j]);
            }
        }
    }
}

} // verus!
