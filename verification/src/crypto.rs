use vstd::prelude::*;

use crate::data::Identity;

verus! {

/// The SHA-256 digest of a byte string. The digest is a function of the
/// bytes alone; nothing here writes the algorithm out, the host's hash
/// primitive is relied on to compute it.
pub uninterp spec fn sha256_of(data: Seq<u8>) -> Seq<u8>;

/// Declares soroban_sdk's `Env`, the opaque handle to the host, so that it
/// can stand in signatures; nothing inside it is visible here.
#[verifier::external_type_specification]
#[verifier::external_body]
pub struct ExEnv(soroban_sdk::Env);

/// Relies on soroban_sdk's `Crypto::sha256`: returns the 32-byte SHA-256
/// digest of the input bytes, determined by those bytes alone.
#[verifier::external_body]
pub(crate) fn sha256_digest(env: &soroban_sdk::Env, data: &Vec<u8>) -> (r: Vec<u8>)
    ensures
        r@ == sha256_of(data@),
        r@.len() == 32,
{
    let bytes = soroban_sdk::Bytes::from_slice(env, data.as_slice());
    let digest = env.crypto().sha256(&bytes);
    digest.to_array().to_vec()
}

/// Big-endian bytes of a 32-bit value.
pub open spec fn u32_be(x: u32) -> Seq<u8> {
    seq![(x >> 24) as u8, (x >> 16) as u8, (x >> 8) as u8, x as u8]
}

/// Big-endian bytes of a 64-bit value.
pub open spec fn u64_be(x: u64) -> Seq<u8> {
    seq![
        (x >> 56) as u8,
        (x >> 48) as u8,
        (x >> 40) as u8,
        (x >> 32) as u8,
        (x >> 24) as u8,
        (x >> 16) as u8,
        (x >> 8) as u8,
        x as u8,
    ]
}

/// Big-endian bytes of a 128-bit value.
pub open spec fn u128_be(x: u128) -> Seq<u8> {
    seq![
        (x >> 120) as u8,
        (x >> 112) as u8,
        (x >> 104) as u8,
        (x >> 96) as u8,
        (x >> 88) as u8,
        (x >> 80) as u8,
        (x >> 72) as u8,
        (x >> 64) as u8,
        (x >> 56) as u8,
        (x >> 48) as u8,
        (x >> 40) as u8,
        (x >> 32) as u8,
        (x >> 24) as u8,
        (x >> 16) as u8,
        (x >> 8) as u8,
        x as u8,
    ]
}

/// The bytes a derived transaction nonce commits to: the authorizing
/// executor, the fresh sequence number, the entered passkey hash (length
/// prefixed), the intended spender, the token and the amount.
pub open spec fn nonce_preimage(
    executor: Identity,
    seq_nonce: u32,
    passkey: Seq<u8>,
    spender: Identity,
    token_id: Identity,
    amount: i128,
) -> Seq<u8> {
    u64_be(executor.id) + u32_be(seq_nonce) + u64_be(passkey.len() as u64) + passkey + u64_be(
        spender.id,
    ) + u64_be(token_id.id) + u128_be(amount as u128)
}

fn push_u32_be(out: &mut Vec<u8>, x: u32)
    ensures
        final(out)@ == old(out)@ + u32_be(x),
{
    out.push(#[verifier::truncate] ((x >> 24) as u8));
    out.push(#[verifier::truncate] ((x >> 16) as u8));
    out.push(#[verifier::truncate] ((x >> 8) as u8));
    out.push(#[verifier::truncate] (x as u8));
    assert(out@ =~= old(out)@ + u32_be(x));
}

fn push_u64_be(out: &mut Vec<u8>, x: u64)
    ensures
        final(out)@ == old(out)@ + u64_be(x),
{
    out.push(#[verifier::truncate] ((x >> 56) as u8));
    out.push(#[verifier::truncate] ((x >> 48) as u8));
    out.push(#[verifier::truncate] ((x >> 40) as u8));
    out.push(#[verifier::truncate] ((x >> 32) as u8));
    out.push(#[verifier::truncate] ((x >> 24) as u8));
    out.push(#[verifier::truncate] ((x >> 16) as u8));
    out.push(#[verifier::truncate] ((x >> 8) as u8));
    out.push(#[verifier::truncate] (x as u8));
    assert(out@ =~= old(out)@ + u64_be(x));
}

fn push_u128_be(out: &mut Vec<u8>, x: u128)
    ensures
        final(out)@ == old(out)@ + u128_be(x),
{
    out.push(#[verifier::truncate] ((x >> 120) as u8));
    out.push(#[verifier::truncate] ((x >> 112) as u8));
    out.push(#[verifier::truncate] ((x >> 104) as u8));
    out.push(#[verifier::truncate] ((x >> 96) as u8));
    out.push(#[verifier::truncate] ((x >> 88) as u8));
    out.push(#[verifier::truncate] ((x >> 80) as u8));
    out.push(#[verifier::truncate] ((x >> 72) as u8));
    out.push(#[verifier::truncate] ((x >> 64) as u8));
    out.push(#[verifier::truncate] ((x >> 56) as u8));
    out.push(#[verifier::truncate] ((x >> 48) as u8));
    out.push(#[verifier::truncate] ((x >> 40) as u8));
    out.push(#[verifier::truncate] ((x >> 32) as u8));
    out.push(#[verifier::truncate] ((x >> 24) as u8));
    out.push(#[verifier::truncate] ((x >> 16) as u8));
    out.push(#[verifier::truncate] ((x >> 8) as u8));
    out.push(#[verifier::truncate] (x as u8));
    assert(out@ =~= old(out)@ + u128_be(x));
}

/// Builds the exact byte string a transaction nonce commits to.
pub fn nonce_preimage_bytes(
    executor: Identity,
    seq_nonce: u32,
    passkey: &Vec<u8>,
    spender: Identity,
    token_id: Identity,
    amount: i128,
) -> (r: Vec<u8>)
    ensures
        r@ == nonce_preimage(executor, seq_nonce, passkey@, spender, token_id, amount),
{
    let mut out: Vec<u8> = Vec::new();
    push_u64_be(&mut out, executor.id);
    push_u32_be(&mut out, seq_nonce);
    push_u64_be(&mut out, passkey.len() as u64);
    let ghost base = out@;
    let mut i: usize = 0;
    while i < passkey.len()
        invariant
            i <= passkey.len(),
            out@ == base + passkey@.subrange(0, i as int),
        decreases passkey.len() - i,
    {
        out.push(passkey[i]);
        assert(out@ =~= base + passkey@.subrange(0, i + 1));
        i = i + 1;
    }
    assert(passkey@.subrange(0, passkey@.len() as int) =~= passkey@);
    push_u64_be(&mut out, spender.id);
    push_u64_be(&mut out, token_id.id);
    push_u128_be(&mut out, #[verifier::truncate] (amount as u128));
    assert(out@ =~= nonce_preimage(executor, seq_nonce, passkey@, spender, token_id, amount));
    out
}

proof fn lemma_u32_be_injective(x: u32, y: u32)
    requires
        u32_be(x) == u32_be(y),
    ensures
        x == y,
{
    assert(u32_be(x)[0] == u32_be(y)[0]);
    assert(u32_be(x)[1] == u32_be(y)[1]);
    assert(u32_be(x)[2] == u32_be(y)[2]);
    assert(u32_be(x)[3] == u32_be(y)[3]);
    assert(x == y) by (bit_vector)
        requires
            (x >> 24) as u8 == (y >> 24) as u8,
            (x >> 16) as u8 == (y >> 16) as u8,
            (x >> 8) as u8 == (y >> 8) as u8,
            x as u8 == y as u8,
    ;
}

proof fn lemma_u64_be_injective(x: u64, y: u64)
    requires
        u64_be(x) == u64_be(y),
    ensures
        x == y,
{
    assert(u64_be(x)[0] == u64_be(y)[0]);
    assert(u64_be(x)[1] == u64_be(y)[1]);
    assert(u64_be(x)[2] == u64_be(y)[2]);
    assert(u64_be(x)[3] == u64_be(y)[3]);
    assert(u64_be(x)[4] == u64_be(y)[4]);
    assert(u64_be(x)[5] == u64_be(y)[5]);
    assert(u64_be(x)[6] == u64_be(y)[6]);
    assert(u64_be(x)[7] == u64_be(y)[7]);
    assert(x == y) by (bit_vector)
        requires
            (x >> 56) as u8 == (y >> 56) as u8,
            (x >> 48) as u8 == (y >> 48) as u8,
            (x >> 40) as u8 == (y >> 40) as u8,
            (x >> 32) as u8 == (y >> 32) as u8,
            (x >> 24) as u8 == (y >> 24) as u8,
            (x >> 16) as u8 == (y >> 16) as u8,
            (x >> 8) as u8 == (y >> 8) as u8,
            x as u8 == y as u8,
    ;
}

proof fn lemma_u128_be_injective(x: u128, y: u128)
    requires
        u128_be(x) == u128_be(y),
    ensures
        x == y,
{
    assert forall|i: int| 0 <= i < 16 implies u128_be(x)[i] == u128_be(y)[i] by {
    }
    assert(x == y) by (bit_vector)
        requires
            (x >> 120) as u8 == (y >> 120) as u8,
            (x >> 112) as u8 == (y >> 112) as u8,
            (x >> 104) as u8 == (y >> 104) as u8,
            (x >> 96) as u8 == (y >> 96) as u8,
            (x >> 88) as u8 == (y >> 88) as u8,
            (x >> 80) as u8 == (y >> 80) as u8,
            (x >> 72) as u8 == (y >> 72) as u8,
            (x >> 64) as u8 == (y >> 64) as u8,
            (x >> 56) as u8 == (y >> 56) as u8,
            (x >> 48) as u8 == (y >> 48) as u8,
            (x >> 40) as u8 == (y >> 40) as u8,
            (x >> 32) as u8 == (y >> 32) as u8,
            (x >> 24) as u8 == (y >> 24) as u8,
            (x >> 16) as u8 == (y >> 16) as u8,
            (x >> 8) as u8 == (y >> 8) as u8,
            x as u8 == y as u8,
    ;
}

/// Law: the nonce preimage is injective over its input tuple. Two
/// derivations that differ in any field (and in particular in the sequence
/// number, which differs across calls) commit to different byte strings.
#[verifier::rlimit(100)]
pub proof fn lemma_nonce_preimage_injective(
    e1: Identity,
    n1: u32,
    p1: Seq<u8>,
    sp1: Identity,
    t1: Identity,
    a1: i128,
    e2: Identity,
    n2: u32,
    p2: Seq<u8>,
    sp2: Identity,
    t2: Identity,
    a2: i128,
)
    requires
        nonce_preimage(e1, n1, p1, sp1, t1, a1) == nonce_preimage(e2, n2, p2, sp2, t2, a2),
    ensures
        e1 == e2,
        n1 == n2,
        p1 == p2,
        sp1 == sp2,
        t1 == t2,
        a1 == a2,
{
    let b1 = nonce_preimage(e1, n1, p1, sp1, t1, a1);
    let b2 = nonce_preimage(e2, n2, p2, sp2, t2, a2);
    assert(b1.len() == 52 + p1.len());
    assert(b2.len() == 52 + p2.len());
    let len = p1.len() as int;
    assert(p2.len() == len);
    assert(b1.subrange(0, 8) =~= u64_be(e1.id));
    assert(b2.subrange(0, 8) =~= u64_be(e2.id));
    lemma_u64_be_injective(e1.id, e2.id);
    assert(b1.subrange(8, 12) =~= u32_be(n1));
    assert(b2.subrange(8, 12) =~= u32_be(n2));
    lemma_u32_be_injective(n1, n2);
    assert forall|i: int| 0 <= i < len implies p1[i] == p2[i] by {
        assert(b1[20 + i] == p1[i]);
        assert(b2[20 + i] == p2[i]);
    }
    assert(p1 =~= p2);
    assert(b1.subrange(20 + len, 28 + len) =~= u64_be(sp1.id));
    assert(b2.subrange(20 + len, 28 + len) =~= u64_be(sp2.id));
    lemma_u64_be_injective(sp1.id, sp2.id);
    assert(b1.subrange(28 + len, 36 + len) =~= u64_be(t1.id));
    assert(b2.subrange(28 + len, 36 + len) =~= u64_be(t2.id));
    lemma_u64_be_injective(t1.id, t2.id);
    assert(b1.subrange(36 + len, 52 + len) =~= u128_be(a1 as u128));
    assert(b2.subrange(36 + len, 52 + len) =~= u128_be(a2 as u128));
    lemma_u128_be_injective(a1 as u128, a2 as u128);
    assert(a1 == a2) by (bit_vector)
        requires
            a1 as u128 == a2 as u128,
    ;
}

} // verus!
