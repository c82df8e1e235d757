use cipher::{BlockEncryptMut, KeyInit};
use vstd::prelude::*;

use crate::base64::base64_encode;

verus! {

/// AES-128 applied to one 16-byte block under a 16-byte key.
pub uninterp spec fn aes128_encrypt_block(key: Seq<u8>, block: Seq<u8>) -> Seq<u8>;

/// PKCS#7 padding to a multiple of 16 bytes: always between 1 and 16 bytes,
/// each holding the number of bytes added.
pub open spec fn pkcs7_pad(data: Seq<u8>) -> Seq<u8> {
    let p = 16 - data.len() % 16;
    data + Seq::new(p as nat, |i: int| p as u8)
}

/// PKCS#7 padding adds between 1 and 16 bytes to reach a multiple of 16,
/// keeps the data as its prefix, and can be undone by dropping as many bytes
/// as the last byte says.
pub proof fn lemma_pkcs7_pad_reversible(data: Seq<u8>)
    ensures
        pkcs7_pad(data).len() % 16 == 0,
        data.len() < pkcs7_pad(data).len() <= data.len() + 16,
        pkcs7_pad(data).take(data.len() as int) == data,
        pkcs7_pad(data).take(pkcs7_pad(data).len() - pkcs7_pad(data).last()) == data,
{
    let padded = pkcs7_pad(data);
    let p = 16 - data.len() % 16;
    assert(padded.len() == data.len() + p);
    assert(padded.last() == p as u8);
    assert(padded.take(data.len() as int) =~= data);
}

/// The 16 bytes of an encrypted block.
pub open spec fn aes128_block16(key: Seq<u8>, block: Seq<u8>) -> Seq<u8> {
    Seq::new(16, |i: int| aes128_encrypt_block(key, block)[i])
}

/// ECB mode: every whole 16-byte block encrypted on its own, in order.
pub open spec fn ecb_encrypt(key: Seq<u8>, data: Seq<u8>) -> Seq<u8>
    decreases data.len(),
{
    if data.len() < 16 {
        seq![]
    } else {
        aes128_block16(key, data.take(16)) + ecb_encrypt(key, data.skip(16))
    }
}

/// ECB output covers exactly the whole blocks of the input.
pub proof fn lemma_ecb_encrypt_len(key: Seq<u8>, data: Seq<u8>)
    ensures
        ecb_encrypt(key, data).len() == 16 * (data.len() / 16),
    decreases data.len(),
{
    if data.len() >= 16 {
        lemma_ecb_encrypt_len(key, data.skip(16));
    }
}

/// ECB has no chaining: inputs that agree on their first `k` blocks give
/// outputs that agree on their first `k` blocks.
pub proof fn lemma_ecb_encrypt_prefix(key: Seq<u8>, a: Seq<u8>, b: Seq<u8>, k: nat)
    requires
        a.len() >= 16 * k,
        b.len() >= 16 * k,
        a.take(16 * (k as int)) == b.take(16 * (k as int)),
    ensures
        ecb_encrypt(key, a).take(16 * (k as int)) == ecb_encrypt(key, b).take(16 * (k as int)),
    decreases k,
{
    if k == 0 {
        assert(ecb_encrypt(key, a).take(0) =~= ecb_encrypt(key, b).take(0));
    } else {
        assert(a.take(16) =~= a.take(16 * (k as int)).take(16));
        assert(b.take(16) =~= b.take(16 * (k as int)).take(16));
        let k1 = (k - 1) as nat;
        assert(a.skip(16).take(16 * (k1 as int)) =~= a.take(16 * (k as int)).skip(16));
        assert(b.skip(16).take(16 * (k1 as int)) =~= b.take(16 * (k as int)).skip(16));
        lemma_ecb_encrypt_prefix(key, a.skip(16), b.skip(16), k1);
        lemma_ecb_encrypt_len(key, a.skip(16));
        lemma_ecb_encrypt_len(key, b.skip(16));
        let blk = aes128_block16(key, a.take(16));
        let ra = ecb_encrypt(key, a.skip(16));
        let rb = ecb_encrypt(key, b.skip(16));
        assert(ecb_encrypt(key, a) == blk + ra);
        assert(ecb_encrypt(key, b) == blk + rb);
        assert(blk.len() == 16);
        assert((blk + ra).take(16 * (k as int)) =~= blk + ra.take(16 * (k1 as int)));
        assert((blk + rb).take(16 * (k as int)) =~= blk + rb.take(16 * (k1 as int)));
    }
}

/// Padding keeps every whole block that the data already had.
pub proof fn lemma_pkcs7_pad_prefix(data: Seq<u8>, k: nat)
    requires
        data.len() >= 16 * k,
    ensures
        pkcs7_pad(data).len() >= 16 * k,
        pkcs7_pad(data).take(16 * (k as int)) == data.take(16 * (k as int)),
{
    assert(pkcs7_pad(data).take(16 * (k as int)) =~= data.take(16 * (k as int)));
}

/// The fixed key with which the pay-middle page information is sealed
/// (the ASCII bytes of `zhiPuAi123456789`).
pub open spec fn pay_info_key() -> Seq<u8> {
    seq![122u8, 104, 105, 80, 117, 65, 105, 49, 50, 51, 52, 53, 54, 55, 56, 57]
}

/// The sealed form of a plaintext: PKCS#7 padding, AES-128-ECB under the
/// fixed key, then standard base64 (as ASCII bytes).
pub open spec fn sealed_bytes(plaintext: Seq<u8>) -> Seq<u8> {
    base64_encode(ecb_encrypt(pay_info_key(), pkcs7_pad(plaintext)))
}

/// Encrypts one block with `ecb::Encryptor::<aes::Aes128>` (built with
/// `KeyInit::new` and run with `BlockEncryptMut::encrypt_block_mut`).
/// Trusted: the result is the AES-128 encryption of the block under the key,
/// 16 bytes long; both slices must hold 16 bytes, else the crate panics.
#[verifier::external_body]
fn ecb_encrypt_block(key: &[u8], block: &[u8]) -> (out: Vec<u8>)
    requires
        key@.len() == 16,
        block@.len() == 16,
    ensures
        out@ == aes128_encrypt_block(key@, block@),
        out@.len() == 16,
{
    let enc = ecb::Encryptor::<aes::Aes128>::new(cipher::generic_array::GenericArray::from_slice(key));
    let mut b = cipher::generic_array::GenericArray::clone_from_slice(block);
    enc.clone().encrypt_block_mut(&mut b);
    b.to_vec()
}

/// The key bytes, `zhiPuAi123456789`.
pub(crate) fn pay_info_key_bytes() -> (k: Vec<u8>)
    ensures
        k@ == pay_info_key(),
{
    let k: Vec<u8> = vec![122u8, 104, 105, 80, 117, 65, 105, 49, 50, 51, 52, 53, 54, 55, 56, 57];
    assert(k@ =~= pay_info_key());
    k
}

/// Appends the PKCS#7 padding to `data`.
pub fn pkcs7_pad_in_place(data: &mut Vec<u8>)
    requires
        old(data)@.len() + 16 <= usize::MAX,
    ensures
        final(data)@ == pkcs7_pad(old(data)@),
{
    let pad_len: usize = 16 - data.len() % 16;
    let ghost start = data@;
    let mut k: usize = 0;
    while k < pad_len
        invariant
            1 <= pad_len <= 16,
            pad_len == 16 - start.len() % 16,
            k <= pad_len,
            data@ == start + Seq::new(k as nat, |i: int| pad_len as u8),
        decreases pad_len - k,
    {
        data.push(pad_len as u8);
        k = k + 1;
        assert(data@ =~= start + Seq::new(k as nat, |i: int| pad_len as u8));
    }
    assert(data@ =~= pkcs7_pad(start));
}

/// Encrypts every whole block of `data` in ECB mode.
pub fn ecb_encrypt_blocks(key: &[u8], data: &[u8]) -> (out: Vec<u8>)
    requires
        key@.len() == 16,
        data@.len() % 16 == 0,
    ensures
        out@ == ecb_encrypt(key@, data@),
        out@.len() == data@.len(),
{
    let mut out: Vec<u8> = Vec::new();
    let mut i: usize = 0;
    assert(data@.skip(0) =~= data@);
    while i < data.len()
        invariant
            key@.len() == 16,
            data@.len() % 16 == 0,
            i <= data@.len(),
            i % 16 == 0,
            out@.len() == i,
            ecb_encrypt(key@, data@) == out@ + ecb_encrypt(key@, data@.skip(i as int)),
        decreases data@.len() - i,
    {
        assert(i + 16 <= data@.len()) by (nonlinear_arith)
            requires
                i < data@.len(),
                i % 16 == 0,
                data@.len() % 16 == 0,
        ;
        let mut block: Vec<u8> = Vec::new();
        let mut j: usize = 0;
        while j < 16
            invariant
                i + 16 <= data@.len(),
                data@.len() == data.len(),
                j <= 16,
                block@ == data@.subrange(i as int, i + j),
            decreases 16 - j,
        {
            block.push(data[i + j]);
            j = j + 1;
            assert(block@ =~= data@.subrange(i as int, i + j));
        }
        let enc = ecb_encrypt_block(key, block.as_slice());
        let ghost rest = data@.skip(i as int);
        assert(rest.take(16) =~= block@);
        assert(aes128_block16(key@, block@) =~= enc@);
        assert(rest.skip(16) =~= data@.skip(i + 16));
        let ghost before = out@;
        out.extend_from_slice(enc.as_slice());
        assert(out@ =~= before + enc@);
        i = i + 16;
        assert(ecb_encrypt(key@, data@) =~= out@ + ecb_encrypt(key@, data@.skip(i as int)));
    }
    assert(data@.skip(i as int) =~= Seq::<u8>::empty());
    out
}

} // verus!
