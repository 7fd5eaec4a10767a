//! The data layout of the program's accounts: an 8-byte discriminator that names the
//! account's type, followed by its fields in declaration order (one byte for a `u8`,
//! the bytes themselves for an address or a byte array).
use vstd::prelude::*;
use crate::error::ErrorCode;
use crate::outside::{sha256, spec_sha256};
use crate::pubkey::{array_from_seq, lemma_array_from_seq_eq, Pubkey};

verus! {

/// The discriminator of an account type: the first 8 bytes of the SHA-256 digest of
/// `account:` followed by the type's name.
pub open spec fn discriminator_of(preimage: Seq<u8>) -> Seq<u8> {
    Seq::new(8, |i: int| spec_sha256(preimage)[i])
}

/// Computes the discriminator for a preimage.
pub fn discriminator(preimage: &Vec<u8>) -> (r: Vec<u8>)
    ensures
        r@ == discriminator_of(preimage@),
{
    let h = sha256(preimage.as_slice());
    let mut r: Vec<u8> = Vec::new();
    let mut i: usize = 0;
    while i < 8
        invariant
            0 <= i <= 8,
            h@ == spec_sha256(preimage@),
            h@.len() == 32,
            r@.len() == i,
            forall|j: int| 0 <= j < i ==> r@[j] == h@[j],
        decreases 8 - i,
    {
        r.push(h[i]);
        i = i + 1;
    }
    assert(r@ =~= discriminator_of(preimage@));
    r
}

/// The error reading an account of a type with discriminator `disc` fails with before
/// its fields are read: data shorter than 8 bytes, or another discriminator.
pub open spec fn discriminator_check(data: Seq<u8>, disc: Seq<u8>) -> Option<ErrorCode> {
    if data.len() < 8 {
        Some(ErrorCode::AccountDiscriminatorNotFound)
    } else if data.take(8) != disc {
        Some(ErrorCode::AccountDiscriminatorMismatch)
    } else {
        None
    }
}

/// Checks the discriminator at the start of `data`.
pub fn check_discriminator(data: &Vec<u8>, disc: &Vec<u8>) -> (r: Option<ErrorCode>)
    requires
        disc@.len() == 8,
    ensures
        r == discriminator_check(data@, disc@),
{
    if data.len() < 8 {
        return Some(ErrorCode::AccountDiscriminatorNotFound);
    }
    let mut i: usize = 0;
    while i < 8
        invariant
            0 <= i <= 8,
            data@.len() >= 8,
            disc@.len() == 8,
            forall|j: int| 0 <= j < i ==> data@[j] == disc@[j],
        decreases 8 - i,
    {
        if data[i] != disc[i] {
            assert(data@.take(8)[i as int] != disc@[i as int]);
            return Some(ErrorCode::AccountDiscriminatorMismatch);
        }
        i = i + 1;
    }
    assert(data@.take(8) =~= disc@);
    None
}

/// Appends an address's bytes.
pub fn push_key(v: &mut Vec<u8>, k: &Pubkey)
    ensures
        final(v)@ == old(v)@ + k@,
{
    let mut i: usize = 0;
    while i < 32
        invariant
            0 <= i <= 32,
            k@.len() == 32,
            v@ == old(v)@ + k@.take(i as int),
        decreases 32 - i,
    {
        v.push(k.bytes[i]);
        i = i + 1;
        assert(v@ =~= old(v)@ + k@.take(i as int));
    }
    assert(k@.take(32) =~= k@);
}

/// Appends the 31 bytes of a padding field.
pub fn push_padding(v: &mut Vec<u8>, a: &[u8; 31])
    ensures
        final(v)@ == old(v)@ + a@,
{
    let mut i: usize = 0;
    while i < 31
        invariant
            0 <= i <= 31,
            a@.len() == 31,
            v@ == old(v)@ + a@.take(i as int),
        decreases 31 - i,
    {
        v.push(a[i]);
        i = i + 1;
        assert(v@ =~= old(v)@ + a@.take(i as int));
    }
    assert(a@.take(31) =~= a@);
}

/// Reads the 31 bytes at `offset` as a padding field.
pub fn read_padding(data: &Vec<u8>, offset: usize) -> (r: [u8; 31])
    requires
        offset + 31 <= data@.len(),
    ensures
        r@ == data@.subrange(offset as int, offset + 31),
{
    let n = data.len();
    let mut bytes = [0u8; 31];
    let mut i: usize = 0;
    while i < 31
        invariant
            0 <= i <= 31,
            offset + 31 <= data@.len(),
            n == data@.len(),
            bytes@.len() == 31,
            forall|j: int| 0 <= j < i ==> bytes@[j] == data@[offset + j],
        decreases 31 - i,
    {
        bytes[i] = data[offset + i];
        i = i + 1;
    }
    assert(bytes@ =~= data@.subrange(offset as int, offset + 31));
    bytes
}

/// The padding field of a freshly created account, whose data is all zero.
pub open spec fn fresh_padding() -> [u8; 31] {
    array_from_seq::<31>(Seq::new(31, |i: int| 0u8), 31)
}

/// Thirty-one zero bytes, the padding of a freshly created account.
pub fn zero_padding() -> (r: [u8; 31])
    ensures
        r@ == Seq::new(31, |i: int| 0u8),
        r == fresh_padding(),
{
    let r = [0u8; 31];
    assert(r@ =~= Seq::new(31, |i: int| 0u8));
    proof {
        lemma_array_from_seq_eq::<31>(r, Seq::new(31, |i: int| 0u8));
    }
    r
}

} // verus!
