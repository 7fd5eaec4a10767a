//! The pool account of a user.
use vstd::prelude::*;
use crate::error::ErrorCode;
use crate::layout::{
    check_discriminator, discriminator, discriminator_check, discriminator_of, push_key,
    push_padding, read_padding,
};
use crate::pubkey::{array_from_seq, key_from_seq, lemma_array_from_seq_eq, lemma_key_from_seq_eq, Pubkey};

verus! {

/// A pool account is a user account attached to a pool, it will do bookkeeping for
/// owner, and additionally other metadata e.g. how much funds did the user deposit in
/// pool etc.
#[derive(Clone, Copy, PartialEq, Eq, Debug)]
pub struct PoolAccount {
    pub bump: u8,
    pub pool: Pubkey,
    pub owner: Pubkey,
    pub padding: [u8; 31],
}

/// The size of a pool account's fields: 1 + 32 + 32 + 31 bytes.
pub const POOL_ACCOUNT_SIZE: usize = 96;

/// The space a pool account is created with: the discriminator and the fields.
pub const POOL_ACCOUNT_SPACE: u64 = 104;

/// `account:PoolAccount`, whose digest gives the discriminator.
pub open spec fn pool_account_preimage() -> Seq<u8> {
    seq![97u8, 99, 99, 111, 117, 110, 116, 58, 80, 111, 111, 108, 65, 99, 99, 111, 117, 110, 116]
}

/// The 8 bytes that open a pool account's data.
pub open spec fn pool_account_discriminator() -> Seq<u8> {
    discriminator_of(pool_account_preimage())
}

/// The pool account that the field bytes hold.
pub open spec fn pool_account_from_bytes(b: Seq<u8>) -> PoolAccount {
    PoolAccount {
        bump: b[0],
        pool: key_from_seq(b.subrange(1, 33)),
        owner: key_from_seq(b.subrange(33, 65)),
        padding: array_from_seq::<31>(b.subrange(65, 96), 31),
    }
}

/// What reading a pool account from account data gives.
pub open spec fn spec_deserialize_pool_account(data: Seq<u8>) -> Result<PoolAccount, ErrorCode> {
    match discriminator_check(data, pool_account_discriminator()) {
        Some(e) => Err(e),
        None => if data.len() < 8 + POOL_ACCOUNT_SIZE {
            Err(ErrorCode::AccountDidNotDeserialize)
        } else {
            Ok(pool_account_from_bytes(data.subrange(8, 8 + POOL_ACCOUNT_SIZE)))
        },
    }
}

impl PoolAccount {
    /// The field bytes, in declaration order.
    pub open spec fn spec_bytes(self) -> Seq<u8> {
        seq![self.bump] + self.pool@ + self.owner@ + self.padding@
    }

    /// The account data a pool account is stored as.
    pub open spec fn spec_data(self) -> Seq<u8> {
        pool_account_discriminator() + self.spec_bytes()
    }

    /// The bytes `account:PoolAccount`.
    pub fn preimage() -> (r: Vec<u8>)
        ensures
            r@ == pool_account_preimage(),
    {
        let r = vec![97u8, 99, 99, 111, 117, 110, 116, 58, 80, 111, 111, 108, 65, 99, 99, 111, 117, 110, 116];
        assert(r@ =~= pool_account_preimage());
        r
    }

    /// The pool account's discriminator.
    pub fn discriminator() -> (r: Vec<u8>)
        ensures
            r@ == pool_account_discriminator(),
    {
        discriminator(&Self::preimage())
    }

    /// Writes the pool account as account data.
    pub fn try_serialize(&self) -> (r: Vec<u8>)
        ensures
            r@ == self.spec_data(),
    {
        let mut v = Self::discriminator();
        v.push(self.bump);
        push_key(&mut v, &self.pool);
        push_key(&mut v, &self.owner);
        push_padding(&mut v, &self.padding);
        assert(v@ =~= self.spec_data());
        v
    }

    /// Reads a pool account from account data.
    pub fn try_deserialize(data: &Vec<u8>) -> (r: Result<PoolAccount, ErrorCode>)
        ensures
            r == spec_deserialize_pool_account(data@),
    {
        let disc = Self::discriminator();
        match check_discriminator(data, &disc) {
            Some(e) => {
                return Err(e);
            },
            None => {},
        }
        if data.len() < 8 + POOL_ACCOUNT_SIZE {
            return Err(ErrorCode::AccountDidNotDeserialize);
        }
        let a = PoolAccount {
            bump: data[8],
            pool: Pubkey::read_at(data, 9),
            owner: Pubkey::read_at(data, 41),
            padding: read_padding(data, 73),
        };
        proof {
            let b = data@.subrange(8, 8 + POOL_ACCOUNT_SIZE);
            assert(b.subrange(1, 33) =~= data@.subrange(9, 41));
            assert(b.subrange(33, 65) =~= data@.subrange(41, 73));
            assert(b.subrange(65, 96) =~= data@.subrange(73, 104));
            lemma_key_from_seq_eq(a.pool, b.subrange(1, 33));
            lemma_key_from_seq_eq(a.owner, b.subrange(33, 65));
            lemma_array_from_seq_eq::<31>(a.padding, b.subrange(65, 96));
        }
        Ok(a)
    }
}

impl Default for PoolAccount {
    /// The pool account whose fields are all zero.
    fn default() -> (r: PoolAccount)
        ensures
            r.bump == 0,
            r.pool@ == crate::pubkey::zero_key(),
            r.owner@ == crate::pubkey::zero_key(),
            r.padding@ == Seq::new(31, |i: int| 0u8),
    {
        PoolAccount {
            bump: 0,
            pool: Pubkey::zeroed(),
            owner: Pubkey::zeroed(),
            padding: crate::layout::zero_padding(),
        }
    }
}

/// Reading back the data a pool account is stored as gives that pool account, and the
/// data is 8 + `POOL_ACCOUNT_SIZE` bytes long.
pub proof fn lemma_pool_account_round_trip(a: PoolAccount)
    ensures
        a.spec_data().len() == 8 + POOL_ACCOUNT_SIZE,
        spec_deserialize_pool_account(a.spec_data()) == Ok::<PoolAccount, ErrorCode>(a),
{
    let d = a.spec_data();
    assert(d.take(8) =~= pool_account_discriminator());
    let b = d.subrange(8, 8 + POOL_ACCOUNT_SIZE);
    assert(b =~= a.spec_bytes());
    assert(b.subrange(1, 33) =~= a.pool@);
    assert(b.subrange(33, 65) =~= a.owner@);
    assert(b.subrange(65, 96) =~= a.padding@);
    lemma_key_from_seq_eq(a.pool, b.subrange(1, 33));
    lemma_key_from_seq_eq(a.owner, b.subrange(33, 65));
    lemma_array_from_seq_eq::<31>(a.padding, b.subrange(65, 96));
}

} // verus!
