//! The first version of the pool account.
use vstd::prelude::*;
use crate::error::ErrorCode;
use crate::layout::{check_discriminator, discriminator, discriminator_check, discriminator_of, push_key};
use crate::pool::state::pool_account::pool_account_preimage;
use crate::pubkey::{key_from_seq, lemma_key_from_seq_eq, Pubkey};

verus! {

/// A pool account of the first version: only the pool it belongs to. Its type name,
/// and so its discriminator, is that of the current pool account.
#[derive(Clone, Copy, PartialEq, Eq, Debug)]
pub struct PoolAccount {
    pub pool: Pubkey,
}

/// The size of the fields: 32 bytes.
pub const POOL_ACCOUNT_SIZE: usize = 32;

/// The space a pool account is created with: the discriminator and the field.
pub const POOL_ACCOUNT_SPACE: u64 = 40;

/// The 8 bytes that open the data (those of `account:PoolAccount`).
pub open spec fn pool_account_discriminator() -> Seq<u8> {
    discriminator_of(pool_account_preimage())
}

/// What reading such a pool account from account data gives.
pub open spec fn spec_deserialize_pool_account(data: Seq<u8>) -> Result<PoolAccount, ErrorCode> {
    match discriminator_check(data, pool_account_discriminator()) {
        Some(e) => Err(e),
        None => if data.len() < 8 + POOL_ACCOUNT_SIZE {
            Err(ErrorCode::AccountDidNotDeserialize)
        } else {
            Ok(PoolAccount { pool: key_from_seq(data.subrange(8, 40)) })
        },
    }
}

impl PoolAccount {
    /// The field bytes.
    pub open spec fn spec_bytes(self) -> Seq<u8> {
        self.pool@
    }

    /// The account data it is stored as.
    pub open spec fn spec_data(self) -> Seq<u8> {
        pool_account_discriminator() + self.spec_bytes()
    }

    /// Its discriminator.
    pub fn discriminator() -> (r: Vec<u8>)
        ensures
            r@ == pool_account_discriminator(),
    {
        discriminator(&crate::pool::state::PoolAccount::preimage())
    }

    /// Writes it as account data.
    pub fn try_serialize(&self) -> (r: Vec<u8>)
        ensures
            r@ == self.spec_data(),
    {
        let mut v = Self::discriminator();
        push_key(&mut v, &self.pool);
        v
    }

    /// Reads it from account data.
    pub fn try_deserialize(data: &Vec<u8>) -> (r: Result<PoolAccount, ErrorCode>)
        ensures
            r == spec_deserialize_pool_account(data@),
    {
        let disc = Self::discriminator();
        match check_discriminator(data, &disc) {
            Some(e) => {
                return Err(e);
            },
            None => {},
        }
        if data.len() < 8 + POOL_ACCOUNT_SIZE {
            return Err(ErrorCode::AccountDidNotDeserialize);
        }
        let a = PoolAccount { pool: Pubkey::read_at(data, 8) };
        proof {
            lemma_key_from_seq_eq(a.pool, data@.subrange(8, 40));
        }
        Ok(a)
    }
}

impl Default for PoolAccount {
    /// The pool account naming the zero address.
    fn default() -> (r: PoolAccount)
        ensures
            r.pool@ == crate::pubkey::zero_key(),
    {
        PoolAccount { pool: Pubkey::zeroed() }
    }
}

/// Reading back the data it is stored as gives the same pool account, and the data is
/// 8 + `POOL_ACCOUNT_SIZE` bytes long.
pub proof fn lemma_pool_account_round_trip(a: PoolAccount)
    ensures
        a.spec_data().len() == 8 + POOL_ACCOUNT_SIZE,
        spec_deserialize_pool_account(a.spec_data()) == Ok::<PoolAccount, ErrorCode>(a),
{
    let d = a.spec_data();
    assert(d.take(8) =~= pool_account_discriminator());
    assert(d.subrange(8, 40) =~= a.pool@);
    lemma_key_from_seq_eq(a.pool, d.subrange(8, 40));
}

} // verus!
