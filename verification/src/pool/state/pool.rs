//! The pool account.
use vstd::prelude::*;
use crate::error::ErrorCode;
use crate::layout::{
    check_discriminator, discriminator, discriminator_check, discriminator_of, push_key,
    push_padding, read_padding,
};
use crate::pubkey::{array_from_seq, key_from_seq, lemma_array_from_seq_eq, lemma_key_from_seq_eq, Pubkey};

verus! {

/// A pool represents a collective entity. Initialized by an admin, users can create
/// accounts within the pool, and deposit assets of a said deposit mint. Pool would have
/// a corresponding mango account to carry out collective activities e.g.
/// 1) run liquidator using all the deposited amounts
/// 2) run a fund which does trading and distributes the profits to all users etc.
#[derive(Clone, Copy, PartialEq, Eq, Debug)]
pub struct Pool {
    pub bump: u8,
    pub deposit_iou_mint: Pubkey,
    pub vault: Pubkey,
    pub admin: Pubkey,
    pub padding: [u8; 31],
}

/// The size of a pool's fields: 1 + 32 + 32 + 32 + 31 bytes.
pub const POOL_SIZE: usize = 128;

/// The space a pool account is created with: the discriminator and the fields.
pub const POOL_SPACE: u64 = 136;

/// `account:Pool`, whose digest gives the pool's discriminator.
pub open spec fn pool_preimage() -> Seq<u8> {
    seq![97u8, 99, 99, 111, 117, 110, 116, 58, 80, 111, 111, 108]
}

/// The 8 bytes that open a pool's data.
pub open spec fn pool_discriminator() -> Seq<u8> {
    discriminator_of(pool_preimage())
}

/// The pool that the field bytes (the data after the discriminator) hold.
pub open spec fn pool_from_bytes(b: Seq<u8>) -> Pool {
    Pool {
        bump: b[0],
        deposit_iou_mint: key_from_seq(b.subrange(1, 33)),
        vault: key_from_seq(b.subrange(33, 65)),
        admin: key_from_seq(b.subrange(65, 97)),
        padding: array_from_seq::<31>(b.subrange(97, 128), 31),
    }
}

/// What reading a pool from account data gives: the discriminator must be the pool's
/// and the fields must all be present; bytes after them are ignored.
pub open spec fn spec_deserialize_pool(data: Seq<u8>) -> Result<Pool, ErrorCode> {
    match discriminator_check(data, pool_discriminator()) {
        Some(e) => Err(e),
        None => if data.len() < 8 + POOL_SIZE {
            Err(ErrorCode::AccountDidNotDeserialize)
        } else {
            Ok(pool_from_bytes(data.subrange(8, 8 + POOL_SIZE)))
        },
    }
}

impl Pool {
    /// The field bytes of the pool, in declaration order.
    pub open spec fn spec_bytes(self) -> Seq<u8> {
        seq![self.bump] + self.deposit_iou_mint@ + self.vault@ + self.admin@ + self.padding@
    }

    /// The account data a pool is stored as: discriminator, then fields.
    pub open spec fn spec_data(self) -> Seq<u8> {
        pool_discriminator() + self.spec_bytes()
    }

    /// The bytes `account:Pool`.
    pub fn preimage() -> (r: Vec<u8>)
        ensures
            r@ == pool_preimage(),
    {
        let r = vec![97u8, 99, 99, 111, 117, 110, 116, 58, 80, 111, 111, 108];
        assert(r@ =~= pool_preimage());
        r
    }

    /// The pool's discriminator.
    pub fn discriminator() -> (r: Vec<u8>)
        ensures
            r@ == pool_discriminator(),
    {
        discriminator(&Self::preimage())
    }

    /// Writes the pool as account data.
    pub fn try_serialize(&self) -> (r: Vec<u8>)
        ensures
            r@ == self.spec_data(),
    {
        let mut v = Self::discriminator();
        v.push(self.bump);
        push_key(&mut v, &self.deposit_iou_mint);
        push_key(&mut v, &self.vault);
        push_key(&mut v, &self.admin);
        push_padding(&mut v, &self.padding);
        assert(v@ =~= self.spec_data());
        v
    }

    /// Reads a pool from account data.
    pub fn try_deserialize(data: &Vec<u8>) -> (r: Result<Pool, ErrorCode>)
        ensures
            r == spec_deserialize_pool(data@),
    {
        let disc = Self::discriminator();
        match check_discriminator(data, &disc) {
            Some(e) => {
                return Err(e);
            },
            None => {},
        }
        if data.len() < 8 + POOL_SIZE {
            return Err(ErrorCode::AccountDidNotDeserialize);
        }
        let p = Pool {
            bump: data[8],
            deposit_iou_mint: Pubkey::read_at(data, 9),
            vault: Pubkey::read_at(data, 41),
            admin: Pubkey::read_at(data, 73),
            padding: read_padding(data, 105),
        };
        proof {
            let b = data@.subrange(8, 8 + POOL_SIZE);
            assert(b.subrange(1, 33) =~= data@.subrange(9, 41));
            assert(b.subrange(33, 65) =~= data@.subrange(41, 73));
            assert(b.subrange(65, 97) =~= data@.subrange(73, 105));
            assert(b.subrange(97, 128) =~= data@.subrange(105, 136));
            lemma_key_from_seq_eq(p.deposit_iou_mint, b.subrange(1, 33));
            lemma_key_from_seq_eq(p.vault, b.subrange(33, 65));
            lemma_key_from_seq_eq(p.admin, b.subrange(65, 97));
            lemma_array_from_seq_eq::<31>(p.padding, b.subrange(97, 128));
        }
        Ok(p)
    }
}

impl Default for Pool {
    /// The pool whose fields are all zero.
    fn default() -> (r: Pool)
        ensures
            r.bump == 0,
            r.deposit_iou_mint@ == crate::pubkey::zero_key(),
            r.vault@ == crate::pubkey::zero_key(),
            r.admin@ == crate::pubkey::zero_key(),
            r.padding@ == Seq::new(31, |i: int| 0u8),
    {
        Pool {
            bump: 0,
            deposit_iou_mint: Pubkey::zeroed(),
            vault: Pubkey::zeroed(),
            admin: Pubkey::zeroed(),
            padding: crate::layout::zero_padding(),
        }
    }
}

/// Reading back the data a pool is stored as gives that pool, and the data is
/// 8 + `POOL_SIZE` bytes long.
pub proof fn lemma_pool_round_trip(p: Pool)
    ensures
        p.spec_data().len() == 8 + POOL_SIZE,
        spec_deserialize_pool(p.spec_data()) == Ok::<Pool, ErrorCode>(p),
{
    let d = p.spec_data();
    assert(d.take(8) =~= pool_discriminator());
    let b = d.subrange(8, 8 + POOL_SIZE);
    assert(b =~= p.spec_bytes());
    assert(b.subrange(1, 33) =~= p.deposit_iou_mint@);
    assert(b.subrange(33, 65) =~= p.vault@);
    assert(b.subrange(65, 97) =~= p.admin@);
    assert(b.subrange(97, 128) =~= p.padding@);
    lemma_key_from_seq_eq(p.deposit_iou_mint, b.subrange(1, 33));
    lemma_key_from_seq_eq(p.vault, b.subrange(33, 65));
    lemma_key_from_seq_eq(p.admin, b.subrange(65, 97));
    lemma_array_from_seq_eq::<31>(p.padding, b.subrange(97, 128));
}

} // verus!
