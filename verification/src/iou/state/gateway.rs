//! The gateway account.
use vstd::prelude::*;
use crate::error::ErrorCode;
use crate::layout::{
    check_discriminator, discriminator, discriminator_check, discriminator_of, push_key,
    push_padding, read_padding,
};
use crate::pubkey::{array_from_seq, key_from_seq, lemma_array_from_seq_eq, lemma_key_from_seq_eq, Pubkey};

verus! {

/// A gateway acts a middleware for depositing and borrowing. Depositing in mango
/// doesn't return iou tokens. One can use a deposit mint to mint and return iou tokens
/// back to depositor.
#[derive(Clone, Copy, PartialEq, Eq, Debug)]
pub struct Gateway {
    pub token_mint: Pubkey,
    pub bump: u8,
    pub deposit_iou_mint_bump: u8,
    pub deposit_iou_mint: Pubkey,
    pub admin: Pubkey,
    pub padding: [u8; 31],
}

/// The size of a gateway's fields: 1 + 1 + 32 + 32 + 32 + 31 bytes.
pub const GATEWAY_SIZE: usize = 129;

/// The space a gateway is created with: the discriminator and the fields.
pub const GATEWAY_SPACE: u64 = 137;

/// `account:Gateway`, whose digest gives the discriminator.
pub open spec fn gateway_preimage() -> Seq<u8> {
    seq![97u8, 99, 99, 111, 117, 110, 116, 58, 71, 97, 116, 101, 119, 97, 121]
}

/// The 8 bytes that open a gateway's data.
pub open spec fn gateway_discriminator() -> Seq<u8> {
    discriminator_of(gateway_preimage())
}

/// The gateway that the field bytes hold.
pub open spec fn gateway_from_bytes(b: Seq<u8>) -> Gateway {
    Gateway {
        token_mint: key_from_seq(b.subrange(0, 32)),
        bump: b[32],
        deposit_iou_mint_bump: b[33],
        deposit_iou_mint: key_from_seq(b.subrange(34, 66)),
        admin: key_from_seq(b.subrange(66, 98)),
        padding: array_from_seq::<31>(b.subrange(98, 129), 31),
    }
}

/// What reading a gateway from account data gives.
pub open spec fn spec_deserialize_gateway(data: Seq<u8>) -> Result<Gateway, ErrorCode> {
    match discriminator_check(data, gateway_discriminator()) {
        Some(e) => Err(e),
        None => if data.len() < 8 + GATEWAY_SIZE {
            Err(ErrorCode::AccountDidNotDeserialize)
        } else {
            Ok(gateway_from_bytes(data.subrange(8, 8 + GATEWAY_SIZE)))
        },
    }
}

impl Gateway {
    /// The field bytes, in declaration order.
    pub open spec fn spec_bytes(self) -> Seq<u8> {
        self.token_mint@ + seq![self.bump, self.deposit_iou_mint_bump] + self.deposit_iou_mint@
            + self.admin@ + self.padding@
    }

    /// The account data a gateway is stored as.
    pub open spec fn spec_data(self) -> Seq<u8> {
        gateway_discriminator() + self.spec_bytes()
    }

    /// The bytes `account:Gateway`.
    pub fn preimage() -> (r: Vec<u8>)
        ensures
            r@ == gateway_preimage(),
    {
        let r = vec![97u8, 99, 99, 111, 117, 110, 116, 58, 71, 97, 116, 101, 119, 97, 121];
        assert(r@ =~= gateway_preimage());
        r
    }

    /// The gateway's discriminator.
    pub fn discriminator() -> (r: Vec<u8>)
        ensures
            r@ == gateway_discriminator(),
    {
        discriminator(&Self::preimage())
    }

    /// Writes the gateway as account data.
    pub fn try_serialize(&self) -> (r: Vec<u8>)
        ensures
            r@ == self.spec_data(),
    {
        let mut v = Self::discriminator();
        push_key(&mut v, &self.token_mint);
        v.push(self.bump);
        v.push(self.deposit_iou_mint_bump);
        push_key(&mut v, &self.deposit_iou_mint);
        push_key(&mut v, &self.admin);
        push_padding(&mut v, &self.padding);
        assert(v@ =~= self.spec_data());
        v
    }

    /// Reads a gateway from account data.
    pub fn try_deserialize(data: &Vec<u8>) -> (r: Result<Gateway, ErrorCode>)
        ensures
            r == spec_deserialize_gateway(data@),
    {
        let disc = Self::discriminator();
        match check_discriminator(data, &disc) {
            Some(e) => {
                return Err(e);
            },
            None => {},
        }
        if data.len() < 8 + GATEWAY_SIZE {
            return Err(ErrorCode::AccountDidNotDeserialize);
        }
        let g = Gateway {
            token_mint: Pubkey::read_at(data, 8),
            bump: data[40],
            deposit_iou_mint_bump: data[41],
            deposit_iou_mint: Pubkey::read_at(data, 42),
            admin: Pubkey::read_at(data, 74),
            padding: read_padding(data, 106),
        };
        proof {
            let b = data@.subrange(8, 8 + GATEWAY_SIZE);
            assert(b.subrange(0, 32) =~= data@.subrange(8, 40));
            assert(b.subrange(34, 66) =~= data@.subrange(42, 74));
            assert(b.subrange(66, 98) =~= data@.subrange(74, 106));
            assert(b.subrange(98, 129) =~= data@.subrange(106, 137));
            lemma_key_from_seq_eq(g.token_mint, b.subrange(0, 32));
            lemma_key_from_seq_eq(g.deposit_iou_mint, b.subrange(34, 66));
            lemma_key_from_seq_eq(g.admin, b.subrange(66, 98));
            lemma_array_from_seq_eq::<31>(g.padding, b.subrange(98, 129));
        }
        Ok(g)
    }
}

impl Default for Gateway {
    /// The gateway whose fields are all zero.
    fn default() -> (r: Gateway)
        ensures
            r.token_mint@ == crate::pubkey::zero_key(),
            r.bump == 0,
            r.deposit_iou_mint_bump == 0,
            r.deposit_iou_mint@ == crate::pubkey::zero_key(),
            r.admin@ == crate::pubkey::zero_key(),
            r.padding@ == Seq::new(31, |i: int| 0u8),
    {
        Gateway {
            token_mint: Pubkey::zeroed(),
            bump: 0,
            deposit_iou_mint_bump: 0,
            deposit_iou_mint: Pubkey::zeroed(),
            admin: Pubkey::zeroed(),
            padding: crate::layout::zero_padding(),
        }
    }
}

/// Reading back the data a gateway is stored as gives that gateway, and the data is
/// 8 + `GATEWAY_SIZE` bytes long.
pub proof fn lemma_gateway_round_trip(g: Gateway)
    ensures
        g.spec_data().len() == 8 + GATEWAY_SIZE,
        spec_deserialize_gateway(g.spec_data()) == Ok::<Gateway, ErrorCode>(g),
{
    let d = g.spec_data();
    assert(d.take(8) =~= gateway_discriminator());
    let b = d.subrange(8, 8 + GATEWAY_SIZE);
    assert(b =~= g.spec_bytes());
    assert(b.subrange(0, 32) =~= g.token_mint@);
    assert(b.subrange(34, 66) =~= g.deposit_iou_mint@);
    assert(b.subrange(66, 98) =~= g.admin@);
    assert(b.subrange(98, 129) =~= g.padding@);
    lemma_key_from_seq_eq(g.token_mint, b.subrange(0, 32));
    lemma_key_from_seq_eq(g.deposit_iou_mint, b.subrange(34, 66));
    lemma_key_from_seq_eq(g.admin, b.subrange(66, 98));
    lemma_array_from_seq_eq::<31>(g.padding, b.subrange(98, 129));
}

} // verus!
