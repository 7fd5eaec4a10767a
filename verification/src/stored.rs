//! How the program's accounts lie in their data, byte range by byte range: an 8-byte
//! discriminator, then each field in declaration order (keys 32 bytes, bumps one byte,
//! the padding last), as Anchor's Borsh encoding of an `#[account]` struct lays it out.
//! Each account type is stated both ways: the data it is stored as, and what a read
//! takes from each range of the data it is given.
use vstd::prelude::*;
use crate::iou::state::gateway::{gateway_discriminator, spec_deserialize_gateway, Gateway};
use crate::pool::state::pool::{pool_discriminator, spec_deserialize_pool, Pool};
use crate::pool::state::pool_account::{
    pool_account_discriminator, spec_deserialize_pool_account, PoolAccount,
};
use crate::pubkey::{lemma_array_from_full_seq, lemma_key_from_seq};

verus! {

/// A gateway is stored as its discriminator (bytes 0..8), the deposited mint (8..40),
/// the gateway's bump (40), the IOU mint's bump (41), the IOU mint (42..74), the admin
/// (74..106) and the padding (106..137).
pub proof fn law_gateway_is_stored_field_by_field(g: Gateway)
    ensures
        g.spec_data().len() == 137,
        g.spec_data().subrange(0, 8) == gateway_discriminator(),
        g.spec_data().subrange(8, 40) == g.token_mint@,
        g.spec_data()[40] == g.bump,
        g.spec_data()[41] == g.deposit_iou_mint_bump,
        g.spec_data().subrange(42, 74) == g.deposit_iou_mint@,
        g.spec_data().subrange(74, 106) == g.admin@,
        g.spec_data().subrange(106, 137) == g.padding@,
{
    let d = g.spec_data();
    assert(d.subrange(0, 8) =~= gateway_discriminator());
    assert(d.subrange(8, 40) =~= g.token_mint@);
    assert(d.subrange(42, 74) =~= g.deposit_iou_mint@);
    assert(d.subrange(74, 106) =~= g.admin@);
    assert(d.subrange(106, 137) =~= g.padding@);
}

/// A gateway read from account data takes its fields from the same ranges: the data
/// opens with the gateway's discriminator and holds at least 137 bytes, the deposited
/// mint is bytes 8..40, the bumps bytes 40 and 41, the IOU mint bytes 42..74, the admin
/// bytes 74..106 and the padding bytes 106..137.
pub proof fn law_gateway_is_read_field_by_field(data: Seq<u8>)
    ensures
        spec_deserialize_gateway(data) matches Ok(g) ==> {
            &&& data.len() >= 137
            &&& data.subrange(0, 8) == gateway_discriminator()
            &&& g.token_mint@ == data.subrange(8, 40)
            &&& g.bump == data[40]
            &&& g.deposit_iou_mint_bump == data[41]
            &&& g.deposit_iou_mint@ == data.subrange(42, 74)
            &&& g.admin@ == data.subrange(74, 106)
            &&& g.padding@ == data.subrange(106, 137)
        },
{
    if spec_deserialize_gateway(data) is Ok {
        let b = data.subrange(8, 137);
        assert(data.take(8) =~= data.subrange(0, 8));
        assert(b.subrange(0, 32) =~= data.subrange(8, 40));
        assert(b.subrange(34, 66) =~= data.subrange(42, 74));
        assert(b.subrange(66, 98) =~= data.subrange(74, 106));
        assert(b.subrange(98, 129) =~= data.subrange(106, 137));
        lemma_key_from_seq(b.subrange(0, 32));
        lemma_key_from_seq(b.subrange(34, 66));
        lemma_key_from_seq(b.subrange(66, 98));
        lemma_array_from_full_seq::<31>(b.subrange(98, 129));
    }
}

/// A pool is stored as its discriminator (bytes 0..8), its bump (8), the deposit mint
/// (9..41), the vault (41..73), the admin (73..105) and the padding (105..136).
pub proof fn law_pool_is_stored_field_by_field(p: Pool)
    ensures
        p.spec_data().len() == 136,
        p.spec_data().subrange(0, 8) == pool_discriminator(),
        p.spec_data()[8] == p.bump,
        p.spec_data().subrange(9, 41) == p.deposit_iou_mint@,
        p.spec_data().subrange(41, 73) == p.vault@,
        p.spec_data().subrange(73, 105) == p.admin@,
        p.spec_data().subrange(105, 136) == p.padding@,
{
    let d = p.spec_data();
    assert(d.subrange(0, 8) =~= pool_discriminator());
    assert(d.subrange(9, 41) =~= p.deposit_iou_mint@);
    assert(d.subrange(41, 73) =~= p.vault@);
    assert(d.subrange(73, 105) =~= p.admin@);
    assert(d.subrange(105, 136) =~= p.padding@);
}

/// A pool read from account data takes its fields from the same ranges: the data opens
/// with the pool's discriminator and holds at least 136 bytes, the bump is byte 8, the
/// deposit mint bytes 9..41, the vault bytes 41..73, the admin bytes 73..105 and the
/// padding bytes 105..136.
pub proof fn law_pool_is_read_field_by_field(data: Seq<u8>)
    ensures
        spec_deserialize_pool(data) matches Ok(p) ==> {
            &&& data.len() >= 136
            &&& data.subrange(0, 8) == pool_discriminator()
            &&& p.bump == data[8]
            &&& p.deposit_iou_mint@ == data.subrange(9, 41)
            &&& p.vault@ == data.subrange(41, 73)
            &&& p.admin@ == data.subrange(73, 105)
            &&& p.padding@ == data.subrange(105, 136)
        },
{
    if spec_deserialize_pool(data) is Ok {
        let b = data.subrange(8, 136);
        assert(data.take(8) =~= data.subrange(0, 8));
        assert(b.subrange(1, 33) =~= data.subrange(9, 41));
        assert(b.subrange(33, 65) =~= data.subrange(41, 73));
        assert(b.subrange(65, 97) =~= data.subrange(73, 105));
        assert(b.subrange(97, 128) =~= data.subrange(105, 136));
        lemma_key_from_seq(b.subrange(1, 33));
        lemma_key_from_seq(b.subrange(33, 65));
        lemma_key_from_seq(b.subrange(65, 97));
        lemma_array_from_full_seq::<31>(b.subrange(97, 128));
    }
}

/// A pool account is stored as its discriminator (bytes 0..8), its bump (8), the pool
/// (9..41), the owner (41..73) and the padding (73..104).
pub proof fn law_pool_account_is_stored_field_by_field(a: PoolAccount)
    ensures
        a.spec_data().len() == 104,
        a.spec_data().subrange(0, 8) == pool_account_discriminator(),
        a.spec_data()[8] == a.bump,
        a.spec_data().subrange(9, 41) == a.pool@,
        a.spec_data().subrange(41, 73) == a.owner@,
        a.spec_data().subrange(73, 104) == a.padding@,
{
    let d = a.spec_data();
    assert(d.subrange(0, 8) =~= pool_account_discriminator());
    assert(d.subrange(9, 41) =~= a.pool@);
    assert(d.subrange(41, 73) =~= a.owner@);
    assert(d.subrange(73, 104) =~= a.padding@);
}

/// A pool account read from account data takes its fields from the same ranges: the
/// data opens with the pool account's discriminator and holds at least 104 bytes, the
/// bump is byte 8, the pool bytes 9..41, the owner bytes 41..73 and the padding bytes
/// 73..104.
pub proof fn law_pool_account_is_read_field_by_field(data: Seq<u8>)
    ensures
        spec_deserialize_pool_account(data) matches Ok(a) ==> {
            &&& data.len() >= 104
            &&& data.subrange(0, 8) == pool_account_discriminator()
            &&& a.bump == data[8]
            &&& a.pool@ == data.subrange(9, 41)
            &&& a.owner@ == data.subrange(41, 73)
            &&& a.padding@ == data.subrange(73, 104)
        },
{
    if spec_deserialize_pool_account(data) is Ok {
        let b = data.subrange(8, 104);
        assert(data.take(8) =~= data.subrange(0, 8));
        assert(b.subrange(1, 33) =~= data.subrange(9, 41));
        assert(b.subrange(33, 65) =~= data.subrange(41, 73));
        assert(b.subrange(65, 96) =~= data.subrange(73, 104));
        lemma_key_from_seq(b.subrange(1, 33));
        lemma_key_from_seq(b.subrange(33, 65));
        lemma_array_from_full_seq::<31>(b.subrange(65, 96));
    }
}

/// A pool of the first version is stored as its discriminator (bytes 0..8), its bump
/// (8), the deposit mint (9..41), the vault (41..73), the admin (73..105) and the
/// padding (105..136); read back, each field comes from the same range.
pub proof fn law_legacy_pool_is_laid_out_field_by_field(p: crate::state::Pool, data: Seq<u8>)
    ensures
        p.spec_data().len() == 136,
        p.spec_data().subrange(0, 8) == crate::state::pool::pool_discriminator(),
        p.spec_data()[8] == p.bump,
        p.spec_data().subrange(9, 41) == p.deposit_mint@,
        p.spec_data().subrange(41, 73) == p.vault@,
        p.spec_data().subrange(73, 105) == p.admin@,
        p.spec_data().subrange(105, 136) == p.padding@,
        crate::state::pool::spec_deserialize_pool(data) matches Ok(q) ==> {
            &&& data.len() >= 136
            &&& data.subrange(0, 8) == crate::state::pool::pool_discriminator()
            &&& q.bump == data[8]
            &&& q.deposit_mint@ == data.subrange(9, 41)
            &&& q.vault@ == data.subrange(41, 73)
            &&& q.admin@ == data.subrange(73, 105)
            &&& q.padding@ == data.subrange(105, 136)
        },
{
    let d = p.spec_data();
    assert(d.subrange(0, 8) =~= crate::state::pool::pool_discriminator());
    assert(d.subrange(9, 41) =~= p.deposit_mint@);
    assert(d.subrange(41, 73) =~= p.vault@);
    assert(d.subrange(73, 105) =~= p.admin@);
    assert(d.subrange(105, 136) =~= p.padding@);
    if crate::state::pool::spec_deserialize_pool(data) is Ok {
        let b = data.subrange(8, 136);
        assert(data.take(8) =~= data.subrange(0, 8));
        assert(b.subrange(1, 33) =~= data.subrange(9, 41));
        assert(b.subrange(33, 65) =~= data.subrange(41, 73));
        assert(b.subrange(65, 97) =~= data.subrange(73, 105));
        assert(b.subrange(97, 128) =~= data.subrange(105, 136));
        lemma_key_from_seq(b.subrange(1, 33));
        lemma_key_from_seq(b.subrange(33, 65));
        lemma_key_from_seq(b.subrange(65, 97));
        lemma_array_from_full_seq::<31>(b.subrange(97, 128));
    }
}

/// A pool account of the first version is stored as its discriminator (bytes 0..8)
/// and the pool (8..40); read back, the pool comes from bytes 8..40.
pub proof fn law_legacy_pool_account_is_laid_out_field_by_field(
    a: crate::state::PoolAccount,
    data: Seq<u8>,
)
    ensures
        a.spec_data().len() == 40,
        a.spec_data().subrange(0, 8) == crate::state::pool_account::pool_account_discriminator(),
        a.spec_data().subrange(8, 40) == a.pool@,
        crate::state::pool_account::spec_deserialize_pool_account(data) matches Ok(q) ==> {
            &&& data.len() >= 40
            &&& data.subrange(0, 8) == crate::state::pool_account::pool_account_discriminator()
            &&& q.pool@ == data.subrange(8, 40)
        },
{
    let d = a.spec_data();
    assert(d.subrange(0, 8) =~= crate::state::pool_account::pool_account_discriminator());
    assert(d.subrange(8, 40) =~= a.pool@);
    if crate::state::pool_account::spec_deserialize_pool_account(data) is Ok {
        assert(data.take(8) =~= data.subrange(0, 8));
        lemma_key_from_seq(data.subrange(8, 40));
    }
}

} // verus!
