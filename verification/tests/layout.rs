use std::str::FromStr;

use anchor_lang::solana_program::hash::hash;
use anchor_lang::solana_program::pubkey::Pubkey as SolKey;
use dasheri::error::ErrorCode;
use dasheri::iou::state::Gateway;
use dasheri::pool::state::{Pool, PoolAccount};
use dasheri::pubkey::{
    associated_token_program_id, key_eq, program_id, rent_sysvar_id, system_program_id,
    token_program_id, Pubkey,
};

fn key(b: u8) -> Pubkey {
    Pubkey::new_from_array([b; 32])
}

fn padding(b: u8) -> [u8; 31] {
    [b; 31]
}

fn sample_pool() -> Pool {
    Pool { bump: 254, deposit_iou_mint: key(1), vault: key(2), admin: key(3), padding: padding(0) }
}

#[test]
fn program_and_outside_ids_are_the_known_addresses() {
    let id = SolKey::from_str("Fg6PaFpoGXkYsidMpWTK6W2BeZ7FEfcYkg476zPFsLnS").unwrap();
    assert_eq!(program_id().bytes, id.to_bytes());
    assert_eq!(token_program_id().bytes, anchor_spl::token::ID.to_bytes());
    assert_eq!(associated_token_program_id().bytes, anchor_spl::associated_token::ID.to_bytes());
    assert_eq!(
        rent_sysvar_id().bytes,
        anchor_lang::solana_program::sysvar::rent::ID.to_bytes()
    );
    assert_eq!(
        system_program_id().bytes,
        anchor_lang::solana_program::system_program::ID.to_bytes()
    );
    let usdc = SolKey::from_str("EPjFWdd5AufqSSqeM2qN1xzybapC8G4wEGGkZwyTDt1v").unwrap();
    assert_eq!(dasheri::ids::usdc_token::id().bytes, usdc.to_bytes());
}

#[test]
fn discriminators_are_the_digest_of_the_type_names() {
    assert_eq!(Pool::discriminator(), vec![241, 154, 109, 4, 17, 177, 109, 188]);
    assert_eq!(PoolAccount::discriminator(), vec![116, 210, 187, 119, 196, 196, 52, 137]);
    assert_eq!(Gateway::discriminator(), vec![210, 132, 162, 254, 10, 224, 45, 86]);
    assert_eq!(Pool::discriminator(), hash(b"account:Pool").to_bytes()[..8].to_vec());
    assert_eq!(
        PoolAccount::discriminator(),
        hash(b"account:PoolAccount").to_bytes()[..8].to_vec()
    );
    assert_eq!(Gateway::discriminator(), hash(b"account:Gateway").to_bytes()[..8].to_vec());
    assert_eq!(dasheri::state::Pool::discriminator(), Pool::discriminator());
    assert_eq!(dasheri::state::PoolAccount::discriminator(), PoolAccount::discriminator());
}

#[test]
fn pool_is_stored_as_discriminator_then_fields() {
    let p = sample_pool();
    let data = p.try_serialize();
    assert_eq!(data.len(), 8 + 128);
    assert_eq!(data[..8].to_vec(), Pool::discriminator());
    assert_eq!(data[8], 254);
    assert_eq!(data[9..41].to_vec(), vec![1u8; 32]);
    assert_eq!(data[41..73].to_vec(), vec![2u8; 32]);
    assert_eq!(data[73..105].to_vec(), vec![3u8; 32]);
    assert_eq!(data[105..136].to_vec(), vec![0u8; 31]);
}

#[test]
fn pool_reads_back_as_written() {
    let p = Pool { padding: padding(9), ..sample_pool() };
    assert_eq!(Pool::try_deserialize(&p.try_serialize()), Ok(p));
    let mut longer = p.try_serialize();
    longer.extend_from_slice(&[7, 7, 7]);
    assert_eq!(Pool::try_deserialize(&longer), Ok(p));
}

#[test]
fn pool_account_reads_back_as_written() {
    let a = PoolAccount { bump: 7, pool: key(4), owner: key(5), padding: padding(1) };
    let data = a.try_serialize();
    assert_eq!(data.len(), 8 + 96);
    assert_eq!(PoolAccount::try_deserialize(&data), Ok(a));
}

#[test]
fn gateway_reads_back_as_written() {
    let g = Gateway {
        token_mint: key(6),
        bump: 250,
        deposit_iou_mint_bump: 251,
        deposit_iou_mint: key(7),
        admin: key(8),
        padding: padding(2),
    };
    let data = g.try_serialize();
    assert_eq!(data.len(), 8 + 129);
    assert_eq!(data[8..40].to_vec(), vec![6u8; 32]);
    assert_eq!(data[40], 250);
    assert_eq!(data[41], 251);
    assert_eq!(Gateway::try_deserialize(&data), Ok(g));
}

#[test]
fn legacy_accounts_read_back_as_written() {
    let p = dasheri::state::Pool {
        bump: 1,
        deposit_mint: key(10),
        vault: key(11),
        admin: key(12),
        padding: padding(0),
    };
    assert_eq!(dasheri::state::Pool::try_deserialize(&p.try_serialize()), Ok(p));
    let a = dasheri::state::PoolAccount { pool: key(13) };
    let data = a.try_serialize();
    assert_eq!(data.len(), 8 + 32);
    assert_eq!(dasheri::state::PoolAccount::try_deserialize(&data), Ok(a));
}

#[test]
fn short_data_has_no_discriminator() {
    assert_eq!(Pool::try_deserialize(&vec![241, 154, 109]), Err(ErrorCode::AccountDiscriminatorNotFound));
    assert_eq!(Gateway::try_deserialize(&vec![]), Err(ErrorCode::AccountDiscriminatorNotFound));
}

#[test]
fn another_types_data_is_refused() {
    let a = PoolAccount { bump: 7, pool: key(4), owner: key(5), padding: padding(1) };
    assert_eq!(
        Pool::try_deserialize(&a.try_serialize()),
        Err(ErrorCode::AccountDiscriminatorMismatch)
    );
}

#[test]
fn truncated_fields_do_not_deserialize() {
    let data = sample_pool().try_serialize();
    assert_eq!(
        Pool::try_deserialize(&data[..135].to_vec()),
        Err(ErrorCode::AccountDidNotDeserialize)
    );
}

#[test]
fn default_states_are_zero() {
    let p = Pool::default();
    assert_eq!(p.bump, 0);
    assert_eq!(p.admin.bytes, [0u8; 32]);
    let g = Gateway::default();
    assert_eq!(g.deposit_iou_mint_bump, 0);
    assert_eq!(g.padding, [0u8; 31]);
    let a = PoolAccount::default();
    assert_eq!(a.owner.bytes, [0u8; 32]);
}

#[test]
fn key_comparison_is_bytewise() {
    assert!(key_eq(&key(1), &key(1)));
    let mut other = [1u8; 32];
    other[31] = 2;
    assert!(!key_eq(&key(1), &Pubkey::new_from_array(other)));
    assert_eq!(key(3).to_vec(), vec![3u8; 32]);
}
