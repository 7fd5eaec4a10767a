use anchor_lang::solana_program::program_option::COption;
use anchor_lang::solana_program::program_pack::Pack;
use anchor_lang::solana_program::pubkey::Pubkey as SolKey;
use anchor_spl::token::spl_token;
use dasheri::account::{
    check_owner, check_program, check_rent, check_signer, read_mint, read_token_account,
    AccountInput,
};
use dasheri::address::{check_associated_token, check_seeds, find_associated_address, find_derived_address};
use dasheri::error::ErrorCode;
use dasheri::address::{SeedPrefix, Seeds};
use dasheri::pubkey::{Pubkey, PROGRAM_ID_BYTES};

fn program() -> SolKey {
    SolKey::new_from_array(PROGRAM_ID_BYTES)
}

fn k(s: &SolKey) -> Pubkey {
    Pubkey::new_from_array(s.to_bytes())
}

fn account(key: SolKey, owner: SolKey, lamports: u64, data: Vec<u8>) -> AccountInput {
    AccountInput {
        key: k(&key),
        owner: k(&owner),
        lamports,
        data,
        is_signer: false,
        is_writable: false,
        executable: false,
        rent_exempt: true,
    }
}

fn mint_data(decimals: u8) -> Vec<u8> {
    let m = spl_token::state::Mint {
        mint_authority: COption::None,
        supply: 0,
        decimals,
        is_initialized: true,
        freeze_authority: COption::None,
    };
    let mut d = vec![0u8; spl_token::state::Mint::LEN];
    spl_token::state::Mint::pack(m, &mut d).unwrap();
    d
}

fn token_data(mint: SolKey, owner: SolKey) -> Vec<u8> {
    let a = spl_token::state::Account {
        mint,
        owner,
        amount: 5,
        delegate: COption::None,
        state: spl_token::state::AccountState::Initialized,
        is_native: COption::None,
        delegated_amount: 0,
        close_authority: COption::None,
    };
    let mut d = vec![0u8; spl_token::state::Account::LEN];
    spl_token::state::Account::pack(a, &mut d).unwrap();
    d
}

fn rent_data() -> Vec<u8> {
    let mut d = Vec::new();
    d.extend_from_slice(&3480u64.to_le_bytes());
    d.extend_from_slice(&2.0f64.to_le_bytes());
    d.push(50);
    d
}

#[test]
fn derived_addresses_are_the_runtimes() {
    let admin = SolKey::new_unique();
    let (pda, bump) = SolKey::find_program_address(&[b"pool", admin.as_ref()], &program());
    assert_eq!(find_derived_address(SeedPrefix::Pool, &k(&admin), None), Some((k(&pda), bump)));
    let user = SolKey::new_unique();
    let (pda, bump) = SolKey::find_program_address(
        &[b"pool_account", admin.as_ref(), user.as_ref()],
        &program(),
    );
    assert_eq!(
        find_derived_address(SeedPrefix::PoolAccount, &k(&admin), Some(k(&user))),
        Some((k(&pda), bump))
    );
    let (pda, bump) = SolKey::find_program_address(&[b"pool_account", admin.as_ref()], &program());
    assert_eq!(find_derived_address(SeedPrefix::PoolAccount, &k(&admin), None), Some((k(&pda), bump)));
    let (pda, bump) = SolKey::find_program_address(&[b"gateway", admin.as_ref()], &program());
    assert_eq!(find_derived_address(SeedPrefix::Gateway, &k(&admin), None), Some((k(&pda), bump)));
    let (pda, bump) = SolKey::find_program_address(&[admin.as_ref()], &program());
    assert_eq!(find_derived_address(SeedPrefix::NoPrefix, &k(&admin), None), Some((k(&pda), bump)));
}

#[test]
fn seeds_with_the_bump_derive_the_address() {
    let admin = SolKey::new_unique();
    let (pda, bump) = SolKey::find_program_address(&[b"pool", admin.as_ref()], &program());
    let seeds = Seeds { prefix: SeedPrefix::Pool, key: k(&admin), second: None, bump };
    assert_eq!(check_seeds(&seeds, &k(&pda)), None);
    assert_eq!(check_seeds(&seeds, &k(&admin)), Some(ErrorCode::ConstraintSeeds));
    let other = Seeds { prefix: SeedPrefix::Gateway, key: k(&admin), second: None, bump };
    assert_eq!(check_seeds(&other, &k(&pda)), Some(ErrorCode::ConstraintSeeds));
    let bytes = seeds.to_vec();
    assert_eq!(bytes, vec![b"pool".to_vec(), admin.to_bytes().to_vec(), vec![bump]]);
}

#[test]
fn associated_addresses_are_the_token_programs() {
    let wallet = SolKey::new_unique();
    let mint = SolKey::new_unique();
    let ata = anchor_spl::associated_token::get_associated_token_address(&wallet, &mint);
    assert_eq!(find_associated_address(&k(&wallet), &k(&mint)), Some(k(&ata)));
    assert_eq!(check_associated_token(&k(&wallet), &k(&wallet), &k(&mint), &k(&ata)), None);
    assert_eq!(
        check_associated_token(&k(&mint), &k(&wallet), &k(&mint), &k(&ata)),
        Some(ErrorCode::ConstraintTokenOwner)
    );
    assert_eq!(
        check_associated_token(&k(&wallet), &k(&wallet), &k(&mint), &k(&mint)),
        Some(ErrorCode::ConstraintAssociated)
    );
}

#[test]
fn token_accounts_and_mints_are_read() {
    let mint = SolKey::new_unique();
    let owner = SolKey::new_unique();
    let t = account(SolKey::new_unique(), spl_token::ID, 1, token_data(mint, owner));
    assert_eq!(read_token_account(&t), Ok((k(&mint), k(&owner))));
    let m = account(mint, spl_token::ID, 1, mint_data(6));
    assert_eq!(read_mint(&m), Ok(6));
    let short = account(mint, spl_token::ID, 1, vec![0u8; 10]);
    assert_eq!(read_mint(&short), Err(ErrorCode::InvalidAccountData));
    assert_eq!(read_token_account(&short), Err(ErrorCode::InvalidAccountData));
    let blank = account(mint, spl_token::ID, 1, vec![0u8; 82]);
    assert_eq!(read_mint(&blank), Err(ErrorCode::UninitializedAccount));
    let blank = account(mint, spl_token::ID, 1, vec![0u8; 165]);
    assert_eq!(read_token_account(&blank), Err(ErrorCode::UninitializedAccount));
    let elsewhere = account(mint, program(), 1, mint_data(6));
    assert_eq!(read_mint(&elsewhere), Err(ErrorCode::AccountOwnedByWrongProgram));
    let empty = account(mint, SolKey::default(), 0, vec![]);
    assert_eq!(read_mint(&empty), Err(ErrorCode::AccountNotInitialized));
}

#[test]
fn owner_checks_tell_empty_from_foreign_accounts() {
    let a = account(SolKey::new_unique(), SolKey::default(), 0, vec![]);
    assert_eq!(check_owner(&a, &k(&program())), Some(ErrorCode::AccountNotInitialized));
    let funded = account(SolKey::new_unique(), SolKey::default(), 10, vec![]);
    assert_eq!(check_owner(&funded, &k(&program())), Some(ErrorCode::AccountOwnedByWrongProgram));
    let ours = account(SolKey::new_unique(), program(), 10, vec![]);
    assert_eq!(check_owner(&ours, &k(&program())), None);
}

#[test]
fn programs_signers_and_the_rent_sysvar_are_checked() {
    let mut token = account(spl_token::ID, SolKey::new_unique(), 1, vec![]);
    assert_eq!(check_program(&token, &k(&spl_token::ID)), Some(ErrorCode::InvalidProgramExecutable));
    token.executable = true;
    assert_eq!(check_program(&token, &k(&spl_token::ID)), None);
    assert_eq!(check_program(&token, &k(&program())), Some(ErrorCode::InvalidProgramId));
    let mut user = account(SolKey::new_unique(), SolKey::default(), 1, vec![]);
    assert_eq!(check_signer(&user), Some(ErrorCode::AccountNotSigner));
    user.is_signer = true;
    assert_eq!(check_signer(&user), None);
    let rent_id = anchor_lang::solana_program::sysvar::rent::ID;
    let sysvar_owner = anchor_lang::solana_program::sysvar::ID;
    assert_eq!(check_rent(&account(rent_id, sysvar_owner, 1, rent_data())), None);
    assert_eq!(
        check_rent(&account(SolKey::new_unique(), sysvar_owner, 1, rent_data())),
        Some(ErrorCode::AccountSysvarMismatch)
    );
    assert_eq!(
        check_rent(&account(rent_id, sysvar_owner, 1, vec![1, 2])),
        Some(ErrorCode::AccountSysvarMismatch)
    );
}

#[test]
fn malformed_token_accounts_and_mints_are_invalid_and_uninitialized_ones_are_told_apart() {
    let mint = SolKey::new_unique();
    let owner = SolKey::new_unique();
    let mut bad_tag = token_data(mint, owner);
    bad_tag[72] = 2;
    let t = account(SolKey::new_unique(), spl_token::ID, 1, bad_tag);
    assert_eq!(read_token_account(&t), Err(ErrorCode::InvalidAccountData));
    let mut bad_state = token_data(mint, owner);
    bad_state[108] = 3;
    let t = account(SolKey::new_unique(), spl_token::ID, 1, bad_state);
    assert_eq!(read_token_account(&t), Err(ErrorCode::InvalidAccountData));
    let mut frozen = token_data(mint, owner);
    frozen[108] = 2;
    let t = account(SolKey::new_unique(), spl_token::ID, 1, frozen);
    assert_eq!(read_token_account(&t), Ok((k(&mint), k(&owner))));
    let mut bad_flag = mint_data(6);
    bad_flag[45] = 2;
    assert_eq!(read_mint(&account(mint, spl_token::ID, 1, bad_flag)), Err(ErrorCode::InvalidAccountData));
    let mut bad_authority = mint_data(6);
    bad_authority[49] = 1;
    assert_eq!(read_mint(&account(mint, spl_token::ID, 1, bad_authority)), Err(ErrorCode::InvalidAccountData));
}

#[test]
fn the_rent_sysvar_reads_from_its_first_seventeen_bytes() {
    let rent_id = anchor_lang::solana_program::sysvar::rent::ID;
    let sysvar_owner = anchor_lang::solana_program::sysvar::ID;
    let mut longer = rent_data();
    longer.extend_from_slice(&[9, 9, 9]);
    assert_eq!(check_rent(&account(rent_id, sysvar_owner, 1, longer)), None);
    let mut shorter = rent_data();
    shorter.pop();
    assert_eq!(check_rent(&account(rent_id, sysvar_owner, 1, shorter)), Some(ErrorCode::AccountSysvarMismatch));
}
