use std::str::FromStr;

use anchor_lang::solana_program::program_option::COption;
use anchor_lang::solana_program::program_pack::Pack;
use anchor_lang::solana_program::pubkey::Pubkey as SolKey;
use anchor_spl::token::spl_token;
use dasheri::account::AccountInput;
use dasheri::error::ErrorCode;
use dasheri::instructions::create_mango_account::{create_mango_account, CreateMangoAccount};
use dasheri::instructions::create_pool::CreatePool;
use dasheri::instructions::create_pool_account::CreatePoolAccount;
use dasheri::instructions::deposit::Deposit;
use dasheri::instructions::deposit_into_pool::DepositIntoPool;
use dasheri::address::{SeedPrefix, Seeds};
use dasheri::plan::{Cpi, StateWrite, Step};
use dasheri::pubkey::{Pubkey, PROGRAM_ID_BYTES};

fn program() -> SolKey {
    SolKey::new_from_array(PROGRAM_ID_BYTES)
}

fn k(s: &SolKey) -> Pubkey {
    Pubkey::new_from_array(s.to_bytes())
}

fn account(key: SolKey, owner: SolKey, lamports: u64, data: Vec<u8>) -> AccountInput {
    AccountInput {
        key: k(&key),
        owner: k(&owner),
        lamports,
        data,
        is_signer: false,
        is_writable: false,
        executable: false,
        rent_exempt: true,
    }
}

fn writable(mut a: AccountInput) -> AccountInput {
    a.is_writable = true;
    a
}

fn signer(mut a: AccountInput) -> AccountInput {
    a.is_signer = true;
    a
}

fn program_account(id: SolKey) -> AccountInput {
    let mut a = account(id, SolKey::new_unique(), 1, vec![]);
    a.executable = true;
    a
}

fn rent() -> AccountInput {
    let mut d = Vec::new();
    d.extend_from_slice(&3480u64.to_le_bytes());
    d.extend_from_slice(&2.0f64.to_le_bytes());
    d.push(50);
    account(anchor_lang::solana_program::sysvar::rent::ID, anchor_lang::solana_program::sysvar::ID, 1, d)
}

fn mint_data() -> Vec<u8> {
    let m = spl_token::state::Mint {
        mint_authority: COption::None,
        supply: 0,
        decimals: 6,
        is_initialized: true,
        freeze_authority: COption::None,
    };
    let mut d = vec![0u8; spl_token::state::Mint::LEN];
    spl_token::state::Mint::pack(m, &mut d).unwrap();
    d
}

fn usdc() -> SolKey {
    SolKey::from_str("EPjFWdd5AufqSSqeM2qN1xzybapC8G4wEGGkZwyTDt1v").unwrap()
}

fn create_pool_accounts(payer: SolKey, mint: SolKey) -> (Vec<AccountInput>, SolKey, u8, SolKey) {
    let (pool, bump) = SolKey::find_program_address(&[b"pool", payer.as_ref()], &program());
    let vault = anchor_spl::associated_token::get_associated_token_address(&pool, &mint);
    let accounts = vec![
        writable(account(pool, SolKey::default(), 0, vec![])),
        writable(account(vault, SolKey::default(), 0, vec![])),
        account(mint, spl_token::ID, 1, mint_data()),
        signer(writable(account(payer, SolKey::default(), 1_000_000_000, vec![]))),
        program_account(SolKey::default()),
        program_account(spl_token::ID),
        program_account(anchor_spl::associated_token::ID),
        rent(),
    ];
    (accounts, pool, bump, vault)
}

#[test]
fn a_usdc_pool_is_created_with_only_its_vault_recorded() {
    let payer = SolKey::new_unique();
    let (accounts, pool, bump, vault) = create_pool_accounts(payer, usdc());
    let (ctx, steps) = CreatePool::try_accounts(&accounts, bump).unwrap();
    assert_eq!(ctx.vault, k(&vault));
    assert_eq!(
        steps,
        vec![
            Step {
                cpi: Cpi::CreateAccount {
                    payer: k(&payer),
                    account: k(&pool),
                    space: 136,
                    owner: k(&program()),
                    signer: Seeds { prefix: SeedPrefix::Pool, key: k(&payer), second: None, bump },
                },
                abort_on_error: true,
            },
            Step {
                cpi: Cpi::CreateAssociatedTokenAccount {
                    payer: k(&payer),
                    associated_token: k(&vault),
                    authority: k(&pool),
                    mint: k(&usdc()),
                },
                abort_on_error: true,
            },
        ]
    );
    let plan = dasheri::instructions::create_pool::handler(&ctx);
    assert_eq!(plan.steps, vec![]);
    assert_eq!(
        plan.outcome,
        Ok(vec![StateWrite::LegacyPool {
            key: k(&pool),
            legacy_pool: dasheri::state::Pool {
                bump: 0,
                deposit_mint: Pubkey::zeroed(),
                vault: k(&vault),
                admin: Pubkey::zeroed(),
                padding: [0u8; 31],
            },
        }])
    );
}

#[test]
fn a_pool_of_another_mint_than_usdc_is_refused() {
    let payer = SolKey::new_unique();
    let (accounts, _, bump, _) = create_pool_accounts(payer, SolKey::new_unique());
    let plan = CreatePool::try_accounts(&accounts, bump).unwrap_err();
    assert_eq!(plan.steps.len(), 2);
    assert_eq!(plan.outcome, Err(ErrorCode::ConstraintRaw));
}

#[test]
fn a_pool_account_of_the_first_version_names_its_pool() {
    let pool = SolKey::new_unique();
    let payer = SolKey::new_unique();
    let (pool_account, bump) = SolKey::find_program_address(&[b"pool_account", pool.as_ref()], &program());
    let legacy_pool = dasheri::state::Pool {
        bump: 0,
        deposit_mint: Pubkey::zeroed(),
        vault: Pubkey::zeroed(),
        admin: Pubkey::zeroed(),
        padding: [0u8; 31],
    };
    let accounts = vec![
        writable(account(pool_account, SolKey::default(), 0, vec![])),
        account(pool, program(), 1, legacy_pool.try_serialize()),
        signer(writable(account(payer, SolKey::default(), 1_000_000, vec![]))),
        program_account(SolKey::default()),
    ];
    let (ctx, steps) = CreatePoolAccount::try_accounts(&accounts, bump).unwrap();
    assert_eq!(
        steps,
        vec![Step {
            cpi: Cpi::CreateAccount {
                payer: k(&payer),
                account: k(&pool_account),
                space: 40,
                owner: k(&program()),
                signer: Seeds {
                    prefix: SeedPrefix::PoolAccount,
                    key: k(&pool),
                    second: None,
                    bump,
                },
            },
            abort_on_error: true,
        }]
    );
    let plan = dasheri::instructions::create_pool_account::handler(&ctx);
    assert_eq!(
        plan.outcome,
        Ok(vec![StateWrite::LegacyPoolAccount {
            key: k(&pool_account),
            legacy_pool_account: dasheri::state::PoolAccount { pool: k(&pool) },
        }])
    );
}

#[test]
fn the_first_deposit_into_a_pool_does_nothing() {
    let accounts = vec![program_account(SolKey::default())];
    let (ctx, steps) = DepositIntoPool::try_accounts(&accounts).unwrap();
    assert_eq!(steps, vec![]);
    let plan = dasheri::instructions::deposit_into_pool::handler(&ctx);
    assert_eq!(plan.steps, vec![]);
    assert_eq!(plan.outcome, Ok(vec![]));
    let wrong = vec![program_account(spl_token::ID)];
    assert_eq!(DepositIntoPool::try_accounts(&wrong).unwrap_err().outcome, Err(ErrorCode::InvalidProgramId));
}

#[test]
fn a_signer_deposits_into_their_mango_account() {
    let mango = SolKey::new_unique();
    let keys: Vec<SolKey> = (0..8).map(|_| SolKey::new_unique()).collect();
    let owner = SolKey::new_unique();
    let mut accounts: Vec<AccountInput> = vec![program_account(mango)];
    for (i, key) in keys.iter().enumerate().skip(1) {
        let a = account(*key, mango, 1, vec![]);
        accounts.push(if i >= 4 { writable(a) } else { a });
    }
    accounts.push(signer(writable(account(owner, SolKey::default(), 1, vec![]))));
    accounts.push(program_account(SolKey::default()));
    accounts.push(program_account(spl_token::ID));
    let (ctx, steps) = Deposit::try_accounts(&accounts).unwrap();
    assert_eq!(steps, vec![]);
    let plan = dasheri::instructions::deposit::handler(&ctx, 42);
    assert_eq!(
        plan.steps,
        vec![Step {
            cpi: Cpi::MangoDeposit {
                mango_program: k(&mango),
                mango_group: k(&keys[1]),
                mango_account: k(&keys[7]),
                owner: k(&owner),
                mango_cache: k(&keys[2]),
                root_bank: k(&keys[3]),
                node_bank: k(&keys[4]),
                node_bank_vault: k(&keys[5]),
                owner_token_account: k(&keys[6]),
                system_program: k(&SolKey::default()),
                token_program: k(&spl_token::ID),
                quantity: 42,
            },
            abort_on_error: true,
        }]
    );
    accounts[8].is_signer = false;
    assert_eq!(Deposit::try_accounts(&accounts).unwrap_err().outcome, Err(ErrorCode::AccountNotSigner));
}

#[test]
fn a_signer_opens_their_mango_account() {
    let mango = SolKey::new_unique();
    let group = SolKey::new_unique();
    let mango_account = SolKey::new_unique();
    let owner = SolKey::new_unique();
    let accounts = vec![
        program_account(mango),
        writable(account(group, mango, 1, vec![])),
        writable(account(mango_account, SolKey::default(), 0, vec![])),
        signer(writable(account(owner, SolKey::default(), 1, vec![]))),
        program_account(SolKey::default()),
    ];
    let (ctx, _) = CreateMangoAccount::try_accounts(&accounts).unwrap();
    let plan = create_mango_account(&ctx, 1);
    assert_eq!(
        plan.steps,
        vec![Step {
            cpi: Cpi::MangoCreateAccount {
                mango_program: k(&mango),
                mango_group: k(&group),
                mango_account: k(&mango_account),
                owner: k(&owner),
                system_program: k(&SolKey::default()),
                payer: None,
                account_num: 1,
                signer: None,
            },
            abort_on_error: true,
        }]
    );
    assert_eq!(plan.outcome, Ok(vec![]));
}
