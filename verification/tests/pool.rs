use anchor_lang::solana_program::program_option::COption;
use anchor_lang::solana_program::program_pack::Pack;
use anchor_lang::solana_program::pubkey::Pubkey as SolKey;
use anchor_spl::token::spl_token;
use dasheri::account::AccountInput;
use dasheri::dasheri::{
    pool_create_mango_account, pool_create_pool, pool_create_pool_account, pool_deposit_into_pool,
};
use dasheri::error::ErrorCode;
use dasheri::address::{SeedPrefix, Seeds};
use dasheri::plan::{Cpi, StateWrite, Step};
use dasheri::pool::state::{Pool, PoolAccount};
use dasheri::pubkey::{Pubkey, PROGRAM_ID_BYTES};
use dasheri::plan::TransferContext;
use dasheri::pool::instructions::deposit_into_pool::PoolDepositIntoPool;

fn program() -> SolKey {
    SolKey::new_from_array(PROGRAM_ID_BYTES)
}

fn k(s: &SolKey) -> Pubkey {
    Pubkey::new_from_array(s.to_bytes())
}

fn account(key: SolKey, owner: SolKey, lamports: u64, data: Vec<u8>) -> AccountInput {
    AccountInput {
        key: k(&key),
        owner: k(&owner),
        lamports,
        data,
        is_signer: false,
        is_writable: false,
        executable: false,
        rent_exempt: true,
    }
}

fn writable(mut a: AccountInput) -> AccountInput {
    a.is_writable = true;
    a
}

fn signer(mut a: AccountInput) -> AccountInput {
    a.is_signer = true;
    a
}

fn program_account(id: SolKey) -> AccountInput {
    let mut a = account(id, SolKey::new_unique(), 1, vec![]);
    a.executable = true;
    a
}

fn system_program() -> AccountInput {
    program_account(SolKey::default())
}

fn rent_data() -> Vec<u8> {
    let mut d = Vec::new();
    d.extend_from_slice(&3480u64.to_le_bytes());
    d.extend_from_slice(&2.0f64.to_le_bytes());
    d.push(50);
    d
}

fn rent() -> AccountInput {
    account(
        anchor_lang::solana_program::sysvar::rent::ID,
        anchor_lang::solana_program::sysvar::ID,
        1,
        rent_data(),
    )
}

fn mint_data(decimals: u8) -> Vec<u8> {
    let m = spl_token::state::Mint {
        mint_authority: COption::None,
        supply: 0,
        decimals,
        is_initialized: true,
        freeze_authority: COption::None,
    };
    let mut d = vec![0u8; spl_token::state::Mint::LEN];
    spl_token::state::Mint::pack(m, &mut d).unwrap();
    d
}

fn token_data(mint: SolKey, owner: SolKey) -> Vec<u8> {
    let a = spl_token::state::Account {
        mint,
        owner,
        amount: 1000,
        delegate: COption::None,
        state: spl_token::state::AccountState::Initialized,
        is_native: COption::None,
        delegated_amount: 0,
        close_authority: COption::None,
    };
    let mut d = vec![0u8; spl_token::state::Account::LEN];
    spl_token::state::Account::pack(a, &mut d).unwrap();
    d
}

/// A pool of a fresh admin and mint, with its vault, and a user with a pool account.
struct World {
    admin: SolKey,
    mint: SolKey,
    pool: SolKey,
    pool_bump: u8,
    vault: SolKey,
    user: SolKey,
    pool_account: SolKey,
    pool_account_bump: u8,
    deposit_token: SolKey,
}

fn world() -> World {
    let admin = SolKey::new_unique();
    let mint = SolKey::new_unique();
    let (pool, pool_bump) = SolKey::find_program_address(&[b"pool", admin.as_ref()], &program());
    let vault = anchor_spl::associated_token::get_associated_token_address(&pool, &mint);
    let user = SolKey::new_unique();
    let (pool_account, pool_account_bump) = SolKey::find_program_address(
        &[b"pool_account", pool.as_ref(), user.as_ref()],
        &program(),
    );
    World {
        admin,
        mint,
        pool,
        pool_bump,
        vault,
        user,
        pool_account,
        pool_account_bump,
        deposit_token: SolKey::new_unique(),
    }
}

fn pool_state(w: &World) -> Pool {
    Pool {
        bump: w.pool_bump,
        deposit_iou_mint: k(&w.mint),
        vault: k(&w.vault),
        admin: k(&w.admin),
        padding: [0u8; 31],
    }
}

fn pool_account_state(w: &World) -> PoolAccount {
    PoolAccount { bump: w.pool_account_bump, pool: k(&w.pool), owner: k(&w.user), padding: [0u8; 31] }
}

fn create_pool_accounts(w: &World) -> Vec<AccountInput> {
    vec![
        writable(account(w.pool, SolKey::default(), 0, vec![])),
        writable(account(w.vault, SolKey::default(), 0, vec![])),
        account(w.mint, spl_token::ID, 1, mint_data(6)),
        signer(writable(account(w.admin, SolKey::default(), 1_000_000_000, vec![]))),
        system_program(),
        program_account(spl_token::ID),
        program_account(anchor_spl::associated_token::ID),
        rent(),
    ]
}

fn create_pool_step(w: &World, bump: u8) -> Step {
    Step {
        cpi: Cpi::CreateAccount {
            payer: k(&w.admin),
            account: k(&w.pool),
            space: 136,
            owner: k(&program()),
            signer: Seeds { prefix: SeedPrefix::Pool, key: k(&w.admin), second: None, bump },
        },
        abort_on_error: true,
    }
}

fn create_vault_step(w: &World) -> Step {
    Step {
        cpi: Cpi::CreateAssociatedTokenAccount {
            payer: k(&w.admin),
            associated_token: k(&w.vault),
            authority: k(&w.pool),
            mint: k(&w.mint),
        },
        abort_on_error: true,
    }
}

fn deposit_accounts(w: &World) -> Vec<AccountInput> {
    vec![
        account(w.pool, program(), 1, pool_state(w).try_serialize()),
        account(w.pool_account, program(), 1, pool_account_state(w).try_serialize()),
        writable(account(w.vault, spl_token::ID, 1, token_data(w.mint, w.pool))),
        writable(account(w.deposit_token, spl_token::ID, 1, token_data(w.mint, w.user))),
        signer(writable(account(w.user, SolKey::default(), 1_000_000, vec![]))),
        program_account(spl_token::ID),
    ]
}

#[test]
fn creating_a_pool_creates_it_and_its_vault_and_records_it() {
    let w = world();
    let plan = pool_create_pool(&create_pool_accounts(&w), w.pool_bump);
    assert_eq!(plan.steps, vec![create_pool_step(&w, w.pool_bump), create_vault_step(&w)]);
    assert_eq!(
        plan.outcome,
        Ok(vec![StateWrite::Pool { key: k(&w.pool), pool: pool_state(&w) }])
    );
}

#[test]
fn a_pool_account_holding_lamports_is_topped_up_and_assigned() {
    let w = world();
    let mut accounts = create_pool_accounts(&w);
    accounts[0].lamports = 5;
    let plan = pool_create_pool(&accounts, w.pool_bump);
    assert_eq!(
        plan.steps[0],
        Step {
            cpi: Cpi::TopUpAllocateAssign {
                payer: k(&w.admin),
                account: k(&w.pool),
                current_lamports: 5,
                space: 136,
                owner: k(&program()),
                signer: Seeds {
                    prefix: SeedPrefix::Pool,
                    key: k(&w.admin),
                    second: None,
                    bump: w.pool_bump,
                },
            },
            abort_on_error: true,
        }
    );
    assert!(plan.outcome.is_ok());
}

#[test]
fn a_bump_other_than_the_canonical_one_is_refused_after_creation() {
    let w = world();
    let plan = pool_create_pool(&create_pool_accounts(&w), w.pool_bump.wrapping_sub(1));
    assert_eq!(plan.steps, vec![create_pool_step(&w, w.pool_bump)]);
    assert_eq!(plan.outcome, Err(ErrorCode::ConstraintSeeds));
}

#[test]
fn a_pool_not_at_its_derived_address_is_refused() {
    let w = world();
    let mut accounts = create_pool_accounts(&w);
    accounts[0].key = k(&SolKey::new_unique());
    let plan = pool_create_pool(&accounts, w.pool_bump);
    assert_eq!(plan.outcome, Err(ErrorCode::ConstraintSeeds));
    assert_eq!(plan.steps.len(), 1);
}

#[test]
fn missing_accounts_are_refused_before_any_call() {
    let w = world();
    let accounts = create_pool_accounts(&w)[..5].to_vec();
    let plan = pool_create_pool(&accounts, w.pool_bump);
    assert_eq!(plan.steps, vec![]);
    assert_eq!(plan.outcome, Err(ErrorCode::AccountNotEnoughKeys));
    let plan = pool_create_pool(&vec![], w.pool_bump);
    assert_eq!(plan.outcome, Err(ErrorCode::AccountNotEnoughKeys));
}

#[test]
fn the_admin_must_sign() {
    let w = world();
    let mut accounts = create_pool_accounts(&w);
    accounts[3].is_signer = false;
    let plan = pool_create_pool(&accounts, w.pool_bump);
    assert_eq!(plan.steps, vec![]);
    assert_eq!(plan.outcome, Err(ErrorCode::AccountNotSigner));
}

#[test]
fn the_admin_must_be_writable() {
    let w = world();
    let mut accounts = create_pool_accounts(&w);
    accounts[3].is_writable = false;
    let plan = pool_create_pool(&accounts, w.pool_bump);
    assert_eq!(plan.steps, vec![create_pool_step(&w, w.pool_bump), create_vault_step(&w)]);
    assert_eq!(plan.outcome, Err(ErrorCode::ConstraintMut));
}

#[test]
fn programs_and_sysvars_must_be_the_right_ones() {
    let w = world();
    let mut accounts = create_pool_accounts(&w);
    accounts[5] = program_account(SolKey::new_unique());
    assert_eq!(pool_create_pool(&accounts, w.pool_bump).outcome, Err(ErrorCode::InvalidProgramId));
    let mut accounts = create_pool_accounts(&w);
    accounts[6].executable = false;
    assert_eq!(
        pool_create_pool(&accounts, w.pool_bump).outcome,
        Err(ErrorCode::InvalidProgramExecutable)
    );
    let mut accounts = create_pool_accounts(&w);
    accounts[7].key = k(&SolKey::new_unique());
    assert_eq!(
        pool_create_pool(&accounts, w.pool_bump).outcome,
        Err(ErrorCode::AccountSysvarMismatch)
    );
    let mut accounts = create_pool_accounts(&w);
    accounts[2].data = vec![1, 2, 3];
    assert_eq!(pool_create_pool(&accounts, w.pool_bump).outcome, Err(ErrorCode::InvalidAccountData));
}

#[test]
fn opening_a_pool_account_creates_and_records_it() {
    let w = world();
    let accounts = vec![
        writable(account(w.pool_account, SolKey::default(), 0, vec![])),
        account(w.pool, program(), 1, pool_state(&w).try_serialize()),
        signer(writable(account(w.user, SolKey::default(), 1_000_000, vec![]))),
        system_program(),
    ];
    let plan = pool_create_pool_account(&accounts, w.pool_account_bump);
    assert_eq!(
        plan.steps,
        vec![Step {
            cpi: Cpi::CreateAccount {
                payer: k(&w.user),
                account: k(&w.pool_account),
                space: 104,
                owner: k(&program()),
                signer: Seeds {
                    prefix: SeedPrefix::PoolAccount,
                    key: k(&w.pool),
                    second: Some(k(&w.user)),
                    bump: w.pool_account_bump,
                },
            },
            abort_on_error: true,
        }]
    );
    assert_eq!(
        plan.outcome,
        Ok(vec![StateWrite::PoolAccount {
            key: k(&w.pool_account),
            pool_account: pool_account_state(&w),
        }])
    );
}

#[test]
fn a_pool_not_at_its_recorded_address_is_refused() {
    let w = world();
    let mut forged = pool_state(&w);
    forged.admin = k(&SolKey::new_unique());
    let accounts = vec![
        writable(account(w.pool_account, SolKey::default(), 0, vec![])),
        account(w.pool, program(), 1, forged.try_serialize()),
        signer(writable(account(w.user, SolKey::default(), 1_000_000, vec![]))),
        system_program(),
    ];
    let plan = pool_create_pool_account(&accounts, w.pool_account_bump);
    assert_eq!(plan.steps.len(), 1);
    assert_eq!(plan.outcome, Err(ErrorCode::ConstraintSeeds));
}

#[test]
fn a_pool_that_is_not_initialized_is_refused() {
    let w = world();
    let accounts = vec![
        writable(account(w.pool_account, SolKey::default(), 0, vec![])),
        account(w.pool, SolKey::default(), 0, vec![]),
        signer(writable(account(w.user, SolKey::default(), 1_000_000, vec![]))),
        system_program(),
    ];
    let plan = pool_create_pool_account(&accounts, w.pool_account_bump);
    assert_eq!(plan.steps, vec![]);
    assert_eq!(plan.outcome, Err(ErrorCode::AccountNotInitialized));
}

#[test]
fn a_deposit_transfers_the_amount_into_the_vault() {
    let w = world();
    let plan = pool_deposit_into_pool(&deposit_accounts(&w), 250);
    assert_eq!(
        plan.steps,
        vec![Step {
            cpi: Cpi::Transfer {
                from: k(&w.deposit_token),
                to: k(&w.vault),
                authority: k(&w.user),
                amount: 250,
            },
            abort_on_error: true,
        }]
    );
    assert_eq!(plan.outcome, Ok(vec![]));
}

#[test]
fn a_deposit_through_another_users_pool_account_is_refused() {
    let w = world();
    let mut accounts = deposit_accounts(&w);
    let mut other = pool_account_state(&w);
    other.owner = k(&SolKey::new_unique());
    accounts[1].data = other.try_serialize();
    let plan = pool_deposit_into_pool(&accounts, 250);
    assert_eq!(plan.steps, vec![]);
    assert_eq!(plan.outcome, Err(ErrorCode::ConstraintRaw));
}

#[test]
fn a_deposit_from_another_users_token_account_is_refused() {
    let w = world();
    let mut accounts = deposit_accounts(&w);
    accounts[3].data = token_data(w.mint, SolKey::new_unique());
    assert_eq!(pool_deposit_into_pool(&accounts, 250).outcome, Err(ErrorCode::ConstraintRaw));
}

#[test]
fn a_deposit_into_another_vault_is_refused() {
    let w = world();
    let mut accounts = deposit_accounts(&w);
    accounts[2].data = token_data(w.mint, SolKey::new_unique());
    assert_eq!(pool_deposit_into_pool(&accounts, 250).outcome, Err(ErrorCode::ConstraintTokenOwner));
    let mut accounts = deposit_accounts(&w);
    accounts[2].key = k(&SolKey::new_unique());
    assert_eq!(pool_deposit_into_pool(&accounts, 250).outcome, Err(ErrorCode::ConstraintAssociated));
    let mut accounts = deposit_accounts(&w);
    accounts[2].is_writable = false;
    assert_eq!(pool_deposit_into_pool(&accounts, 250).outcome, Err(ErrorCode::ConstraintMut));
}

#[test]
fn a_deposit_needs_a_pool_and_a_pool_account() {
    let w = world();
    let mut accounts = deposit_accounts(&w);
    accounts[0].data = vec![0u8; 136];
    assert_eq!(
        pool_deposit_into_pool(&accounts, 250).outcome,
        Err(ErrorCode::AccountDiscriminatorMismatch)
    );
    let mut accounts = deposit_accounts(&w);
    accounts[1].owner = k(&spl_token::ID);
    assert_eq!(
        pool_deposit_into_pool(&accounts, 250).outcome,
        Err(ErrorCode::AccountOwnedByWrongProgram)
    );
    let mut accounts = deposit_accounts(&w);
    accounts[1].key = k(&SolKey::new_unique());
    assert_eq!(pool_deposit_into_pool(&accounts, 250).outcome, Err(ErrorCode::ConstraintSeeds));
}

fn mango_accounts(w: &World, mango: SolKey) -> Vec<AccountInput> {
    vec![
        program_account(mango),
        writable(account(SolKey::new_unique(), mango, 1, vec![])),
        writable(account(SolKey::new_unique(), SolKey::default(), 0, vec![])),
        writable(account(w.pool, program(), 1, pool_state(w).try_serialize())),
        signer(writable(account(w.admin, SolKey::default(), 1_000_000, vec![]))),
        system_program(),
    ]
}

#[test]
fn the_pools_mango_account_is_opened_for_the_pool_which_signs() {
    let w = world();
    let mango = SolKey::new_unique();
    let accounts = mango_accounts(&w, mango);
    let plan = pool_create_mango_account(&accounts, 3, 0);
    assert_eq!(
        plan.steps,
        vec![Step {
            cpi: Cpi::MangoCreateAccount {
                mango_program: k(&mango),
                mango_group: accounts[1].key,
                mango_account: accounts[2].key,
                owner: k(&w.pool),
                system_program: k(&SolKey::default()),
                payer: Some(k(&w.admin)),
                account_num: 3,
                signer: Some(Seeds {
                    prefix: SeedPrefix::Pool,
                    key: k(&w.admin),
                    second: None,
                    bump: w.pool_bump,
                }),
            },
            abort_on_error: true,
        }]
    );
    assert_eq!(plan.outcome, Ok(vec![]));
}

#[test]
fn a_mango_program_that_is_not_executable_is_refused() {
    let w = world();
    let mut accounts = mango_accounts(&w, SolKey::new_unique());
    accounts[0].executable = false;
    let plan = pool_create_mango_account(&accounts, 3, 0);
    assert_eq!(plan.steps, vec![]);
    assert_eq!(plan.outcome, Err(ErrorCode::NotAProgram));
}

#[test]
fn the_mango_group_must_be_writable() {
    let w = world();
    let mut accounts = mango_accounts(&w, SolKey::new_unique());
    accounts[1].is_writable = false;
    assert_eq!(pool_create_mango_account(&accounts, 3, 0).outcome, Err(ErrorCode::ConstraintMut));
}

#[test]
fn what_the_creations_write_lets_a_deposit_through() {
    let w = world();
    let created = pool_create_pool(&create_pool_accounts(&w), w.pool_bump);
    let pool = match created.outcome {
        Ok(writes) => match writes[0] {
            StateWrite::Pool { pool, .. } => pool,
            _ => panic!("pool creation wrote no pool"),
        },
        Err(e) => panic!("pool creation failed: {:?}", e),
    };
    let accounts = vec![
        writable(account(w.pool_account, SolKey::default(), 0, vec![])),
        account(w.pool, program(), 1, pool.try_serialize()),
        signer(writable(account(w.user, SolKey::default(), 1_000_000, vec![]))),
        system_program(),
    ];
    let opened = pool_create_pool_account(&accounts, w.pool_account_bump);
    let pool_account = match opened.outcome {
        Ok(writes) => match writes[0] {
            StateWrite::PoolAccount { pool_account, .. } => pool_account,
            _ => panic!("opening wrote no pool account"),
        },
        Err(e) => panic!("opening failed: {:?}", e),
    };
    let mut accounts = deposit_accounts(&w);
    accounts[0].data = pool.try_serialize();
    accounts[1].data = pool_account.try_serialize();
    let plan = pool_deposit_into_pool(&accounts, 1);
    assert_eq!(plan.steps.len(), 1);
    assert_eq!(plan.outcome, Ok(vec![]));
}

#[test]
fn each_user_has_a_pool_account_of_their_own() {
    let w = world();
    let other = SolKey::new_unique();
    let (other_account, other_bump) = SolKey::find_program_address(
        &[b"pool_account", w.pool.as_ref(), other.as_ref()],
        &program(),
    );
    assert_ne!(other_account, w.pool_account);
    let accounts = vec![
        writable(account(other_account, SolKey::default(), 0, vec![])),
        account(w.pool, program(), 1, pool_state(&w).try_serialize()),
        signer(writable(account(other, SolKey::default(), 1_000_000, vec![]))),
        system_program(),
    ];
    assert!(pool_create_pool_account(&accounts, other_bump).outcome.is_ok());
    let mut accounts = deposit_accounts(&w);
    accounts[4].key = k(&other);
    assert_eq!(pool_deposit_into_pool(&accounts, 1).outcome, Err(ErrorCode::ConstraintSeeds));
}

#[test]
fn the_transfer_context_names_no_amount() {
    let w = world();
    let (ctx, _) = PoolDepositIntoPool::try_accounts(&deposit_accounts(&w)).unwrap();
    assert_eq!(
        ctx.transfer_ctx(),
        TransferContext {
            token_program: k(&spl_token::ID),
            from: k(&w.deposit_token),
            to: k(&w.vault),
            authority: k(&w.user),
        }
    );
}

#[test]
fn two_users_each_open_a_pool_account_of_their_own() {
    let w = world();
    let mut owners = Vec::new();
    let mut keys = Vec::new();
    for _ in 0..2 {
        let user = SolKey::new_unique();
        let (pa, bump) = SolKey::find_program_address(
            &[b"pool_account", w.pool.as_ref(), user.as_ref()],
            &program(),
        );
        let accounts = vec![
            writable(account(pa, SolKey::default(), 0, vec![])),
            account(w.pool, program(), 1, pool_state(&w).try_serialize()),
            signer(writable(account(user, SolKey::default(), 1_000_000, vec![]))),
            system_program(),
        ];
        let plan = pool_create_pool_account(&accounts, bump);
        assert_eq!(
            plan.outcome,
            Ok(vec![StateWrite::PoolAccount {
                key: k(&pa),
                pool_account: PoolAccount { bump, pool: k(&w.pool), owner: k(&user), padding: [0u8; 31] },
            }])
        );
        owners.push(k(&user));
        keys.push(k(&pa));
    }
    assert_ne!(owners[0], owners[1]);
    assert_ne!(keys[0], keys[1]);
}
