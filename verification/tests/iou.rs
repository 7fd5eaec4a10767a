use anchor_lang::solana_program::program_option::COption;
use anchor_lang::solana_program::program_pack::Pack;
use anchor_lang::solana_program::pubkey::Pubkey as SolKey;
use anchor_spl::token::spl_token;
use dasheri::account::AccountInput;
use dasheri::dasheri::{iou_deposit_into_mango_account, iou_init_gateway};
use dasheri::error::ErrorCode;
use dasheri::iou::state::Gateway;
use dasheri::address::{SeedPrefix, Seeds};
use dasheri::plan::{Cpi, StateWrite, Step};
use dasheri::pubkey::{Pubkey, PROGRAM_ID_BYTES};
use dasheri::iou::instructions::deposit_into_mango_account::IouDepositIntoMangoAccount;
use dasheri::plan::{InitializeMintContext, MintToContext};
use dasheri::iou::instructions::init_gateway::IouInitGateway;

fn program() -> SolKey {
    SolKey::new_from_array(PROGRAM_ID_BYTES)
}

fn k(s: &SolKey) -> Pubkey {
    Pubkey::new_from_array(s.to_bytes())
}

fn account(key: SolKey, owner: SolKey, lamports: u64, data: Vec<u8>) -> AccountInput {
    AccountInput {
        key: k(&key),
        owner: k(&owner),
        lamports,
        data,
        is_signer: false,
        is_writable: false,
        executable: false,
        rent_exempt: true,
    }
}

fn writable(mut a: AccountInput) -> AccountInput {
    a.is_writable = true;
    a
}

fn signer(mut a: AccountInput) -> AccountInput {
    a.is_signer = true;
    a
}

fn program_account(id: SolKey) -> AccountInput {
    let mut a = account(id, SolKey::new_unique(), 1, vec![]);
    a.executable = true;
    a
}

fn rent() -> AccountInput {
    let mut d = Vec::new();
    d.extend_from_slice(&3480u64.to_le_bytes());
    d.extend_from_slice(&2.0f64.to_le_bytes());
    d.push(50);
    account(anchor_lang::solana_program::sysvar::rent::ID, anchor_lang::solana_program::sysvar::ID, 1, d)
}

fn mint_data(decimals: u8) -> Vec<u8> {
    let m = spl_token::state::Mint {
        mint_authority: COption::None,
        supply: 0,
        decimals,
        is_initialized: true,
        freeze_authority: COption::None,
    };
    let mut d = vec![0u8; spl_token::state::Mint::LEN];
    spl_token::state::Mint::pack(m, &mut d).unwrap();
    d
}

fn token_data(mint: SolKey, owner: SolKey) -> Vec<u8> {
    let a = spl_token::state::Account {
        mint,
        owner,
        amount: 0,
        delegate: COption::None,
        state: spl_token::state::AccountState::Initialized,
        is_native: COption::None,
        delegated_amount: 0,
        close_authority: COption::None,
    };
    let mut d = vec![0u8; spl_token::state::Account::LEN];
    spl_token::state::Account::pack(a, &mut d).unwrap();
    d
}

/// A gateway of a fresh admin for a fresh mint, and a payer depositing through it.
struct World {
    admin: SolKey,
    token_mint: SolKey,
    gateway: SolKey,
    gateway_bump: u8,
    iou_mint: SolKey,
    iou_mint_bump: u8,
    payer: SolKey,
    iou_account: SolKey,
    mango: SolKey,
    others: Vec<SolKey>,
}

fn world() -> World {
    let admin = SolKey::new_unique();
    let token_mint = SolKey::new_unique();
    let (gateway, gateway_bump) =
        SolKey::find_program_address(&[b"gateway", admin.as_ref()], &program());
    let (iou_mint, iou_mint_bump) = SolKey::find_program_address(&[token_mint.as_ref()], &program());
    let payer = SolKey::new_unique();
    let iou_account = anchor_spl::associated_token::get_associated_token_address(&payer, &iou_mint);
    World {
        admin,
        token_mint,
        gateway,
        gateway_bump,
        iou_mint,
        iou_mint_bump,
        payer,
        iou_account,
        mango: SolKey::new_unique(),
        others: (0..7).map(|_| SolKey::new_unique()).collect(),
    }
}

fn gateway_state(w: &World) -> Gateway {
    Gateway {
        token_mint: k(&w.token_mint),
        bump: w.gateway_bump,
        deposit_iou_mint_bump: w.iou_mint_bump,
        deposit_iou_mint: k(&w.iou_mint),
        admin: k(&w.admin),
        padding: [0u8; 31],
    }
}

fn init_accounts(w: &World) -> Vec<AccountInput> {
    vec![
        writable(account(w.gateway, SolKey::default(), 0, vec![])),
        writable(account(w.iou_mint, SolKey::default(), 0, vec![])),
        account(w.token_mint, spl_token::ID, 1, mint_data(9)),
        signer(account(w.admin, SolKey::default(), 1_000_000_000, vec![])),
        program_account(SolKey::default()),
        program_account(spl_token::ID),
        rent(),
    ]
}

fn deposit_accounts(w: &World) -> Vec<AccountInput> {
    vec![
        program_account(w.mango),
        account(w.others[0], w.mango, 1, vec![]),
        account(w.others[1], w.mango, 1, vec![]),
        account(w.others[2], w.mango, 1, vec![]),
        writable(account(w.others[3], w.mango, 1, vec![])),
        writable(account(w.others[4], spl_token::ID, 1, vec![])),
        writable(account(w.others[5], spl_token::ID, 1, vec![])),
        writable(account(w.others[6], w.mango, 1, vec![])),
        account(w.gateway, program(), 1, gateway_state(w).try_serialize()),
        writable(account(w.iou_mint, spl_token::ID, 1, mint_data(9))),
        account(w.token_mint, spl_token::ID, 1, mint_data(9)),
        writable(account(w.iou_account, SolKey::default(), 0, vec![])),
        signer(writable(account(w.payer, SolKey::default(), 1_000_000_000, vec![]))),
        program_account(SolKey::default()),
        program_account(spl_token::ID),
        program_account(anchor_spl::associated_token::ID),
        rent(),
    ]
}

fn deposit_steps(w: &World, quantity: u64) -> Vec<Step> {
    let log = |after_deposit: bool| Step {
        cpi: Cpi::LogMangoDeposits {
            mango_account: k(&w.others[6]),
            mango_program: k(&w.mango),
            mango_group: k(&w.others[0]),
            after_deposit,
        },
        abort_on_error: true,
    };
    vec![
        log(false),
        Step {
            cpi: Cpi::MangoDeposit {
                mango_program: k(&w.mango),
                mango_group: k(&w.others[0]),
                mango_account: k(&w.others[6]),
                owner: k(&w.payer),
                mango_cache: k(&w.others[1]),
                root_bank: k(&w.others[2]),
                node_bank: k(&w.others[3]),
                node_bank_vault: k(&w.others[4]),
                owner_token_account: k(&w.others[5]),
                system_program: k(&SolKey::default()),
                token_program: k(&spl_token::ID),
                quantity,
            },
            abort_on_error: true,
        },
        log(true),
        Step {
            cpi: Cpi::MintTo {
                mint: k(&w.iou_mint),
                to: k(&w.iou_account),
                authority: k(&w.gateway),
                amount: quantity,
                signer: Seeds {
                    prefix: SeedPrefix::Gateway,
                    key: k(&w.admin),
                    second: None,
                    bump: w.gateway_bump,
                },
            },
            abort_on_error: true,
        },
    ]
}

fn create_iou_account_step(w: &World) -> Step {
    Step {
        cpi: Cpi::CreateAssociatedTokenAccount {
            payer: k(&w.payer),
            associated_token: k(&w.iou_account),
            authority: k(&w.payer),
            mint: k(&w.iou_mint),
        },
        abort_on_error: true,
    }
}

#[test]
fn opening_a_gateway_creates_it_and_its_iou_mint() {
    let w = world();
    let plan = iou_init_gateway(&init_accounts(&w), w.gateway_bump, w.iou_mint_bump);
    assert_eq!(
        plan.steps,
        vec![
            Step {
                cpi: Cpi::CreateAccount {
                    payer: k(&w.admin),
                    account: k(&w.gateway),
                    space: 137,
                    owner: k(&program()),
                    signer: Seeds {
                        prefix: SeedPrefix::Gateway,
                        key: k(&w.admin),
                        second: None,
                        bump: w.gateway_bump,
                    },
                },
                abort_on_error: true,
            },
            Step {
                cpi: Cpi::CreateAccount {
                    payer: k(&w.admin),
                    account: k(&w.iou_mint),
                    space: 82,
                    owner: k(&spl_token::ID),
                    signer: Seeds {
                        prefix: SeedPrefix::NoPrefix,
                        key: k(&w.token_mint),
                        second: None,
                        bump: w.iou_mint_bump,
                    },
                },
                abort_on_error: true,
            },
            Step {
                cpi: Cpi::InitializeMint {
                    mint: k(&w.iou_mint),
                    decimals: 9,
                    mint_authority: k(&w.gateway),
                    freeze_authority: k(&w.gateway),
                },
                abort_on_error: false,
            },
        ]
    );
    assert_eq!(plan.outcome, Ok(vec![StateWrite::Gateway { key: k(&w.gateway), gateway: gateway_state(&w) }]));
}

#[test]
fn an_iou_mint_bump_other_than_the_canonical_one_is_refused() {
    let w = world();
    let plan = iou_init_gateway(&init_accounts(&w), w.gateway_bump, w.iou_mint_bump.wrapping_sub(1));
    assert_eq!(plan.steps.len(), 2);
    assert_eq!(plan.outcome, Err(ErrorCode::ConstraintSeeds));
}

#[test]
fn the_gateway_admin_must_sign() {
    let w = world();
    let mut accounts = init_accounts(&w);
    accounts[3].is_signer = false;
    let plan = iou_init_gateway(&accounts, w.gateway_bump, w.iou_mint_bump);
    assert_eq!(plan.steps, vec![]);
    assert_eq!(plan.outcome, Err(ErrorCode::AccountNotSigner));
}

#[test]
fn a_gateway_not_writable_is_refused_after_creation() {
    let w = world();
    let mut accounts = init_accounts(&w);
    accounts[0].is_writable = false;
    let plan = iou_init_gateway(&accounts, w.gateway_bump, w.iou_mint_bump);
    assert_eq!(plan.steps.len(), 1);
    assert_eq!(plan.outcome, Err(ErrorCode::ConstraintMut));
}

#[test]
fn a_first_deposit_creates_the_iou_account_and_mints_the_quantity() {
    let w = world();
    let plan = iou_deposit_into_mango_account(&deposit_accounts(&w), 777);
    let mut expected = vec![create_iou_account_step(&w)];
    expected.extend(deposit_steps(&w, 777));
    assert_eq!(plan.steps, expected);
    assert_eq!(plan.outcome, Ok(vec![]));
}

#[test]
fn a_later_deposit_uses_the_existing_iou_account() {
    let w = world();
    let mut accounts = deposit_accounts(&w);
    accounts[11] = writable(account(w.iou_account, spl_token::ID, 2_039_280, token_data(w.iou_mint, w.payer)));
    let plan = iou_deposit_into_mango_account(&accounts, 5);
    assert_eq!(plan.steps, deposit_steps(&w, 5));
    assert_eq!(plan.outcome, Ok(vec![]));
}

#[test]
fn an_existing_iou_account_must_be_the_payers_for_the_iou_mint() {
    let w = world();
    let mut accounts = deposit_accounts(&w);
    accounts[11] = writable(account(w.iou_account, spl_token::ID, 1, token_data(w.token_mint, w.payer)));
    assert_eq!(iou_deposit_into_mango_account(&accounts, 5).outcome, Err(ErrorCode::ConstraintTokenMint));
    accounts[11] = writable(account(w.iou_account, spl_token::ID, 1, token_data(w.iou_mint, w.admin)));
    assert_eq!(iou_deposit_into_mango_account(&accounts, 5).outcome, Err(ErrorCode::ConstraintTokenOwner));
    let elsewhere = SolKey::new_unique();
    accounts[11] = writable(account(elsewhere, spl_token::ID, 1, token_data(w.iou_mint, w.payer)));
    assert_eq!(
        iou_deposit_into_mango_account(&accounts, 5).outcome,
        Err(ErrorCode::AccountNotAssociatedTokenAccount)
    );
}

#[test]
fn an_existing_iou_account_must_be_rent_exempt() {
    let w = world();
    let mut accounts = deposit_accounts(&w);
    let mut existing = writable(account(w.iou_account, spl_token::ID, 1, token_data(w.iou_mint, w.payer)));
    existing.rent_exempt = false;
    accounts[11] = existing;
    let plan = iou_deposit_into_mango_account(&accounts, 5);
    assert_eq!(plan.steps, vec![]);
    assert_eq!(plan.outcome, Err(ErrorCode::ConstraintRentExempt));
}

#[test]
fn the_gateway_must_name_the_iou_mint_and_the_deposited_mint() {
    let w = world();
    let mut accounts = deposit_accounts(&w);
    let mut other = gateway_state(&w);
    other.token_mint = k(&SolKey::new_unique());
    accounts[8].data = other.try_serialize();
    let plan = iou_deposit_into_mango_account(&accounts, 5);
    assert_eq!(plan.steps, vec![create_iou_account_step(&w)]);
    assert_eq!(plan.outcome, Err(ErrorCode::ConstraintHasOne));
}

#[test]
fn a_deposit_with_a_mango_program_that_is_not_executable_is_refused() {
    let w = world();
    let mut accounts = deposit_accounts(&w);
    accounts[0].executable = false;
    let plan = iou_deposit_into_mango_account(&accounts, 5);
    assert_eq!(plan.steps, vec![create_iou_account_step(&w)]);
    assert_eq!(plan.outcome, Err(ErrorCode::NotAProgram));
}

#[test]
fn a_node_bank_that_is_not_writable_is_refused() {
    let w = world();
    let mut accounts = deposit_accounts(&w);
    accounts[4].is_writable = false;
    assert_eq!(iou_deposit_into_mango_account(&accounts, 5).outcome, Err(ErrorCode::ConstraintMut));
}

#[test]
fn the_iou_mint_context_is_unsigned_and_names_no_amount() {
    let w = world();
    let (ctx, _) = IouDepositIntoMangoAccount::try_accounts(&deposit_accounts(&w)).unwrap();
    assert_eq!(
        ctx.iou_mint_context(),
        MintToContext {
            token_program: k(&spl_token::ID),
            mint: k(&w.iou_mint),
            to: k(&w.iou_account),
            authority: k(&w.gateway),
        }
    );
}

#[test]
fn two_gateways_of_one_admin_would_create_the_same_account() {
    let w = world();
    let mut other = init_accounts(&w);
    let other_mint = SolKey::new_unique();
    let (other_iou, other_iou_bump) = SolKey::find_program_address(&[other_mint.as_ref()], &program());
    other[1] = writable(account(other_iou, SolKey::default(), 0, vec![]));
    other[2] = account(other_mint, spl_token::ID, 1, mint_data(6));
    let first = iou_init_gateway(&init_accounts(&w), w.gateway_bump, w.iou_mint_bump);
    let second = iou_init_gateway(&other, w.gateway_bump, other_iou_bump);
    assert!(first.outcome.is_ok() && second.outcome.is_ok());
    assert_eq!(first.steps[0], second.steps[0]);
    assert_ne!(first.steps[1], second.steps[1]);
}

#[test]
fn the_iou_mint_is_initialized_by_the_token_program_reading_the_rent_sysvar() {
    let w = world();
    let (ctx, _) = IouInitGateway::try_accounts(&init_accounts(&w), w.gateway_bump, w.iou_mint_bump).unwrap();
    assert_eq!(
        ctx.init_deposit_iou_mint_context(),
        InitializeMintContext {
            token_program: k(&spl_token::ID),
            mint: k(&w.iou_mint),
            rent: k(&anchor_lang::solana_program::sysvar::rent::ID),
        }
    );
    assert_eq!(
        ctx.init_mint(),
        Cpi::InitializeMint {
            mint: k(&w.iou_mint),
            decimals: 9,
            mint_authority: k(&w.gateway),
            freeze_authority: k(&w.gateway),
        }
    );
}

fn minted_of(plans: &[dasheri::plan::Plan], mint: Pubkey) -> u64 {
    let mut total = 0u64;
    for p in plans.iter().filter(|p| p.outcome.is_ok()) {
        for s in &p.steps {
            if let Cpi::MintTo { mint: m, amount, .. } = s.cpi {
                if m == mint {
                    total += amount;
                }
            }
        }
    }
    total
}

#[test]
fn a_run_mints_exactly_the_quantities_its_deposits_deposit() {
    let w = world();
    let mut later = deposit_accounts(&w);
    later[11] = writable(account(w.iou_account, spl_token::ID, 2_039_280, token_data(w.iou_mint, w.payer)));
    let mut refused = deposit_accounts(&w);
    refused[0].executable = false;
    let plans = vec![
        iou_init_gateway(&init_accounts(&w), w.gateway_bump, w.iou_mint_bump),
        iou_deposit_into_mango_account(&deposit_accounts(&w), 777),
        iou_deposit_into_mango_account(&later, 5),
        iou_deposit_into_mango_account(&refused, 1000),
    ];
    assert_eq!(minted_of(&plans, k(&w.iou_mint)), 782);
    assert_eq!(minted_of(&plans, k(&w.token_mint)), 0);
}

#[test]
fn opening_a_gateway_again_allocates_the_account_in_use() {
    let w = world();
    let mut accounts = init_accounts(&w);
    accounts[0] = writable(account(w.gateway, program(), 1_844_400, vec![1u8; 137]));
    let plan = iou_init_gateway(&accounts, w.gateway_bump, w.iou_mint_bump);
    assert!(plan.outcome.is_ok());
    assert_eq!(
        plan.steps[0].cpi,
        Cpi::TopUpAllocateAssign {
            payer: k(&w.admin),
            account: k(&w.gateway),
            current_lamports: 1_844_400,
            space: 137,
            owner: k(&program()),
            signer: Seeds { prefix: SeedPrefix::Gateway, key: k(&w.admin), second: None, bump: w.gateway_bump },
        }
    );
}
