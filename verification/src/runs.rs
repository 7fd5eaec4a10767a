//! What a run of the program's instructions adds up to: the IOU tokens planned to be
//! minted over any run are exactly the quantities deposited through gateways, and every
//! gateway, pool and pool account a run writes is written by its opening, at the
//! address its seeds derive.
use vstd::prelude::*;
use crate::account::AccountInput;
use crate::dasheri::{
    spec_iou_deposit_into_mango_account, spec_iou_init_gateway, spec_pool_create_mango_account,
    spec_pool_create_pool, spec_pool_create_pool_account, spec_pool_deposit_into_pool,
};
use crate::error::ErrorCode;
use crate::iou::instructions::deposit_into_mango_account::{spec_log_deposits, IouDepositIntoMangoAccount};
use crate::laws::{law_iou_deposit_mints_what_it_deposits, law_only_deposits_mint, not_a_mint};
use crate::plan::{lemma_run_ok_all_met, written, Cpi, StateWrite, Step};
use crate::address::{gateway_derived, pool_account_derived, pool_derived, SeedPrefix};
use crate::init::{init_derived_events, lemma_init_derived_places};
use crate::iou::instructions::init_gateway::{self, IouInitGateway, MINT_SPACE};
use crate::iou::state::gateway::GATEWAY_SPACE;
use crate::pool::instructions::create_pool::{self, PoolCreatePool};
use crate::pool::instructions::create_pool_account::{self, PoolCreatePoolAccount};
use crate::pool::state::pool::POOL_SPACE;
use crate::pool::state::pool_account::POOL_ACCOUNT_SPACE;
use crate::pubkey::{program_key, token_key, zero_key};
use crate::pubkey::Pubkey;

verus! {

/// One of the program's instructions, with the accounts and arguments it is given.
pub enum Instruction {
    IouInitGateway { accounts: Seq<AccountInput>, gateway_bump: u8, deposit_iou_mint_bump: u8 },
    IouDepositIntoMangoAccount { accounts: Seq<AccountInput>, quantity: u64 },
    PoolCreatePool { accounts: Seq<AccountInput>, bump: u8 },
    PoolCreatePoolAccount { accounts: Seq<AccountInput>, bump: u8 },
    PoolDepositIntoPool { accounts: Seq<AccountInput>, amount: u64 },
    PoolCreateMangoAccount { accounts: Seq<AccountInput>, account_num: u64 },
}

/// The plan of an instruction: its steps, then its writes or its error.
pub open spec fn plan_of(i: Instruction) -> (Seq<Step>, Result<Seq<StateWrite>, ErrorCode>) {
    match i {
        Instruction::IouInitGateway { accounts, gateway_bump, deposit_iou_mint_bump } =>
            spec_iou_init_gateway(accounts, gateway_bump, deposit_iou_mint_bump),
        Instruction::IouDepositIntoMangoAccount { accounts, quantity } =>
            spec_iou_deposit_into_mango_account(accounts, quantity),
        Instruction::PoolCreatePool { accounts, bump } => spec_pool_create_pool(accounts, bump),
        Instruction::PoolCreatePoolAccount { accounts, bump } => spec_pool_create_pool_account(
            accounts,
            bump,
        ),
        Instruction::PoolDepositIntoPool { accounts, amount } => spec_pool_deposit_into_pool(
            accounts,
            amount,
        ),
        Instruction::PoolCreateMangoAccount { accounts, account_num } =>
            spec_pool_create_mango_account(accounts, account_num),
    }
}

/// What a step mints of `mint`.
pub open spec fn step_mints(s: Step, mint: Pubkey) -> int {
    match s.cpi {
        Cpi::MintTo { mint: m, amount, .. } => if m == mint {
            amount as int
        } else {
            0
        },
        _ => 0,
    }
}

/// What the steps mint of `mint`, together.
pub open spec fn minted(steps: Seq<Step>, mint: Pubkey) -> int
    decreases steps.len(),
{
    if steps.len() == 0 {
        0
    } else {
        step_mints(steps[0], mint) + minted(steps.drop_first(), mint)
    }
}

/// What an instruction's plan mints of `mint` where it succeeds; one that fails mints
/// nothing, for the runtime undoes its calls.
pub open spec fn committed_mint(i: Instruction, mint: Pubkey) -> int {
    if plan_of(i).1 is Ok {
        minted(plan_of(i).0, mint)
    } else {
        0
    }
}

/// The quantity an instruction deposits through a gateway whose IOU mint is `mint`,
/// where it succeeds.
pub open spec fn deposited_through(i: Instruction, mint: Pubkey) -> int {
    match i {
        Instruction::IouDepositIntoMangoAccount { accounts, quantity } => if plan_of(i).1 is Ok
            && IouDepositIntoMangoAccount::from_inputs(accounts).gateway_state.deposit_iou_mint
            == mint {
            quantity as int
        } else {
            0
        },
        _ => 0,
    }
}

/// What a run of instructions mints of `mint`.
pub open spec fn total_minted(run: Seq<Instruction>, mint: Pubkey) -> int
    decreases run.len(),
{
    if run.len() == 0 {
        0
    } else {
        total_minted(run.drop_last(), mint) + committed_mint(run.last(), mint)
    }
}

/// What a run of instructions deposits through gateways whose IOU mint is `mint`.
pub open spec fn total_deposited(run: Seq<Instruction>, mint: Pubkey) -> int
    decreases run.len(),
{
    if run.len() == 0 {
        0
    } else {
        total_deposited(run.drop_last(), mint) + deposited_through(run.last(), mint)
    }
}

/// What two runs of steps mint, one after the other, adds up.
proof fn lemma_minted_append(a: Seq<Step>, b: Seq<Step>, mint: Pubkey)
    ensures
        minted(a + b, mint) == minted(a, mint) + minted(b, mint),
    decreases a.len(),
{
    if a.len() > 0 {
        lemma_minted_append(a.drop_first(), b, mint);
        assert((a + b).drop_first() =~= a.drop_first() + b);
    }
}

/// Steps none of which is a minting mint nothing.
proof fn lemma_no_mint_mints_nothing(steps: Seq<Step>, mint: Pubkey)
    requires
        forall|i: int| 0 <= i < steps.len() ==> not_a_mint(#[trigger] steps[i]),
    ensures
        minted(steps, mint) == 0,
    decreases steps.len(),
{
    if steps.len() > 0 {
        assert(not_a_mint(steps[0]));
        assert forall|i: int| 0 <= i < steps.drop_first().len() implies not_a_mint(
            #[trigger] steps.drop_first()[i],
        ) by {
            assert(steps.drop_first()[i] == steps[i + 1]);
        }
        lemma_no_mint_mints_nothing(steps.drop_first(), mint);
    }
}

/// One instruction mints, of any mint, exactly what it deposits through a gateway whose
/// IOU mint that is.
pub proof fn law_instruction_mints_what_it_deposits(i: Instruction, mint: Pubkey)
    ensures
        committed_mint(i, mint) == deposited_through(i, mint),
{
    match i {
        Instruction::IouDepositIntoMangoAccount { accounts, quantity } => {
            if plan_of(i).1 is Ok {
                law_iou_deposit_mints_what_it_deposits(accounts, quantity);
                let ctx = IouDepositIntoMangoAccount::from_inputs(accounts);
                let steps = spec_iou_deposit_into_mango_account(accounts, quantity).0;
                let created = if accounts[11].owner@ == zero_key() {
                    seq![
                        Step {
                            cpi: Cpi::CreateAssociatedTokenAccount {
                                payer: accounts[12].key,
                                associated_token: accounts[11].key,
                                authority: accounts[12].key,
                                mint: accounts[9].key,
                            },
                            abort_on_error: true,
                        },
                    ]
                } else {
                    Seq::<Step>::empty()
                };
                let tail = seq![
                    Step {
                        cpi: spec_log_deposits(ctx, false),
                        abort_on_error: true,
                    },
                    Step { cpi: ctx.spec_deposit(quantity), abort_on_error: true },
                    Step {
                        cpi: spec_log_deposits(ctx, true),
                        abort_on_error: true,
                    },
                    Step {
                        cpi: Cpi::MintTo {
                            mint: accounts[9].key,
                            to: accounts[11].key,
                            authority: accounts[8].key,
                            amount: quantity,
                            signer: ctx.gateway_signer(),
                        },
                        abort_on_error: true,
                    },
                ];
                assert(steps == created + tail);
                lemma_minted_append(created, tail, mint);
                assert(minted(created, mint) == 0) by {
                    reveal_with_fuel(minted, 2);
                }
                assert(minted(tail, mint) == step_mints(tail[3], mint)) by {
                    reveal_with_fuel(minted, 5);
                }
            }
        },
        Instruction::IouInitGateway { accounts, gateway_bump, deposit_iou_mint_bump } => {
            law_only_deposits_mint(accounts, gateway_bump, deposit_iou_mint_bump, 0);
            lemma_no_mint_mints_nothing(plan_of(i).0, mint);
        },
        Instruction::PoolCreatePool { accounts, bump } => {
            law_only_deposits_mint(accounts, bump, 0, 0);
            lemma_no_mint_mints_nothing(plan_of(i).0, mint);
        },
        Instruction::PoolCreatePoolAccount { accounts, bump } => {
            law_only_deposits_mint(accounts, bump, 0, 0);
            lemma_no_mint_mints_nothing(plan_of(i).0, mint);
        },
        Instruction::PoolDepositIntoPool { accounts, amount } => {
            law_only_deposits_mint(accounts, 0, 0, amount);
            lemma_no_mint_mints_nothing(plan_of(i).0, mint);
        },
        Instruction::PoolCreateMangoAccount { accounts, account_num } => {
            law_only_deposits_mint(accounts, 0, 0, account_num);
            lemma_no_mint_mints_nothing(plan_of(i).0, mint);
        },
    }
}

/// Over any run of the program's instructions, the IOU tokens of a mint that the
/// instructions which succeed plan to mint are exactly the quantities those deposit
/// through gateways whose IOU mint it is: no instruction but a deposit mints, and each
/// deposit mints what it deposits. (The gateway being the IOU mint's only authority,
/// `law_gateway_controls_iou_mint`, nobody else can mint it through the token program.)
pub proof fn law_iou_supply_is_what_was_deposited(run: Seq<Instruction>, mint: Pubkey)
    ensures
        total_minted(run, mint) == total_deposited(run, mint),
    decreases run.len(),
{
    if run.len() > 0 {
        law_iou_supply_is_what_was_deposited(run.drop_last(), mint);
        law_instruction_mints_what_it_deposits(run.last(), mint);
    }
}

/// A state an instruction writes is one its kind of instruction opens, at the address
/// the state's seeds derive: a gateway written by `iou_init_gateway` (its IOU mint at
/// the address its deposited mint derives too), a pool by `pool_create_pool`, a pool
/// account by `pool_create_pool_account`.
pub open spec fn written_by_its_opening(i: Instruction, w: StateWrite) -> bool {
    match w {
        StateWrite::Gateway { key, gateway } => i is IouInitGateway && gateway_derived(gateway, key),
        StateWrite::Pool { key, pool } => i is PoolCreatePool && pool_derived(pool, key),
        StateWrite::PoolAccount { key, pool_account } => i is PoolCreatePoolAccount
            && pool_account_derived(pool_account, key),
        _ => false,
    }
}

/// Every state one instruction writes is written by its opening, at its address.
pub proof fn law_instruction_writes_only_where_it_opens(i: Instruction)
    ensures
        forall|k: int|
            0 <= k < written(plan_of(i)).len() ==> written_by_its_opening(
                i,
                #[trigger] written(plan_of(i))[k],
            ),
{
    match i {
        Instruction::IouInitGateway { accounts: accs, gateway_bump, deposit_iou_mint_bump } => {
            let ctx = IouInitGateway::from_inputs(accs);
            let checks = IouInitGateway::checks(accs, gateway_bump, deposit_iou_mint_bump);
            let events = checks + init_gateway::handler_events(ctx);
            let writes = init_gateway::handler_writes(ctx, gateway_bump, deposit_iou_mint_bump);
            if plan_of(i).1 is Ok {
                lemma_run_ok_all_met(events, writes);
                let first = init_derived_events(
                    accs[3].key,
                    accs[0],
                    GATEWAY_SPACE,
                    program_key(),
                    SeedPrefix::Gateway,
                    accs[3].key,
                    None,
                    gateway_bump,
                );
                let second = init_derived_events(
                    accs[3].key,
                    accs[1],
                    MINT_SPACE,
                    token_key(),
                    SeedPrefix::NoPrefix,
                    accs[2].key,
                    None,
                    deposit_iou_mint_bump,
                );
                assert forall|j: int| 0 <= j < 5 implies !crate::plan::fails(#[trigger] first[j]) by {
                    assert(events[7 + j] == first[j]);
                }
                assert forall|j: int| 0 <= j < 5 implies !crate::plan::fails(#[trigger] second[j]) by {
                    assert(events[12 + j] == second[j]);
                }
                lemma_init_derived_places(
                    accs[3].key,
                    accs[0],
                    GATEWAY_SPACE,
                    program_key(),
                    SeedPrefix::Gateway,
                    accs[3].key,
                    None,
                    gateway_bump,
                );
                lemma_init_derived_places(
                    accs[3].key,
                    accs[1],
                    MINT_SPACE,
                    token_key(),
                    SeedPrefix::NoPrefix,
                    accs[2].key,
                    None,
                    deposit_iou_mint_bump,
                );
                assert(written(plan_of(i)) == writes);
            }
        },
        Instruction::PoolCreatePool { accounts: accs, bump } => {
            let ctx = PoolCreatePool::from_inputs(accs);
            let events = PoolCreatePool::checks(accs, bump) + seq![];
            let writes = create_pool::handler_writes(ctx, bump);
            if plan_of(i).1 is Ok {
                lemma_run_ok_all_met(events, writes);
                let first = init_derived_events(
                    accs[3].key,
                    accs[0],
                    POOL_SPACE,
                    program_key(),
                    SeedPrefix::Pool,
                    accs[3].key,
                    None,
                    bump,
                );
                assert forall|j: int| 0 <= j < 5 implies !crate::plan::fails(#[trigger] first[j]) by {
                    assert(events[8 + j] == first[j]);
                }
                lemma_init_derived_places(
                    accs[3].key,
                    accs[0],
                    POOL_SPACE,
                    program_key(),
                    SeedPrefix::Pool,
                    accs[3].key,
                    None,
                    bump,
                );
                assert(written(plan_of(i)) == writes);
            }
        },
        Instruction::PoolCreatePoolAccount { accounts: accs, bump } => {
            let ctx = PoolCreatePoolAccount::from_inputs(accs);
            let events = PoolCreatePoolAccount::checks(accs, bump) + seq![];
            let writes = create_pool_account::handler_writes(ctx, bump);
            if plan_of(i).1 is Ok {
                lemma_run_ok_all_met(events, writes);
                let first = init_derived_events(
                    accs[2].key,
                    accs[0],
                    POOL_ACCOUNT_SPACE,
                    program_key(),
                    SeedPrefix::PoolAccount,
                    accs[1].key,
                    Some(accs[2].key),
                    bump,
                );
                assert forall|j: int| 0 <= j < 5 implies !crate::plan::fails(#[trigger] first[j]) by {
                    assert(events[4 + j] == first[j]);
                }
                lemma_init_derived_places(
                    accs[2].key,
                    accs[0],
                    POOL_ACCOUNT_SPACE,
                    program_key(),
                    SeedPrefix::PoolAccount,
                    accs[1].key,
                    Some(accs[2].key),
                    bump,
                );
                assert(written(plan_of(i)) == writes);
            }
        },
        Instruction::IouDepositIntoMangoAccount { accounts, quantity } => {
            crate::laws::law_states_are_written_only_when_opened(accounts, 0, 0, quantity);
        },
        Instruction::PoolDepositIntoPool { accounts, amount } => {
            crate::laws::law_states_are_written_only_when_opened(accounts, 0, 0, amount);
        },
        Instruction::PoolCreateMangoAccount { accounts, account_num } => {
            crate::laws::law_states_are_written_only_when_opened(accounts, 0, 0, account_num);
        },
    }
}

/// Over any run of the program's instructions, every gateway, pool and pool account
/// written is written by its own opening instruction (no other instruction writes one,
/// so none is changed after it is opened) and sits at the address its seeds and
/// canonical bump derive: a gateway at the address of its admin, its IOU mint at the
/// address of its deposited mint, a pool at the address of its admin, a pool account
/// at the address of its pool and owner. (That an opening cannot write over a state
/// already opened at that address rests on the system program, which refuses to
/// create or allocate an account already in use.)
pub proof fn law_run_writes_states_only_where_opened(run: Seq<Instruction>)
    ensures
        forall|j: int, k: int|
            0 <= j < run.len() && 0 <= k < written(plan_of(run[j])).len() ==> written_by_its_opening(
                run[j],
                #[trigger] written(plan_of(#[trigger] run[j]))[k],
            ),
{
    assert forall|j: int, k: int|
        0 <= j < run.len() && 0 <= k < written(plan_of(run[j])).len() implies written_by_its_opening(
        run[j],
        #[trigger] written(plan_of(#[trigger] run[j]))[k],
    ) by {
        law_instruction_writes_only_where_it_opens(run[j]);
    }
}

} // verus!
