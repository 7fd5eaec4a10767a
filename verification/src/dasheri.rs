//! The program's instructions: each reads and checks its accounts, then runs its
//! handler, and makes a plan of the calls to make and the accounts to write.
use vstd::prelude::*;
use crate::account::AccountInput;
use crate::address::{gateway_derived, pool_account_derived, pool_derived};
use crate::iou::instructions::deposit_into_mango_account::{self as iou_deposit, IouDepositIntoMangoAccount};
use crate::iou::instructions::init_gateway::{self, IouInitGateway};
use crate::plan::{lemma_run_fails_append, run, then, Event, Plan, StateWrite, Step};
use crate::pool::instructions::create_mango_account::{self, PoolCreateMangoAccount};
use crate::pool::instructions::create_pool::{self, PoolCreatePool};
use crate::pool::instructions::create_pool_account::{self, PoolCreatePoolAccount};
use crate::pool::instructions::deposit_into_pool::{self, PoolDepositIntoPool};

verus! {

/// The course of `iou_init_gateway`: the account checks, then the handler.
pub open spec fn spec_iou_init_gateway(
    accs: Seq<AccountInput>,
    gateway_bump: u8,
    deposit_iou_mint_bump: u8,
) -> (Seq<Step>, Result<Seq<StateWrite>, crate::error::ErrorCode>) {
    let ctx = IouInitGateway::from_inputs(accs);
    run(
        IouInitGateway::checks(accs, gateway_bump, deposit_iou_mint_bump)
            + init_gateway::handler_events(ctx),
        init_gateway::handler_writes(ctx, gateway_bump, deposit_iou_mint_bump),
    )
}

/// Opens a gateway: creates the gateway and its IOU mint, initializes the mint and
/// records the gateway.
pub fn iou_init_gateway(accounts: &Vec<AccountInput>, gateway_bump: u8, deposit_iou_mint_bump: u8) -> (r:
    Plan)
    ensures
        r.view() == spec_iou_init_gateway(accounts@, gateway_bump, deposit_iou_mint_bump),
        r.view().1 is Ok ==> gateway_derived(
            init_gateway::created_gateway(
                IouInitGateway::from_inputs(accounts@),
                gateway_bump,
                deposit_iou_mint_bump,
            ),
            accounts@[0].key,
        ),
{
    let ghost accs = accounts@;
    let ghost checks = IouInitGateway::checks(accs, gateway_bump, deposit_iou_mint_bump);
    match IouInitGateway::try_accounts(accounts, gateway_bump, deposit_iou_mint_bump) {
        Err(p) => {
            proof {
                let ctx = IouInitGateway::from_inputs(accs);
                lemma_run_fails_append(
                    checks,
                    init_gateway::handler_events(ctx),
                    seq![],
                    init_gateway::handler_writes(ctx, gateway_bump, deposit_iou_mint_bump),
                );
            }
            p
        },
        Ok((ctx, steps)) => {
            let h = init_gateway::handler(&ctx, gateway_bump, deposit_iou_mint_bump);
            then(
                steps,
                h,
                Ghost(checks),
                Ghost(init_gateway::handler_events(ctx)),
                Ghost(init_gateway::handler_writes(ctx, gateway_bump, deposit_iou_mint_bump)),
            )
        },
    }
}

/// The course of `iou_deposit_into_mango_account`: the account checks, then the
/// handler.
pub open spec fn spec_iou_deposit_into_mango_account(accs: Seq<AccountInput>, quantity: u64) -> (
    Seq<Step>,
    Result<Seq<StateWrite>, crate::error::ErrorCode>,
) {
    let ctx = IouDepositIntoMangoAccount::from_inputs(accs);
    run(
        IouDepositIntoMangoAccount::checks(accs) + iou_deposit::handler_events(ctx, quantity),
        seq![],
    )
}

/// Deposits `quantity` into a mango account through a gateway, creating the depositor's
/// IOU token account where needed, and mints as many IOU tokens to it.
pub fn iou_deposit_into_mango_account(accounts: &Vec<AccountInput>, quantity: u64) -> (r: Plan)
    ensures
        r.view() == spec_iou_deposit_into_mango_account(accounts@, quantity),
{
    let ghost accs = accounts@;
    let ghost checks = IouDepositIntoMangoAccount::checks(accs);
    match IouDepositIntoMangoAccount::try_accounts(accounts) {
        Err(p) => {
            proof {
                let ctx = IouDepositIntoMangoAccount::from_inputs(accs);
                lemma_run_fails_append(
                    checks,
                    iou_deposit::handler_events(ctx, quantity),
                    seq![],
                    seq![],
                );
            }
            p
        },
        Ok((ctx, steps)) => {
            let h = iou_deposit::handler(&ctx, quantity);
            then(
                steps,
                h,
                Ghost(checks),
                Ghost(iou_deposit::handler_events(ctx, quantity)),
                Ghost(Seq::<StateWrite>::empty()),
            )
        },
    }
}

/// The course of `pool_create_pool`: the account checks, then the handler.
pub open spec fn spec_pool_create_pool(accs: Seq<AccountInput>, bump: u8) -> (
    Seq<Step>,
    Result<Seq<StateWrite>, crate::error::ErrorCode>,
) {
    let ctx = PoolCreatePool::from_inputs(accs);
    run(PoolCreatePool::checks(accs, bump) + seq![], create_pool::handler_writes(ctx, bump))
}

/// Creates a pool and its vault and records the pool.
pub fn pool_create_pool(accounts: &Vec<AccountInput>, bump: u8) -> (r: Plan)
    ensures
        r.view() == spec_pool_create_pool(accounts@, bump),
        r.view().1 is Ok ==> pool_derived(
            create_pool::created_pool(PoolCreatePool::from_inputs(accounts@), bump),
            accounts@[0].key,
        ),
{
    let ghost accs = accounts@;
    let ghost checks = PoolCreatePool::checks(accs, bump);
    match PoolCreatePool::try_accounts(accounts, bump) {
        Err(p) => {
            proof {
                let ctx = PoolCreatePool::from_inputs(accs);
                lemma_run_fails_append(
                    checks,
                    seq![],
                    seq![],
                    create_pool::handler_writes(ctx, bump),
                );
            }
            p
        },
        Ok((ctx, steps)) => {
            let h = create_pool::handler(&ctx, bump);
            then(
                steps,
                h,
                Ghost(checks),
                Ghost(Seq::<Event>::empty()),
                Ghost(create_pool::handler_writes(ctx, bump)),
            )
        },
    }
}

/// The course of `pool_create_pool_account`: the account checks, then the handler.
pub open spec fn spec_pool_create_pool_account(accs: Seq<AccountInput>, bump: u8) -> (
    Seq<Step>,
    Result<Seq<StateWrite>, crate::error::ErrorCode>,
) {
    let ctx = PoolCreatePoolAccount::from_inputs(accs);
    run(
        PoolCreatePoolAccount::checks(accs, bump) + seq![],
        create_pool_account::handler_writes(ctx, bump),
    )
}

/// Opens a pool account in a pool and records it.
pub fn pool_create_pool_account(accounts: &Vec<AccountInput>, bump: u8) -> (r: Plan)
    ensures
        r.view() == spec_pool_create_pool_account(accounts@, bump),
        r.view().1 is Ok ==> pool_account_derived(
            create_pool_account::created_pool_account(
                PoolCreatePoolAccount::from_inputs(accounts@),
                bump,
            ),
            accounts@[0].key,
        ),
{
    let ghost accs = accounts@;
    let ghost checks = PoolCreatePoolAccount::checks(accs, bump);
    match PoolCreatePoolAccount::try_accounts(accounts, bump) {
        Err(p) => {
            proof {
                let ctx = PoolCreatePoolAccount::from_inputs(accs);
                lemma_run_fails_append(
                    checks,
                    seq![],
                    seq![],
                    create_pool_account::handler_writes(ctx, bump),
                );
            }
            p
        },
        Ok((ctx, steps)) => {
            let h = create_pool_account::handler(&ctx, bump);
            then(
                steps,
                h,
                Ghost(checks),
                Ghost(Seq::<Event>::empty()),
                Ghost(create_pool_account::handler_writes(ctx, bump)),
            )
        },
    }
}

/// The course of `pool_deposit_into_pool`: the account checks, then the handler.
pub open spec fn spec_pool_deposit_into_pool(accs: Seq<AccountInput>, amount: u64) -> (
    Seq<Step>,
    Result<Seq<StateWrite>, crate::error::ErrorCode>,
) {
    let ctx = PoolDepositIntoPool::from_inputs(accs);
    run(PoolDepositIntoPool::checks(accs) + deposit_into_pool::handler_events(ctx, amount), seq![])
}

/// Deposits `amount` of the user's tokens into the pool's vault.
pub fn pool_deposit_into_pool(accounts: &Vec<AccountInput>, amount: u64) -> (r: Plan)
    ensures
        r.view() == spec_pool_deposit_into_pool(accounts@, amount),
{
    let ghost accs = accounts@;
    let ghost checks = PoolDepositIntoPool::checks(accs);
    match PoolDepositIntoPool::try_accounts(accounts) {
        Err(p) => {
            proof {
                let ctx = PoolDepositIntoPool::from_inputs(accs);
                lemma_run_fails_append(
                    checks,
                    deposit_into_pool::handler_events(ctx, amount),
                    seq![],
                    seq![],
                );
            }
            p
        },
        Ok((ctx, steps)) => {
            let h = deposit_into_pool::handler(&ctx, amount);
            then(
                steps,
                h,
                Ghost(checks),
                Ghost(deposit_into_pool::handler_events(ctx, amount)),
                Ghost(Seq::<StateWrite>::empty()),
            )
        },
    }
}

/// The course of `pool_create_mango_account`: the account checks, then the handler.
pub open spec fn spec_pool_create_mango_account(accs: Seq<AccountInput>, account_num: u64) -> (
    Seq<Step>,
    Result<Seq<StateWrite>, crate::error::ErrorCode>,
) {
    let ctx = PoolCreateMangoAccount::from_inputs(accs);
    run(
        PoolCreateMangoAccount::checks(accs) + create_mango_account::handler_events(
            ctx,
            account_num,
        ),
        seq![],
    )
}

/// Has the mango program open a mango account owned by the pool, the pool signing.
pub fn pool_create_mango_account(accounts: &Vec<AccountInput>, account_num: u64, bump: u8) -> (r:
    Plan)
    ensures
        r.view() == spec_pool_create_mango_account(accounts@, account_num),
{
    let ghost accs = accounts@;
    let ghost checks = PoolCreateMangoAccount::checks(accs);
    match PoolCreateMangoAccount::try_accounts(accounts) {
        Err(p) => {
            proof {
                let ctx = PoolCreateMangoAccount::from_inputs(accs);
                lemma_run_fails_append(
                    checks,
                    create_mango_account::handler_events(ctx, account_num),
                    seq![],
                    seq![],
                );
            }
            p
        },
        Ok((ctx, steps)) => {
            let h = create_mango_account::handler(&ctx, account_num, bump);
            then(
                steps,
                h,
                Ghost(checks),
                Ghost(create_mango_account::handler_events(ctx, account_num)),
                Ghost(Seq::<StateWrite>::empty()),
            )
        },
    }
}

} // verus!
