//! A user opens a pool account in a pool.
use vstd::prelude::*;
use crate::account::{check_mut, check_present, check_program_at, check_signer_at, err_of, mut_check, pool_at, present, program_at, read_pool_at, signer_at, AccountInput};
use crate::address::{check_seeds, seeds_check};
use crate::init::{init_derived_account, init_derived_events};
use crate::layout::{fresh_padding, zero_padding};
use crate::plan::{Course, Event, Plan, StateWrite, Step};
use crate::address::{base_seeds, SeedPrefix, Seeds};
use crate::pool::state::pool::Pool;
use crate::pool::state::pool_account::{PoolAccount, POOL_ACCOUNT_SPACE};
use crate::pubkey::{program_id, program_key, system_program_id, zero_key, Pubkey};

verus! {

/// The accounts of the opening of a pool account, as they read once checked: in this
/// order, the pool account (created, at the address `pool_account`, the pool and the
/// user derive, so each user has one per pool), the pool (at the address its admin and bump derive), the user (signer,
/// mutable, paying) and the system program.
#[derive(Clone, Copy, PartialEq, Eq, Debug)]
pub struct PoolCreatePoolAccount {
    pub pool_account: Pubkey,
    pub pool: Pubkey,
    pub pool_state: Pool,
    pub user: Pubkey,
    pub system_program: Pubkey,
}

impl PoolCreatePoolAccount {
    /// The checks of the accounts, in the order they are made: each account is read as
    /// its type (the created one need only be there); the pool account is created at
    /// the address the pool and the user derive with the canonical bump, which must be
    /// `bump`; the pool must at the address its admin and bump derive, and the user writable.
    pub open spec fn checks(accs: Seq<AccountInput>, bump: u8) -> Seq<Event> {
        let pool = pool_at(accs, 1)->Ok_0;
        seq![
            Event::Require(present(accs, 0)),
            Event::Require(err_of(pool_at(accs, 1))),
            Event::Require(signer_at(accs, 2)),
            Event::Require(program_at(accs, 3, zero_key())),
        ] + init_derived_events(
            accs[2].key,
            accs[0],
            POOL_ACCOUNT_SPACE,
            program_key(),
            SeedPrefix::PoolAccount,
            accs[1].key,
            Some(accs[2].key),
            bump,
        ) + seq![
            Event::Require(
                seeds_check(
                    base_seeds(SeedPrefix::Pool, pool.admin@, None).push(seq![pool.bump]),
                    accs[1].key@,
                ),
            ),
            Event::Require(mut_check(accs[2])),
        ]
    }

    /// The accounts as they read when every check passes.
    pub open spec fn from_inputs(accs: Seq<AccountInput>) -> PoolCreatePoolAccount {
        PoolCreatePoolAccount {
            pool_account: accs[0].key,
            pool: accs[1].key,
            pool_state: pool_at(accs, 1)->Ok_0,
            user: accs[2].key,
            system_program: accs[3].key,
        }
    }

    /// Reads and checks the accounts, creating the pool account: either the accounts
    /// and the calls the checks make, or the plan of the failed check.
    pub fn try_accounts(accounts: &Vec<AccountInput>, bump: u8) -> (r: Result<
        (PoolCreatePoolAccount, Vec<Step>),
        Plan,
    >)
        ensures
            r matches Ok((ctx, steps)) ==> {
                &&& ctx == Self::from_inputs(accounts@)
                &&& steps@ == crate::plan::emitted(Self::checks(accounts@, bump))
                &&& forall|i: int|
                    0 <= i < Self::checks(accounts@, bump).len() ==> !crate::plan::fails(
                        #[trigger] Self::checks(accounts@, bump)[i],
                    )
            },
            r is Ok ==> crate::address::derived_with_bump(
                SeedPrefix::PoolAccount,
                accounts@[1].key@,
                Some(accounts@[2].key@),
                bump,
                accounts@[0].key@,
            ),
            r matches Err(p) ==> {
                &&& p.view() == crate::plan::run(Self::checks(accounts@, bump), seq![])
                &&& crate::plan::run(Self::checks(accounts@, bump), seq![]).1 is Err
            },
    {
        let ghost accs = accounts@;
        let ghost planned = Self::checks(accs, bump);
        let mut c = Course::new(Ghost(planned));
        if !c.require(check_present(accounts, 0)) {
            return Err(c.fail());
        }
        let pool = read_pool_at(accounts, 1);
        let pool = match pool {
            Ok(p) => {
                c.require(None);
                p
            },
            Err(e) => {
                c.require(Some(e));
                return Err(c.fail());
            },
        };
        let user = check_signer_at(accounts, 2);
        if !c.require(user) {
            return Err(c.fail());
        }
        let system = check_program_at(accounts, 3, &system_program_id());
        if !c.require(system) {
            return Err(c.fail());
        }
        assert(planned.subrange(4, 9) =~= init_derived_events(
            accs[2].key,
            accs[0],
            POOL_ACCOUNT_SPACE,
            program_key(),
            SeedPrefix::PoolAccount,
            accs[1].key,
            Some(accs[2].key),
            bump,
        ));
        if !init_derived_account(
            &mut c,
            &accounts[2].key,
            &accounts[0],
            POOL_ACCOUNT_SPACE,
            &program_id(),
            SeedPrefix::PoolAccount,
            &accounts[1].key,
            Some(accounts[2].key),
            bump,
        ) {
            return Err(c.fail());
        }
        let pool_seeds = Seeds {
            prefix: SeedPrefix::Pool,
            key: pool.admin,
            second: None,
            bump: pool.bump,
        };
        if !c.require(check_seeds(&pool_seeds, &accounts[1].key)) {
            return Err(c.fail());
        }
        if !c.require(check_mut(&accounts[2])) {
            return Err(c.fail());
        }
        let ctx = PoolCreatePoolAccount {
            pool_account: accounts[0].key,
            pool: accounts[1].key,
            pool_state: pool,
            user: accounts[2].key,
            system_program: accounts[3].key,
        };
        Ok((ctx, c.done()))
    }
}

/// The pool account the handler writes: the one read from the created account (all
/// zero) with its bump, pool and owner set.
pub open spec fn created_pool_account(ctx: PoolCreatePoolAccount, bump: u8) -> PoolAccount {
    PoolAccount { bump, pool: ctx.pool, owner: ctx.user, padding: fresh_padding() }
}

/// What the handler writes: the pool account, at its address.
pub open spec fn handler_writes(ctx: PoolCreatePoolAccount, bump: u8) -> Seq<StateWrite> {
    seq![
        StateWrite::PoolAccount {
            key: ctx.pool_account,
            pool_account: created_pool_account(ctx, bump),
        },
    ]
}

/// Records the pool account's bump, pool and owner.
pub fn handler(ctx: &PoolCreatePoolAccount, bump: u8) -> (r: Plan)
    ensures
        r.view() == crate::plan::run(seq![], handler_writes(*ctx, bump)),
{
    let c = Course::new(Ghost(Seq::<Event>::empty()));
    let mut pool_account = PoolAccount::default();
    pool_account.padding = zero_padding();
    pool_account.bump = bump;
    pool_account.pool = ctx.pool;
    pool_account.owner = ctx.user;
    let mut writes: Vec<StateWrite> = Vec::new();
    writes.push(StateWrite::PoolAccount { key: ctx.pool_account, pool_account });
    assert(writes@ =~= handler_writes(*ctx, bump));
    c.finish(writes)
}

} // verus!
