//! The pool opens a mango account of its own, signing for it as a program derived
//! address.
use vstd::prelude::*;
use crate::account::{check_mut, check_present, check_program_at, check_signer_at, err_of, mut_check, pool_at, present, program_at, read_pool_at, signer_at, AccountInput};
use crate::address::{check_seeds, seeds_check};
use crate::error::ErrorCode;
use crate::plan::{Course, Cpi, Event, Plan, Step};
use crate::address::{base_seeds, SeedPrefix, Seeds};
use crate::pool::state::pool::Pool;
use crate::pubkey::{system_program_id, zero_key, Pubkey};

verus! {

/// The accounts of the opening of the pool's mango account, as they read once checked:
/// in this order, the mango program, the mango group (mutable), the mango account
/// (mutable), the pool (mutable, at the address its admin and bump derive), the payer
/// (signer, mutable) and the system program.
#[derive(Clone, Copy, PartialEq, Eq, Debug)]
pub struct PoolCreateMangoAccount {
    pub mango_program: Pubkey,
    pub mango_program_executable: bool,
    pub mango_group: Pubkey,
    pub mango_account: Pubkey,
    pub pool: Pubkey,
    pub pool_state: Pool,
    pub payer: Pubkey,
    pub system_program: Pubkey,
}

impl PoolCreateMangoAccount {
    /// The checks of the accounts, in the order they are made: each account is read as
    /// its type; the mango group and account must be writable; the pool must be at the
    /// address its admin and bump derive and writable; the payer must be writable.
    pub open spec fn checks(accs: Seq<AccountInput>) -> Seq<Event> {
        let pool = pool_at(accs, 3)->Ok_0;
        seq![
            Event::Require(present(accs, 0)),
            Event::Require(present(accs, 1)),
            Event::Require(present(accs, 2)),
            Event::Require(err_of(pool_at(accs, 3))),
            Event::Require(signer_at(accs, 4)),
            Event::Require(program_at(accs, 5, zero_key())),
            Event::Require(mut_check(accs[1])),
            Event::Require(mut_check(accs[2])),
            Event::Require(
                seeds_check(
                    base_seeds(SeedPrefix::Pool, pool.admin@, None).push(seq![pool.bump]),
                    accs[3].key@,
                ),
            ),
            Event::Require(mut_check(accs[3])),
            Event::Require(mut_check(accs[4])),
        ]
    }

    /// The accounts as they read when every check passes.
    pub open spec fn from_inputs(accs: Seq<AccountInput>) -> PoolCreateMangoAccount {
        PoolCreateMangoAccount {
            mango_program: accs[0].key,
            mango_program_executable: accs[0].executable,
            mango_group: accs[1].key,
            mango_account: accs[2].key,
            pool: accs[3].key,
            pool_state: pool_at(accs, 3)->Ok_0,
            payer: accs[4].key,
            system_program: accs[5].key,
        }
    }

    /// Reads and checks the accounts: either the accounts and the calls the checks make
    /// (none here), or the plan of the failed check.
    pub fn try_accounts(accounts: &Vec<AccountInput>) -> (r: Result<
        (PoolCreateMangoAccount, Vec<Step>),
        Plan,
    >)
        ensures
            r matches Ok((ctx, steps)) ==> {
                &&& ctx == Self::from_inputs(accounts@)
                &&& steps@ == crate::plan::emitted(Self::checks(accounts@))
                &&& forall|i: int|
                    0 <= i < Self::checks(accounts@).len() ==> !crate::plan::fails(
                        #[trigger] Self::checks(accounts@)[i],
                    )
            },
            r matches Err(p) ==> {
                &&& p.view() == crate::plan::run(Self::checks(accounts@), seq![])
                &&& crate::plan::run(Self::checks(accounts@), seq![]).1 is Err
            },
    {
        let ghost accs = accounts@;
        let mut c = Course::new(Ghost(Self::checks(accs)));
        if !c.require(check_present(accounts, 0)) {
            return Err(c.fail());
        }
        if !c.require(check_present(accounts, 1)) {
            return Err(c.fail());
        }
        if !c.require(check_present(accounts, 2)) {
            return Err(c.fail());
        }
        let pool = read_pool_at(accounts, 3);
        let pool = match pool {
            Ok(p) => {
                c.require(None);
                p
            },
            Err(e) => {
                c.require(Some(e));
                return Err(c.fail());
            },
        };
        let payer = check_signer_at(accounts, 4);
        if !c.require(payer) {
            return Err(c.fail());
        }
        let system = check_program_at(accounts, 5, &system_program_id());
        if !c.require(system) {
            return Err(c.fail());
        }
        if !c.require(check_mut(&accounts[1])) {
            return Err(c.fail());
        }
        if !c.require(check_mut(&accounts[2])) {
            return Err(c.fail());
        }
        let pool_seeds = Seeds {
            prefix: SeedPrefix::Pool,
            key: pool.admin,
            second: None,
            bump: pool.bump,
        };
        if !c.require(check_seeds(&pool_seeds, &accounts[3].key)) {
            return Err(c.fail());
        }
        if !c.require(check_mut(&accounts[3])) {
            return Err(c.fail());
        }
        if !c.require(check_mut(&accounts[4])) {
            return Err(c.fail());
        }
        let ctx = PoolCreateMangoAccount {
            mango_program: accounts[0].key,
            mango_program_executable: accounts[0].executable,
            mango_group: accounts[1].key,
            mango_account: accounts[2].key,
            pool: accounts[3].key,
            pool_state: pool,
            payer: accounts[4].key,
            system_program: accounts[5].key,
        };
        Ok((ctx, c.done()))
    }
}

/// The seeds the pool signs with: `pool`, its admin and its bump.
pub open spec fn pool_signer(ctx: PoolCreateMangoAccount) -> Seeds {
    Seeds {
        prefix: SeedPrefix::Pool,
        key: ctx.pool_state.admin,
        second: None,
        bump: ctx.pool_state.bump,
    }
}

/// What the handler does: the mango program must be a program; then the mango program
/// creates the mango account numbered `account_num` in the group, owned by the pool,
/// paid for by the payer, the pool signing. Nothing is written: the pool is stored back
/// as it was read. The bump passed to the instruction is not used.
pub open spec fn handler_events(ctx: PoolCreateMangoAccount, account_num: u64) -> Seq<Event> {
    seq![
        Event::Require(
            if ctx.mango_program_executable {
                None
            } else {
                Some(ErrorCode::NotAProgram)
            },
        ),
        Event::Emit(
            Step {
                cpi: Cpi::MangoCreateAccount {
                    mango_program: ctx.mango_program,
                    mango_group: ctx.mango_group,
                    mango_account: ctx.mango_account,
                    owner: ctx.pool,
                    system_program: ctx.system_program,
                    payer: Some(ctx.payer),
                    account_num,
                    signer: Some(pool_signer(ctx)),
                },
                abort_on_error: true,
            },
        ),
    ]
}

/// Has the mango program create the pool's mango account.
pub fn handler(ctx: &PoolCreateMangoAccount, account_num: u64, bump: u8) -> (r: Plan)
    ensures
        r.view() == crate::plan::run(handler_events(*ctx, account_num), seq![]),
{
    let mut c = Course::new(Ghost(handler_events(*ctx, account_num)));
    if !c.require(
        if ctx.mango_program_executable {
            None
        } else {
            Some(ErrorCode::NotAProgram)
        },
    ) {
        return c.fail();
    }
    let signer = Seeds {
        prefix: SeedPrefix::Pool,
        key: ctx.pool_state.admin,
        second: None,
        bump: ctx.pool_state.bump,
    };
    c.emit(
        Step {
            cpi: Cpi::MangoCreateAccount {
                mango_program: ctx.mango_program,
                mango_group: ctx.mango_group,
                mango_account: ctx.mango_account,
                owner: ctx.pool,
                system_program: ctx.system_program,
                payer: Some(ctx.payer),
                account_num,
                signer: Some(signer),
            },
            abort_on_error: true,
        },
    );
    c.finish(Vec::new())
}

} // verus!
