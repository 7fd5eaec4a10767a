//! Opening a pool account of the first version in a pool.
use vstd::prelude::*;
use crate::account::{
    check_mut, check_present, check_program_at, check_signer_at, err_of, err_result,
    legacy_pool_at, mut_check, present, program_at, read_legacy_pool_at, signer_at,
    AccountInput,
};
use crate::init::{init_derived_account, init_derived_events};
use crate::plan::{Course, Event, Plan, StateWrite, Step};
use crate::address::{SeedPrefix};
use crate::pubkey::{program_id, program_key, system_program_id, zero_key, Pubkey};
use crate::state::pool_account::{PoolAccount, POOL_ACCOUNT_SPACE};

verus! {

/// The accounts of the opening of a pool account of the first version, by their keys
/// once checked: in this order, the pool account (created, at the address
/// `pool_account` and the pool derive), the pool, the payer (signer, mutable) and the
/// system program.
#[derive(Clone, Copy, PartialEq, Eq, Debug)]
pub struct CreatePoolAccount {
    pub pool_account: Pubkey,
    pub pool: Pubkey,
    pub payer: Pubkey,
    pub system_program: Pubkey,
}

impl CreatePoolAccount {
    /// The checks of the accounts, in the order they are made: each account is read as
    /// its type (the created one need only be there); the pool account is created at
    /// the address its seeds derive with the canonical bump, which must be `pool_bump`;
    /// the payer must be writable.
    pub open spec fn checks(accs: Seq<AccountInput>, pool_bump: u8) -> Seq<Event> {
        seq![
            Event::Require(present(accs, 0)),
            Event::Require(err_of(legacy_pool_at(accs, 1))),
            Event::Require(signer_at(accs, 2)),
            Event::Require(program_at(accs, 3, zero_key())),
        ] + init_derived_events(
            accs[2].key,
            accs[0],
            POOL_ACCOUNT_SPACE,
            program_key(),
            SeedPrefix::PoolAccount,
            accs[1].key,
            None,
            pool_bump,
        ) + seq![Event::Require(mut_check(accs[2]))]
    }

    /// The accounts as they read when every check passes.
    pub open spec fn from_inputs(accs: Seq<AccountInput>) -> CreatePoolAccount {
        CreatePoolAccount {
            pool_account: accs[0].key,
            pool: accs[1].key,
            payer: accs[2].key,
            system_program: accs[3].key,
        }
    }

    /// Reads and checks the accounts, creating the pool account: either the accounts
    /// and the calls the checks make, or the plan of the failed check.
    pub fn try_accounts(accounts: &Vec<AccountInput>, pool_bump: u8) -> (r: Result<
        (CreatePoolAccount, Vec<Step>),
        Plan,
    >)
        ensures
            r matches Ok((ctx, steps)) ==> {
                &&& ctx == Self::from_inputs(accounts@)
                &&& steps@ == crate::plan::emitted(Self::checks(accounts@, pool_bump))
                &&& forall|i: int|
                    0 <= i < Self::checks(accounts@, pool_bump).len() ==> !crate::plan::fails(
                        #[trigger] Self::checks(accounts@, pool_bump)[i],
                    )
            },
            r is Ok ==> crate::address::derived_with_bump(
                SeedPrefix::PoolAccount,
                accounts@[1].key@,
                None,
                pool_bump,
                accounts@[0].key@,
            ),
            r matches Err(p) ==> {
                &&& p.view() == crate::plan::run(Self::checks(accounts@, pool_bump), seq![])
                &&& crate::plan::run(Self::checks(accounts@, pool_bump), seq![]).1 is Err
            },
    {
        let ghost accs = accounts@;
        let ghost planned = Self::checks(accs, pool_bump);
        let mut c = Course::new(Ghost(planned));
        if !c.require(check_present(accounts, 0)) {
            return Err(c.fail());
        }
        if !c.require(err_result(read_legacy_pool_at(accounts, 1))) {
            return Err(c.fail());
        }
        if !c.require(check_signer_at(accounts, 2)) {
            return Err(c.fail());
        }
        if !c.require(check_program_at(accounts, 3, &system_program_id())) {
            return Err(c.fail());
        }
        assert(planned.subrange(4, 9) =~= init_derived_events(
            accs[2].key,
            accs[0],
            POOL_ACCOUNT_SPACE,
            program_key(),
            SeedPrefix::PoolAccount,
            accs[1].key,
            None,
            pool_bump,
        ));
        if !init_derived_account(
            &mut c,
            &accounts[2].key,
            &accounts[0],
            POOL_ACCOUNT_SPACE,
            &program_id(),
            SeedPrefix::PoolAccount,
            &accounts[1].key,
            None,
            pool_bump,
        ) {
            return Err(c.fail());
        }
        if !c.require(check_mut(&accounts[2])) {
            return Err(c.fail());
        }
        let ctx = CreatePoolAccount {
            pool_account: accounts[0].key,
            pool: accounts[1].key,
            payer: accounts[2].key,
            system_program: accounts[3].key,
        };
        Ok((ctx, c.done()))
    }
}

/// What the handler writes: the pool account, naming its pool, at its address.
pub open spec fn handler_writes(ctx: CreatePoolAccount) -> Seq<StateWrite> {
    seq![
        StateWrite::LegacyPoolAccount {
            key: ctx.pool_account,
            legacy_pool_account: PoolAccount { pool: ctx.pool },
        },
    ]
}

/// Records the pool account's pool.
pub fn handler(ctx: &CreatePoolAccount) -> (r: Plan)
    ensures
        r.view() == crate::plan::run(seq![], handler_writes(*ctx)),
{
    let c = Course::new(Ghost(Seq::<Event>::empty()));
    let pool_account = PoolAccount { pool: ctx.pool };
    let mut writes: Vec<StateWrite> = Vec::new();
    writes.push(StateWrite::LegacyPoolAccount { key: ctx.pool_account, legacy_pool_account: pool_account });
    assert(writes@ =~= handler_writes(*ctx));
    c.finish(writes)
}

} // verus!
