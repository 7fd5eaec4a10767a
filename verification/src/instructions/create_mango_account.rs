//! A signer opens a mango account of their own.
use vstd::prelude::*;
use crate::account::{
    check_mut, check_present, check_program_at, check_signer_at, mut_check, present, program_at,
    signer_at, AccountInput,
};
use crate::plan::{Course, Cpi, Event, Plan, Step};
use crate::pubkey::{system_program_id, zero_key, Pubkey};

verus! {

/// The accounts of the opening of a mango account, by their keys once checked: in this
/// order, the mango program, the mango group (mutable), the mango account (mutable), the
/// owner (signer, mutable) and the system program.
#[derive(Clone, Copy, PartialEq, Eq, Debug)]
pub struct CreateMangoAccount {
    pub mango_program_ai: Pubkey,
    pub mango_group: Pubkey,
    pub mango_account: Pubkey,
    pub owner: Pubkey,
    pub system_program: Pubkey,
}

impl CreateMangoAccount {
    /// The checks of the accounts, in the order they are made: each account is read as
    /// its type; the mango group, the mango account and the owner must be writable.
    pub open spec fn checks(accs: Seq<AccountInput>) -> Seq<Event> {
        seq![
            Event::Require(present(accs, 0)),
            Event::Require(present(accs, 1)),
            Event::Require(present(accs, 2)),
            Event::Require(signer_at(accs, 3)),
            Event::Require(program_at(accs, 4, zero_key())),
            Event::Require(mut_check(accs[1])),
            Event::Require(mut_check(accs[2])),
            Event::Require(mut_check(accs[3])),
        ]
    }

    /// The accounts as they read when every check passes.
    pub open spec fn from_inputs(accs: Seq<AccountInput>) -> CreateMangoAccount {
        CreateMangoAccount {
            mango_program_ai: accs[0].key,
            mango_group: accs[1].key,
            mango_account: accs[2].key,
            owner: accs[3].key,
            system_program: accs[4].key,
        }
    }

    /// Reads and checks the accounts: either the accounts and the calls the checks make
    /// (none), or the plan of the failed check.
    pub fn try_accounts(accounts: &Vec<AccountInput>) -> (r: Result<(CreateMangoAccount, Vec<Step>), Plan>)
        ensures
            r matches Ok((ctx, steps)) ==> {
                &&& ctx == Self::from_inputs(accounts@)
                &&& steps@ == crate::plan::emitted(Self::checks(accounts@))
                &&& forall|i: int|
                    0 <= i < Self::checks(accounts@).len() ==> !crate::plan::fails(
                        #[trigger] Self::checks(accounts@)[i],
                    )
            },
            r matches Err(p) ==> {
                &&& p.view() == crate::plan::run(Self::checks(accounts@), seq![])
                &&& crate::plan::run(Self::checks(accounts@), seq![]).1 is Err
            },
    {
        let mut c = Course::new(Ghost(Self::checks(accounts@)));
        if !c.require(check_present(accounts, 0)) {
            return Err(c.fail());
        }
        if !c.require(check_present(accounts, 1)) {
            return Err(c.fail());
        }
        if !c.require(check_present(accounts, 2)) {
            return Err(c.fail());
        }
        if !c.require(check_signer_at(accounts, 3)) {
            return Err(c.fail());
        }
        if !c.require(check_program_at(accounts, 4, &system_program_id())) {
            return Err(c.fail());
        }
        if !c.require(check_mut(&accounts[1])) {
            return Err(c.fail());
        }
        if !c.require(check_mut(&accounts[2])) {
            return Err(c.fail());
        }
        if !c.require(check_mut(&accounts[3])) {
            return Err(c.fail());
        }
        let ctx = CreateMangoAccount {
            mango_program_ai: accounts[0].key,
            mango_group: accounts[1].key,
            mango_account: accounts[2].key,
            owner: accounts[3].key,
            system_program: accounts[4].key,
        };
        Ok((ctx, c.done()))
    }
}

/// The creation of the mango account numbered `account_num` in the group, owned by the
/// owner, who signs; no payer is named and no program signs.
pub open spec fn create_cpi(ctx: CreateMangoAccount, account_num: u64) -> Cpi {
    Cpi::MangoCreateAccount {
        mango_program: ctx.mango_program_ai,
        mango_group: ctx.mango_group,
        mango_account: ctx.mango_account,
        owner: ctx.owner,
        system_program: ctx.system_program,
        payer: None,
        account_num,
        signer: None,
    }
}

/// What the instruction's handler does: have the mango program create the account.
pub open spec fn create_mango_account_events(ctx: CreateMangoAccount, account_num: u64) -> Seq<Event> {
    seq![Event::Emit(Step { cpi: create_cpi(ctx, account_num), abort_on_error: true })]
}

/// Has the mango program create the owner's mango account.
pub fn create_mango_account(ctx: &CreateMangoAccount, account_num: u64) -> (r: Plan)
    ensures
        r.view() == crate::plan::run(create_mango_account_events(*ctx, account_num), seq![]),
{
    let mut c = Course::new(Ghost(create_mango_account_events(*ctx, account_num)));
    c.emit(
        Step {
            cpi: Cpi::MangoCreateAccount {
                mango_program: ctx.mango_program_ai,
                mango_group: ctx.mango_group,
                mango_account: ctx.mango_account,
                owner: ctx.owner,
                system_program: ctx.system_program,
                payer: None,
                account_num,
                signer: None,
            },
            abort_on_error: true,
        },
    );
    c.finish(Vec::new())
}

} // verus!
