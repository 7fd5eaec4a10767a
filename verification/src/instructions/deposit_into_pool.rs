//! A deposit into a pool of the first version, which does nothing yet.
use vstd::prelude::*;
use crate::account::{check_program_at, program_at, AccountInput};
use crate::plan::{Course, Event, Plan, Step};
use crate::pubkey::{system_program_id, zero_key, Pubkey};

verus! {

/// The accounts of the deposit: the system program.
#[derive(Clone, Copy, PartialEq, Eq, Debug)]
pub struct DepositIntoPool {
    pub system_program: Pubkey,
}

impl DepositIntoPool {
    /// The checks of the accounts: the system program must be the system program.
    pub open spec fn checks(accs: Seq<AccountInput>) -> Seq<Event> {
        seq![Event::Require(program_at(accs, 0, zero_key()))]
    }

    /// The accounts as they read when every check passes.
    pub open spec fn from_inputs(accs: Seq<AccountInput>) -> DepositIntoPool {
        DepositIntoPool { system_program: accs[0].key }
    }

    /// Reads and checks the accounts: either the accounts and the calls the checks make
    /// (none), or the plan of the failed check.
    pub fn try_accounts(accounts: &Vec<AccountInput>) -> (r: Result<(DepositIntoPool, Vec<Step>), Plan>)
        ensures
            r matches Ok((ctx, steps)) ==> {
                &&& ctx == Self::from_inputs(accounts@)
                &&& steps@ == crate::plan::emitted(Self::checks(accounts@))
                &&& forall|i: int|
                    0 <= i < Self::checks(accounts@).len() ==> !crate::plan::fails(
                        #[trigger] Self::checks(accounts@)[i],
                    )
            },
            r matches Err(p) ==> {
                &&& p.view() == crate::plan::run(Self::checks(accounts@), seq![])
                &&& crate::plan::run(Self::checks(accounts@), seq![]).1 is Err
            },
    {
        let mut c = Course::new(Ghost(Self::checks(accounts@)));
        if !c.require(check_program_at(accounts, 0, &system_program_id())) {
            return Err(c.fail());
        }
        let ctx = DepositIntoPool { system_program: accounts[0].key };
        Ok((ctx, c.done()))
    }
}

/// Succeeds without doing anything.
pub fn handler(ctx: &DepositIntoPool) -> (r: Plan)
    ensures
        r.view() == crate::plan::run(seq![], seq![]),
{
    let c = Course::new(Ghost(Seq::<Event>::empty()));
    c.finish(Vec::new())
}

} // verus!
