//! A signer deposits into their own mango account.
use vstd::prelude::*;
use crate::account::{
    check_mut, check_present, check_program_at, check_signer_at, mut_check, present, program_at,
    signer_at, AccountInput,
};
use crate::plan::{Course, Cpi, Event, Plan, Step};
use crate::pubkey::{system_program_id, token_program_id, zero_key, Pubkey, TOKEN_PROGRAM_ID_BYTES};

verus! {

/// The accounts of the deposit, by their keys once checked: in this order, the mango
/// program, the mango group, the mango cache, the root bank, the node bank (mutable),
/// the node bank's vault (mutable), the token account deposited from (mutable), the
/// mango account (mutable), the owner (signer, mutable), and the system and token
/// programs.
#[derive(Clone, Copy, PartialEq, Eq, Debug)]
pub struct Deposit {
    pub mango_program: Pubkey,
    pub mango_group: Pubkey,
    pub mango_cache: Pubkey,
    pub root_bank: Pubkey,
    pub node_bank: Pubkey,
    pub node_bank_vault: Pubkey,
    pub owner_token_account: Pubkey,
    pub mango_account: Pubkey,
    pub owner: Pubkey,
    pub system_program: Pubkey,
    pub token_program: Pubkey,
}

impl Deposit {
    /// The checks of the accounts, in the order they are made: each account is read as
    /// its type; the accounts written to must be writable.
    pub open spec fn checks(accs: Seq<AccountInput>) -> Seq<Event> {
        seq![
            Event::Require(present(accs, 0)),
            Event::Require(present(accs, 1)),
            Event::Require(present(accs, 2)),
            Event::Require(present(accs, 3)),
            Event::Require(present(accs, 4)),
            Event::Require(present(accs, 5)),
            Event::Require(present(accs, 6)),
            Event::Require(present(accs, 7)),
            Event::Require(signer_at(accs, 8)),
            Event::Require(program_at(accs, 9, zero_key())),
            Event::Require(program_at(accs, 10, TOKEN_PROGRAM_ID_BYTES@)),
            Event::Require(mut_check(accs[4])),
            Event::Require(mut_check(accs[5])),
            Event::Require(mut_check(accs[6])),
            Event::Require(mut_check(accs[7])),
            Event::Require(mut_check(accs[8])),
        ]
    }

    /// The accounts as they read when every check passes.
    pub open spec fn from_inputs(accs: Seq<AccountInput>) -> Deposit {
        Deposit {
            mango_program: accs[0].key,
            mango_group: accs[1].key,
            mango_cache: accs[2].key,
            root_bank: accs[3].key,
            node_bank: accs[4].key,
            node_bank_vault: accs[5].key,
            owner_token_account: accs[6].key,
            mango_account: accs[7].key,
            owner: accs[8].key,
            system_program: accs[9].key,
            token_program: accs[10].key,
        }
    }

    /// Reads and checks the accounts: either the accounts and the calls the checks make
    /// (none), or the plan of the failed check.
    pub fn try_accounts(accounts: &Vec<AccountInput>) -> (r: Result<(Deposit, Vec<Step>), Plan>)
        ensures
            r matches Ok((ctx, steps)) ==> {
                &&& ctx == Self::from_inputs(accounts@)
                &&& steps@ == crate::plan::emitted(Self::checks(accounts@))
                &&& forall|i: int|
                    0 <= i < Self::checks(accounts@).len() ==> !crate::plan::fails(
                        #[trigger] Self::checks(accounts@)[i],
                    )
            },
            r matches Err(p) ==> {
                &&& p.view() == crate::plan::run(Self::checks(accounts@), seq![])
                &&& crate::plan::run(Self::checks(accounts@), seq![]).1 is Err
            },
    {
        let ghost accs = accounts@;
        let ghost planned = Self::checks(accs);
        let mut c = Course::new(Ghost(planned));
        let mut i: usize = 0;
        while i < 8
            invariant
                0 <= i <= 8,
                c.wf(),
                c.live(),
                c.planned@ == planned,
                c.events@.len() == i,
                accounts@ == accs,
                planned == Self::checks(accs),
            decreases 8 - i,
        {
            if !c.require(check_present(accounts, i)) {
                return Err(c.fail());
            }
            i = i + 1;
        }
        if !c.require(check_signer_at(accounts, 8)) {
            return Err(c.fail());
        }
        if !c.require(check_program_at(accounts, 9, &system_program_id())) {
            return Err(c.fail());
        }
        if !c.require(check_program_at(accounts, 10, &token_program_id())) {
            return Err(c.fail());
        }
        let mut k: usize = 4;
        while k < 9
            invariant
                4 <= k <= 9,
                c.wf(),
                c.live(),
                c.planned@ == planned,
                c.events@.len() == 7 + k,
                accounts@ == accs,
                accs.len() >= 11,
                planned == Self::checks(accs),
            decreases 9 - k,
        {
            if !c.require(check_mut(&accounts[k])) {
                return Err(c.fail());
            }
            k = k + 1;
        }
        let ctx = Deposit {
            mango_program: accounts[0].key,
            mango_group: accounts[1].key,
            mango_cache: accounts[2].key,
            root_bank: accounts[3].key,
            node_bank: accounts[4].key,
            node_bank_vault: accounts[5].key,
            owner_token_account: accounts[6].key,
            mango_account: accounts[7].key,
            owner: accounts[8].key,
            system_program: accounts[9].key,
            token_program: accounts[10].key,
        };
        Ok((ctx, c.done()))
    }
}

/// The deposit of `quantity` into the mango account, the owner signing.
pub open spec fn deposit_cpi(ctx: Deposit, quantity: u64) -> Cpi {
    Cpi::MangoDeposit {
        mango_program: ctx.mango_program,
        mango_group: ctx.mango_group,
        mango_account: ctx.mango_account,
        owner: ctx.owner,
        mango_cache: ctx.mango_cache,
        root_bank: ctx.root_bank,
        node_bank: ctx.node_bank,
        node_bank_vault: ctx.node_bank_vault,
        owner_token_account: ctx.owner_token_account,
        system_program: ctx.system_program,
        token_program: ctx.token_program,
        quantity,
    }
}

/// What the handler does: deposit `quantity` into the mango account.
pub open spec fn handler_events(ctx: Deposit, quantity: u64) -> Seq<Event> {
    seq![Event::Emit(Step { cpi: deposit_cpi(ctx, quantity), abort_on_error: true })]
}

/// Deposits into the mango account.
pub fn handler(ctx: &Deposit, quantity: u64) -> (r: Plan)
    ensures
        r.view() == crate::plan::run(handler_events(*ctx, quantity), seq![]),
{
    let mut c = Course::new(Ghost(handler_events(*ctx, quantity)));
    c.emit(
        Step {
            cpi: Cpi::MangoDeposit {
                mango_program: ctx.mango_program,
                mango_group: ctx.mango_group,
                mango_account: ctx.mango_account,
                owner: ctx.owner,
                mango_cache: ctx.mango_cache,
                root_bank: ctx.root_bank,
                node_bank: ctx.node_bank,
                node_bank_vault: ctx.node_bank_vault,
                owner_token_account: ctx.owner_token_account,
                system_program: ctx.system_program,
                token_program: ctx.token_program,
                quantity,
            },
            abort_on_error: true,
        },
    );
    c.finish(Vec::new())
}

} // verus!
