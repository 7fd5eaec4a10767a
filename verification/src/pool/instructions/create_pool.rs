//! An admin creates a pool, with a vault for the pool's deposit mint.
use vstd::prelude::*;
use crate::account::{check_mut, check_present, check_program_at, check_rent_at, check_signer_at, err_of, err_result, mint_at, mut_check, present, program_at, read_mint_at, rent_at, signer_at, AccountInput};
use crate::init::{init_derived_account, init_derived_events};
use crate::layout::{fresh_padding, zero_padding};
use crate::plan::{Course, Cpi, Event, Plan, StateWrite, Step};
use crate::address::{SeedPrefix};
use crate::pool::state::pool::{Pool, POOL_SPACE};
use crate::pubkey::{
    associated_token_program_id, program_id, program_key, system_program_id, token_program_id,
    zero_key, Pubkey, ASSOCIATED_TOKEN_PROGRAM_ID_BYTES, TOKEN_PROGRAM_ID_BYTES,
};

verus! {

/// The accounts of the creation of a pool, by their keys once checked: in this order,
/// the pool (created, at the address `pool` and the admin derive), the vault (created,
/// the pool's associated token account for the deposit mint), the deposit mint, the
/// admin (signer, mutable, paying), the system, token and associated token programs and
/// the rent sysvar.
#[derive(Clone, Copy, PartialEq, Eq, Debug)]
pub struct PoolCreatePool {
    pub pool: Pubkey,
    pub vault: Pubkey,
    pub deposit_iou_mint: Pubkey,
    pub admin: Pubkey,
    pub system_program: Pubkey,
    pub token_program: Pubkey,
    pub associated_token_program: Pubkey,
    pub rent: Pubkey,
}

impl PoolCreatePool {
    /// The checks of the accounts, in the order they are made: each account is read as
    /// its type (the two created ones need only be there); the pool is created at the
    /// address its seeds derive with the canonical bump, which must be `bump`; the vault
    /// is created as the pool's associated token account for the deposit mint; both must
    /// be writable, and so must the admin.
    pub open spec fn checks(accs: Seq<AccountInput>, bump: u8) -> Seq<Event> {
        seq![
            Event::Require(present(accs, 0)),
            Event::Require(present(accs, 1)),
            Event::Require(err_of(mint_at(accs, 2))),
            Event::Require(signer_at(accs, 3)),
            Event::Require(program_at(accs, 4, zero_key())),
            Event::Require(
                program_at(accs, 5, TOKEN_PROGRAM_ID_BYTES@),
            ),
            Event::Require(
                program_at(accs, 6, ASSOCIATED_TOKEN_PROGRAM_ID_BYTES@),
            ),
            Event::Require(rent_at(accs, 7)),
        ] + init_derived_events(
            accs[3].key,
            accs[0],
            POOL_SPACE,
            program_key(),
            SeedPrefix::Pool,
            accs[3].key,
            None,
            bump,
        ) + seq![
            Event::Emit(
                Step {
                    cpi: Cpi::CreateAssociatedTokenAccount {
                        payer: accs[3].key,
                        associated_token: accs[1].key,
                        authority: accs[0].key,
                        mint: accs[2].key,
                    },
                    abort_on_error: true,
                },
            ),
            Event::Require(mut_check(accs[1])),
            Event::Require(mut_check(accs[3])),
        ]
    }

    /// The accounts as they read when every check passes.
    pub open spec fn from_inputs(accs: Seq<AccountInput>) -> PoolCreatePool {
        PoolCreatePool {
            pool: accs[0].key,
            vault: accs[1].key,
            deposit_iou_mint: accs[2].key,
            admin: accs[3].key,
            system_program: accs[4].key,
            token_program: accs[5].key,
            associated_token_program: accs[6].key,
            rent: accs[7].key,
        }
    }

    /// Reads and checks the accounts, creating the pool and the vault: either the
    /// accounts and the calls the checks make, or the plan of the failed check.
    pub fn try_accounts(accounts: &Vec<AccountInput>, bump: u8) -> (r: Result<
        (PoolCreatePool, Vec<Step>),
        Plan,
    >)
        ensures
            r matches Ok((ctx, steps)) ==> {
                &&& ctx == Self::from_inputs(accounts@)
                &&& steps@ == crate::plan::emitted(Self::checks(accounts@, bump))
                &&& forall|i: int|
                    0 <= i < Self::checks(accounts@, bump).len() ==> !crate::plan::fails(
                        #[trigger] Self::checks(accounts@, bump)[i],
                    )
            },
            r is Ok ==> crate::address::derived_with_bump(
                SeedPrefix::Pool,
                accounts@[3].key@,
                None,
                bump,
                accounts@[0].key@,
            ),
            r matches Err(p) ==> {
                &&& p.view() == crate::plan::run(Self::checks(accounts@, bump), seq![])
                &&& crate::plan::run(Self::checks(accounts@, bump), seq![]).1 is Err
            },
    {
        let ghost accs = accounts@;
        let ghost planned = Self::checks(accs, bump);
        let mut c = Course::new(Ghost(planned));
        if !c.require(check_present(accounts, 0)) {
            return Err(c.fail());
        }
        if !c.require(check_present(accounts, 1)) {
            return Err(c.fail());
        }
        let mint = err_result(read_mint_at(accounts, 2));
        if !c.require(mint) {
            return Err(c.fail());
        }
        let admin = check_signer_at(accounts, 3);
        if !c.require(admin) {
            return Err(c.fail());
        }
        let system = check_program_at(accounts, 4, &system_program_id());
        if !c.require(system) {
            return Err(c.fail());
        }
        let token = check_program_at(accounts, 5, &token_program_id());
        if !c.require(token) {
            return Err(c.fail());
        }
        let associated = check_program_at(accounts, 6, &associated_token_program_id());
        if !c.require(associated) {
            return Err(c.fail());
        }
        let rent = check_rent_at(accounts, 7);
        if !c.require(rent) {
            return Err(c.fail());
        }
        assert(planned.subrange(8, 13) =~= init_derived_events(
            accs[3].key,
            accs[0],
            POOL_SPACE,
            program_key(),
            SeedPrefix::Pool,
            accs[3].key,
            None,
            bump,
        ));
        if !init_derived_account(
            &mut c,
            &accounts[3].key,
            &accounts[0],
            POOL_SPACE,
            &program_id(),
            SeedPrefix::Pool,
            &accounts[3].key,
            None,
            bump,
        ) {
            return Err(c.fail());
        }
        c.emit(
            Step {
                cpi: Cpi::CreateAssociatedTokenAccount {
                    payer: accounts[3].key,
                    associated_token: accounts[1].key,
                    authority: accounts[0].key,
                    mint: accounts[2].key,
                },
                abort_on_error: true,
            },
        );
        if !c.require(check_mut(&accounts[1])) {
            return Err(c.fail());
        }
        if !c.require(check_mut(&accounts[3])) {
            return Err(c.fail());
        }
        let ctx = PoolCreatePool {
            pool: accounts[0].key,
            vault: accounts[1].key,
            deposit_iou_mint: accounts[2].key,
            admin: accounts[3].key,
            system_program: accounts[4].key,
            token_program: accounts[5].key,
            associated_token_program: accounts[6].key,
            rent: accounts[7].key,
        };
        Ok((ctx, c.done()))
    }
}

/// The pool the handler writes: the pool read from the created account (all zero)
/// with its bump, deposit mint, vault and admin set.
pub open spec fn created_pool(ctx: PoolCreatePool, bump: u8) -> Pool {
    Pool {
        bump,
        deposit_iou_mint: ctx.deposit_iou_mint,
        vault: ctx.vault,
        admin: ctx.admin,
        padding: fresh_padding(),
    }
}

/// What the handler writes: the pool, at its address.
pub open spec fn handler_writes(ctx: PoolCreatePool, bump: u8) -> Seq<StateWrite> {
    seq![StateWrite::Pool { key: ctx.pool, pool: created_pool(ctx, bump) }]
}

/// Records the pool's bump, deposit mint, vault and admin.
pub fn handler(ctx: &PoolCreatePool, bump: u8) -> (r: Plan)
    ensures
        r.view() == crate::plan::run(seq![], handler_writes(*ctx, bump)),
{
    let c = Course::new(Ghost(Seq::<Event>::empty()));
    let mut pool = Pool::default();
    pool.padding = zero_padding();
    pool.bump = bump;
    pool.deposit_iou_mint = ctx.deposit_iou_mint;
    pool.vault = ctx.vault;
    pool.admin = ctx.admin;
    let mut writes: Vec<StateWrite> = Vec::new();
    writes.push(StateWrite::Pool { key: ctx.pool, pool });
    assert(writes@ =~= handler_writes(*ctx, bump));
    c.finish(writes)
}

} // verus!
