//! Creating a pool of the first version, with a vault for USDC deposits.
use vstd::prelude::*;
use crate::account::{
    check_mut, check_present, check_program_at, check_rent_at, check_signer_at, err_of,
    err_result, mint_at, mut_check, present, program_at, read_mint_at, rent_at, signer_at,
    AccountInput,
};
use crate::error::ErrorCode;
use crate::ids::usdc_token;
use crate::init::{init_derived_account, init_derived_events};
use crate::layout::{fresh_padding, zero_padding};
use crate::plan::{Course, Cpi, Event, Plan, StateWrite, Step};
use crate::address::{SeedPrefix};
use crate::pubkey::{
    associated_token_program_id, key_eq, program_id, program_key, system_program_id,
    token_program_id, zero_key, zero_pubkey, Pubkey, ASSOCIATED_TOKEN_PROGRAM_ID_BYTES,
    TOKEN_PROGRAM_ID_BYTES,
};
use crate::state::pool::{Pool, POOL_SPACE};

verus! {

/// The accounts of the creation of a pool of the first version, by their keys once
/// checked: in this order, the pool (created, at the address `pool` and the payer
/// derive), the vault (created, the pool's associated token account for the deposit
/// mint), the deposit mint (which must be USDC), the payer (signer, mutable), the
/// system, token and associated token programs and the rent sysvar.
#[derive(Clone, Copy, PartialEq, Eq, Debug)]
pub struct CreatePool {
    pub pool: Pubkey,
    pub vault: Pubkey,
    pub deposit_mint: Pubkey,
    pub payer: Pubkey,
    pub system_program: Pubkey,
    pub token_program: Pubkey,
    pub associated_token_program: Pubkey,
    pub rent: Pubkey,
}

impl CreatePool {
    /// The checks of the accounts, in the order they are made: each account is read as
    /// its type (the created ones need only be there); the pool is created at the
    /// address its seeds derive with the canonical bump, which must be `pool_bump`; the
    /// vault is created as the pool's associated token account for the deposit mint and
    /// must be writable; the deposit mint must be USDC; the payer must be writable.
    pub open spec fn checks(accs: Seq<AccountInput>, pool_bump: u8) -> Seq<Event> {
        seq![
            Event::Require(present(accs, 0)),
            Event::Require(present(accs, 1)),
            Event::Require(err_of(mint_at(accs, 2))),
            Event::Require(signer_at(accs, 3)),
            Event::Require(program_at(accs, 4, zero_key())),
            Event::Require(program_at(accs, 5, TOKEN_PROGRAM_ID_BYTES@)),
            Event::Require(program_at(accs, 6, ASSOCIATED_TOKEN_PROGRAM_ID_BYTES@)),
            Event::Require(rent_at(accs, 7)),
        ] + init_derived_events(
            accs[3].key,
            accs[0],
            POOL_SPACE,
            program_key(),
            SeedPrefix::Pool,
            accs[3].key,
            None,
            pool_bump,
        ) + seq![
            Event::Emit(
                Step {
                    cpi: Cpi::CreateAssociatedTokenAccount {
                        payer: accs[3].key,
                        associated_token: accs[1].key,
                        authority: accs[0].key,
                        mint: accs[2].key,
                    },
                    abort_on_error: true,
                },
            ),
            Event::Require(mut_check(accs[1])),
            Event::Require(
                if accs[2].key@ == usdc_token::ID_BYTES@ {
                    None
                } else {
                    Some(ErrorCode::ConstraintRaw)
                },
            ),
            Event::Require(mut_check(accs[3])),
        ]
    }

    /// The accounts as they read when every check passes.
    pub open spec fn from_inputs(accs: Seq<AccountInput>) -> CreatePool {
        CreatePool {
            pool: accs[0].key,
            vault: accs[1].key,
            deposit_mint: accs[2].key,
            payer: accs[3].key,
            system_program: accs[4].key,
            token_program: accs[5].key,
            associated_token_program: accs[6].key,
            rent: accs[7].key,
        }
    }

    /// Reads and checks the accounts, creating the pool and the vault: either the
    /// accounts and the calls the checks make, or the plan of the failed check.
    pub fn try_accounts(accounts: &Vec<AccountInput>, pool_bump: u8) -> (r: Result<
        (CreatePool, Vec<Step>),
        Plan,
    >)
        ensures
            r matches Ok((ctx, steps)) ==> {
                &&& ctx == Self::from_inputs(accounts@)
                &&& steps@ == crate::plan::emitted(Self::checks(accounts@, pool_bump))
                &&& forall|i: int|
                    0 <= i < Self::checks(accounts@, pool_bump).len() ==> !crate::plan::fails(
                        #[trigger] Self::checks(accounts@, pool_bump)[i],
                    )
            },
            r is Ok ==> crate::address::derived_with_bump(
                SeedPrefix::Pool,
                accounts@[3].key@,
                None,
                pool_bump,
                accounts@[0].key@,
            ),
            r matches Err(p) ==> {
                &&& p.view() == crate::plan::run(Self::checks(accounts@, pool_bump), seq![])
                &&& crate::plan::run(Self::checks(accounts@, pool_bump), seq![]).1 is Err
            },
    {
        let ghost accs = accounts@;
        let ghost planned = Self::checks(accs, pool_bump);
        let mut c = Course::new(Ghost(planned));
        if !c.require(check_present(accounts, 0)) {
            return Err(c.fail());
        }
        if !c.require(check_present(accounts, 1)) {
            return Err(c.fail());
        }
        if !c.require(err_result(read_mint_at(accounts, 2))) {
            return Err(c.fail());
        }
        if !c.require(check_signer_at(accounts, 3)) {
            return Err(c.fail());
        }
        if !c.require(check_program_at(accounts, 4, &system_program_id())) {
            return Err(c.fail());
        }
        if !c.require(check_program_at(accounts, 5, &token_program_id())) {
            return Err(c.fail());
        }
        if !c.require(check_program_at(accounts, 6, &associated_token_program_id())) {
            return Err(c.fail());
        }
        if !c.require(check_rent_at(accounts, 7)) {
            return Err(c.fail());
        }
        assert(planned.subrange(8, 13) =~= init_derived_events(
            accs[3].key,
            accs[0],
            POOL_SPACE,
            program_key(),
            SeedPrefix::Pool,
            accs[3].key,
            None,
            pool_bump,
        ));
        if !init_derived_account(
            &mut c,
            &accounts[3].key,
            &accounts[0],
            POOL_SPACE,
            &program_id(),
            SeedPrefix::Pool,
            &accounts[3].key,
            None,
            pool_bump,
        ) {
            return Err(c.fail());
        }
        c.emit(
            Step {
                cpi: Cpi::CreateAssociatedTokenAccount {
                    payer: accounts[3].key,
                    associated_token: accounts[1].key,
                    authority: accounts[0].key,
                    mint: accounts[2].key,
                },
                abort_on_error: true,
            },
        );
        if !c.require(check_mut(&accounts[1])) {
            return Err(c.fail());
        }
        let usdc = if key_eq(&accounts[2].key, &usdc_token::id()) {
            None
        } else {
            Some(ErrorCode::ConstraintRaw)
        };
        if !c.require(usdc) {
            return Err(c.fail());
        }
        if !c.require(check_mut(&accounts[3])) {
            return Err(c.fail());
        }
        let ctx = CreatePool {
            pool: accounts[0].key,
            vault: accounts[1].key,
            deposit_mint: accounts[2].key,
            payer: accounts[3].key,
            system_program: accounts[4].key,
            token_program: accounts[5].key,
            associated_token_program: accounts[6].key,
            rent: accounts[7].key,
        };
        Ok((ctx, c.done()))
    }
}

/// The pool the handler writes: the one read from the created account (all zero)
/// with only its vault set; its bump, deposit mint and admin stay zero.
pub open spec fn created_pool(ctx: CreatePool) -> Pool {
    Pool {
        bump: 0,
        deposit_mint: zero_pubkey(),
        vault: ctx.vault,
        admin: zero_pubkey(),
        padding: fresh_padding(),
    }
}

/// What the handler writes: the pool, at its address.
pub open spec fn handler_writes(ctx: CreatePool) -> Seq<StateWrite> {
    seq![StateWrite::LegacyPool { key: ctx.pool, legacy_pool: created_pool(ctx) }]
}

/// Records the pool's vault.
pub fn handler(ctx: &CreatePool) -> (r: Plan)
    ensures
        r.view() == crate::plan::run(seq![], handler_writes(*ctx)),
{
    let c = Course::new(Ghost(Seq::<Event>::empty()));
    let mut pool = Pool {
        bump: 0,
        deposit_mint: Pubkey::zeroed(),
        vault: Pubkey::zeroed(),
        admin: Pubkey::zeroed(),
        padding: zero_padding(),
    };
    pool.vault = ctx.vault;
    let mut writes: Vec<StateWrite> = Vec::new();
    writes.push(StateWrite::LegacyPool { key: ctx.pool, legacy_pool: pool });
    assert(writes@ =~= handler_writes(*ctx));
    c.finish(writes)
}

} // verus!
