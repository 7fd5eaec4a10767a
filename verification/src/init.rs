//! Creating the accounts an instruction declares with `init`: a program derived account
//! is created through the system program at the address its seeds and canonical bump
//! derive, then checked against the bump the instruction was given.
use vstd::prelude::*;
use crate::account::{check_mut, mut_check, AccountInput};
use crate::address::{derived_address, derived_with_bump, find_derived_address};
use crate::error::ErrorCode;
use crate::plan::{fails, Course, Cpi, Event, Step};
use crate::address::{key_view, SeedPrefix, Seeds};
use crate::pubkey::{key_eq, Pubkey};

verus! {

/// The call that creates `account`: a plain creation where it holds no lamports, else a
/// top-up, allocation and assignment.
pub open spec fn create_cpi(
    payer: Pubkey,
    account: AccountInput,
    space: u64,
    owner: Pubkey,
    signer: Seeds,
) -> Cpi {
    if account.lamports == 0 {
        Cpi::CreateAccount { payer, account: account.key, space, owner, signer }
    } else {
        Cpi::TopUpAllocateAssign {
            payer,
            account: account.key,
            current_lamports: account.lamports,
            space,
            owner,
            signer,
        }
    }
}

/// Builds the call that creates `account`.
pub fn create_account_cpi(
    payer: &Pubkey,
    account: &AccountInput,
    space: u64,
    owner: &Pubkey,
    signer: Seeds,
) -> (r: Cpi)
    ensures
        r == create_cpi(*payer, *account, space, *owner, signer),
{
    if account.lamports == 0 {
        Cpi::CreateAccount { payer: *payer, account: account.key, space, owner: *owner, signer }
    } else {
        Cpi::TopUpAllocateAssign {
            payer: *payer,
            account: account.key,
            current_lamports: account.lamports,
            space,
            owner: *owner,
            signer,
        }
    }
}

/// The course of an `init` account with seeds `prefix` and `seed_key` and the given
/// bump: the search for its canonical bump (which panics where none is found), its
/// creation signed with the canonical bump, then the checks that it is at the derived
/// address, that the given bump is the canonical one, and that it is writable. (That the
/// created account then reads as its type, and is rent exempt, holds of any creation
/// that succeeded.)
pub open spec fn init_derived_events(
    payer: Pubkey,
    account: AccountInput,
    space: u64,
    owner: Pubkey,
    prefix: SeedPrefix,
    seed_key: Pubkey,
    second: Option<Pubkey>,
    bump: u8,
) -> Seq<Event> {
    let found = derived_address(prefix, seed_key@, key_view(second));
    let pda = found->Some_0.0;
    let canonical = found->Some_0.1;
    seq![
        Event::Require(
            if found is Some {
                None
            } else {
                Some(ErrorCode::NoViableBump)
            },
        ),
        Event::Emit(
            Step {
                cpi: create_cpi(
                    payer,
                    account,
                    space,
                    owner,
                    Seeds { prefix, key: seed_key, second, bump: canonical },
                ),
                abort_on_error: true,
            },
        ),
        Event::Require(
            if account.key@ == pda {
                None
            } else {
                Some(ErrorCode::ConstraintSeeds)
            },
        ),
        Event::Require(
            if canonical == bump {
                None
            } else {
                Some(ErrorCode::ConstraintSeeds)
            },
        ),
        Event::Require(mut_check(account)),
    ]
}

/// Records the course of an `init` program derived account; reports whether every
/// check passed.
pub fn init_derived_account(
    c: &mut Course,
    payer: &Pubkey,
    account: &AccountInput,
    space: u64,
    owner: &Pubkey,
    prefix: SeedPrefix,
    seed_key: &Pubkey,
    second: Option<Pubkey>,
    bump: u8,
) -> (ok: bool)
    requires
        old(c).wf(),
        old(c).live(),
        old(c).events@.len() + 5 <= old(c).planned@.len(),
        old(c).planned@.subrange(old(c).events@.len() as int, old(c).events@.len() + 5int)
            == init_derived_events(*payer, *account, space, *owner, prefix, *seed_key, second, bump),
    ensures
        final(c).wf(),
        final(c).planned == old(c).planned,
        ok ==> final(c).live() && final(c).events@.len() == old(c).events@.len() + 5,
        ok ==> derived_with_bump(prefix, seed_key@, key_view(second), bump, account.key@),
        !ok ==> final(c).events@.len() > 0 && fails(final(c).events@.last()),
{
    let ghost n = c.events@.len() as int;
    let ghost planned = c.planned@;
    let ghost ev = init_derived_events(*payer, *account, space, *owner, prefix, *seed_key, second, bump);
    assert(forall|j: int| 0 <= j < 5 ==> planned[n + j] == #[trigger] ev[j]) by {
        assert forall|j: int| 0 <= j < 5 implies planned[n + j] == #[trigger] ev[j] by {
            assert(planned.subrange(n, n + 5)[j] == planned[n + j]);
        }
    }
    assert(planned[n] == ev[0]);
    match find_derived_address(prefix, seed_key, second) {
        None => {
            c.require(Some(ErrorCode::NoViableBump));
            false
        },
        Some((pda, canonical)) => {
            c.require(None);
            assert(planned[n + 1] == ev[1]);
            let signer = Seeds { prefix, key: *seed_key, second, bump: canonical };
            c.emit(
                Step {
                    cpi: create_account_cpi(payer, account, space, owner, signer),
                    abort_on_error: true,
                },
            );
            assert(planned[n + 2] == ev[2]);
            let at = if key_eq(&account.key, &pda) {
                None
            } else {
                Some(ErrorCode::ConstraintSeeds)
            };
            if !c.require(at) {
                return false;
            }
            assert(planned[n + 3] == ev[3]);
            let canonical_given = if canonical == bump {
                None
            } else {
                Some(ErrorCode::ConstraintSeeds)
            };
            if !c.require(canonical_given) {
                return false;
            }
            assert(planned[n + 4] == ev[4]);
            c.require(check_mut(account))
        },
    }
}

/// An `init` course whose checks all pass makes one call: the creation of the account,
/// signed with the bump it was given.
pub proof fn lemma_init_derived_calls(
    payer: Pubkey,
    account: AccountInput,
    space: u64,
    owner: Pubkey,
    prefix: SeedPrefix,
    seed_key: Pubkey,
    second: Option<Pubkey>,
    bump: u8,
)
    requires
        forall|i: int|
            0 <= i < 5 ==> !fails(
                #[trigger] init_derived_events(payer, account, space, owner, prefix, seed_key, second, bump)[i],
            ),
    ensures
        crate::plan::emitted(init_derived_events(payer, account, space, owner, prefix, seed_key, second, bump))
            == seq![
            Step {
                cpi: create_cpi(payer, account, space, owner, Seeds {
                    prefix,
                    key: seed_key,
                    second,
                    bump,
                }),
                abort_on_error: true,
            },
        ],
{
    let ev = init_derived_events(payer, account, space, owner, prefix, seed_key, second, bump);
    assert(!fails(ev[0]));
    assert(!fails(ev[3]));
    reveal_with_fuel(crate::plan::emitted, 6);
}

/// An `init` course whose checks all pass leaves the account at the address its seeds
/// derive, with the bump it was given as the canonical one.
pub proof fn lemma_init_derived_places(
    payer: Pubkey,
    account: AccountInput,
    space: u64,
    owner: Pubkey,
    prefix: SeedPrefix,
    seed_key: Pubkey,
    second: Option<Pubkey>,
    bump: u8,
)
    requires
        forall|i: int|
            0 <= i < 5 ==> !fails(
                #[trigger] init_derived_events(payer, account, space, owner, prefix, seed_key, second, bump)[i],
            ),
    ensures
        derived_with_bump(prefix, seed_key@, key_view(second), bump, account.key@),
{
    let ev = init_derived_events(payer, account, space, owner, prefix, seed_key, second, bump);
    assert(!fails(ev[0]));
    assert(!fails(ev[2]));
    assert(!fails(ev[3]));
    crate::outside::lemma_find_from_bump(
        crate::address::base_seeds(prefix, seed_key@, key_view(second)),
        crate::pubkey::PROGRAM_ID_BYTES@,
        255,
    );
}

} // verus!
