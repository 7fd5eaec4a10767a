//! A user deposits tokens into the vault of a pool they hold a pool account in.
use vstd::prelude::*;
use crate::account::{check_mut, check_program_at, check_signer_at, err_of, mut_check, pool_account_at, pool_at, program_at, read_pool_account_at, read_pool_at, read_token_account_at, signer_at, token_account_at, AccountInput};
use crate::address::{associated_token_check, check_associated_token, check_seeds, seeds_check};
use crate::error::ErrorCode;
use crate::plan::{Course, Cpi, Event, Plan, Step, TransferContext};
use crate::address::{base_seeds, SeedPrefix, Seeds};
use crate::pool::state::{Pool, PoolAccount};
use crate::pubkey::{key_eq, token_program_id, Pubkey, TOKEN_PROGRAM_ID_BYTES};

verus! {

/// The accounts of a deposit into a pool, as they read once checked: in this order,
/// the pool, the user's pool account, the pool's vault (mutable), the user's token
/// account to deposit from (mutable), the user (signer, mutable) and the token program.
#[derive(Clone, Copy, PartialEq, Eq, Debug)]
pub struct PoolDepositIntoPool {
    pub pool: Pubkey,
    pub pool_state: Pool,
    pub pool_account: Pubkey,
    pub pool_account_state: PoolAccount,
    pub vault: Pubkey,
    pub deposit_token: Pubkey,
    pub user: Pubkey,
    pub token_program: Pubkey,
}

impl PoolDepositIntoPool {
    /// The checks of the accounts, in the order they are made: each account is read as
    /// its type; then the pool must be at the address its admin and bump derive, the
    /// pool account at the address the pool, the user and its bump derive and belong to
    /// the user,
    /// the vault must be the pool's associated token account for the pool's deposit
    /// mint and writable, and the deposit token account writable and the user's, and
    /// the user writable.
    pub open spec fn checks(accs: Seq<AccountInput>) -> Seq<Event> {
        let pool = pool_at(accs, 0)->Ok_0;
        let pool_account = pool_account_at(accs, 1)->Ok_0;
        let vault = token_account_at(accs, 2)->Ok_0;
        let deposit_token = token_account_at(accs, 3)->Ok_0;
        seq![
            Event::Require(err_of(pool_at(accs, 0))),
            Event::Require(err_of(pool_account_at(accs, 1))),
            Event::Require(err_of(token_account_at(accs, 2))),
            Event::Require(err_of(token_account_at(accs, 3))),
            Event::Require(signer_at(accs, 4)),
            Event::Require(
                program_at(accs, 5, TOKEN_PROGRAM_ID_BYTES@),
            ),
            Event::Require(
                seeds_check(
                    base_seeds(SeedPrefix::Pool, pool.admin@, None).push(seq![pool.bump]),
                    accs[0].key@,
                ),
            ),
            Event::Require(
                seeds_check(
                    base_seeds(SeedPrefix::PoolAccount, accs[0].key@, Some(accs[4].key@)).push(
                        seq![pool_account.bump],
                    ),
                    accs[1].key@,
                ),
            ),
            Event::Require(
                if pool_account.owner@ == accs[4].key@ {
                    None
                } else {
                    Some(ErrorCode::ConstraintRaw)
                },
            ),
            Event::Require(
                associated_token_check(
                    vault.1,
                    accs[0].key@,
                    pool.deposit_iou_mint@,
                    accs[2].key@,
                ),
            ),
            Event::Require(mut_check(accs[2])),
            Event::Require(mut_check(accs[3])),
            Event::Require(
                if deposit_token.1 == accs[4].key@ {
                    None
                } else {
                    Some(ErrorCode::ConstraintRaw)
                },
            ),
            Event::Require(mut_check(accs[4])),
        ]
    }

    /// The accounts as they read when every check passes.
    pub open spec fn from_inputs(accs: Seq<AccountInput>) -> PoolDepositIntoPool {
        PoolDepositIntoPool {
            pool: accs[0].key,
            pool_state: pool_at(accs, 0)->Ok_0,
            pool_account: accs[1].key,
            pool_account_state: pool_account_at(accs, 1)->Ok_0,
            vault: accs[2].key,
            deposit_token: accs[3].key,
            user: accs[4].key,
            token_program: accs[5].key,
        }
    }

    /// Reads and checks the accounts: either the accounts and the calls the checks make
    /// (none here), or the plan of the failed check.
    pub fn try_accounts(accounts: &Vec<AccountInput>) -> (r: Result<
        (PoolDepositIntoPool, Vec<Step>),
        Plan,
    >)
        ensures
            r matches Ok((ctx, steps)) ==> {
                &&& ctx == Self::from_inputs(accounts@)
                &&& steps@ == crate::plan::emitted(Self::checks(accounts@))
                &&& forall|i: int|
                    0 <= i < Self::checks(accounts@).len() ==> !crate::plan::fails(
                        #[trigger] Self::checks(accounts@)[i],
                    )
            },
            r matches Err(p) ==> {
                &&& p.view() == crate::plan::run(Self::checks(accounts@), seq![])
                &&& crate::plan::run(Self::checks(accounts@), seq![]).1 is Err
            },
    {
        let ghost accs = accounts@;
        let mut c = Course::new(Ghost(Self::checks(accs)));
        // The accounts, each read as its type.
        let pool = read_pool_at(accounts, 0);
        let pool = match pool {
            Ok(p) => {
                c.require(None);
                p
            },
            Err(e) => {
                c.require(Some(e));
                return Err(c.fail());
            },
        };
        let pool_account = read_pool_account_at(accounts, 1);
        let pool_account = match pool_account {
            Ok(p) => {
                c.require(None);
                p
            },
            Err(e) => {
                c.require(Some(e));
                return Err(c.fail());
            },
        };
        let vault = read_token_account_at(accounts, 2);
        let (_vault_mint, vault_owner) = match vault {
            Ok(v) => {
                c.require(None);
                v
            },
            Err(e) => {
                c.require(Some(e));
                return Err(c.fail());
            },
        };
        let deposit_token = read_token_account_at(accounts, 3);
        let (_deposit_mint, deposit_owner) = match deposit_token {
            Ok(v) => {
                c.require(None);
                v
            },
            Err(e) => {
                c.require(Some(e));
                return Err(c.fail());
            },
        };
        let user = check_signer_at(accounts, 4);
        if !c.require(user) {
            return Err(c.fail());
        }
        let token_program = check_program_at(accounts, 5, &token_program_id());
        if !c.require(token_program) {
            return Err(c.fail());
        }
        // The constraints, account by account.
        let pool_seeds = Seeds {
            prefix: SeedPrefix::Pool,
            key: pool.admin,
            second: None,
            bump: pool.bump,
        };
        if !c.require(check_seeds(&pool_seeds, &accounts[0].key)) {
            return Err(c.fail());
        }
        let account_seeds = Seeds {
            prefix: SeedPrefix::PoolAccount,
            key: accounts[0].key,
            second: Some(accounts[4].key),
            bump: pool_account.bump,
        };
        if !c.require(check_seeds(&account_seeds, &accounts[1].key)) {
            return Err(c.fail());
        }
        let owned = if key_eq(&pool_account.owner, &accounts[4].key) {
            None
        } else {
            Some(ErrorCode::ConstraintRaw)
        };
        if !c.require(owned) {
            return Err(c.fail());
        }
        let associated = check_associated_token(
            &vault_owner,
            &accounts[0].key,
            &pool.deposit_iou_mint,
            &accounts[2].key,
        );
        if !c.require(associated) {
            return Err(c.fail());
        }
        if !c.require(check_mut(&accounts[2])) {
            return Err(c.fail());
        }
        if !c.require(check_mut(&accounts[3])) {
            return Err(c.fail());
        }
        let depositor = if key_eq(&deposit_owner, &accounts[4].key) {
            None
        } else {
            Some(ErrorCode::ConstraintRaw)
        };
        if !c.require(depositor) {
            return Err(c.fail());
        }
        if !c.require(check_mut(&accounts[4])) {
            return Err(c.fail());
        }
        let ctx = PoolDepositIntoPool {
            pool: accounts[0].key,
            pool_state: pool,
            pool_account: accounts[1].key,
            pool_account_state: pool_account,
            vault: accounts[2].key,
            deposit_token: accounts[3].key,
            user: accounts[4].key,
            token_program: accounts[5].key,
        };
        Ok((ctx, c.done()))
    }

    /// The context of the deposit's transfer: the token program moves from the user's
    /// token account to the vault, the user being the authority. It names no amount;
    /// the handler adds it.
    pub open spec fn spec_transfer_ctx(self) -> TransferContext {
        TransferContext {
            token_program: self.token_program,
            from: self.deposit_token,
            to: self.vault,
            authority: self.user,
        }
    }

    /// Builds the context of the deposit's transfer.
    pub fn transfer_ctx(&self) -> (r: TransferContext)
        ensures
            r == self.spec_transfer_ctx(),
    {
        TransferContext {
            token_program: self.token_program,
            from: self.deposit_token,
            to: self.vault,
            authority: self.user,
        }
    }

    /// The transfer of `amount` in the deposit's transfer context.
    pub open spec fn spec_transfer(self, amount: u64) -> Cpi {
        let t = self.spec_transfer_ctx();
        Cpi::Transfer { from: t.from, to: t.to, authority: t.authority, amount }
    }
}

/// What the handler does: transfer `amount` into the vault. Nothing is recorded on the
/// pool account.
pub open spec fn handler_events(ctx: PoolDepositIntoPool, amount: u64) -> Seq<Event> {
    seq![Event::Emit(Step { cpi: ctx.spec_transfer(amount), abort_on_error: true })]
}

/// Transfers the deposit into the pool's vault.
pub fn handler(ctx: &PoolDepositIntoPool, amount: u64) -> (r: Plan)
    ensures
        r.view() == crate::plan::run(handler_events(*ctx, amount), seq![]),
{
    let mut c = Course::new(Ghost(handler_events(*ctx, amount)));
    let context = ctx.transfer_ctx();
    let transfer = Cpi::Transfer {
        from: context.from,
        to: context.to,
        authority: context.authority,
        amount,
    };
    c.emit(Step { cpi: transfer, abort_on_error: true });
    c.finish(Vec::new())
}

} // verus!
