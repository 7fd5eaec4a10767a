//! A user deposits into a mango account through a gateway and is handed as many IOU
//! tokens as they deposited.
use vstd::prelude::*;
use crate::account::{
    check_mut, check_present, check_program_at, check_rent_at, check_signer_at, err_of,
    gateway_at, load_token_account, mint_at, mut_check, present, program_at, read_gateway_at,
    read_mint_at, read_token_account, rent_at, signer_at, AccountInput,
};
use crate::address::{associated_address, check_seeds, find_associated_address, seeds_check};
use crate::error::ErrorCode;
use crate::iou::state::gateway::Gateway;
use crate::plan::{fails, Course, Cpi, Event, MintToContext, Plan, Step};
use crate::address::{base_seeds, SeedPrefix, Seeds};
use crate::pubkey::{
    associated_token_program_id, key_eq, system_program_id, token_program_id, zero_key, Pubkey,
    ASSOCIATED_TOKEN_PROGRAM_ID_BYTES, TOKEN_PROGRAM_ID_BYTES,
};

verus! {

/// The accounts of a deposit through the gateway, as they read once checked: in this
/// order, the mango program, the mango group, the mango cache, the root bank, the node
/// bank (mutable), the node bank's vault (mutable), the token account deposited from
/// (mutable), the mango account (mutable), the gateway (at the address its admin and
/// bump derive, naming the IOU mint and the deposited mint), the IOU mint (mutable, at
/// the address the deposited mint and the gateway's IOU mint bump derive), the
/// deposited mint, the depositor's IOU token account (created where it does not exist
/// yet), the payer (signer, mutable), the system, token and associated token programs
/// and the rent sysvar.
#[derive(Clone, Copy, PartialEq, Eq, Debug)]
pub struct IouDepositIntoMangoAccount {
    pub mango_program: Pubkey,
    pub mango_program_executable: bool,
    pub mango_group: Pubkey,
    pub mango_cache: Pubkey,
    pub root_bank: Pubkey,
    pub node_bank: Pubkey,
    pub node_bank_vault: Pubkey,
    pub owner_token_account: Pubkey,
    pub mango_account: Pubkey,
    pub gateway: Pubkey,
    pub gateway_state: Gateway,
    pub deposit_iou_mint: Pubkey,
    pub token_mint: Pubkey,
    pub deposit_iou_account: Pubkey,
    pub payer: Pubkey,
    pub system_program: Pubkey,
    pub token_program: Pubkey,
    pub associated_token_program: Pubkey,
    pub rent: Pubkey,
}

/// The course of the depositor's IOU token account, declared `init_if_needed`: an
/// account still held by the system program is created as the payer's associated token
/// account for the IOU mint (and is then that account); an existing one must read as a
/// token account of the IOU mint owned by the payer, be at the payer's associated token
/// address, and be rent exempt. Either way it must be writable.
pub open spec fn deposit_iou_account_events(accs: Seq<AccountInput>) -> Seq<Event> {
    let account = accs[11];
    let payer = accs[12].key;
    let mint = accs[9].key;
    if account.owner@ == zero_key() {
        seq![
            Event::Emit(
                Step {
                    cpi: Cpi::CreateAssociatedTokenAccount {
                        payer,
                        associated_token: account.key,
                        authority: payer,
                        mint,
                    },
                    abort_on_error: true,
                },
            ),
            Event::Require(mut_check(account)),
        ]
    } else {
        let token = load_token_account(account);
        seq![
            Event::Require(err_of(token)),
            Event::Require(
                if token->Ok_0.0 == mint@ {
                    None
                } else {
                    Some(ErrorCode::ConstraintTokenMint)
                },
            ),
            Event::Require(
                if token->Ok_0.1 == payer@ {
                    None
                } else {
                    Some(ErrorCode::ConstraintTokenOwner)
                },
            ),
            Event::Require(
                match associated_address(payer@, mint@) {
                    None => Some(ErrorCode::NoViableBump),
                    Some(k) => if k == account.key@ {
                        None
                    } else {
                        Some(ErrorCode::AccountNotAssociatedTokenAccount)
                    },
                },
            ),
            Event::Require(mut_check(account)),
            Event::Require(
                if account.rent_exempt {
                    None
                } else {
                    Some(ErrorCode::ConstraintRentExempt)
                },
            ),
        ]
    }
}

/// Records the course of the depositor's IOU token account; reports whether every
/// check passed.
fn init_deposit_iou_account(c: &mut Course, accounts: &Vec<AccountInput>) -> (ok: bool)
    requires
        old(c).wf(),
        old(c).live(),
        accounts@.len() > 12,
        old(c).events@.len() + deposit_iou_account_events(accounts@).len() <= old(
            c,
        ).planned@.len(),
        old(c).planned@.subrange(
            old(c).events@.len() as int,
            (old(c).events@.len() + deposit_iou_account_events(accounts@).len()) as int,
        ) == deposit_iou_account_events(accounts@),
    ensures
        final(c).wf(),
        final(c).planned == old(c).planned,
        ok ==> final(c).live() && final(c).events@.len() == old(c).events@.len()
            + deposit_iou_account_events(accounts@).len(),
        !ok ==> final(c).events@.len() > 0 && fails(final(c).events@.last()),
{
    let ghost n = c.events@.len() as int;
    let ghost planned = c.planned@;
    let ghost ev = deposit_iou_account_events(accounts@);
    assert forall|j: int| 0 <= j < ev.len() implies planned[n + j] == #[trigger] ev[j] by {
        assert(planned.subrange(n, n + ev.len())[j] == planned[n + j]);
    }
    let account = &accounts[11];
    let payer = &accounts[12].key;
    let mint = &accounts[9].key;
    if key_eq(&account.owner, &Pubkey::zeroed()) {
        assert(planned[n] == ev[0]);
        c.emit(
            Step {
                cpi: Cpi::CreateAssociatedTokenAccount {
                    payer: *payer,
                    associated_token: account.key,
                    authority: *payer,
                    mint: *mint,
                },
                abort_on_error: true,
            },
        );
        assert(planned[n + 1] == ev[1]);
        c.require(check_mut(account))
    } else {
        assert(planned[n] == ev[0]);
        let (token_mint, token_owner) = match read_token_account(account) {
            Ok(t) => {
                c.require(None);
                t
            },
            Err(e) => {
                c.require(Some(e));
                return false;
            },
        };
        assert(planned[n + 1] == ev[1]);
        let of_mint = if key_eq(&token_mint, mint) {
            None
        } else {
            Some(ErrorCode::ConstraintTokenMint)
        };
        if !c.require(of_mint) {
            return false;
        }
        assert(planned[n + 2] == ev[2]);
        let of_payer = if key_eq(&token_owner, payer) {
            None
        } else {
            Some(ErrorCode::ConstraintTokenOwner)
        };
        if !c.require(of_payer) {
            return false;
        }
        assert(planned[n + 3] == ev[3]);
        let at = match find_associated_address(payer, mint) {
            None => Some(ErrorCode::NoViableBump),
            Some(k) => if key_eq(&k, &account.key) {
                None
            } else {
                Some(ErrorCode::AccountNotAssociatedTokenAccount)
            },
        };
        if !c.require(at) {
            return false;
        }
        assert(planned[n + 4] == ev[4]);
        if !c.require(check_mut(account)) {
            return false;
        }
        assert(planned[n + 5] == ev[5]);
        c.require(
            if account.rent_exempt {
                None
            } else {
                Some(ErrorCode::ConstraintRentExempt)
            },
        )
    }
}

impl IouDepositIntoMangoAccount {
    /// The reads of the accounts as their types, in order (the IOU mint, an unchecked
    /// account, and the IOU token account, read by its own course, need only be there).
    pub open spec fn reads(accs: Seq<AccountInput>) -> Seq<Event> {
        seq![
            Event::Require(present(accs, 0)),
            Event::Require(present(accs, 1)),
            Event::Require(present(accs, 2)),
            Event::Require(present(accs, 3)),
            Event::Require(present(accs, 4)),
            Event::Require(present(accs, 5)),
            Event::Require(present(accs, 6)),
            Event::Require(present(accs, 7)),
            Event::Require(err_of(gateway_at(accs, 8))),
            Event::Require(present(accs, 9)),
            Event::Require(err_of(mint_at(accs, 10))),
            Event::Require(present(accs, 11)),
            Event::Require(signer_at(accs, 12)),
            Event::Require(program_at(accs, 13, zero_key())),
            Event::Require(program_at(accs, 14, TOKEN_PROGRAM_ID_BYTES@)),
            Event::Require(program_at(accs, 15, ASSOCIATED_TOKEN_PROGRAM_ID_BYTES@)),
            Event::Require(rent_at(accs, 16)),
        ]
    }

    /// The constraints of the accounts other than the IOU token account, in order: the
    /// mango accounts written to must be writable; the gateway must be at the address
    /// its admin and bump derive and name the IOU mint and the deposited mint; the IOU
    /// mint must be at the address the deposited mint and the gateway's IOU mint bump
    /// derive and be writable; the payer must be writable.
    pub open spec fn constraints(accs: Seq<AccountInput>) -> Seq<Event> {
        let gateway = gateway_at(accs, 8)->Ok_0;
        seq![
            Event::Require(mut_check(accs[4])),
            Event::Require(mut_check(accs[5])),
            Event::Require(mut_check(accs[6])),
            Event::Require(mut_check(accs[7])),
            Event::Require(
                seeds_check(
                    base_seeds(SeedPrefix::Gateway, gateway.admin@, None).push(seq![gateway.bump]),
                    accs[8].key@,
                ),
            ),
            Event::Require(
                if gateway.deposit_iou_mint@ == accs[9].key@ {
                    None
                } else {
                    Some(ErrorCode::ConstraintHasOne)
                },
            ),
            Event::Require(
                if gateway.token_mint@ == accs[10].key@ {
                    None
                } else {
                    Some(ErrorCode::ConstraintHasOne)
                },
            ),
            Event::Require(
                seeds_check(
                    base_seeds(SeedPrefix::NoPrefix, accs[10].key@, None).push(
                        seq![gateway.deposit_iou_mint_bump],
                    ),
                    accs[9].key@,
                ),
            ),
            Event::Require(mut_check(accs[9])),
            Event::Require(mut_check(accs[12])),
        ]
    }

    /// The checks of the accounts, in the order they are made: the reads, the course of
    /// the IOU token account, then the other constraints.
    pub open spec fn checks(accs: Seq<AccountInput>) -> Seq<Event> {
        Self::reads(accs) + deposit_iou_account_events(accs) + Self::constraints(accs)
    }

    /// The accounts as they read when every check passes.
    pub open spec fn from_inputs(accs: Seq<AccountInput>) -> IouDepositIntoMangoAccount {
        IouDepositIntoMangoAccount {
            mango_program: accs[0].key,
            mango_program_executable: accs[0].executable,
            mango_group: accs[1].key,
            mango_cache: accs[2].key,
            root_bank: accs[3].key,
            node_bank: accs[4].key,
            node_bank_vault: accs[5].key,
            owner_token_account: accs[6].key,
            mango_account: accs[7].key,
            gateway: accs[8].key,
            gateway_state: gateway_at(accs, 8)->Ok_0,
            deposit_iou_mint: accs[9].key,
            token_mint: accs[10].key,
            deposit_iou_account: accs[11].key,
            payer: accs[12].key,
            system_program: accs[13].key,
            token_program: accs[14].key,
            associated_token_program: accs[15].key,
            rent: accs[16].key,
        }
    }

    /// Reads and checks the accounts, creating the IOU token account where needed:
    /// either the accounts and the calls the checks make, or the plan of the failed
    /// check.
    pub fn try_accounts(accounts: &Vec<AccountInput>) -> (r: Result<
        (IouDepositIntoMangoAccount, Vec<Step>),
        Plan,
    >)
        ensures
            r matches Ok((ctx, steps)) ==> {
                &&& ctx == Self::from_inputs(accounts@)
                &&& steps@ == crate::plan::emitted(Self::checks(accounts@))
                &&& forall|i: int|
                    0 <= i < Self::checks(accounts@).len() ==> !crate::plan::fails(
                        #[trigger] Self::checks(accounts@)[i],
                    )
            },
            r matches Err(p) ==> {
                &&& p.view() == crate::plan::run(Self::checks(accounts@), seq![])
                &&& crate::plan::run(Self::checks(accounts@), seq![]).1 is Err
            },
    {
        let ghost accs = accounts@;
        let ghost planned = Self::checks(accs);
        let ghost reads = Self::reads(accs);
        let ghost own = deposit_iou_account_events(accs);
        let mut c = Course::new(Ghost(planned));
        assert(forall|j: int| 0 <= j < 17 ==> planned[j] == #[trigger] reads[j]);
        let mut i: usize = 0;
        while i < 8
            invariant
                0 <= i <= 8,
                c.wf(),
                c.live(),
                c.planned@ == planned,
                c.events@.len() == i,
                accounts@ == accs,
                planned == Self::checks(accs),
                forall|j: int| 0 <= j < 17 ==> planned[j] == #[trigger] reads[j],
                reads == Self::reads(accs),
            decreases 8 - i,
        {
            if !c.require(check_present(accounts, i)) {
                return Err(c.fail());
            }
            i = i + 1;
        }
        let gateway = match read_gateway_at(accounts, 8) {
            Ok(g) => {
                c.require(None);
                g
            },
            Err(e) => {
                c.require(Some(e));
                return Err(c.fail());
            },
        };
        if !c.require(check_present(accounts, 9)) {
            return Err(c.fail());
        }
        match read_mint_at(accounts, 10) {
            Ok(_) => {
                c.require(None);
            },
            Err(e) => {
                c.require(Some(e));
                return Err(c.fail());
            },
        }
        if !c.require(check_present(accounts, 11)) {
            return Err(c.fail());
        }
        if !c.require(check_signer_at(accounts, 12)) {
            return Err(c.fail());
        }
        if !c.require(check_program_at(accounts, 13, &system_program_id())) {
            return Err(c.fail());
        }
        if !c.require(check_program_at(accounts, 14, &token_program_id())) {
            return Err(c.fail());
        }
        if !c.require(check_program_at(accounts, 15, &associated_token_program_id())) {
            return Err(c.fail());
        }
        if !c.require(check_rent_at(accounts, 16)) {
            return Err(c.fail());
        }
        assert(planned.subrange(17, 17 + own.len() as int) =~= own);
        if !init_deposit_iou_account(&mut c, accounts) {
            return Err(c.fail());
        }
        let ghost m: int = 17 + own.len() as int;
        let ghost rest = Self::constraints(accs);
        assert(forall|j: int| 0 <= j < 10 ==> planned[m + j] == #[trigger] rest[j]);
        let mut k: usize = 4;
        while k < 8
            invariant
                4 <= k <= 8,
                c.wf(),
                c.live(),
                c.planned@ == planned,
                c.events@.len() == m + k - 4,
                accounts@ == accs,
                accs.len() >= 17,
                planned == Self::checks(accs),
                planned.len() == m + 10,
                rest == Self::constraints(accs),
                forall|j: int| 0 <= j < 10 ==> planned[m + j] == #[trigger] rest[j],
            decreases 8 - k,
        {
            if !c.require(check_mut(&accounts[k])) {
                return Err(c.fail());
            }
            k = k + 1;
        }
        let gateway_seeds = Seeds {
            prefix: SeedPrefix::Gateway,
            key: gateway.admin,
            second: None,
            bump: gateway.bump,
        };
        if !c.require(check_seeds(&gateway_seeds, &accounts[8].key)) {
            return Err(c.fail());
        }
        let names_iou_mint = if key_eq(&gateway.deposit_iou_mint, &accounts[9].key) {
            None
        } else {
            Some(ErrorCode::ConstraintHasOne)
        };
        if !c.require(names_iou_mint) {
            return Err(c.fail());
        }
        let names_token_mint = if key_eq(&gateway.token_mint, &accounts[10].key) {
            None
        } else {
            Some(ErrorCode::ConstraintHasOne)
        };
        if !c.require(names_token_mint) {
            return Err(c.fail());
        }
        let mint_seeds = Seeds {
            prefix: SeedPrefix::NoPrefix,
            key: accounts[10].key,
            second: None,
            bump: gateway.deposit_iou_mint_bump,
        };
        if !c.require(check_seeds(&mint_seeds, &accounts[9].key)) {
            return Err(c.fail());
        }
        if !c.require(check_mut(&accounts[9])) {
            return Err(c.fail());
        }
        if !c.require(check_mut(&accounts[12])) {
            return Err(c.fail());
        }
        let ctx = IouDepositIntoMangoAccount {
            mango_program: accounts[0].key,
            mango_program_executable: accounts[0].executable,
            mango_group: accounts[1].key,
            mango_cache: accounts[2].key,
            root_bank: accounts[3].key,
            node_bank: accounts[4].key,
            node_bank_vault: accounts[5].key,
            owner_token_account: accounts[6].key,
            mango_account: accounts[7].key,
            gateway: accounts[8].key,
            gateway_state: gateway,
            deposit_iou_mint: accounts[9].key,
            token_mint: accounts[10].key,
            deposit_iou_account: accounts[11].key,
            payer: accounts[12].key,
            system_program: accounts[13].key,
            token_program: accounts[14].key,
            associated_token_program: accounts[15].key,
            rent: accounts[16].key,
        };
        Ok((ctx, c.done()))
    }

    /// The seeds the gateway signs with: `gateway`, its admin and its bump.
    pub open spec fn gateway_signer(self) -> Seeds {
        Seeds {
            prefix: SeedPrefix::Gateway,
            key: self.gateway_state.admin,
            second: None,
            bump: self.gateway_state.bump,
        }
    }

    /// The context of the minting of IOU tokens: the token program mints the IOU mint to
    /// the depositor's IOU token account, the gateway being the mint's authority. It
    /// names no amount and signs for nobody; the handler adds both.
    pub open spec fn spec_iou_mint_context(self) -> MintToContext {
        MintToContext {
            token_program: self.token_program,
            mint: self.deposit_iou_mint,
            to: self.deposit_iou_account,
            authority: self.gateway,
        }
    }

    /// Builds the context of the minting of IOU tokens.
    pub fn iou_mint_context(&self) -> (r: MintToContext)
        ensures
            r == self.spec_iou_mint_context(),
    {
        MintToContext {
            token_program: self.token_program,
            mint: self.deposit_iou_mint,
            to: self.deposit_iou_account,
            authority: self.gateway,
        }
    }

    /// The minting of `quantity` IOU tokens in the IOU mint context, the gateway signing
    /// with its seeds.
    pub open spec fn spec_mint_iou(self, quantity: u64) -> Cpi {
        let m = self.spec_iou_mint_context();
        Cpi::MintTo {
            mint: m.mint,
            to: m.to,
            authority: m.authority,
            amount: quantity,
            signer: self.gateway_signer(),
        }
    }

    /// The deposit of `quantity` into the mango account: the payer is the owner of the
    /// mango account and of the token account deposited from.
    pub open spec fn spec_deposit(self, quantity: u64) -> Cpi {
        Cpi::MangoDeposit {
            mango_program: self.mango_program,
            mango_group: self.mango_group,
            mango_account: self.mango_account,
            owner: self.payer,
            mango_cache: self.mango_cache,
            root_bank: self.root_bank,
            node_bank: self.node_bank,
            node_bank_vault: self.node_bank_vault,
            owner_token_account: self.owner_token_account,
            system_program: self.system_program,
            token_program: self.token_program,
            quantity,
        }
    }

    /// Builds the deposit into the mango account.
    pub fn deposit(&self, quantity: u64) -> (r: Cpi)
        ensures
            r == self.spec_deposit(quantity),
    {
        Cpi::MangoDeposit {
            mango_program: self.mango_program,
            mango_group: self.mango_group,
            mango_account: self.mango_account,
            owner: self.payer,
            mango_cache: self.mango_cache,
            root_bank: self.root_bank,
            node_bank: self.node_bank,
            node_bank_vault: self.node_bank_vault,
            owner_token_account: self.owner_token_account,
            system_program: self.system_program,
            token_program: self.token_program,
            quantity,
        }
    }
}

/// The logging of the mango account's deposits, before or after the deposit.
pub open spec fn spec_log_deposits(ctx: IouDepositIntoMangoAccount, after_deposit: bool) -> Cpi {
    Cpi::LogMangoDeposits {
        mango_account: ctx.mango_account,
        mango_program: ctx.mango_program,
        mango_group: ctx.mango_group,
        after_deposit,
    }
}

/// Builds the logging of the mango account's deposits.
pub fn log_deposits(ctx: &IouDepositIntoMangoAccount, after_deposit: bool) -> (r: Cpi)
    ensures
        r == spec_log_deposits(*ctx, after_deposit),
{
    Cpi::LogMangoDeposits {
        mango_account: ctx.mango_account,
        mango_program: ctx.mango_program,
        mango_group: ctx.mango_group,
        after_deposit,
    }
}

/// What the handler does: the mango program must be a program; the mango account's
/// deposits are logged, `quantity` is deposited into it, its deposits are logged again,
/// and `quantity` IOU tokens are minted to the depositor's IOU token account. Nothing is
/// written.
pub open spec fn handler_events(ctx: IouDepositIntoMangoAccount, quantity: u64) -> Seq<Event> {
    seq![
        Event::Require(
            if ctx.mango_program_executable {
                None
            } else {
                Some(ErrorCode::NotAProgram)
            },
        ),
        Event::Emit(Step { cpi: spec_log_deposits(ctx, false), abort_on_error: true }),
        Event::Emit(Step { cpi: ctx.spec_deposit(quantity), abort_on_error: true }),
        Event::Emit(Step { cpi: spec_log_deposits(ctx, true), abort_on_error: true }),
        Event::Emit(Step { cpi: ctx.spec_mint_iou(quantity), abort_on_error: true }),
    ]
}

/// Deposits into the mango account and mints the IOU tokens.
pub fn handler(ctx: &IouDepositIntoMangoAccount, quantity: u64) -> (r: Plan)
    ensures
        r.view() == crate::plan::run(handler_events(*ctx, quantity), seq![]),
{
    let mut c = Course::new(Ghost(handler_events(*ctx, quantity)));
    if !c.require(
        if ctx.mango_program_executable {
            None
        } else {
            Some(ErrorCode::NotAProgram)
        },
    ) {
        return c.fail();
    }
    c.emit(Step { cpi: log_deposits(ctx, false), abort_on_error: true });
    c.emit(Step { cpi: ctx.deposit(quantity), abort_on_error: true });
    c.emit(Step { cpi: log_deposits(ctx, true), abort_on_error: true });
    let context = ctx.iou_mint_context();
    let signer = Seeds {
        prefix: SeedPrefix::Gateway,
        key: ctx.gateway_state.admin,
        second: None,
        bump: ctx.gateway_state.bump,
    };
    let mint = Cpi::MintTo {
        mint: context.mint,
        to: context.to,
        authority: context.authority,
        amount: quantity,
        signer,
    };
    c.emit(Step { cpi: mint, abort_on_error: true });
    c.finish(Vec::new())
}

} // verus!
