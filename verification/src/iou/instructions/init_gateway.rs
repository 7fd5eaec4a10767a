//! An admin opens a gateway for a mint, with the IOU mint it hands out for deposits.
use vstd::prelude::*;
use crate::account::{
    check_present, check_program_at, check_rent_at, check_signer_at, err_of, mint_at, present,
    program_at, read_mint_at, rent_at, signer_at, AccountInput,
};
use crate::init::{init_derived_account, init_derived_events};
use crate::iou::state::gateway::{Gateway, GATEWAY_SPACE};
use crate::layout::{fresh_padding, zero_padding};
use crate::plan::{Course, Cpi, Event, InitializeMintContext, Plan, StateWrite, Step};
use crate::address::{SeedPrefix};
use crate::pubkey::{
    program_id, program_key, system_program_id, token_key, token_program_id, zero_key, Pubkey,
    TOKEN_PROGRAM_ID_BYTES,
};

verus! {

/// The space a mint is created with.
pub const MINT_SPACE: u64 = 82;

/// The accounts of the opening of a gateway, as they read once checked: in this order,
/// the gateway (created, at the address `gateway` and the admin derive), the IOU mint
/// (created for the token program, at the address the deposited mint derives), the
/// mint of the token deposited through the gateway, the admin (signer, paying), the
/// system and token programs and the rent sysvar.
#[derive(Clone, Copy, PartialEq, Eq, Debug)]
pub struct IouInitGateway {
    pub gateway: Pubkey,
    pub deposit_iou_mint: Pubkey,
    pub token_mint: Pubkey,
    pub token_mint_decimals: u8,
    pub admin: Pubkey,
    pub system_program: Pubkey,
    pub token_program: Pubkey,
    pub rent: Pubkey,
}

impl IouInitGateway {
    /// The checks of the accounts, in the order they are made: each account is read as
    /// its type (the two created ones need only be there); the gateway is created at the
    /// address its seeds derive with the canonical bump, which must be `gateway_bump`;
    /// the IOU mint is created for the token program with the size of a mint at the
    /// address the deposited mint derives, with the canonical bump, which must be
    /// `deposit_iou_mint_bump`; both must be writable. (The IOU mint is then owned by the
    /// token program, as its declaration requires, since its creation succeeded.)
    pub open spec fn checks(accs: Seq<AccountInput>, gateway_bump: u8, deposit_iou_mint_bump: u8) -> Seq<
        Event,
    > {
        seq![
            Event::Require(present(accs, 0)),
            Event::Require(present(accs, 1)),
            Event::Require(err_of(mint_at(accs, 2))),
            Event::Require(signer_at(accs, 3)),
            Event::Require(program_at(accs, 4, zero_key())),
            Event::Require(program_at(accs, 5, TOKEN_PROGRAM_ID_BYTES@)),
            Event::Require(rent_at(accs, 6)),
        ] + init_derived_events(
            accs[3].key,
            accs[0],
            GATEWAY_SPACE,
            program_key(),
            SeedPrefix::Gateway,
            accs[3].key,
            None,
            gateway_bump,
        ) + init_derived_events(
            accs[3].key,
            accs[1],
            MINT_SPACE,
            token_key(),
            SeedPrefix::NoPrefix,
            accs[2].key,
            None,
            deposit_iou_mint_bump,
        )
    }

    /// The accounts as they read when every check passes.
    pub open spec fn from_inputs(accs: Seq<AccountInput>) -> IouInitGateway {
        IouInitGateway {
            gateway: accs[0].key,
            deposit_iou_mint: accs[1].key,
            token_mint: accs[2].key,
            token_mint_decimals: mint_at(accs, 2)->Ok_0,
            admin: accs[3].key,
            system_program: accs[4].key,
            token_program: accs[5].key,
            rent: accs[6].key,
        }
    }

    /// Reads and checks the accounts, creating the gateway and the IOU mint: either the
    /// accounts and the calls the checks make, or the plan of the failed check.
    pub fn try_accounts(accounts: &Vec<AccountInput>, gateway_bump: u8, deposit_iou_mint_bump: u8) -> (r:
        Result<(IouInitGateway, Vec<Step>), Plan>)
        ensures
            r matches Ok((ctx, steps)) ==> {
                &&& ctx == Self::from_inputs(accounts@)
                &&& steps@ == crate::plan::emitted(
                    Self::checks(accounts@, gateway_bump, deposit_iou_mint_bump),
                )
                &&& forall|i: int|
                    0 <= i < Self::checks(accounts@, gateway_bump, deposit_iou_mint_bump).len()
                        ==> !crate::plan::fails(
                        #[trigger] Self::checks(accounts@, gateway_bump, deposit_iou_mint_bump)[i],
                    )
            },
            r is Ok ==> crate::address::derived_with_bump(
                SeedPrefix::Gateway,
                accounts@[3].key@,
                None,
                gateway_bump,
                accounts@[0].key@,
            ),
            r is Ok ==> crate::address::derived_with_bump(
                SeedPrefix::NoPrefix,
                accounts@[2].key@,
                None,
                deposit_iou_mint_bump,
                accounts@[1].key@,
            ),
            r matches Err(p) ==> {
                &&& p.view() == crate::plan::run(
                    Self::checks(accounts@, gateway_bump, deposit_iou_mint_bump),
                    seq![],
                )
                &&& crate::plan::run(
                    Self::checks(accounts@, gateway_bump, deposit_iou_mint_bump),
                    seq![],
                ).1 is Err
            },
    {
        let ghost accs = accounts@;
        let ghost planned = Self::checks(accs, gateway_bump, deposit_iou_mint_bump);
        let mut c = Course::new(Ghost(planned));
        if !c.require(check_present(accounts, 0)) {
            return Err(c.fail());
        }
        if !c.require(check_present(accounts, 1)) {
            return Err(c.fail());
        }
        let decimals = match read_mint_at(accounts, 2) {
            Ok(d) => {
                c.require(None);
                d
            },
            Err(e) => {
                c.require(Some(e));
                return Err(c.fail());
            },
        };
        if !c.require(check_signer_at(accounts, 3)) {
            return Err(c.fail());
        }
        if !c.require(check_program_at(accounts, 4, &system_program_id())) {
            return Err(c.fail());
        }
        if !c.require(check_program_at(accounts, 5, &token_program_id())) {
            return Err(c.fail());
        }
        if !c.require(check_rent_at(accounts, 6)) {
            return Err(c.fail());
        }
        assert(planned.subrange(7, 12) =~= init_derived_events(
            accs[3].key,
            accs[0],
            GATEWAY_SPACE,
            program_key(),
            SeedPrefix::Gateway,
            accs[3].key,
            None,
            gateway_bump,
        ));
        if !init_derived_account(
            &mut c,
            &accounts[3].key,
            &accounts[0],
            GATEWAY_SPACE,
            &program_id(),
            SeedPrefix::Gateway,
            &accounts[3].key,
            None,
            gateway_bump,
        ) {
            return Err(c.fail());
        }
        assert(planned.subrange(12, 17) =~= init_derived_events(
            accs[3].key,
            accs[1],
            MINT_SPACE,
            token_key(),
            SeedPrefix::NoPrefix,
            accs[2].key,
            None,
            deposit_iou_mint_bump,
        ));
        if !init_derived_account(
            &mut c,
            &accounts[3].key,
            &accounts[1],
            MINT_SPACE,
            &token_program_id(),
            SeedPrefix::NoPrefix,
            &accounts[2].key,
            None,
            deposit_iou_mint_bump,
        ) {
            return Err(c.fail());
        }
        let ctx = IouInitGateway {
            gateway: accounts[0].key,
            deposit_iou_mint: accounts[1].key,
            token_mint: accounts[2].key,
            token_mint_decimals: decimals,
            admin: accounts[3].key,
            system_program: accounts[4].key,
            token_program: accounts[5].key,
            rent: accounts[6].key,
        };
        Ok((ctx, c.done()))
    }

    /// The context of the initialization of the IOU mint: the token program initializes
    /// the IOU mint, reading the rent sysvar. The decimals and the authorities are given
    /// when the call is made.
    pub open spec fn spec_init_deposit_iou_mint_context(self) -> InitializeMintContext {
        InitializeMintContext {
            token_program: self.token_program,
            mint: self.deposit_iou_mint,
            rent: self.rent,
        }
    }

    /// Builds the context of the initialization of the IOU mint.
    pub fn init_deposit_iou_mint_context(&self) -> (r: InitializeMintContext)
        ensures
            r == self.spec_init_deposit_iou_mint_context(),
    {
        InitializeMintContext {
            token_program: self.token_program,
            mint: self.deposit_iou_mint,
            rent: self.rent,
        }
    }

    /// The initialization of the IOU mint, in its context: the decimals of the
    /// deposited mint, the gateway as mint and freeze authority.
    pub open spec fn spec_init_mint(self) -> Cpi {
        Cpi::InitializeMint {
            mint: self.spec_init_deposit_iou_mint_context().mint,
            decimals: self.token_mint_decimals,
            mint_authority: self.gateway,
            freeze_authority: self.gateway,
        }
    }

    /// Builds the initialization of the IOU mint.
    pub fn init_mint(&self) -> (r: Cpi)
        ensures
            r == self.spec_init_mint(),
    {
        let m = self.init_deposit_iou_mint_context();
        Cpi::InitializeMint {
            mint: m.mint,
            decimals: self.token_mint_decimals,
            mint_authority: self.gateway,
            freeze_authority: self.gateway,
        }
    }
}

/// What the handler does: it initializes the IOU mint, dropping the call's result.
pub open spec fn handler_events(ctx: IouInitGateway) -> Seq<Event> {
    seq![Event::Emit(Step { cpi: ctx.spec_init_mint(), abort_on_error: false })]
}

/// The gateway the handler writes: the one read from the created account (all zero)
/// with the deposited mint, both bumps, the IOU mint and the admin set.
pub open spec fn created_gateway(ctx: IouInitGateway, gateway_bump: u8, deposit_iou_mint_bump: u8) -> Gateway {
    Gateway {
        token_mint: ctx.token_mint,
        bump: gateway_bump,
        deposit_iou_mint_bump,
        deposit_iou_mint: ctx.deposit_iou_mint,
        admin: ctx.admin,
        padding: fresh_padding(),
    }
}

/// What the handler writes: the gateway, at its address.
pub open spec fn handler_writes(ctx: IouInitGateway, gateway_bump: u8, deposit_iou_mint_bump: u8) -> Seq<
    StateWrite,
> {
    seq![
        StateWrite::Gateway {
            key: ctx.gateway,
            gateway: created_gateway(ctx, gateway_bump, deposit_iou_mint_bump),
        },
    ]
}

/// Initializes the IOU mint and records the gateway.
pub fn handler(ctx: &IouInitGateway, gateway_bump: u8, deposit_iou_mint_bump: u8) -> (r: Plan)
    ensures
        r.view() == crate::plan::run(
            handler_events(*ctx),
            handler_writes(*ctx, gateway_bump, deposit_iou_mint_bump),
        ),
{
    let mut c = Course::new(Ghost(handler_events(*ctx)));
    c.emit(Step { cpi: ctx.init_mint(), abort_on_error: false });
    let mut gateway = Gateway::default();
    gateway.padding = zero_padding();
    gateway.token_mint = ctx.token_mint;
    gateway.bump = gateway_bump;
    gateway.deposit_iou_mint_bump = deposit_iou_mint_bump;
    gateway.deposit_iou_mint = ctx.deposit_iou_mint;
    gateway.admin = ctx.admin;
    let mut writes: Vec<StateWrite> = Vec::new();
    writes.push(StateWrite::Gateway { key: ctx.gateway, gateway });
    assert(writes@ =~= handler_writes(*ctx, gateway_bump, deposit_iou_mint_bump));
    c.finish(writes)
}

} // verus!
