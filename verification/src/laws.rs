//! What holds across the program's instructions: the state an instruction writes reads
//! back as written, and the accounts one instruction creates pass the checks later
//! instructions make of them.
use vstd::prelude::*;
use crate::account::{
    load_gateway, load_pool, load_pool_account, load_token_account, mint_at, AccountInput,
};
use crate::address::{
    associated_address, base_seeds, gateway_derived, pool_account_derived, pool_derived,
    seeds_check, SeedPrefix, Seeds,
};
use crate::dasheri::{
    spec_iou_deposit_into_mango_account, spec_iou_init_gateway, spec_pool_create_mango_account,
    spec_pool_create_pool, spec_pool_create_pool_account, spec_pool_deposit_into_pool,
};
use crate::pool::instructions::create_pool_account::{self, PoolCreatePoolAccount};
use crate::pool::state::pool_account::POOL_ACCOUNT_SPACE;
use crate::error::ErrorCode;
use crate::init::{create_cpi, init_derived_events, lemma_init_derived_calls};
use crate::iou::instructions::deposit_into_mango_account::{
    self as iou_deposit, deposit_iou_account_events, spec_log_deposits, IouDepositIntoMangoAccount,
};
use crate::iou::instructions::init_gateway::{self, IouInitGateway, MINT_SPACE};
use crate::iou::state::gateway::{lemma_gateway_round_trip, Gateway, GATEWAY_SPACE};
use crate::layout::fresh_padding;
use crate::plan::{
    emits_only, emitted, fails, lemma_emits_only_append, lemma_emitted_append,
    lemma_run_emits_only, lemma_run_ok_all_met, lemma_run_writes, run, written, Cpi, Event,
    StateWrite, Step,
};
use crate::pool::instructions::create_mango_account::{self, pool_signer, PoolCreateMangoAccount};
use crate::pool::instructions::create_pool::{self, PoolCreatePool};
use crate::pool::instructions::deposit_into_pool::{self, PoolDepositIntoPool};
use crate::pool::state::pool::{lemma_pool_round_trip, Pool, POOL_SPACE};
use crate::pool::state::pool_account::{lemma_pool_account_round_trip, PoolAccount};
use crate::ids::usdc_token;
use crate::instructions::create_pool::CreatePool as LegacyCreatePool;
use crate::pubkey::{Pubkey, program_key, token_key, zero_key, PROGRAM_ID_BYTES, TOKEN_PROGRAM_ID_BYTES};

verus! {

/// The program's address is not the system program's.
proof fn lemma_program_is_not_system()
    ensures
        PROGRAM_ID_BYTES@ != zero_key(),
{
    assert(PROGRAM_ID_BYTES@[0] != zero_key()[0]);
}

/// A pool the program wrote to one of its accounts reads back, as a pool, as the pool
/// written.
pub proof fn law_pool_reads_back(p: Pool, a: AccountInput)
    requires
        a.owner@ == PROGRAM_ID_BYTES@,
        a.data@ == p.spec_data(),
    ensures
        load_pool(a) == Ok::<Pool, ErrorCode>(p),
{
    lemma_program_is_not_system();
    lemma_pool_round_trip(p);
}

/// A pool account the program wrote to one of its accounts reads back, as a pool
/// account, as the pool account written.
pub proof fn law_pool_account_reads_back(pa: PoolAccount, a: AccountInput)
    requires
        a.owner@ == PROGRAM_ID_BYTES@,
        a.data@ == pa.spec_data(),
    ensures
        load_pool_account(a) == Ok::<PoolAccount, ErrorCode>(pa),
{
    lemma_program_is_not_system();
    lemma_pool_account_round_trip(pa);
}

/// A gateway the program wrote to one of its accounts reads back, as a gateway, as the
/// gateway written.
pub proof fn law_gateway_reads_back(g: Gateway, a: AccountInput)
    requires
        a.owner@ == PROGRAM_ID_BYTES@,
        a.data@ == g.spec_data(),
    ensures
        load_gateway(a) == Ok::<Gateway, ErrorCode>(g),
{
    lemma_program_is_not_system();
    lemma_gateway_round_trip(g);
}

/// A deposit into a pool as `pool_create_pool` writes it (at the address its admin and
/// bump derive), through a pool account as `pool_create_pool_account` writes it for
/// that pool and the depositing user (at the address the pool, the user and its bump
/// derive), into the pool's vault (its associated token account for the pool's deposit
/// mint), from a token account of the user, with the accounts signing and writable as
/// declared, succeeds: it writes nothing and makes exactly one call, the transfer of
/// `amount` from the user's token account to the vault, the user signing.
pub proof fn law_deposit_into_created_pool(
    accs: Seq<AccountInput>,
    amount: u64,
    p: Pool,
    pa: PoolAccount,
    deposit_mint: Seq<u8>,
)
    requires
        accs.len() >= 6,
        accs[0].owner@ == PROGRAM_ID_BYTES@,
        accs[0].data@ == p.spec_data(),
        pool_derived(p, accs[0].key),
        accs[1].owner@ == PROGRAM_ID_BYTES@,
        accs[1].data@ == pa.spec_data(),
        pool_account_derived(pa, accs[1].key),
        pa.pool == accs[0].key,
        pa.owner == accs[4].key,
        load_token_account(accs[2]) == Ok::<(Seq<u8>, Seq<u8>), ErrorCode>(
            (p.deposit_iou_mint@, accs[0].key@),
        ),
        associated_address(accs[0].key@, p.deposit_iou_mint@) == Some(accs[2].key@),
        load_token_account(accs[3]) == Ok::<(Seq<u8>, Seq<u8>), ErrorCode>(
            (deposit_mint, accs[4].key@),
        ),
        accs[2].is_writable,
        accs[3].is_writable,
        accs[4].is_signer,
        accs[4].is_writable,
        accs[5].key@ == TOKEN_PROGRAM_ID_BYTES@,
        accs[5].executable,
    ensures
        spec_pool_deposit_into_pool(accs, amount) == (
            seq![
                Step {
                    cpi: Cpi::Transfer {
                        from: accs[3].key,
                        to: accs[2].key,
                        authority: accs[4].key,
                        amount,
                    },
                    abort_on_error: true,
                },
            ],
            Ok::<Seq<StateWrite>, ErrorCode>(seq![]),
        ),
{
    law_pool_reads_back(p, accs[0]);
    law_pool_account_reads_back(pa, accs[1]);
    reveal_with_fuel(run, 16);
    let ctx = PoolDepositIntoPool::from_inputs(accs);
    assert(PoolDepositIntoPool::checks(accs) + deposit_into_pool::handler_events(ctx, amount)
        =~= PoolDepositIntoPool::checks(accs).push(
        Event::Emit(Step { cpi: ctx.spec_transfer(amount), abort_on_error: true }),
    ));
}

/// A deposit through a gateway that succeeds writes nothing. Its calls are: where the
/// depositor's IOU token account did not exist yet, its creation as the payer's
/// associated token account for the IOU mint; then the logging of the mango account's
/// deposits, the deposit of `quantity` into the mango account from the payer's token
/// account, the logging again, and the minting of exactly `quantity` IOU tokens to that
/// IOU token account. The mint is the one the gateway names, and the gateway signs for
/// it with seeds that derive the gateway's address. An IOU token account that already
/// existed is the payer's associated token account for that mint.
pub proof fn law_iou_deposit_mints_what_it_deposits(accs: Seq<AccountInput>, quantity: u64)
    requires
        spec_iou_deposit_into_mango_account(accs, quantity).1 is Ok,
    ensures
        ({
            let ctx = IouDepositIntoMangoAccount::from_inputs(accs);
            let created = if accs[11].owner@ == zero_key() {
                seq![
                    Step {
                        cpi: Cpi::CreateAssociatedTokenAccount {
                            payer: accs[12].key,
                            associated_token: accs[11].key,
                            authority: accs[12].key,
                            mint: accs[9].key,
                        },
                        abort_on_error: true,
                    },
                ]
            } else {
                Seq::<Step>::empty()
            };
            &&& spec_iou_deposit_into_mango_account(accs, quantity) == (
                created + seq![
                    Step { cpi: spec_log_deposits(ctx, false), abort_on_error: true },
                    Step { cpi: ctx.spec_deposit(quantity), abort_on_error: true },
                    Step { cpi: spec_log_deposits(ctx, true), abort_on_error: true },
                    Step {
                        cpi: Cpi::MintTo {
                            mint: accs[9].key,
                            to: accs[11].key,
                            authority: accs[8].key,
                            amount: quantity,
                            signer: ctx.gateway_signer(),
                        },
                        abort_on_error: true,
                    },
                ],
                Ok::<Seq<StateWrite>, ErrorCode>(seq![]),
            )
            &&& ctx.gateway_state.deposit_iou_mint == accs[9].key
            &&& seeds_check(ctx.gateway_signer().spec_seeds(), accs[8].key@) is None
            &&& accs[11].owner@ != zero_key() ==> associated_address(accs[12].key@, accs[9].key@)
                == Some(accs[11].key@)
        }),
{
    let ctx = IouDepositIntoMangoAccount::from_inputs(accs);
    let reads = IouDepositIntoMangoAccount::reads(accs);
    let own = deposit_iou_account_events(accs);
    let rest = IouDepositIntoMangoAccount::constraints(accs);
    let handler = iou_deposit::handler_events(ctx, quantity);
    let events = IouDepositIntoMangoAccount::checks(accs) + handler;
    lemma_run_ok_all_met(events, seq![]);
    let m: int = 17 + own.len() as int;
    assert(events[m + 5] == rest[5]);
    assert(!fails(events[m + 5]));
    crate::pubkey::lemma_key_eq(ctx.gateway_state.deposit_iou_mint, accs[9].key);
    assert(events[m + 4] == rest[4]);
    assert(!fails(events[m + 4]));
    assert(events.len() == 17 + own.len() + 15);
    if accs[11].owner@ != zero_key() {
        assert(events[20] == own[3]);
        assert(!fails(events[20]));
    }
    lemma_emitted_append(IouDepositIntoMangoAccount::checks(accs), handler);
    lemma_emitted_append(reads + own, rest);
    lemma_emitted_append(reads, own);
    lemma_iou_deposit_reads_make_no_calls(accs);
    lemma_iou_deposit_constraints_make_no_calls(accs);
    lemma_iou_deposit_account_calls(accs);
    lemma_iou_deposit_handler_calls(ctx, quantity);
    assert(emitted(reads) + emitted(own) =~= emitted(own));
    assert((emitted(reads) + emitted(own)) + emitted(rest) =~= emitted(own));
}

/// The reads of a deposit's accounts make no call.
proof fn lemma_iou_deposit_reads_make_no_calls(accs: Seq<AccountInput>)
    ensures
        emitted(IouDepositIntoMangoAccount::reads(accs)) == Seq::<Step>::empty(),
{
    reveal_with_fuel(emitted, 18);
}

/// The constraints of a deposit's accounts make no call.
proof fn lemma_iou_deposit_constraints_make_no_calls(accs: Seq<AccountInput>)
    ensures
        emitted(IouDepositIntoMangoAccount::constraints(accs)) == Seq::<Step>::empty(),
{
    reveal_with_fuel(emitted, 11);
}

/// The only call of the IOU token account's course is its creation, where it is still
/// the system program's.
proof fn lemma_iou_deposit_account_calls(accs: Seq<AccountInput>)
    ensures
        emitted(deposit_iou_account_events(accs)) == (if accs[11].owner@ == zero_key() {
            seq![
                Step {
                    cpi: Cpi::CreateAssociatedTokenAccount {
                        payer: accs[12].key,
                        associated_token: accs[11].key,
                        authority: accs[12].key,
                        mint: accs[9].key,
                    },
                    abort_on_error: true,
                },
            ]
        } else {
            Seq::<Step>::empty()
        }),
{
    reveal_with_fuel(emitted, 7);
}

/// The calls of the deposit's handler.
proof fn lemma_iou_deposit_handler_calls(ctx: IouDepositIntoMangoAccount, quantity: u64)
    ensures
        emitted(iou_deposit::handler_events(ctx, quantity)) == seq![
            Step { cpi: spec_log_deposits(ctx, false), abort_on_error: true },
            Step { cpi: ctx.spec_deposit(quantity), abort_on_error: true },
            Step { cpi: spec_log_deposits(ctx, true), abort_on_error: true },
            Step { cpi: ctx.spec_mint_iou(quantity), abort_on_error: true },
        ],
{
    reveal_with_fuel(emitted, 6);
}

/// A gateway as `iou_init_gateway` writes it (at the address its admin and bump derive,
/// its IOU mint at the address its deposited mint and IOU mint bump derive) passes the
/// checks a deposit through it makes of it, when the deposit names the gateway's IOU
/// mint and deposited mint and the IOU mint is writable: the gateway and IOU mint are at
/// their derived addresses and the gateway names both mints.
pub proof fn law_created_gateway_passes_deposit_checks(accs: Seq<AccountInput>, g: Gateway)
    requires
        accs.len() >= 17,
        accs[8].owner@ == PROGRAM_ID_BYTES@,
        accs[8].data@ == g.spec_data(),
        gateway_derived(g, accs[8].key),
        accs[9].key == g.deposit_iou_mint,
        accs[10].key == g.token_mint,
        accs[9].is_writable,
    ensures
        IouDepositIntoMangoAccount::constraints(accs).subrange(4, 9) == Seq::new(
            5,
            |i: int| Event::Require(None),
        ),
{
    law_gateway_reads_back(g, accs[8]);
    assert(IouDepositIntoMangoAccount::constraints(accs).subrange(4, 9) =~= Seq::new(
        5,
        |i: int| Event::Require(None),
    ));
}

/// Opening the pool's mango account, when it succeeds, writes nothing (the pool is
/// stored back as it was) and makes exactly one call: the mango program creates the
/// mango account numbered `account_num`, owned by the pool and paid for by the payer,
/// the pool signing with its admin and bump, which derive the pool's address.
pub proof fn law_pool_mango_account_is_the_pools(accs: Seq<AccountInput>, account_num: u64)
    requires
        spec_pool_create_mango_account(accs, account_num).1 is Ok,
    ensures
        ({
            let ctx = PoolCreateMangoAccount::from_inputs(accs);
            &&& spec_pool_create_mango_account(accs, account_num) == (
                seq![
                    Step {
                        cpi: Cpi::MangoCreateAccount {
                            mango_program: accs[0].key,
                            mango_group: accs[1].key,
                            mango_account: accs[2].key,
                            owner: accs[3].key,
                            system_program: accs[5].key,
                            payer: Some(accs[4].key),
                            account_num,
                            signer: Some(pool_signer(ctx)),
                        },
                        abort_on_error: true,
                    },
                ],
                Ok::<Seq<StateWrite>, ErrorCode>(seq![]),
            )
            &&& seeds_check(pool_signer(ctx).spec_seeds(), accs[3].key@) is None
        }),
{
    let ctx = PoolCreateMangoAccount::from_inputs(accs);
    let handler = create_mango_account::handler_events(ctx, account_num);
    let events = PoolCreateMangoAccount::checks(accs) + handler;
    lemma_run_ok_all_met(events, seq![]);
    assert(events[8] == PoolCreateMangoAccount::checks(accs)[8]);
    assert(!fails(events[8]));
    lemma_emitted_append(PoolCreateMangoAccount::checks(accs), handler);
    reveal_with_fuel(emitted, 12);
}

/// Opening a gateway, when it succeeds, makes three calls: the creation of the gateway
/// at its address and of the IOU mint, for the token program, at its address, each
/// signed with the bump it was given; then the initialization of the IOU mint with the
/// decimals of the deposited mint and the gateway as its mint and freeze authority,
/// whose result is dropped. It writes the gateway, recording the deposited mint, both
/// bumps, the IOU mint and the admin. So only the gateway can mint IOU tokens.
pub proof fn law_gateway_controls_iou_mint(
    accs: Seq<AccountInput>,
    gateway_bump: u8,
    deposit_iou_mint_bump: u8,
)
    requires
        spec_iou_init_gateway(accs, gateway_bump, deposit_iou_mint_bump).1 is Ok,
    ensures
        spec_iou_init_gateway(accs, gateway_bump, deposit_iou_mint_bump) == (
            seq![
                Step {
                    cpi: create_cpi(
                        accs[3].key,
                        accs[0],
                        GATEWAY_SPACE,
                        program_key(),
                        Seeds {
                            prefix: SeedPrefix::Gateway,
                            key: accs[3].key,
                            second: None,
                            bump: gateway_bump,
                        },
                    ),
                    abort_on_error: true,
                },
                Step {
                    cpi: create_cpi(
                        accs[3].key,
                        accs[1],
                        MINT_SPACE,
                        token_key(),
                        Seeds {
                            prefix: SeedPrefix::NoPrefix,
                            key: accs[2].key,
                            second: None,
                            bump: deposit_iou_mint_bump,
                        },
                    ),
                    abort_on_error: true,
                },
                Step {
                    cpi: Cpi::InitializeMint {
                        mint: accs[1].key,
                        decimals: mint_at(accs, 2)->Ok_0,
                        mint_authority: accs[0].key,
                        freeze_authority: accs[0].key,
                    },
                    abort_on_error: false,
                },
            ],
            Ok::<Seq<StateWrite>, ErrorCode>(
                seq![
                    StateWrite::Gateway {
                        key: accs[0].key,
                        gateway: Gateway {
                            token_mint: accs[2].key,
                            bump: gateway_bump,
                            deposit_iou_mint_bump,
                            deposit_iou_mint: accs[1].key,
                            admin: accs[3].key,
                            padding: fresh_padding(),
                        },
                    },
                ],
            ),
        ),
{
    let ctx = IouInitGateway::from_inputs(accs);
    let checks = IouInitGateway::checks(accs, gateway_bump, deposit_iou_mint_bump);
    let handler = init_gateway::handler_events(ctx);
    let writes = init_gateway::handler_writes(ctx, gateway_bump, deposit_iou_mint_bump);
    let reads = checks.subrange(0, 7);
    let first = init_derived_events(
        accs[3].key,
        accs[0],
        GATEWAY_SPACE,
        program_key(),
        SeedPrefix::Gateway,
        accs[3].key,
        None,
        gateway_bump,
    );
    let second = init_derived_events(
        accs[3].key,
        accs[1],
        MINT_SPACE,
        token_key(),
        SeedPrefix::NoPrefix,
        accs[2].key,
        None,
        deposit_iou_mint_bump,
    );
    assert(checks =~= reads + first + second);
    lemma_run_ok_all_met(checks + handler, writes);
    assert forall|i: int| 0 <= i < 5 implies !fails(#[trigger] first[i]) by {
        assert((checks + handler)[7 + i] == first[i]);
    }
    assert forall|i: int| 0 <= i < 5 implies !fails(#[trigger] second[i]) by {
        assert((checks + handler)[12 + i] == second[i]);
    }
    lemma_init_derived_calls(
        accs[3].key,
        accs[0],
        GATEWAY_SPACE,
        program_key(),
        SeedPrefix::Gateway,
        accs[3].key,
        None,
        gateway_bump,
    );
    lemma_init_derived_calls(
        accs[3].key,
        accs[1],
        MINT_SPACE,
        token_key(),
        SeedPrefix::NoPrefix,
        accs[2].key,
        None,
        deposit_iou_mint_bump,
    );
    lemma_emitted_append(checks, handler);
    lemma_emitted_append(reads + first, second);
    lemma_emitted_append(reads, first);
    assert(emitted(reads) == Seq::<Step>::empty()) by {
        reveal_with_fuel(emitted, 8);
    }
    assert(emitted(handler) == seq![Step { cpi: ctx.spec_init_mint(), abort_on_error: false }]) by {
        reveal_with_fuel(emitted, 2);
    }
    assert(emitted(checks + handler) =~= emitted(first) + emitted(second) + emitted(handler));
}

/// Creating a pool, when it succeeds, makes two calls: the creation of the pool at its
/// address, signed with the bump it was given, and of its vault as the pool's
/// associated token account for the deposit mint, both paid for by the admin. It
/// writes the pool, recording that bump, the deposit mint, the vault and the admin.
pub proof fn law_pool_creation(accs: Seq<AccountInput>, bump: u8)
    requires
        spec_pool_create_pool(accs, bump).1 is Ok,
    ensures
        spec_pool_create_pool(accs, bump) == (
            seq![
                Step {
                    cpi: create_cpi(
                        accs[3].key,
                        accs[0],
                        POOL_SPACE,
                        program_key(),
                        Seeds { prefix: SeedPrefix::Pool, key: accs[3].key, second: None, bump },
                    ),
                    abort_on_error: true,
                },
                Step {
                    cpi: Cpi::CreateAssociatedTokenAccount {
                        payer: accs[3].key,
                        associated_token: accs[1].key,
                        authority: accs[0].key,
                        mint: accs[2].key,
                    },
                    abort_on_error: true,
                },
            ],
            Ok::<Seq<StateWrite>, ErrorCode>(
                seq![
                    StateWrite::Pool {
                        key: accs[0].key,
                        pool: Pool {
                            bump,
                            deposit_iou_mint: accs[2].key,
                            vault: accs[1].key,
                            admin: accs[3].key,
                            padding: fresh_padding(),
                        },
                    },
                ],
            ),
        ),
{
    let ctx = PoolCreatePool::from_inputs(accs);
    let checks = PoolCreatePool::checks(accs, bump);
    let writes = create_pool::handler_writes(ctx, bump);
    let reads = checks.subrange(0, 8);
    let init = init_derived_events(
        accs[3].key,
        accs[0],
        POOL_SPACE,
        program_key(),
        SeedPrefix::Pool,
        accs[3].key,
        None,
        bump,
    );
    let rest = checks.subrange(13, 16);
    assert(checks =~= reads + init + rest);
    assert(checks + seq![] =~= checks);
    lemma_run_ok_all_met(checks, writes);
    assert forall|i: int| 0 <= i < 5 implies !fails(#[trigger] init[i]) by {
        assert(checks[8 + i] == init[i]);
    }
    lemma_init_derived_calls(
        accs[3].key,
        accs[0],
        POOL_SPACE,
        program_key(),
        SeedPrefix::Pool,
        accs[3].key,
        None,
        bump,
    );
    lemma_emitted_append(reads + init, rest);
    lemma_emitted_append(reads, init);
    assert(emitted(reads) == Seq::<Step>::empty()) by {
        reveal_with_fuel(emitted, 9);
    }
    assert(emitted(rest) == seq![
        Step {
            cpi: Cpi::CreateAssociatedTokenAccount {
                payer: accs[3].key,
                associated_token: accs[1].key,
                authority: accs[0].key,
                mint: accs[2].key,
            },
            abort_on_error: true,
        },
    ]) by {
        reveal_with_fuel(emitted, 4);
    }
    assert(emitted(checks) =~= emitted(init) + emitted(rest));
}

/// A pool of the first version is created only for USDC deposits: when every check of
/// its creation passes, the deposit mint is the USDC mint.
pub proof fn law_legacy_pool_takes_usdc(accs: Seq<AccountInput>, pool_bump: u8)
    requires
        forall|i: int|
            0 <= i < LegacyCreatePool::checks(accs, pool_bump).len() ==> !fails(
                #[trigger] LegacyCreatePool::checks(accs, pool_bump)[i],
            ),
    ensures
        accs[2].key@ == usdc_token::ID_BYTES@,
{
    assert(!fails(LegacyCreatePool::checks(accs, pool_bump)[15]));
}

/// A planned call that mints nothing.
pub open spec fn not_a_mint(s: Step) -> bool {
    !(s.cpi is MintTo)
}

/// The creation of a program derived account mints nothing.
proof fn lemma_init_mints_nothing(
    payer: Pubkey,
    account: AccountInput,
    space: u64,
    owner: Pubkey,
    prefix: SeedPrefix,
    seed_key: Pubkey,
    second: Option<Pubkey>,
    bump: u8,
)
    ensures
        emits_only(
            init_derived_events(payer, account, space, owner, prefix, seed_key, second, bump),
            |s: Step| not_a_mint(s),
        ),
{
    reveal_with_fuel(emits_only, 6);
}

/// Only a deposit through a gateway mints: the plan of every other instruction of the
/// program, on any accounts and arguments, holds no minting. (With
/// `law_deposit_mints_its_quantity` and the gateway as the IOU mint's only authority,
/// `law_gateway_controls_iou_mint`, every IOU token the token program mints is minted
/// by a deposit, of the quantity deposited.)
pub proof fn law_only_deposits_mint(accs: Seq<AccountInput>, bump: u8, second_bump: u8, amount: u64)
    ensures
        forall|i: int|
            0 <= i < spec_iou_init_gateway(accs, bump, second_bump).0.len() ==> not_a_mint(
                #[trigger] spec_iou_init_gateway(accs, bump, second_bump).0[i],
            ),
        forall|i: int|
            0 <= i < spec_pool_create_pool(accs, bump).0.len() ==> not_a_mint(
                #[trigger] spec_pool_create_pool(accs, bump).0[i],
            ),
        forall|i: int|
            0 <= i < spec_pool_create_pool_account(accs, bump).0.len() ==> not_a_mint(
                #[trigger] spec_pool_create_pool_account(accs, bump).0[i],
            ),
        forall|i: int|
            0 <= i < spec_pool_deposit_into_pool(accs, amount).0.len() ==> not_a_mint(
                #[trigger] spec_pool_deposit_into_pool(accs, amount).0[i],
            ),
        forall|i: int|
            0 <= i < spec_pool_create_mango_account(accs, amount).0.len() ==> not_a_mint(
                #[trigger] spec_pool_create_mango_account(accs, amount).0[i],
            ),
{
    lemma_gateway_opening_mints_nothing(accs, bump, second_bump);
    lemma_pool_creation_mints_nothing(accs, bump);
    lemma_pool_account_opening_mints_nothing(accs, bump);
    lemma_pool_deposit_mints_nothing(accs, amount);
    lemma_pool_mango_account_mints_nothing(accs, amount);
}

/// Opening a gateway mints nothing: its plan holds no minting.
proof fn lemma_gateway_opening_mints_nothing(accs: Seq<AccountInput>, bump: u8, second_bump: u8)
    ensures
        forall|i: int|
            0 <= i < spec_iou_init_gateway(accs, bump, second_bump).0.len() ==> not_a_mint(
                #[trigger] spec_iou_init_gateway(accs, bump, second_bump).0[i],
            ),
{
    let p = |s: Step| not_a_mint(s);
    let ctx = IouInitGateway::from_inputs(accs);
    let checks = IouInitGateway::checks(accs, bump, second_bump);
    let reads = checks.subrange(0, 7);
    let first = init_derived_events(
        accs[3].key,
        accs[0],
        GATEWAY_SPACE,
        program_key(),
        SeedPrefix::Gateway,
        accs[3].key,
        None,
        bump,
    );
    let second = init_derived_events(
        accs[3].key,
        accs[1],
        MINT_SPACE,
        token_key(),
        SeedPrefix::NoPrefix,
        accs[2].key,
        None,
        second_bump,
    );
    assert(checks =~= reads + first + second);
    assert(emits_only(reads, p)) by {
        reveal_with_fuel(emits_only, 8);
    }
    assert(emits_only(init_gateway::handler_events(ctx), p)) by {
        reveal_with_fuel(emits_only, 2);
    }
    lemma_init_mints_nothing(
        accs[3].key,
        accs[0],
        GATEWAY_SPACE,
        program_key(),
        SeedPrefix::Gateway,
        accs[3].key,
        None,
        bump,
    );
    lemma_init_mints_nothing(
        accs[3].key,
        accs[1],
        MINT_SPACE,
        token_key(),
        SeedPrefix::NoPrefix,
        accs[2].key,
        None,
        second_bump,
    );
    lemma_emits_only_append(reads, first, p);
    lemma_emits_only_append(reads + first, second, p);
    lemma_emits_only_append(checks, init_gateway::handler_events(ctx), p);
    lemma_run_emits_only(
        checks + init_gateway::handler_events(ctx),
        init_gateway::handler_writes(ctx, bump, second_bump),
        p,
    );
}

/// Creating a pool mints nothing: its plan holds no minting.
proof fn lemma_pool_creation_mints_nothing(accs: Seq<AccountInput>, bump: u8)
    ensures
        forall|i: int|
            0 <= i < spec_pool_create_pool(accs, bump).0.len() ==> not_a_mint(
                #[trigger] spec_pool_create_pool(accs, bump).0[i],
            ),
{
    let p = |s: Step| not_a_mint(s);
    let checks = PoolCreatePool::checks(accs, bump);
    let reads = checks.subrange(0, 8);
    let init = init_derived_events(
        accs[3].key,
        accs[0],
        POOL_SPACE,
        program_key(),
        SeedPrefix::Pool,
        accs[3].key,
        None,
        bump,
    );
    let rest = checks.subrange(13, 16);
    assert(checks =~= reads + init + rest);
    assert(emits_only(reads, p)) by {
        reveal_with_fuel(emits_only, 9);
    }
    assert(emits_only(rest, p)) by {
        reveal_with_fuel(emits_only, 4);
    }
    assert(emits_only(Seq::<Event>::empty(), p));
    lemma_init_mints_nothing(
        accs[3].key,
        accs[0],
        POOL_SPACE,
        program_key(),
        SeedPrefix::Pool,
        accs[3].key,
        None,
        bump,
    );
    lemma_emits_only_append(reads, init, p);
    lemma_emits_only_append(reads + init, rest, p);
    lemma_emits_only_append(checks, Seq::<Event>::empty(), p);
    lemma_run_emits_only(
        checks + seq![],
        create_pool::handler_writes(PoolCreatePool::from_inputs(accs), bump),
        p,
    );
}

/// Opening a pool account mints nothing: its plan holds no minting.
proof fn lemma_pool_account_opening_mints_nothing(accs: Seq<AccountInput>, bump: u8)
    ensures
        forall|i: int|
            0 <= i < spec_pool_create_pool_account(accs, bump).0.len() ==> not_a_mint(
                #[trigger] spec_pool_create_pool_account(accs, bump).0[i],
            ),
{
    let p = |s: Step| not_a_mint(s);
    let checks = PoolCreatePoolAccount::checks(accs, bump);
    let reads = checks.subrange(0, 4);
    let init = init_derived_events(
        accs[2].key,
        accs[0],
        POOL_ACCOUNT_SPACE,
        program_key(),
        SeedPrefix::PoolAccount,
        accs[1].key,
        Some(accs[2].key),
        bump,
    );
    let rest = checks.subrange(9, 11);
    assert(checks =~= reads + init + rest);
    assert(emits_only(reads, p)) by {
        reveal_with_fuel(emits_only, 5);
    }
    assert(emits_only(rest, p)) by {
        reveal_with_fuel(emits_only, 3);
    }
    lemma_init_mints_nothing(
        accs[2].key,
        accs[0],
        POOL_ACCOUNT_SPACE,
        program_key(),
        SeedPrefix::PoolAccount,
        accs[1].key,
        Some(accs[2].key),
        bump,
    );
    lemma_emits_only_append(reads, init, p);
    lemma_emits_only_append(reads + init, rest, p);
    lemma_emits_only_append(checks, Seq::<Event>::empty(), p);
    lemma_run_emits_only(
        checks + seq![],
        create_pool_account::handler_writes(PoolCreatePoolAccount::from_inputs(accs), bump),
        p,
    );
}

/// Depositing into a pool mints nothing: its plan holds no minting.
proof fn lemma_pool_deposit_mints_nothing(accs: Seq<AccountInput>, amount: u64)
    ensures
        forall|i: int|
            0 <= i < spec_pool_deposit_into_pool(accs, amount).0.len() ==> not_a_mint(
                #[trigger] spec_pool_deposit_into_pool(accs, amount).0[i],
            ),
{
    let p = |s: Step| not_a_mint(s);
    let checks = PoolDepositIntoPool::checks(accs);
    let handler = deposit_into_pool::handler_events(PoolDepositIntoPool::from_inputs(accs), amount);
    assert(emits_only(checks, p)) by {
        reveal_with_fuel(emits_only, 15);
    }
    assert(emits_only(handler, p)) by {
        reveal_with_fuel(emits_only, 2);
    }
    lemma_emits_only_append(checks, handler, p);
    lemma_run_emits_only(checks + handler, seq![], p);
}

/// Opening the pool's mango account mints nothing: its plan holds no minting.
proof fn lemma_pool_mango_account_mints_nothing(accs: Seq<AccountInput>, amount: u64)
    ensures
        forall|i: int|
            0 <= i < spec_pool_create_mango_account(accs, amount).0.len() ==> not_a_mint(
                #[trigger] spec_pool_create_mango_account(accs, amount).0[i],
            ),
{
    let p = |s: Step| not_a_mint(s);
    let checks = PoolCreateMangoAccount::checks(accs);
    let handler = create_mango_account::handler_events(
        PoolCreateMangoAccount::from_inputs(accs),
        amount,
    );
    assert(emits_only(checks, p)) by {
        reveal_with_fuel(emits_only, 12);
    }
    assert(emits_only(handler, p)) by {
        reveal_with_fuel(emits_only, 3);
    }
    lemma_emits_only_append(checks, handler, p);
    lemma_run_emits_only(checks + handler, seq![], p);
}

/// Every minting a deposit through a gateway plans is the one of its handler: the IOU
/// mint it is given, to the depositor's IOU token account, of exactly the quantity
/// deposited, the gateway signing as the mint's authority with its seeds.
pub proof fn law_deposit_mints_its_quantity(accs: Seq<AccountInput>, quantity: u64)
    ensures
        forall|i: int|
            0 <= i < spec_iou_deposit_into_mango_account(accs, quantity).0.len()
                && (#[trigger] spec_iou_deposit_into_mango_account(accs, quantity).0[i]).cpi is MintTo
                ==> spec_iou_deposit_into_mango_account(accs, quantity).0[i].cpi == (Cpi::MintTo {
                mint: accs[9].key,
                to: accs[11].key,
                authority: accs[8].key,
                amount: quantity,
                signer: IouDepositIntoMangoAccount::from_inputs(accs).gateway_signer(),
            }),
{
    let ctx = IouDepositIntoMangoAccount::from_inputs(accs);
    let p = |s: Step| s.cpi is MintTo ==> s.cpi == ctx.spec_mint_iou(quantity);
    let reads = IouDepositIntoMangoAccount::reads(accs);
    let own = deposit_iou_account_events(accs);
    let rest = IouDepositIntoMangoAccount::constraints(accs);
    let handler = iou_deposit::handler_events(ctx, quantity);
    assert(emits_only(reads, p)) by {
        reveal_with_fuel(emits_only, 18);
    }
    assert(emits_only(own, p)) by {
        reveal_with_fuel(emits_only, 7);
    }
    assert(emits_only(rest, p)) by {
        reveal_with_fuel(emits_only, 11);
    }
    assert(emits_only(handler, p)) by {
        reveal_with_fuel(emits_only, 6);
    }
    lemma_emits_only_append(reads, own, p);
    lemma_emits_only_append(reads + own, rest, p);
    lemma_emits_only_append(reads + own + rest, handler, p);
    lemma_run_emits_only(reads + own + rest + handler, seq![], p);
}

/// Gateways, pools and pool accounts are written only when they are opened: no
/// instruction but `iou_init_gateway` writes a gateway, none but `pool_create_pool` a
/// pool and none but `pool_create_pool_account` a pool account; the other instructions
/// write nothing. So an opened gateway keeps the address its admin and bump derive and
/// the IOU mint its deposited mint derives (`iou_init_gateway`'s `ensures`), and an
/// opened pool keeps its address and the vault created for it as its associated token
/// account (`law_pool_creation`).
pub proof fn law_states_are_written_only_when_opened(
    accs: Seq<AccountInput>,
    bump: u8,
    second_bump: u8,
    amount: u64,
)
    ensures
        forall|i: int|
            0 <= i < written(spec_iou_init_gateway(accs, bump, second_bump)).len() ==> (
            #[trigger] written(spec_iou_init_gateway(accs, bump, second_bump))[i]) is Gateway,
        forall|i: int|
            0 <= i < written(spec_pool_create_pool(accs, bump)).len() ==> (
            #[trigger] written(spec_pool_create_pool(accs, bump))[i]) is Pool,
        forall|i: int|
            0 <= i < written(spec_pool_create_pool_account(accs, bump)).len() ==> (
            #[trigger] written(spec_pool_create_pool_account(accs, bump))[i]) is PoolAccount,
        written(spec_iou_deposit_into_mango_account(accs, amount)) == Seq::<StateWrite>::empty(),
        written(spec_pool_deposit_into_pool(accs, amount)) == Seq::<StateWrite>::empty(),
        written(spec_pool_create_mango_account(accs, amount)) == Seq::<StateWrite>::empty(),
{
    let g = IouInitGateway::from_inputs(accs);
    lemma_run_writes(
        IouInitGateway::checks(accs, bump, second_bump) + init_gateway::handler_events(g),
        init_gateway::handler_writes(g, bump, second_bump),
    );
    lemma_run_writes(
        PoolCreatePool::checks(accs, bump) + seq![],
        create_pool::handler_writes(PoolCreatePool::from_inputs(accs), bump),
    );
    lemma_run_writes(
        PoolCreatePoolAccount::checks(accs, bump) + seq![],
        create_pool_account::handler_writes(PoolCreatePoolAccount::from_inputs(accs), bump),
    );
    let d = IouDepositIntoMangoAccount::from_inputs(accs);
    lemma_run_writes(
        IouDepositIntoMangoAccount::checks(accs) + iou_deposit::handler_events(d, amount),
        seq![],
    );
    let q = PoolDepositIntoPool::from_inputs(accs);
    lemma_run_writes(PoolDepositIntoPool::checks(accs) + deposit_into_pool::handler_events(q, amount), seq![]);
    let m = PoolCreateMangoAccount::from_inputs(accs);
    lemma_run_writes(
        PoolCreateMangoAccount::checks(accs) + create_mango_account::handler_events(m, amount),
        seq![],
    );
}

/// Gateways are one per admin, and IOU mints one per deposited mint: two openings of a
/// gateway that both succeed with the same admin planned, as their first call, the
/// creation (aborting the instruction if it fails) of the same account, the gateway;
/// two with the same deposited mint planned, as their second call, the creation of the
/// same IOU mint. (That the system program refuses to create an account that is
/// already in use, so a second such opening fails, is that program's own behaviour.)
pub proof fn law_one_gateway_per_admin_and_mint(
    a: Seq<AccountInput>,
    a_bump: u8,
    a_mint_bump: u8,
    b: Seq<AccountInput>,
    b_bump: u8,
    b_mint_bump: u8,
)
    requires
        spec_iou_init_gateway(a, a_bump, a_mint_bump).1 is Ok,
        spec_iou_init_gateway(b, b_bump, b_mint_bump).1 is Ok,
    ensures
        spec_iou_init_gateway(a, a_bump, a_mint_bump).0[0] == (Step {
            cpi: create_cpi(
                a[3].key,
                a[0],
                GATEWAY_SPACE,
                program_key(),
                Seeds { prefix: SeedPrefix::Gateway, key: a[3].key, second: None, bump: a_bump },
            ),
            abort_on_error: true,
        }),
        spec_iou_init_gateway(a, a_bump, a_mint_bump).0[1] == (Step {
            cpi: create_cpi(
                a[3].key,
                a[1],
                MINT_SPACE,
                token_key(),
                Seeds { prefix: SeedPrefix::NoPrefix, key: a[2].key, second: None, bump: a_mint_bump },
            ),
            abort_on_error: true,
        }),
        a[3].key == b[3].key ==> a[0].key == b[0].key && a_bump == b_bump,
        a[2].key == b[2].key ==> a[1].key == b[1].key && a_mint_bump == b_mint_bump,
{
    law_gateway_controls_iou_mint(a, a_bump, a_mint_bump);
    law_gateway_controls_iou_mint(b, b_bump, b_mint_bump);
    let ea = IouInitGateway::checks(a, a_bump, a_mint_bump) + init_gateway::handler_events(
        IouInitGateway::from_inputs(a),
    );
    let eb = IouInitGateway::checks(b, b_bump, b_mint_bump) + init_gateway::handler_events(
        IouInitGateway::from_inputs(b),
    );
    lemma_run_ok_all_met(
        ea,
        init_gateway::handler_writes(IouInitGateway::from_inputs(a), a_bump, a_mint_bump),
    );
    lemma_run_ok_all_met(
        eb,
        init_gateway::handler_writes(IouInitGateway::from_inputs(b), b_bump, b_mint_bump),
    );
    assert(!fails(ea[7]) && !fails(ea[9]) && !fails(ea[10]));
    assert(!fails(eb[7]) && !fails(eb[9]) && !fails(eb[10]));
    assert(!fails(ea[12]) && !fails(ea[14]) && !fails(ea[15]));
    assert(!fails(eb[12]) && !fails(eb[14]) && !fails(eb[15]));
    if a[3].key == b[3].key {
        crate::pubkey::lemma_key_eq(a[0].key, b[0].key);
    }
    if a[2].key == b[2].key {
        crate::pubkey::lemma_key_eq(a[1].key, b[1].key);
    }
}

/// Opening a gateway or a pool over an account that already holds lamports, as every
/// opened gateway and pool does, plans as its first call no creation but the allocation
/// of that very account through the system program, after topping it up: the account
/// is taken as it is, holding its lamports. (The system program refuses to allocate an
/// account that already holds data or that it does not own, as an opened gateway or
/// pool is the program's; so a second opening at the same address fails at that call.)
pub proof fn law_reopening_allocates_the_account_in_use(
    g: Seq<AccountInput>,
    gateway_bump: u8,
    deposit_iou_mint_bump: u8,
    p: Seq<AccountInput>,
    pool_bump: u8,
)
    ensures
        spec_iou_init_gateway(g, gateway_bump, deposit_iou_mint_bump).1 is Ok && g[0].lamports > 0
            ==> spec_iou_init_gateway(g, gateway_bump, deposit_iou_mint_bump).0[0].cpi == (
        Cpi::TopUpAllocateAssign {
            payer: g[3].key,
            account: g[0].key,
            current_lamports: g[0].lamports,
            space: GATEWAY_SPACE,
            owner: program_key(),
            signer: Seeds {
                prefix: SeedPrefix::Gateway,
                key: g[3].key,
                second: None,
                bump: gateway_bump,
            },
        }),
        spec_pool_create_pool(p, pool_bump).1 is Ok && p[0].lamports > 0 ==> spec_pool_create_pool(
            p,
            pool_bump,
        ).0[0].cpi == (Cpi::TopUpAllocateAssign {
            payer: p[3].key,
            account: p[0].key,
            current_lamports: p[0].lamports,
            space: POOL_SPACE,
            owner: program_key(),
            signer: Seeds { prefix: SeedPrefix::Pool, key: p[3].key, second: None, bump: pool_bump },
        }),
{
    if spec_iou_init_gateway(g, gateway_bump, deposit_iou_mint_bump).1 is Ok {
        law_gateway_controls_iou_mint(g, gateway_bump, deposit_iou_mint_bump);
    }
    if spec_pool_create_pool(p, pool_bump).1 is Ok {
        law_pool_creation(p, pool_bump);
    }
}

/// Any user can open a pool account of their own in a pool as `pool_create_pool` writes
/// it (at the address its admin and bump derive): an opening that names the pool, the
/// user signing and paying, the system program, and a writable account at the address
/// the pool, the user and the canonical bump derive, succeeds. It makes one call, the
/// creation of that account signed with its seeds, and writes a pool account of that
/// pool owned by the user. (With `law_pool_account_per_user`, two users get two pool
/// accounts, from different seeds.)
pub proof fn law_created_pool_admits_each_users_pool_account(
    accs: Seq<AccountInput>,
    bump: u8,
    p: Pool,
)
    requires
        accs.len() >= 4,
        accs[1].owner@ == PROGRAM_ID_BYTES@,
        accs[1].data@ == p.spec_data(),
        pool_derived(p, accs[1].key),
        accs[2].is_signer,
        accs[2].is_writable,
        accs[3].key@ == zero_key(),
        accs[3].executable,
        accs[0].is_writable,
        crate::address::derived_with_bump(
            SeedPrefix::PoolAccount,
            accs[1].key@,
            Some(accs[2].key@),
            bump,
            accs[0].key@,
        ),
    ensures
        spec_pool_create_pool_account(accs, bump) == (
            seq![
                Step {
                    cpi: create_cpi(
                        accs[2].key,
                        accs[0],
                        POOL_ACCOUNT_SPACE,
                        program_key(),
                        Seeds {
                            prefix: SeedPrefix::PoolAccount,
                            key: accs[1].key,
                            second: Some(accs[2].key),
                            bump,
                        },
                    ),
                    abort_on_error: true,
                },
            ],
            Ok::<Seq<StateWrite>, ErrorCode>(
                seq![
                    StateWrite::PoolAccount {
                        key: accs[0].key,
                        pool_account: PoolAccount {
                            bump,
                            pool: accs[1].key,
                            owner: accs[2].key,
                            padding: fresh_padding(),
                        },
                    },
                ],
            ),
        ),
{
    law_pool_reads_back(p, accs[1]);
    let ctx = PoolCreatePoolAccount::from_inputs(accs);
    let checks = PoolCreatePoolAccount::checks(accs, bump);
    assert(crate::address::key_view(Some(accs[2].key)) == Some(accs[2].key@));
    reveal_with_fuel(run, 12);
    assert(checks + seq![] =~= checks);
}

/// Each user has a pool account of their own in a pool: two openings that succeed in
/// the same pool for different users derive their accounts from different seeds (the
/// user is the last seed before the bump), and each writes a pool account of that pool
/// owned by its user. (That different seeds give different addresses is the hash's.)
pub proof fn law_pool_account_per_user(a: Seq<AccountInput>, a_bump: u8, b: Seq<AccountInput>, b_bump: u8)
    requires
        spec_pool_create_pool_account(a, a_bump).1 is Ok,
        spec_pool_create_pool_account(b, b_bump).1 is Ok,
        a[1].key == b[1].key,
        a[2].key != b[2].key,
    ensures
        base_seeds(SeedPrefix::PoolAccount, a[1].key@, Some(a[2].key@)) != base_seeds(
            SeedPrefix::PoolAccount,
            b[1].key@,
            Some(b[2].key@),
        ),
        written(spec_pool_create_pool_account(a, a_bump)) == seq![
            StateWrite::PoolAccount {
                key: a[0].key,
                pool_account: PoolAccount {
                    bump: a_bump,
                    pool: a[1].key,
                    owner: a[2].key,
                    padding: fresh_padding(),
                },
            },
        ],
        written(spec_pool_create_pool_account(b, b_bump)) == seq![
            StateWrite::PoolAccount {
                key: b[0].key,
                pool_account: PoolAccount {
                    bump: b_bump,
                    pool: b[1].key,
                    owner: b[2].key,
                    padding: fresh_padding(),
                },
            },
        ],
{
    lemma_run_writes(
        PoolCreatePoolAccount::checks(a, a_bump) + seq![],
        create_pool_account::handler_writes(PoolCreatePoolAccount::from_inputs(a), a_bump),
    );
    lemma_run_writes(
        PoolCreatePoolAccount::checks(b, b_bump) + seq![],
        create_pool_account::handler_writes(PoolCreatePoolAccount::from_inputs(b), b_bump),
    );
    if a[2].key@ == b[2].key@ {
        crate::pubkey::lemma_key_eq(a[2].key, b[2].key);
    }
    let sa = base_seeds(SeedPrefix::PoolAccount, a[1].key@, Some(a[2].key@));
    let sb = base_seeds(SeedPrefix::PoolAccount, b[1].key@, Some(b[2].key@));
    assert(sa[2] == a[2].key@ && sb[2] == b[2].key@);
}

/// A deposit through a gateway that succeeds hands the mango program exactly the
/// quantity it was given, and mints exactly that quantity: its third call from the end
/// is the mango deposit, written out field by field from the accounts (the mango
/// program, group and account, the payer as owner, the cache, the root and node banks,
/// the node bank's vault, the payer's token account, the system and token programs)
/// with `quantity`; its last call mints `quantity`; and every mango deposit it plans is
/// of `quantity`.
pub proof fn law_gateway_deposit_hands_mango_its_quantity(accs: Seq<AccountInput>, quantity: u64)
    requires
        spec_iou_deposit_into_mango_account(accs, quantity).1 is Ok,
    ensures
        ({
            let steps = spec_iou_deposit_into_mango_account(accs, quantity).0;
            &&& steps.len() >= 4
            &&& steps[steps.len() - 3].cpi == (Cpi::MangoDeposit {
                mango_program: accs[0].key,
                mango_group: accs[1].key,
                mango_account: accs[7].key,
                owner: accs[12].key,
                mango_cache: accs[2].key,
                root_bank: accs[3].key,
                node_bank: accs[4].key,
                node_bank_vault: accs[5].key,
                owner_token_account: accs[6].key,
                system_program: accs[13].key,
                token_program: accs[14].key,
                quantity,
            })
            &&& steps[steps.len() - 1].cpi matches Cpi::MintTo { amount, .. } && amount == quantity
            &&& forall|i: int|
                0 <= i < steps.len() ==> (#[trigger] steps[i].cpi matches Cpi::MangoDeposit {
                    quantity: q,
                    ..
                } ==> q == quantity)
        }),
{
    law_iou_deposit_mints_what_it_deposits(accs, quantity);
    let steps = spec_iou_deposit_into_mango_account(accs, quantity).0;
    let n: int = if accs[11].owner@ == zero_key() {
        1
    } else {
        0
    };
    assert(steps.len() == n + 4);
    assert forall|i: int|
        0 <= i < steps.len() implies (#[trigger] steps[i].cpi matches Cpi::MangoDeposit {
        quantity: q,
        ..
    } ==> q == quantity) by {
        if i >= n {
            assert(i - n == 0 || i - n == 1 || i - n == 2 || i - n == 3);
        }
    }
}

/// Opening the pool's mango account succeeds for every account number: with the mango
/// program executable, the mango group and account writable, a pool as
/// `pool_create_pool` writes it (at the address its admin and bump derive) writable in
/// place, the payer signing and writable, and the system program, the opening makes
/// exactly one call, the mango program's creation of the mango account numbered
/// `account_num`, owned by the pool, paid for by the payer, the pool signing with its
/// admin and bump; and it writes nothing.
pub proof fn law_pool_mango_account_opens_for_every_number(
    accs: Seq<AccountInput>,
    account_num: u64,
    p: Pool,
)
    requires
        accs.len() >= 6,
        accs[0].executable,
        accs[1].is_writable,
        accs[2].is_writable,
        accs[3].owner@ == PROGRAM_ID_BYTES@,
        accs[3].data@ == p.spec_data(),
        pool_derived(p, accs[3].key),
        accs[3].is_writable,
        accs[4].is_signer,
        accs[4].is_writable,
        accs[5].key@ == zero_key(),
        accs[5].executable,
    ensures
        spec_pool_create_mango_account(accs, account_num) == (
            seq![
                Step {
                    cpi: Cpi::MangoCreateAccount {
                        mango_program: accs[0].key,
                        mango_group: accs[1].key,
                        mango_account: accs[2].key,
                        owner: accs[3].key,
                        system_program: accs[5].key,
                        payer: Some(accs[4].key),
                        account_num,
                        signer: Some(
                            Seeds { prefix: SeedPrefix::Pool, key: p.admin, second: None, bump: p.bump },
                        ),
                    },
                    abort_on_error: true,
                },
            ],
            Ok::<Seq<StateWrite>, ErrorCode>(seq![]),
        ),
{
    law_pool_reads_back(p, accs[3]);
    let ctx = PoolCreateMangoAccount::from_inputs(accs);
    let events = PoolCreateMangoAccount::checks(accs) + create_mango_account::handler_events(
        ctx,
        account_num,
    );
    assert(events.len() == 13);
    reveal_with_fuel(run, 14);
    assert(spec_pool_create_mango_account(accs, account_num).1 is Ok);
    law_pool_mango_account_is_the_pools(accs, account_num);
}

/// Creating a pool takes a deposit mint of any decimals: with the pool account writable
/// at the address the admin and the canonical `bump` derive, the vault writable, any
/// initialized mint, the admin signing and writable, the system, token and associated
/// token programs, and the rent sysvar, the creation succeeds. It creates the pool at
/// its address, signed with `bump`, and the vault as the pool's associated token
/// account for the mint, both paid for by the admin, and writes the pool recording the
/// bump, the mint, the vault and the admin.
pub proof fn law_pool_creation_takes_any_mint(accs: Seq<AccountInput>, bump: u8)
    requires
        accs.len() >= 8,
        accs[0].is_writable,
        crate::address::derived_with_bump(SeedPrefix::Pool, accs[3].key@, None, bump, accs[0].key@),
        accs[1].is_writable,
        mint_at(accs, 2) is Ok,
        accs[3].is_signer,
        accs[3].is_writable,
        accs[4].key@ == zero_key(),
        accs[4].executable,
        accs[5].key@ == TOKEN_PROGRAM_ID_BYTES@,
        accs[5].executable,
        accs[6].key@ == crate::pubkey::ASSOCIATED_TOKEN_PROGRAM_ID_BYTES@,
        accs[6].executable,
        crate::outside::spec_rent_sysvar_accepts(accs[7].key@, accs[7].data@),
    ensures
        spec_pool_create_pool(accs, bump) == (
            seq![
                Step {
                    cpi: create_cpi(
                        accs[3].key,
                        accs[0],
                        POOL_SPACE,
                        program_key(),
                        Seeds { prefix: SeedPrefix::Pool, key: accs[3].key, second: None, bump },
                    ),
                    abort_on_error: true,
                },
                Step {
                    cpi: Cpi::CreateAssociatedTokenAccount {
                        payer: accs[3].key,
                        associated_token: accs[1].key,
                        authority: accs[0].key,
                        mint: accs[2].key,
                    },
                    abort_on_error: true,
                },
            ],
            Ok::<Seq<StateWrite>, ErrorCode>(
                seq![
                    StateWrite::Pool {
                        key: accs[0].key,
                        pool: Pool {
                            bump,
                            deposit_iou_mint: accs[2].key,
                            vault: accs[1].key,
                            admin: accs[3].key,
                            padding: fresh_padding(),
                        },
                    },
                ],
            ),
        ),
{
    let checks = PoolCreatePool::checks(accs, bump);
    assert(checks + seq![] =~= checks);
    assert(checks.len() == 16);
    reveal_with_fuel(run, 17);
    assert(spec_pool_create_pool(accs, bump).1 is Ok);
    law_pool_creation(accs, bump);
}

} // verus!
