//! What an instruction does, as a plan that the runtime glue carries out: the steps it
//! takes, in order (cross-program calls, and one step that loads and logs a mango
//! account), and then either the account states it writes or the error it fails with.
use vstd::prelude::*;
use crate::error::ErrorCode;
use crate::address::Seeds;
use crate::pubkey::Pubkey;

verus! {

/// A step an instruction takes: a cross-program call, or (`LogMangoDeposits`) the
/// loading and logging of a mango account, which calls no program.
#[derive(Clone, Copy, PartialEq, Eq, Debug)]
pub enum Cpi {
    /// The system program creates `account` with `space` bytes owned by `owner`,
    /// funded by `payer` with the rent-exempt minimum for that space; `signer` signs for
    /// the account.
    CreateAccount { payer: Pubkey, account: Pubkey, space: u64, owner: Pubkey, signer: Seeds },
    /// For an account that already holds `current_lamports`: `payer` tops it up to the
    /// rent-exempt minimum for `space` bytes (and to at least one lamport) where it holds
    /// less, then the system program allocates the space and assigns the account to
    /// `owner`; `signer` signs for the account.
    TopUpAllocateAssign {
        payer: Pubkey,
        account: Pubkey,
        current_lamports: u64,
        space: u64,
        owner: Pubkey,
        signer: Seeds,
    },
    /// The associated token program creates the token account of `authority` for
    /// `mint` at `associated_token`, paid for by `payer`.
    CreateAssociatedTokenAccount {
        payer: Pubkey,
        associated_token: Pubkey,
        authority: Pubkey,
        mint: Pubkey,
    },
    /// The token program initializes `mint` with `decimals` and the two authorities.
    InitializeMint { mint: Pubkey, decimals: u8, mint_authority: Pubkey, freeze_authority: Pubkey },
    /// The token program mints `amount` of `mint` to `to`, `authority` signing with
    /// `signer`.
    MintTo { mint: Pubkey, to: Pubkey, authority: Pubkey, amount: u64, signer: Seeds },
    /// The token program moves `amount` from `from` to `to`, `authority` signing.
    Transfer { from: Pubkey, to: Pubkey, authority: Pubkey, amount: u64 },
    /// The mango program creates `mango_account` in `mango_group` for `owner`, with
    /// `payer` paying where the call names one, signed for with `signer` when the owner
    /// is a program derived address.
    MangoCreateAccount {
        mango_program: Pubkey,
        mango_group: Pubkey,
        mango_account: Pubkey,
        owner: Pubkey,
        system_program: Pubkey,
        payer: Option<Pubkey>,
        account_num: u64,
        signer: Option<Seeds>,
    },
    /// The mango program deposits `quantity` from `owner_token_account` into
    /// `mango_account`; the system and token programs are handed along.
    MangoDeposit {
        mango_program: Pubkey,
        mango_group: Pubkey,
        mango_account: Pubkey,
        owner: Pubkey,
        mango_cache: Pubkey,
        root_bank: Pubkey,
        node_bank: Pubkey,
        node_bank_vault: Pubkey,
        owner_token_account: Pubkey,
        system_program: Pubkey,
        token_program: Pubkey,
        quantity: u64,
    },
    /// Not a call: loads `mango_account` (checked against the mango program and group)
    /// and logs its deposits, before or after the deposit; a mango account that does
    /// not load aborts the instruction.
    LogMangoDeposits {
        mango_account: Pubkey,
        mango_program: Pubkey,
        mango_group: Pubkey,
        after_deposit: bool,
    },
}

/// The accounts of a call to the token program's `mint_to`: the token program, the
/// mint, the account minted to and the mint's authority. The amount and any seeds to
/// sign with are given when the call is made.
#[derive(Clone, Copy, PartialEq, Eq, Debug)]
pub struct MintToContext {
    pub token_program: Pubkey,
    pub mint: Pubkey,
    pub to: Pubkey,
    pub authority: Pubkey,
}

/// The accounts of a call to the token program's `initialize_mint`: the token program,
/// the mint and the rent sysvar. The decimals and the authorities are given when the
/// call is made.
#[derive(Clone, Copy, PartialEq, Eq, Debug)]
pub struct InitializeMintContext {
    pub token_program: Pubkey,
    pub mint: Pubkey,
    pub rent: Pubkey,
}

/// The accounts of a call to the token program's `transfer`: the token program, the
/// account moved from, the account moved to and the authority over the first. The
/// amount is given when the call is made.
#[derive(Clone, Copy, PartialEq, Eq, Debug)]
pub struct TransferContext {
    pub token_program: Pubkey,
    pub from: Pubkey,
    pub to: Pubkey,
    pub authority: Pubkey,
}

/// A step in a plan, and whether the program acts on its result: it does for every
/// step but one, whose result the program's code drops. The flag records that the
/// code drops it; it does not let the instruction survive a failed call, for on
/// Solana a cross-program call that fails ends the whole transaction anyway.
#[derive(Clone, Copy, PartialEq, Eq, Debug)]
pub struct Step {
    pub cpi: Cpi,
    pub abort_on_error: bool,
}

/// An account state an instruction writes when it succeeds.
#[derive(Clone, Copy, PartialEq, Eq, Debug)]
pub enum StateWrite {
    Pool { key: Pubkey, pool: crate::pool::state::Pool },
    PoolAccount { key: Pubkey, pool_account: crate::pool::state::PoolAccount },
    Gateway { key: Pubkey, gateway: crate::iou::state::Gateway },
    LegacyPool { key: Pubkey, legacy_pool: crate::state::Pool },
    LegacyPoolAccount { key: Pubkey, legacy_pool_account: crate::state::PoolAccount },
}

/// One element of an instruction's course: a requirement (met when it holds no
/// error) or a call.
#[derive(Clone, Copy, PartialEq, Eq, Debug)]
pub enum Event {
    Require(Option<ErrorCode>),
    Emit(Step),
}

/// An instruction's course made into a plan: the calls up to the first unmet
/// requirement, then that requirement's error; or all the calls and then the writes.
pub open spec fn run(events: Seq<Event>, writes: Seq<StateWrite>) -> (Seq<Step>, Result<
    Seq<StateWrite>,
    ErrorCode,
>)
    decreases events.len(),
{
    if events.len() == 0 {
        (seq![], Ok(writes))
    } else {
        match events[0] {
            Event::Require(Some(e)) => (seq![], Err(e)),
            Event::Require(None) => run(events.drop_first(), writes),
            Event::Emit(s) => {
                let rest = run(events.drop_first(), writes);
                (seq![s] + rest.0, rest.1)
            },
        }
    }
}

/// Whether an event is an unmet requirement.
pub open spec fn fails(e: Event) -> bool {
    e matches Event::Require(Some(_))
}

/// The calls among the events.
pub open spec fn emitted(events: Seq<Event>) -> Seq<Step>
    decreases events.len(),
{
    if events.len() == 0 {
        seq![]
    } else {
        match events[0] {
            Event::Emit(s) => seq![s] + emitted(events.drop_first()),
            _ => emitted(events.drop_first()),
        }
    }
}

/// Every call among the events satisfies `p`.
pub open spec fn emits_only(events: Seq<Event>, p: spec_fn(Step) -> bool) -> bool
    decreases events.len(),
{
    if events.len() == 0 {
        true
    } else {
        &&& (events[0] matches Event::Emit(s) ==> p(s))
        &&& emits_only(events.drop_first(), p)
    }
}

/// The calls of two parts of events satisfy `p` when those of each part do.
pub proof fn lemma_emits_only_append(a: Seq<Event>, b: Seq<Event>, p: spec_fn(Step) -> bool)
    requires
        emits_only(a, p),
        emits_only(b, p),
    ensures
        emits_only(a + b, p),
    decreases a.len(),
{
    if a.len() == 0 {
        assert(a + b =~= b);
    } else {
        assert((a + b)[0] == a[0]);
        assert((a + b).drop_first() =~= a.drop_first() + b);
        lemma_emits_only_append(a.drop_first(), b, p);
    }
}

/// Every call a course plans is one of its events' calls, so it satisfies what all of
/// them do.
pub proof fn lemma_run_emits_only(events: Seq<Event>, writes: Seq<StateWrite>, p: spec_fn(Step) -> bool)
    requires
        emits_only(events, p),
    ensures
        forall|i: int| 0 <= i < run(events, writes).0.len() ==> p(#[trigger] run(events, writes).0[i]),
    decreases events.len(),
{
    if events.len() > 0 {
        lemma_run_emits_only(events.drop_first(), writes, p);
        match events[0] {
            Event::Emit(s) => {
                let rest = run(events.drop_first(), writes).0;
                assert forall|i: int| 0 <= i < run(events, writes).0.len() implies p(
                    #[trigger] run(events, writes).0[i],
                ) by {
                    if i > 0 {
                        assert(run(events, writes).0[i] == rest[i - 1]);
                    }
                }
            },
            Event::Require(None) => {
                assert(run(events, writes) == run(events.drop_first(), writes));
            },
            Event::Require(Some(_)) => {
                assert(run(events, writes).0.len() == 0);
            },
        }
    }
}

/// The states a plan writes: those of its outcome when it succeeds, else none.
pub open spec fn written(plan: (Seq<Step>, Result<Seq<StateWrite>, ErrorCode>)) -> Seq<StateWrite> {
    match plan.1 {
        Ok(w) => w,
        Err(_) => seq![],
    }
}

/// A course that succeeds writes what it was given to write.
pub proof fn lemma_run_writes(events: Seq<Event>, writes: Seq<StateWrite>)
    ensures
        run(events, writes).1 is Ok ==> written(run(events, writes)) == writes,
{
    if run(events, writes).1 is Ok {
        lemma_run_ok_all_met(events, writes);
    }
}

/// The calls among two parts of events are those of the first, then those of the second.
pub proof fn lemma_emitted_append(a: Seq<Event>, b: Seq<Event>)
    ensures
        emitted(a + b) == emitted(a) + emitted(b),
    decreases a.len(),
{
    if a.len() == 0 {
        assert(a + b =~= b);
        assert(emitted(a) + emitted(b) =~= emitted(b));
    } else {
        assert((a + b)[0] == a[0]);
        assert((a + b).drop_first() =~= a.drop_first() + b);
        lemma_emitted_append(a.drop_first(), b);
        match a[0] {
            Event::Emit(s) => {
                assert(seq![s] + (emitted(a.drop_first()) + emitted(b)) =~= (seq![s] + emitted(
                    a.drop_first(),
                )) + emitted(b));
            },
            _ => {},
        }
    }
}

/// A course with no unmet requirement makes all its calls and then writes.
pub proof fn lemma_run_all_met(events: Seq<Event>, writes: Seq<StateWrite>)
    requires
        forall|i: int| 0 <= i < events.len() ==> !fails(#[trigger] events[i]),
    ensures
        run(events, writes) == (emitted(events), Ok::<Seq<StateWrite>, ErrorCode>(writes)),
    decreases events.len(),
{
    if events.len() > 0 {
        assert(!fails(events[0]));
        assert forall|i: int| 0 <= i < events.drop_first().len() implies !fails(
            #[trigger] events.drop_first()[i],
        ) by {
            assert(events.drop_first()[i] == events[i + 1]);
        }
        lemma_run_all_met(events.drop_first(), writes);
    }
}

/// A course that ends in writes met every requirement.
pub proof fn lemma_run_ok_all_met(events: Seq<Event>, writes: Seq<StateWrite>)
    requires
        run(events, writes).1 is Ok,
    ensures
        forall|i: int| 0 <= i < events.len() ==> !fails(#[trigger] events[i]),
        run(events, writes) == (emitted(events), Ok::<Seq<StateWrite>, ErrorCode>(writes)),
    decreases events.len(),
{
    if events.len() > 0 {
        lemma_run_ok_all_met(events.drop_first(), writes);
        assert forall|i: int| 0 <= i < events.len() implies !fails(#[trigger] events[i]) by {
            if i > 0 {
                assert(events[i] == events.drop_first()[i - 1]);
            }
        }
    }
}

/// The course of a first part all of whose requirements are met, then a second part.
pub proof fn lemma_run_append(a: Seq<Event>, b: Seq<Event>, writes: Seq<StateWrite>)
    requires
        forall|i: int| 0 <= i < a.len() ==> !fails(#[trigger] a[i]),
    ensures
        run(a + b, writes) == (emitted(a) + run(b, writes).0, run(b, writes).1),
    decreases a.len(),
{
    if a.len() == 0 {
        assert(a + b =~= b);
        assert(emitted(a) + run(b, writes).0 =~= run(b, writes).0);
    } else {
        assert((a + b)[0] == a[0]);
        assert((a + b).drop_first() =~= a.drop_first() + b);
        assert forall|i: int| 0 <= i < a.drop_first().len() implies !fails(
            #[trigger] a.drop_first()[i],
        ) by {
            assert(a.drop_first()[i] == a[i + 1]);
        }
        lemma_run_append(a.drop_first(), b, writes);
        match a[0] {
            Event::Emit(s) => {
                assert(seq![s] + (emitted(a.drop_first()) + run(b, writes).0) =~= (seq![s]
                    + emitted(a.drop_first())) + run(b, writes).0);
            },
            _ => {},
        }
    }
}

/// The course of the events up to and including an unmet requirement is the course of
/// all of them, whatever the writes.
pub proof fn lemma_run_stops(events: Seq<Event>, k: int, w1: Seq<StateWrite>, w2: Seq<StateWrite>)
    requires
        0 <= k < events.len(),
        fails(events[k]),
    ensures
        run(events.take(k + 1), w1) == run(events, w2),
    decreases k,
{
    let t = events.take(k + 1);
    assert(t[0] == events[0]);
    if !fails(events[0]) {
        assert(t.drop_first() =~= events.drop_first().take(k));
        lemma_run_stops(events.drop_first(), k - 1, w1, w2);
    }
}

/// A course with an unmet requirement fails.
pub proof fn lemma_run_fails(events: Seq<Event>, k: int, w: Seq<StateWrite>)
    requires
        0 <= k < events.len(),
        fails(events[k]),
    ensures
        run(events, w).1 is Err,
    decreases k,
{
    if !fails(events[0]) {
        assert(events.drop_first()[k - 1] == events[k]);
        lemma_run_fails(events.drop_first(), k - 1, w);
    }
}

/// A course that fails goes on failing the same way whatever follows it.
pub proof fn lemma_run_fails_append(a: Seq<Event>, b: Seq<Event>, w1: Seq<StateWrite>, w2: Seq<StateWrite>)
    requires
        run(a, w1).1 is Err,
    ensures
        run(a + b, w2) == run(a, w1),
    decreases a.len(),
{
    if a.len() > 0 {
        assert((a + b)[0] == a[0]);
        assert((a + b).drop_first() =~= a.drop_first() + b);
        if !fails(a[0]) {
            lemma_run_fails_append(a.drop_first(), b, w1, w2);
        }
    }
}

/// The events of an instruction, recorded one by one against the events it is known
/// to consist of.
pub struct Course {
    pub events: Vec<Event>,
    pub planned: Ghost<Seq<Event>>,
}

impl Course {
    /// The recorded events are the first of the planned ones.
    pub open spec fn wf(&self) -> bool {
        &&& self.events@.len() <= self.planned@.len()
        &&& self.events@ == self.planned@.take(self.events@.len() as int)
    }

    /// Every recorded requirement is met.
    pub open spec fn live(&self) -> bool {
        forall|i: int| 0 <= i < self.events@.len() ==> !fails(#[trigger] self.events@[i])
    }

    /// A course with nothing recorded yet.
    pub fn new(Ghost(planned): Ghost<Seq<Event>>) -> (c: Course)
        ensures
            c.wf(),
            c.live(),
            c.planned@ == planned,
            c.events@.len() == 0,
    {
        let c = Course { events: Vec::new(), planned: Ghost(planned) };
        assert(c.events@ =~= planned.take(0));
        c
    }

    /// Records a requirement; reports whether it is met.
    pub fn require(&mut self, r: Option<ErrorCode>) -> (met: bool)
        requires
            old(self).wf(),
            old(self).events@.len() < old(self).planned@.len(),
            old(self).planned@[old(self).events@.len() as int] == Event::Require(r),
        ensures
            final(self).wf(),
            final(self).planned == old(self).planned,
            final(self).events@ == old(self).events@.push(Event::Require(r)),
            met == (r is None),
            met && old(self).live() ==> final(self).live(),
    {
        let ghost n = self.events@.len() as int;
        self.events.push(Event::Require(r));
        assert(self.events@ =~= self.planned@.take(n + 1));
        r.is_none()
    }

    /// Records a call.
    pub fn emit(&mut self, s: Step)
        requires
            old(self).wf(),
            old(self).events@.len() < old(self).planned@.len(),
            old(self).planned@[old(self).events@.len() as int] == Event::Emit(s),
        ensures
            final(self).wf(),
            final(self).planned == old(self).planned,
            final(self).events@ == old(self).events@.push(Event::Emit(s)),
            old(self).live() ==> final(self).live(),
    {
        let ghost n = self.events@.len() as int;
        self.events.push(Event::Emit(s));
        assert(self.events@ =~= self.planned@.take(n + 1));
    }

    /// The plan of a course whose last recorded requirement is unmet.
    pub fn fail(self) -> (p: Plan)
        requires
            self.wf(),
            self.events@.len() > 0,
            fails(self.events@.last()),
        ensures
            p.view() == run(self.planned@, seq![]),
            run(self.planned@, seq![]).1 is Err,
    {
        let ghost k = self.events@.len() - 1;
        let p = run_events(&self.events, Vec::new());
        proof {
            lemma_run_stops(self.planned@, k, seq![], seq![]);
            lemma_run_fails(self.planned@, k, seq![]);
        }
        p
    }

    /// The calls of a course recorded to its end with every requirement met.
    pub fn done(self) -> (steps: Vec<Step>)
        requires
            self.wf(),
            self.live(),
            self.events@.len() == self.planned@.len(),
        ensures
            steps@ == emitted(self.planned@),
            forall|i: int| 0 <= i < self.planned@.len() ==> !fails(#[trigger] self.planned@[i]),
    {
        assert(self.planned@.take(self.planned@.len() as int) =~= self.planned@);
        let p = run_events(&self.events, Vec::new());
        proof {
            lemma_run_all_met(self.planned@, seq![]);
        }
        p.steps
    }

    /// The plan of a course recorded to its end, with the writes it then makes.
    pub fn finish(self, writes: Vec<StateWrite>) -> (p: Plan)
        requires
            self.wf(),
            self.events@.len() == self.planned@.len(),
        ensures
            p.view() == run(self.planned@, writes@),
    {
        assert(self.planned@.take(self.planned@.len() as int) =~= self.planned@);
        run_events(&self.events, writes)
    }
}

/// What an instruction does: the steps to take in order, then the states to write or
/// the error it fails with. A step that fails ends the instruction with that step's
/// error, and nothing is written; the runtime undoes the calls made before it. (A
/// step whose result the code drops is still listed as such; carried out on Solana,
/// its failure ends the transaction all the same.)
#[derive(PartialEq, Eq, Debug)]
pub struct Plan {
    pub steps: Vec<Step>,
    pub outcome: Result<Vec<StateWrite>, ErrorCode>,
}

impl Plan {
    /// The plan as sequences.
    pub open spec fn view(&self) -> (Seq<Step>, Result<Seq<StateWrite>, ErrorCode>) {
        (
            self.steps@,
            match self.outcome {
                Ok(w) => Ok(w@),
                Err(e) => Err(e),
            },
        )
    }
}

/// The plan of an instruction whose account checks `checks` were all met, making the
/// calls `steps`, followed by its handler's plan `h`.
pub fn then(
    steps: Vec<Step>,
    h: Plan,
    Ghost(checks): Ghost<Seq<Event>>,
    Ghost(handler): Ghost<Seq<Event>>,
    Ghost(writes): Ghost<Seq<StateWrite>>,
) -> (p: Plan)
    requires
        forall|i: int| 0 <= i < checks.len() ==> !fails(#[trigger] checks[i]),
        steps@ == emitted(checks),
        h.view() == run(handler, writes),
    ensures
        p.view() == run(checks + handler, writes),
{
    let mut steps = steps;
    let mut hs = h.steps;
    let ghost before = steps@;
    steps.append(&mut hs);
    proof {
        lemma_run_append(checks, handler, writes);
    }
    Plan { steps, outcome: h.outcome }
}

/// Makes a course into a plan.
pub fn run_events(events: &Vec<Event>, writes: Vec<StateWrite>) -> (r: Plan)
    ensures
        r.view() == run(events@, writes@),
{
    let mut steps: Vec<Step> = Vec::new();
    let mut i: usize = 0;
    assert(events@.skip(0) =~= events@);
    assert(steps@ + run(events@, writes@).0 =~= run(events@, writes@).0);
    while i < events.len()
        invariant
            0 <= i <= events@.len(),
            run(events@, writes@) == (steps@ + run(events@.skip(i as int), writes@).0, run(
                events@.skip(i as int),
                writes@,
            ).1),
        decreases events@.len() - i,
    {
        let ghost rest = events@.skip(i as int);
        assert(rest[0] == events@[i as int]);
        assert(rest.drop_first() =~= events@.skip(i + 1));
        match events[i] {
            Event::Require(Some(e)) => {
                assert(steps@ + seq![] =~= steps@);
                return Plan { steps, outcome: Err(e) };
            },
            Event::Require(None) => {},
            Event::Emit(s) => {
                let ghost before = steps@;
                steps.push(s);
                assert(before + (seq![s] + run(events@.skip(i + 1), writes@).0) =~= steps@ + run(
                    events@.skip(i + 1),
                    writes@,
                ).0);
            },
        }
        i = i + 1;
    }
    assert(events@.skip(i as int) =~= Seq::<Event>::empty());
    assert(steps@ + seq![] =~= steps@);
    Plan { steps, outcome: Ok(writes) }
}

} // verus!
