//! Life of a libkrun context: made, configured, entered or handed out, and
//! freed on every failure in between.

use vstd::prelude::*;
use crate::error::UnexpectedEvent;
use crate::shim::{ApplyPlan, KrunCall, KrunOp, ShimConfig, ShimError, ShimFault};
use crate::shim;
use crate::text;

verus! {

// ---------------------------------------------------------------------------
// A prepared machine
// ---------------------------------------------------------------------------

/// A configured libkrun context, ready to be started.
#[derive(Debug)]
pub struct PreparedVm {
    /// Context id; none once it has been handed out.
    ctx: Option<u32>,
}

impl View for PreparedVm {
    type V = Option<u32>;

    closed spec fn view(&self) -> Option<u32> {
        self.ctx
    }
}

/// What becomes of an attempt to enter a machine.
#[derive(Debug)]
pub struct StartOutcome {
    /// Context to free, where the attempt failed.
    pub free: Option<u32>,
    /// Outcome to report.
    pub result: Result<(), ShimError>,
}

/// The objection to a machine whose context is gone.
pub open spec fn consumed_fault() -> ShimFault {
    ShimFault::InvalidConfig("PreparedVm context already consumed"@)
}

impl PreparedVm {
    /// A machine that holds a context.
    pub fn new(ctx: u32) -> (r: Self)
        ensures
            r@ == Some(ctx),
    {
        PreparedVm { ctx: Some(ctx) }
    }

    /// The context id, if it is still held.
    pub fn ctx(&self) -> (r: Option<u32>)
        ensures
            r == self@,
    {
        self.ctx
    }

    /// Hands out the context id without freeing it. The caller then starts or
    /// frees the context.
    pub fn into_ctx(self) -> (r: Result<u32, ShimError>)
        ensures
            match self@ {
                Some(c) => r == Ok::<u32, ShimError>(c),
                None => r matches Err(e) && e@ == consumed_fault(),
            },
    {
        match self.ctx {
            Some(c) => Ok(c),
            None => Err(
                ShimError::InvalidConfig("PreparedVm context already consumed".to_owned()),
            ),
        }
    }

    /// The context to enter: the first half of starting a machine.
    pub fn start(self) -> (r: Result<u32, ShimError>)
        ensures
            match self@ {
                Some(c) => r == Ok::<u32, ShimError>(c),
                None => r matches Err(e) && e@ == consumed_fault(),
            },
    {
        self.into_ctx()
    }

    /// The context to free when the machine is given up unstarted.
    pub fn release(self) -> (r: Option<u32>)
        ensures
            r == self@,
    {
        self.ctx
    }
}

/// What entering the context of a prepared machine gave: the second half of
/// starting it. A failed entry frees the context.
pub fn finish_start(ctx: u32, entered: Result<(), String>) -> (r: StartOutcome)
    ensures
        match entered {
            Ok(()) => r.free is None && r.result is Ok,
            Err(m) => r.free == Some(ctx) && (r.result matches Err(e) && e@ == ShimFault::Krun(m@)),
        },
{
    match entered {
        Ok(()) => StartOutcome { free: None, result: Ok(()) },
        Err(m) => StartOutcome { free: Some(ctx), result: Err(ShimError::Krun(m)) },
    }
}

/// What entering a bare context gave. The context stays with the caller.
pub fn start(entered: Result<(), String>) -> (r: Result<(), ShimError>)
    ensures
        match entered {
            Ok(()) => r is Ok,
            Err(m) => r matches Err(e) && e@ == ShimFault::Krun(m@),
        },
{
    match entered {
        Ok(()) => Ok(()),
        Err(m) => Err(ShimError::Krun(m)),
    }
}

// ---------------------------------------------------------------------------
// The transition system
// ---------------------------------------------------------------------------

/// How far a boot has come.
pub enum BootStage {
    /// A context is being made.
    Creating,
    /// The context is being configured.
    Applying(u32),
    /// The context is being entered.
    Entering(u32),
    /// The context is being freed after a failure.
    Freeing(u32, ShimFault),
    /// The context is configured.
    Prepared(u32),
    /// The machine has been entered.
    Entered,
    /// It has failed.
    Failed(ShimFault),
}

/// State of a boot: calls still to be made, the objection to raise after them,
/// whether to enter the machine in the end, and how far it has come.
pub struct BootState {
    pub todo: Seq<KrunOp>,
    pub reject: Option<Seq<char>>,
    pub enter: bool,
    pub stage: BootStage,
}

/// What to do, with texts.
pub enum BootOp {
    CreateCtx,
    Call(u32, KrunOp),
    StartEnter(u32),
    FreeCtx(u32),
    Finished,
}

/// What came of the last thing to do.
#[derive(Debug)]
pub enum BootEvent {
    /// Making a context gave its id or a failure.
    Created(Result<u32, String>),
    /// Any other call succeeded or failed.
    Done(Result<(), String>),
}

/// Goes on with a context in hand.
pub open spec fn proceed(s: BootState, ctx: u32) -> (BootState, BootOp) {
    if s.todo.len() > 0 {
        (
            BootState { todo: s.todo.drop_first(), stage: BootStage::Applying(ctx), ..s },
            BootOp::Call(ctx, s.todo[0]),
        )
    } else {
        match s.reject {
            Some(m) => (
                BootState { stage: BootStage::Freeing(ctx, ShimFault::InvalidConfig(m)), ..s },
                BootOp::FreeCtx(ctx),
            ),
            None => if s.enter {
                (BootState { stage: BootStage::Entering(ctx), ..s }, BootOp::StartEnter(ctx))
            } else {
                (BootState { stage: BootStage::Prepared(ctx), ..s }, BootOp::Finished)
            },
        }
    }
}

/// Gives up with a context in hand.
pub open spec fn abandon(s: BootState, ctx: u32, m: Seq<char>) -> (BootState, BootOp) {
    (
        BootState { stage: BootStage::Freeing(ctx, ShimFault::Krun(m)), ..s },
        BootOp::FreeCtx(ctx),
    )
}

/// The state after an event and what to do then, or nothing when the event
/// does not belong to the state.
pub open spec fn boot_next(s: BootState, e: BootEvent) -> Option<(BootState, BootOp)> {
    match (s.stage, e) {
        (BootStage::Creating, BootEvent::Created(Ok(ctx))) => Some(proceed(s, ctx)),
        (BootStage::Creating, BootEvent::Created(Err(m))) => Some(
            (BootState { stage: BootStage::Failed(ShimFault::Krun(m@)), ..s }, BootOp::Finished),
        ),
        (BootStage::Applying(ctx), BootEvent::Done(Ok(()))) => Some(proceed(s, ctx)),
        (BootStage::Applying(ctx), BootEvent::Done(Err(m))) => Some(abandon(s, ctx, m@)),
        (BootStage::Entering(ctx), BootEvent::Done(Ok(()))) => Some(
            (BootState { stage: BootStage::Entered, ..s }, BootOp::Finished),
        ),
        (BootStage::Entering(ctx), BootEvent::Done(Err(m))) => Some(abandon(s, ctx, m@)),
        (BootStage::Freeing(ctx, f), BootEvent::Done(_)) => Some(
            (BootState { stage: BootStage::Failed(f), ..s }, BootOp::Finished),
        ),
        _ => None,
    }
}

/// A boot that has yet to make its context.
pub open spec fn booting(cfg: ShimConfig, enter: bool) -> BootState {
    BootState {
        todo: shim::config_ops(cfg),
        reject: shim::config_reject(cfg),
        enter,
        stage: BootStage::Creating,
    }
}

// ---------------------------------------------------------------------------
// The boot itself
// ---------------------------------------------------------------------------

/// What to do next.
#[derive(Debug)]
pub enum BootAction {
    /// Make a context.
    CreateCtx,
    /// Make a call on a context.
    Call {
        /// The context.
        ctx: u32,
        /// The call.
        call: KrunCall,
    },
    /// Enter the machine; on success this does not return.
    StartEnter(u32),
    /// Free a context; whether that succeeds does not matter.
    FreeCtx(u32),
    /// Nothing: take the result.
    Finished,
}

impl View for BootAction {
    type V = BootOp;

    open spec fn view(&self) -> BootOp {
        match *self {
            BootAction::CreateCtx => BootOp::CreateCtx,
            BootAction::Call { ctx, call } => BootOp::Call(ctx, call@),
            BootAction::StartEnter(ctx) => BootOp::StartEnter(ctx),
            BootAction::FreeCtx(ctx) => BootOp::FreeCtx(ctx),
            BootAction::Finished => BootOp::Finished,
        }
    }
}

/// How far a boot has come.
enum Stage {
    Creating,
    Applying(u32),
    Entering(u32),
    Freeing(u32, ShimError),
    Prepared(u32),
    Entered,
    Failed(ShimError),
}

/// A boot in progress.
pub struct Boot {
    plan: ApplyPlan,
    enter: bool,
    stage: Stage,
}

spec fn stage_view(s: Stage) -> BootStage {
    match s {
        Stage::Creating => BootStage::Creating,
        Stage::Applying(c) => BootStage::Applying(c),
        Stage::Entering(c) => BootStage::Entering(c),
        Stage::Freeing(c, e) => BootStage::Freeing(c, e@),
        Stage::Prepared(c) => BootStage::Prepared(c),
        Stage::Entered => BootStage::Entered,
        Stage::Failed(e) => BootStage::Failed(e@),
    }
}

impl View for Boot {
    type V = BootState;

    closed spec fn view(&self) -> BootState {
        BootState {
            todo: shim::ops(self.plan.calls@),
            reject: text::opt_view(self.plan.reject),
            enter: self.enter,
            stage: stage_view(self.stage),
        }
    }
}

/// How a boot ended.
#[derive(Debug)]
pub enum BootResult {
    /// It has not ended.
    Pending,
    /// The machine is prepared.
    Prepared(PreparedVm),
    /// The machine was entered and has returned.
    Entered,
    /// It has failed, and no context is left behind.
    Failed(ShimError),
}

/// Begins to prepare a machine: a context is made and configured, and not
/// entered.
pub fn prepare(cfg: &ShimConfig) -> (r: Boot)
    ensures
        r@ == booting(*cfg, false),
{
    Boot { plan: shim::apply_all(cfg), enter: false, stage: Stage::Creating }
}

/// Begins to boot a machine: prepared, then entered.
pub fn boot(cfg: &ShimConfig) -> (r: Boot)
    ensures
        r@ == booting(*cfg, true),
{
    Boot { plan: shim::apply_all(cfg), enter: true, stage: Stage::Creating }
}

impl Boot {
    /// Goes on with a context in hand.
    fn proceed(&mut self, ctx: u32) -> (a: BootAction)
        ensures
            (final(self)@, a@) == proceed(old(self)@, ctx),
    {
        if self.plan.calls.len() > 0 {
            let ghost before = shim::ops(self.plan.calls@);
            let call = self.plan.calls.remove(0);
            assert(shim::ops(self.plan.calls@) =~= before.drop_first());
            self.stage = Stage::Applying(ctx);
            BootAction::Call { ctx, call }
        } else {
            match &self.plan.reject {
                Some(m) => {
                    self.stage = Stage::Freeing(ctx, ShimError::InvalidConfig(m.clone()));
                    BootAction::FreeCtx(ctx)
                },
                None => {
                    if self.enter {
                        self.stage = Stage::Entering(ctx);
                        BootAction::StartEnter(ctx)
                    } else {
                        self.stage = Stage::Prepared(ctx);
                        BootAction::Finished
                    }
                },
            }
        }
    }

    /// Takes in what came of the last thing to do and says what to do next. An
    /// event that does not belong here changes nothing.
    pub fn step(&mut self, event: BootEvent) -> (r: Result<BootAction, UnexpectedEvent>)
        ensures
            match boot_next(old(self)@, event) {
                Some((s, op)) => final(self)@ == s && (r matches Ok(a) && a@ == op),
                None => final(self)@ == old(self)@ && r is Err,
            },
    {
        match event {
            BootEvent::Created(Ok(ctx)) => match &self.stage {
                Stage::Creating => Ok(self.proceed(ctx)),
                _ => Err(UnexpectedEvent),
            },
            BootEvent::Created(Err(m)) => match &self.stage {
                Stage::Creating => {
                    self.stage = Stage::Failed(ShimError::Krun(m));
                    Ok(BootAction::Finished)
                },
                _ => Err(UnexpectedEvent),
            },
            BootEvent::Done(Ok(())) => match &self.stage {
                Stage::Applying(ctx) => {
                    let ctx = *ctx;
                    Ok(self.proceed(ctx))
                },
                Stage::Entering(_) => {
                    self.stage = Stage::Entered;
                    Ok(BootAction::Finished)
                },
                Stage::Freeing(_, f) => {
                    let f = f.duplicate();
                    self.stage = Stage::Failed(f);
                    Ok(BootAction::Finished)
                },
                _ => Err(UnexpectedEvent),
            },
            BootEvent::Done(Err(m)) => match &self.stage {
                Stage::Applying(ctx) => {
                    let ctx = *ctx;
                    self.stage = Stage::Freeing(ctx, ShimError::Krun(m));
                    Ok(BootAction::FreeCtx(ctx))
                },
                Stage::Entering(ctx) => {
                    let ctx = *ctx;
                    self.stage = Stage::Freeing(ctx, ShimError::Krun(m));
                    Ok(BootAction::FreeCtx(ctx))
                },
                Stage::Freeing(_, f) => {
                    let f = f.duplicate();
                    self.stage = Stage::Failed(f);
                    Ok(BootAction::Finished)
                },
                _ => Err(UnexpectedEvent),
            },
        }
    }

    /// How the boot ended.
    pub fn result(self) -> (r: BootResult)
        ensures
            match self@.stage {
                BootStage::Prepared(c) => r matches BootResult::Prepared(vm) && vm@ == Some(c),
                BootStage::Entered => r is Entered,
                BootStage::Failed(f) => r matches BootResult::Failed(e) && e@ == f,
                _ => r is Pending,
            },
    {
        match self.stage {
            Stage::Prepared(c) => BootResult::Prepared(PreparedVm::new(c)),
            Stage::Entered => BootResult::Entered,
            Stage::Failed(e) => BootResult::Failed(e),
            _ => BootResult::Pending,
        }
    }
}

// ---------------------------------------------------------------------------
// What every boot keeps
// ---------------------------------------------------------------------------

/// State and everything done after a run of events.
pub open spec fn boot_run(s: BootState, events: Seq<BootEvent>) -> Option<
    (BootState, Seq<BootOp>),
>
    decreases events.len(),
{
    if events.len() == 0 {
        Some((s, seq![BootOp::CreateCtx]))
    } else {
        match boot_run(s, events.drop_last()) {
            None => None,
            Some((t, done)) => match boot_next(t, events.last()) {
                None => None,
                Some((u, op)) => Some((u, done.push(op))),
            },
        }
    }
}

/// The contexts that were made, in order.
pub open spec fn made(events: Seq<BootEvent>) -> Seq<u32>
    decreases events.len(),
{
    if events.len() == 0 {
        seq![]
    } else {
        match events.last() {
            BootEvent::Created(Ok(ctx)) => made(events.drop_last()).push(ctx),
            _ => made(events.drop_last()),
        }
    }
}

/// The contexts that were freed, in order.
pub open spec fn freed(done: Seq<BootOp>) -> Seq<u32>
    decreases done.len(),
{
    if done.len() == 0 {
        seq![]
    } else {
        match done.last() {
            BootOp::FreeCtx(ctx) => freed(done.drop_last()).push(ctx),
            _ => freed(done.drop_last()),
        }
    }
}

/// The configuration calls that were made, in order.
pub open spec fn called(done: Seq<BootOp>) -> Seq<KrunOp>
    decreases done.len(),
{
    if done.len() == 0 {
        seq![]
    } else {
        match done.last() {
            BootOp::Call(_, op) => called(done.drop_last()).push(op),
            _ => called(done.drop_last()),
        }
    }
}

/// The contexts that have to be freed yet, or that were handed on.
pub open spec fn held(stage: BootStage) -> Seq<u32> {
    match stage {
        BootStage::Applying(c) => seq![c],
        BootStage::Entering(c) => seq![c],
        BootStage::Prepared(c) => seq![c],
        _ => seq![],
    }
}

/// What a boot of the calls `all` keeps at every stage, where `contexts` were
/// made.
spec fn in_order(
    s: BootState,
    done: Seq<BootOp>,
    contexts: Seq<u32>,
    all: Seq<KrunOp>,
    enter: bool,
) -> bool {
    &&& s.enter == enter
    &&& called(done) + s.todo == all
    &&& s.stage is Entered || freed(done) + held(s.stage) == contexts
    &&& s.stage is Entered ==> freed(done).len() == 0 && contexts.len() == 1
    &&& (s.stage is Prepared || s.stage is Entering || s.stage is Entered) ==> s.todo.len() == 0
        && s.reject is None
    &&& s.stage is Prepared ==> !enter
    &&& (s.stage is Entering || s.stage is Entered) ==> enter
    &&& contexts.len() <= 1
    &&& s.stage is Creating ==> contexts.len() == 0
    &&& held(s.stage).len() == 1 ==> contexts == held(s.stage)
    &&& s.stage matches BootStage::Freeing(c, _) ==> contexts == seq![c]
}

/// One step keeps what a boot keeps.
proof fn lemma_step_in_order(
    t: BootState,
    done: Seq<BootOp>,
    before: Seq<BootEvent>,
    e: BootEvent,
    all: Seq<KrunOp>,
    enter: bool,
)
    requires
        in_order(t, done, made(before), all, enter),
        boot_next(t, e) is Some,
    ensures
        ({
            let (s, op) = boot_next(t, e)->0;
            in_order(s, done.push(op), made(before.push(e)), all, enter) && s.reject == t.reject
        }),
{
    let (s, op) = boot_next(t, e)->0;
    let more = done.push(op);
    let events = before.push(e);
    assert(events.drop_last() =~= before);
    assert(more.drop_last() =~= done);
    assert(called(more) + s.todo =~= called(done) + t.todo);
    if s.stage is Entered {
        assert(freed(done) + held(t.stage) == held(t.stage));
        assert(freed(done).len() == 0);
    } else {
        assert(freed(more) + held(s.stage) =~= made(events));
    }
}

/// A boot keeps what it keeps at every stage.
proof fn lemma_boot_keeps(cfg: ShimConfig, enter: bool, events: Seq<BootEvent>)
    requires
        boot_run(booting(cfg, enter), events) is Some,
    ensures
        ({
            let (s, done) = boot_run(booting(cfg, enter), events)->0;
            in_order(s, done, made(events), shim::config_ops(cfg), enter) && s.reject
                == shim::config_reject(cfg)
        }),
    decreases events.len(),
{
    let all = shim::config_ops(cfg);
    if events.len() == 0 {
        reveal_with_fuel(called, 2);
        reveal_with_fuel(freed, 2);
        let done = seq![BootOp::CreateCtx];
        assert(done.drop_last() =~= Seq::<BootOp>::empty());
        assert(called(done) =~= Seq::<KrunOp>::empty());
        assert(freed(done) =~= Seq::<u32>::empty());
        assert(called(done) + all =~= all);
        assert(freed(done) + held(BootStage::Creating) =~= made(events));
    } else {
        let before = events.drop_last();
        lemma_boot_keeps(cfg, enter, before);
        let (t, done) = boot_run(booting(cfg, enter), before)->0;
        lemma_step_in_order(t, done, before, events.last(), all, enter);
        assert(before.push(events.last()) =~= events);
    }
}

/// A boot that fails has freed each context that it made, once, and one that
/// does not fail has freed none.
pub proof fn law_failed_boot_leaves_no_context(
    cfg: ShimConfig,
    enter: bool,
    events: Seq<BootEvent>,
)
    requires
        boot_run(booting(cfg, enter), events) is Some,
    ensures
        ({
            let (s, done) = boot_run(booting(cfg, enter), events)->0;
            &&& s.stage is Failed ==> freed(done) == made(events)
            &&& (s.stage is Prepared || s.stage is Entered) ==> freed(done).len() == 0
        }),
{
    lemma_boot_keeps(cfg, enter, events);
    let (s, done) = boot_run(booting(cfg, enter), events)->0;
    if s.stage is Failed {
        assert(freed(done) + held(s.stage) =~= freed(done));
    }
}

/// A machine is handed out or entered only after every call of its
/// configuration has been made, in order, and never when the configuration is
/// at fault.
pub proof fn law_boot_applies_everything(cfg: ShimConfig, enter: bool, events: Seq<BootEvent>)
    requires
        boot_run(booting(cfg, enter), events) is Some,
    ensures
        ({
            let (s, done) = boot_run(booting(cfg, enter), events)->0;
            s.stage is Prepared || s.stage is Entering || s.stage is Entered ==> called(done)
                == shim::config_ops(cfg) && shim::config_reject(cfg) is None
        }),
{
    lemma_boot_keeps(cfg, enter, events);
    let (s, done) = boot_run(booting(cfg, enter), events)->0;
    if s.stage is Prepared || s.stage is Entering || s.stage is Entered {
        assert(called(done) + s.todo =~= called(done));
    }
}

/// A call that fails is the failure of the boot, in its own words; a context
/// that was made is freed first, and the failure stays what it was whatever
/// comes of that.
pub proof fn law_failed_call_is_the_failure(s: BootState, m: String, r: Result<(), String>)
    ensures
        s.stage is Creating ==> boot_next(s, BootEvent::Created(Err(m))) == Some(
            (BootState { stage: BootStage::Failed(ShimFault::Krun(m@)), ..s }, BootOp::Finished),
        ),
        s.stage matches BootStage::Applying(ctx) ==> boot_next(s, BootEvent::Done(Err(m))) == Some(
            (
                BootState { stage: BootStage::Freeing(ctx, ShimFault::Krun(m@)), ..s },
                BootOp::FreeCtx(ctx),
            ),
        ),
        s.stage matches BootStage::Entering(ctx) ==> boot_next(s, BootEvent::Done(Err(m))) == Some(
            (
                BootState { stage: BootStage::Freeing(ctx, ShimFault::Krun(m@)), ..s },
                BootOp::FreeCtx(ctx),
            ),
        ),
        s.stage matches BootStage::Freeing(ctx, f) ==> boot_next(s, BootEvent::Done(r)) == Some(
            (BootState { stage: BootStage::Failed(f), ..s }, BootOp::Finished),
        ),
{
}

/// Every call of a boot is on the context that was made for it, and that is the
/// one that is handed out or freed.
pub proof fn law_boot_uses_its_own_context(cfg: ShimConfig, enter: bool, events: Seq<BootEvent>)
    ensures
        boot_run(booting(cfg, enter), events) matches Some((s, done)) ==> {
            &&& s.enter == enter
            &&& s.reject == shim::config_reject(cfg)
            &&& s.stage is Prepared ==> !enter
            &&& s.stage is Entering || s.stage is Entered ==> enter
            &&& match done.last() {
                BootOp::Call(ctx, _) => made(events).len() > 0 && ctx == made(events).last(),
                BootOp::StartEnter(ctx) => made(events).len() > 0 && ctx == made(events).last(),
                BootOp::FreeCtx(ctx) => made(events).len() > 0 && ctx == made(events).last(),
                _ => true,
            }
            &&& match s.stage {
                BootStage::Applying(ctx) => made(events).len() > 0 && ctx == made(events).last(),
                BootStage::Entering(ctx) => made(events).len() > 0 && ctx == made(events).last(),
                BootStage::Freeing(ctx, _) => made(events).len() > 0 && ctx == made(events).last(),
                BootStage::Prepared(ctx) => made(events).len() > 0 && ctx == made(events).last(),
                _ => true,
            }
            &&& s.stage matches BootStage::Freeing(_, ShimFault::InvalidConfig(m))
                ==> shim::config_reject(cfg) == Some(m)
            &&& s.stage matches BootStage::Failed(ShimFault::InvalidConfig(m))
                ==> shim::config_reject(cfg) == Some(m)
        },
    decreases events.len(),
{
    if events.len() > 0 {
        law_boot_uses_its_own_context(cfg, enter, events.drop_last());
        match boot_run(booting(cfg, enter), events.drop_last()) {
            Some((t, done)) => {
                if boot_next(t, events.last()) is Some {
                    let op = (boot_next(t, events.last())->0).1;
                    assert(done.push(op).last() == op);
                }
            },
            None => {},
        }
    }
}

} // verus!
