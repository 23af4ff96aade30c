//! The polling loop's decision core: classifying dispatch results, mandating
//! the fixed backoff, and releasing acquired resources exactly once.

use vstd::prelude::*;

verus! {

/// Fixed backoff applied when a dispatch pass finds no new data, in
/// milliseconds.  A tunable default, deliberately not adaptive: it bounds
/// tail latency against CPU burn.
pub const BACKOFF_MS: u64 = 10;

/// What one dispatch pass's return code means.
#[derive(Clone, Copy, Debug, PartialEq, Eq, Structural)]
pub enum PassClass {
    /// Some data was consumed; poll again immediately.
    Progress,
    /// No new data yet; not an error, retry after the fixed backoff.
    TransientEmpty,
    /// Segment abandoned or a fatal provider condition; stop polling.
    Terminal,
}

/// The class a dispatch return code falls in: positive is progress, zero is
/// transient emptiness, negative is terminal.
pub open spec fn class_of_code(code: int) -> PassClass {
    if code > 0 {
        PassClass::Progress
    } else if code == 0 {
        PassClass::TransientEmpty
    } else {
        PassClass::Terminal
    }
}

/// Classify one dispatch pass's return code.
pub fn classify(code: i32) -> (c: PassClass)
    ensures
        c == class_of_code(code as int),
{
    if code > 0 {
        PassClass::Progress
    } else if code == 0 {
        PassClass::TransientEmpty
    } else {
        PassClass::Terminal
    }
}

/// What the polling driver must do after one dispatch pass.
#[derive(Clone, Copy, Debug, PartialEq, Eq, Structural)]
pub enum PollAction {
    /// Progress was made: poll again immediately.
    PollAgain,
    /// Nothing new yet: sleep the fixed backoff, then poll again.
    SleepThenPoll,
    /// The loop is over: release every acquired resource and return.
    Finish,
}

/// The grouping granularity this core fixes: records are assembled into
/// request-level transactions.
pub const REQUEST_GROUPING: u32 = 1;

/// The dispatcher's bookkeeping state: which resources of the dispatch
/// pipeline are still acquired, whether the loop has ended, whether the
/// resources were released, and how much backoff the passes so far have
/// mandated.
pub struct DispatchModel {
    /// The log cursor is acquired.
    pub cursor_bound: bool,
    /// The dispatch context is acquired.
    pub ctx_bound: bool,
    /// The parsing context is acquired.
    pub parse_bound: bool,
    /// The loop has ended: a terminal pass, or the handler asked to stop.
    pub done: bool,
    /// The resources were released; happens exactly once.
    pub released: bool,
    /// Total sleep the passes so far have mandated, in milliseconds.
    pub slept_ms: nat,
}

/// The state a freshly started dispatcher is in: everything acquired,
/// nothing released, no backoff mandated yet.
pub open spec fn initial_model() -> DispatchModel {
    DispatchModel {
        cursor_bound: true,
        ctx_bound: true,
        parse_bound: true,
        done: false,
        released: false,
        slept_ms: 0,
    }
}

/// What the driver must do after a pass returning `code`, when the handler
/// answered `stop`: the handler's stop wins, then progress, transient
/// emptiness and terminality decide.
pub open spec fn action_of(code: int, stop: bool) -> PollAction {
    if stop {
        PollAction::Finish
    } else if code > 0 {
        PollAction::PollAgain
    } else if code == 0 {
        PollAction::SleepThenPoll
    } else {
        PollAction::Finish
    }
}

/// How one pass moves the dispatcher's state: the loop ends on a terminal
/// code or a stop answer, a transiently empty pass mandates one fixed
/// backoff interval, and nothing else changes.
pub open spec fn step(s: DispatchModel, code: int, stop: bool) -> DispatchModel {
    DispatchModel {
        done: s.done || stop || code < 0,
        slept_ms: if !stop && code == 0 {
            (s.slept_ms + BACKOFF_MS) as nat
        } else {
            s.slept_ms
        },
        ..s
    }
}

/// The state after the one release: nothing acquired any more.
pub open spec fn released_model(s: DispatchModel) -> DispatchModel {
    DispatchModel {
        cursor_bound: false,
        ctx_bound: false,
        parse_bound: false,
        done: true,
        released: true,
        ..s
    }
}

/// The dispatcher's bookkeeping: the verified core of the polling loop.
/// The driver performs one dispatch pass, delivers the produced batches to
/// the handler, and reports the pass's code and the handler's verdict here;
/// the returned action tells it what to do next.  Once the action is
/// `Finish`, no further pass is admitted — so the handler is never invoked
/// again — and a single [`Dispatcher::finish`] releases every resource.
pub struct Dispatcher {
    cursor_bound: bool,
    ctx_bound: bool,
    parse_bound: bool,
    done: bool,
    released: bool,
    slept_ms: u64,
}

impl View for Dispatcher {
    type V = DispatchModel;

    closed spec fn view(&self) -> DispatchModel {
        DispatchModel {
            cursor_bound: self.cursor_bound,
            ctx_bound: self.ctx_bound,
            parse_bound: self.parse_bound,
            done: self.done,
            released: self.released,
            slept_ms: self.slept_ms as nat,
        }
    }
}

impl Dispatcher {
    /// Start a dispatch loop: the driver has bound the cursor in tail mode
    /// and acquired the dispatch and parsing contexts.
    pub fn new() -> (d: Dispatcher)
        ensures
            d@ == initial_model(),
    {
        Dispatcher {
            cursor_bound: true,
            ctx_bound: true,
            parse_bound: true,
            done: false,
            released: false,
            slept_ms: 0,
        }
    }

    /// Record one dispatch pass: the provider's return code and whether the
    /// batch handler asked to stop.  Returns what the driver must do next.
    pub fn on_pass(&mut self, code: i32, stop: bool) -> (a: PollAction)
        requires
            !old(self)@.done,
            !old(self)@.released,
            old(self)@.slept_ms + BACKOFF_MS <= u64::MAX,
        ensures
            a == action_of(code as int, stop),
            final(self)@ == step(old(self)@, code as int, stop),
    {
        if stop {
            self.done = true;
            PollAction::Finish
        } else if code > 0 {
            PollAction::PollAgain
        } else if code == 0 {
            self.slept_ms = self.slept_ms + BACKOFF_MS;
            PollAction::SleepThenPoll
        } else {
            self.done = true;
            PollAction::Finish
        }
    }

    /// Release the cursor and both contexts, deterministically and exactly
    /// once — on normal exit, on stop, and on early cancellation alike.
    pub fn finish(&mut self)
        requires
            !old(self)@.released,
        ensures
            final(self)@ == released_model(old(self)@),
    {
        self.cursor_bound = false;
        self.ctx_bound = false;
        self.parse_bound = false;
        self.done = true;
        self.released = true;
    }

    /// Whether the loop has ended.
    pub fn is_done(&self) -> (r: bool)
        ensures
            r == self@.done,
    {
        self.done
    }

    /// Whether the resources were already released.
    pub fn is_released(&self) -> (r: bool)
        ensures
            r == self@.released,
    {
        self.released
    }

    /// Whether the log cursor is still acquired.
    pub fn cursor_bound(&self) -> (r: bool)
        ensures
            r == self@.cursor_bound,
    {
        self.cursor_bound
    }

    /// Whether the dispatch context is still acquired.
    pub fn ctx_bound(&self) -> (r: bool)
        ensures
            r == self@.ctx_bound,
    {
        self.ctx_bound
    }

    /// Whether the parsing context is still acquired.
    pub fn parse_bound(&self) -> (r: bool)
        ensures
            r == self@.parse_bound,
    {
        self.parse_bound
    }

    /// Total backoff the passes so far have mandated, in milliseconds.
    pub fn backoff_total(&self) -> (r: u64)
        ensures
            r as nat == self@.slept_ms,
    {
        self.slept_ms
    }
}

/// The state after `n` consecutive passes that found no data.
pub open spec fn run_transient(s: DispatchModel, n: nat) -> DispatchModel
    decreases n,
{
    if n == 0 {
        s
    } else {
        step(run_transient(s, (n - 1) as nat), 0, false)
    }
}

/// A provider with no data for `n` passes in a row mandates exactly
/// `n` fixed backoff intervals of sleep — fixed, never exponential — and
/// neither ends the loop nor touches a resource.
pub proof fn lemma_fixed_backoff(s: DispatchModel, n: nat)
    ensures
        run_transient(s, n).slept_ms == s.slept_ms + n * BACKOFF_MS,
        run_transient(s, n).done == s.done,
        run_transient(s, n).released == s.released,
        run_transient(s, n).cursor_bound == s.cursor_bound,
        run_transient(s, n).ctx_bound == s.ctx_bound,
        run_transient(s, n).parse_bound == s.parse_bound,
    decreases n,
{
    if n > 0 {
        lemma_fixed_backoff(s, (n - 1) as nat);
        assert(n * BACKOFF_MS == (n - 1) * BACKOFF_MS + BACKOFF_MS) by (nonlinear_arith);
    }
}

/// After a terminal code the loop exits at once: the pass's action is
/// `Finish`, the state is done, and no further backoff is mandated — the
/// exit comes within one backoff interval of the code's arrival.
pub proof fn lemma_terminal_exits(s: DispatchModel, code: int, stop: bool)
    requires
        code < 0,
    ensures
        action_of(code, stop) == PollAction::Finish,
        step(s, code, stop).done,
        step(s, code, stop).slept_ms == s.slept_ms,
{
}

/// A stop answer from the batch handler ends the loop whatever the pass
/// returned: the action is `Finish` and the state is done, so no later
/// pass — and hence no later handler invocation — is admitted, and the
/// subsequent release returns the loop cleanly.
pub proof fn lemma_stop_is_final(s: DispatchModel, code: int)
    ensures
        action_of(code, true) == PollAction::Finish,
        step(s, code, true).done,
        step(s, code, true).slept_ms == s.slept_ms,
{
}

/// A pass never touches the acquired resources nor the released flag:
/// release happens only through the one `finish`, which clears them all.
pub proof fn lemma_pass_holds_resources(s: DispatchModel, code: int, stop: bool)
    ensures
        step(s, code, stop).cursor_bound == s.cursor_bound,
        step(s, code, stop).ctx_bound == s.ctx_bound,
        step(s, code, stop).parse_bound == s.parse_bound,
        step(s, code, stop).released == s.released,
        !released_model(s).cursor_bound,
        !released_model(s).ctx_bound,
        !released_model(s).parse_bound,
        released_model(s).released,
{
}

} // verus!
