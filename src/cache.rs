//! The debounce cache of a process-backed collector task: the process runs
//! at most once per period, and every call in between is answered from the
//! result of the last run, success or failure.
//!
//! Times are nanoseconds on a monotonic clock, counted from any fixed origin.
//! The caller holds the task's lock across `need_run`, the run of the process
//! and `record`, so that one task never runs twice at once.

use vstd::prelude::*;

verus! {

/// What a finished process printed, and its exit code if it had one.
#[derive(Clone, Debug, PartialEq, Eq)]
pub struct ExecOutput {
    pub stdout: String,
    pub stderr: String,
    pub status: Option<i32>,
}

pub struct ExecOutputView {
    pub stdout: Seq<char>,
    pub stderr: Seq<char>,
    pub status: Option<i32>,
}

impl View for ExecOutput {
    type V = ExecOutputView;

    open spec fn view(&self) -> ExecOutputView {
        ExecOutputView { stdout: self.stdout@, stderr: self.stderr@, status: self.status }
    }
}

impl ExecOutput {
    /// A copy of this output.
    pub fn duplicate(&self) -> (r: ExecOutput)
        ensures
            r@ == self@,
    {
        ExecOutput { stdout: self.stdout.clone(), stderr: self.stderr.clone(), status: self.status }
    }
}

/// How an attempt to run the process ended.
#[derive(Clone, Debug, PartialEq, Eq)]
pub enum Outcome {
    /// The process ran to its end; `status_text` describes its exit status.
    Exited { output: ExecOutput, success: bool, status_text: String },
    /// The process could not be started.
    SpawnFailed { message: String },
}

pub enum OutcomeView {
    Exited { output: ExecOutputView, success: bool, status_text: Seq<char> },
    SpawnFailed { message: Seq<char> },
}

impl View for Outcome {
    type V = OutcomeView;

    open spec fn view(&self) -> OutcomeView {
        match self {
            Outcome::Exited { output, success, status_text } => OutcomeView::Exited {
                output: output@,
                success: *success,
                status_text: status_text@,
            },
            Outcome::SpawnFailed { message } => OutcomeView::SpawnFailed { message: message@ },
        }
    }
}

/// The cached answer: the output of the last successful run, or the message
/// of the last failure.
pub type Cached = Result<ExecOutput, String>;

pub type CachedView = Result<ExecOutputView, Seq<char>>;

pub open spec fn cached_view(c: Cached) -> CachedView {
    match c {
        Ok(o) => Ok(o@),
        Err(m) => Err(m@),
    }
}

/// The message of a run that ended with a failing exit status.
pub open spec fn failure_message(status_text: Seq<char>) -> Seq<char> {
    "Command failed: rc == "@ + status_text
}

/// What an attempt leaves in the cache: the output on a successful exit,
/// otherwise the failure.
pub open spec fn answer_of(o: OutcomeView) -> CachedView {
    match o {
        OutcomeView::Exited { output, success, status_text } => if success {
            Ok(output)
        } else {
            Err(failure_message(status_text))
        },
        OutcomeView::SpawnFailed { message } => Err(message),
    }
}

/// The message held before the first run.
pub open spec fn uninitialized_message() -> Seq<char> {
    "Not yet initialized"@
}

/// The state of one task's cache.
pub struct ExecCache {
    period: u64,
    last_run: Option<u64>,
    state: Cached,
}

pub struct ExecCacheView {
    pub period: nat,
    pub last_run: Option<nat>,
    pub state: CachedView,
}

impl View for ExecCache {
    type V = ExecCacheView;

    closed spec fn view(&self) -> ExecCacheView {
        ExecCacheView {
            period: self.period as nat,
            last_run: match self.last_run {
                Some(t) => Some(t as nat),
                None => None,
            },
            state: cached_view(self.state),
        }
    }
}

/// Whether a call at `now` runs the process: it never ran, or more than the
/// period has passed since it last did.
pub open spec fn due(c: ExecCacheView, now: nat) -> bool {
    match c.last_run {
        None => true,
        Some(t) => now - t > c.period,
    }
}

/// The cache after an attempt that finished at `at` with `o`.
pub open spec fn recorded(c: ExecCacheView, at: nat, o: OutcomeView) -> ExecCacheView {
    ExecCacheView { period: c.period, last_run: Some(at), state: answer_of(o) }
}

/// One serialized call: `poll` at `now`, then, on `Run`, the attempt that
/// finishes at `at` with `o` and its `record`.
/// Gives the cache after the call and whether the process ran.
pub open spec fn call(c: ExecCacheView, now: nat, at: nat, o: OutcomeView) -> (ExecCacheView, bool) {
    if due(c, now) {
        (recorded(c, at, o), true)
    } else {
        (c, false)
    }
}

/// A run of serialized calls, each given as its start, the time its attempt
/// would finish and how it would end. Gives the final cache, how many times
/// the process ran, and the answer of each call.
pub open spec fn calls(c: ExecCacheView, cs: Seq<(nat, nat, OutcomeView)>) -> (ExecCacheView, nat, Seq<CachedView>)
    decreases cs.len(),
{
    if cs.len() == 0 {
        (c, 0, Seq::empty())
    } else {
        let (next, ran) = call(c, cs[0].0, cs[0].1, cs[0].2);
        let (last, runs, answers) = calls(next, cs.skip(1));
        (last, runs + if ran { 1nat } else { 0nat }, seq![next.state] + answers)
    }
}

/// A copy of a cached answer.
pub fn copy_cached(c: &Cached) -> (r: Cached)
    ensures
        cached_view(r) == cached_view(*c),
{
    match c {
        Ok(o) => Ok(o.duplicate()),
        Err(m) => Err(m.clone()),
    }
}

impl ExecCache {
    /// The cache of a task that never ran, with the given period.
    pub fn new(period: u64) -> (r: ExecCache)
        ensures
            r@.period == period,
            r@.last_run is None,
            r@.state == Err::<ExecOutputView, Seq<char>>(uninitialized_message()),
    {
        ExecCache { period, last_run: None, state: Err(String::from_str("Not yet initialized")) }
    }

    /// The period in nanoseconds.
    pub fn period(&self) -> (r: u64)
        ensures
            r == self@.period,
    {
        self.period
    }

    /// When the last attempt finished, if there was one.
    pub fn last_run(&self) -> (r: Option<u64>)
        ensures
            match r {
                Some(t) => self@.last_run == Some(t as nat),
                None => self@.last_run is None,
            },
    {
        self.last_run
    }

    /// Whether a call at `now` has to run the process.
    pub fn need_run(&self, now: u64) -> (r: bool)
        ensures
            r == due(self@, now as nat),
    {
        match self.last_run {
            None => true,
            Some(t) => now > t && now - t > self.period,
        }
    }

    /// A copy of the cached answer.
    pub fn cached(&self) -> (r: Cached)
        ensures
            cached_view(r) == self@.state,
    {
        copy_cached(&self.state)
    }

    /// Records an attempt that finished at `at`: the time is kept whatever the
    /// outcome, so that a task that keeps failing is still run at most once
    /// per period. Returns the new answer.
    pub fn record(&mut self, at: u64, outcome: Outcome) -> (r: Cached)
        ensures
            final(self)@ == recorded(old(self)@, at as nat, outcome@),
            cached_view(r) == answer_of(outcome@),
    {
        let answer = match outcome {
            Outcome::Exited { output, success, status_text } => {
                if success {
                    Ok(output)
                } else {
                    let mut message = String::from_str("Command failed: rc == ");
                    message.append(status_text.as_str());
                    Err(message)
                }
            },
            Outcome::SpawnFailed { message } => Err(message),
        };
        self.last_run = Some(at);
        self.state = answer;
        copy_cached(&self.state)
    }
}

/// What a call has to do.
#[derive(Debug, PartialEq, Eq)]
pub enum Poll {
    /// Answer with this, without running the process.
    Cached(Cached),
    /// Run the process and `record` how the attempt ended.
    Run,
}

impl ExecCache {
    /// What a call at `now` has to do: run the process when due, otherwise
    /// answer with the cached result. The caller holds the task's lock from
    /// here until the answer, and after `Run` records the attempt.
    pub fn poll(&self, now: u64) -> (r: Poll)
        ensures
            r is Run <==> due(self@, now as nat),
            r matches Poll::Cached(c) ==> cached_view(c) == self@.state,
    {
        if self.need_run(now) {
            Poll::Run
        } else {
            Poll::Cached(self.cached())
        }
    }
}

/// A due call's attempt that finishes no earlier than the call started moves
/// the time of the last run forward to its end, whatever the outcome.
pub proof fn lemma_attempt_stamps_time(c: ExecCacheView, now: nat, at: nat, o: OutcomeView)
    requires
        due(c, now),
        now <= at,
    ensures
        call(c, now, at, o).1,
        call(c, now, at, o).0.last_run == Some(at),
        call(c, now, at, o).0.state == answer_of(o),
{
}

/// Once an attempt that finished at `at` is recorded, a call that starts no
/// later than one period after `at` does not run the process and answers
/// with what was recorded.
pub proof fn lemma_fresh_within_period(c: ExecCacheView, at: nat, o: OutcomeView, now: nat)
    requires
        at <= now <= at + c.period,
    ensures
        !due(recorded(c, at, o), now),
        call(recorded(c, at, o), now, now, o) == (recorded(c, at, o), false),
        recorded(c, at, o).state == answer_of(o),
{
}

/// Serialized calls that all start within one period of the end of the first
/// call's attempt run the process exactly once when the cache is due at the
/// first start, and every one of them answers with the same result: the
/// answer of that single attempt.
pub proof fn lemma_one_run_per_period(c: ExecCacheView, cs: Seq<(nat, nat, OutcomeView)>)
    requires
        cs.len() > 0,
        due(c, cs[0].0),
        forall|i: int| 1 <= i < cs.len() ==> cs[0].1 <= #[trigger] cs[i].0 <= cs[0].1 + c.period,
    ensures
        calls(c, cs).1 == 1,
        calls(c, cs).0 == recorded(c, cs[0].1, cs[0].2),
        forall|i: int| 0 <= i < cs.len() ==> #[trigger] calls(c, cs).2[i] == answer_of(cs[0].2),
        calls(c, cs).2.len() == cs.len(),
{
    let first = recorded(c, cs[0].1, cs[0].2);
    lemma_fresh_calls(first, cs[0].1, cs[0].2, cs.skip(1));
    let rest = calls(first, cs.skip(1));
    assert forall|i: int| 0 <= i < cs.len() implies #[trigger] calls(c, cs).2[i] == answer_of(cs[0].2) by {
        if i > 0 {
            assert(calls(c, cs).2[i] == rest.2[i - 1]);
        }
    }
}

/// Calls that all start within one period of a recorded attempt leave the
/// cache as it is, never run the process, and all answer with the record.
proof fn lemma_fresh_calls(first: ExecCacheView, at: nat, o: OutcomeView, cs: Seq<(nat, nat, OutcomeView)>)
    requires
        first.last_run == Some(at),
        first.state == answer_of(o),
        forall|i: int| 0 <= i < cs.len() ==> at <= #[trigger] cs[i].0 <= at + first.period,
    ensures
        calls(first, cs).1 == 0,
        calls(first, cs).0 == first,
        calls(first, cs).2.len() == cs.len(),
        forall|i: int| 0 <= i < cs.len() ==> #[trigger] calls(first, cs).2[i] == answer_of(o),
    decreases cs.len(),
{
    if cs.len() > 0 {
        assert(at <= cs[0].0 <= at + first.period);
        let tail = cs.skip(1);
        assert forall|i: int| 0 <= i < tail.len() implies at <= #[trigger] tail[i].0 <= at + first.period by {
            assert(tail[i] == cs[i + 1]);
        }
        lemma_fresh_calls(first, at, o, tail);
        let rest = calls(first, tail);
        assert forall|i: int| 0 <= i < cs.len() implies #[trigger] calls(first, cs).2[i] == answer_of(o) by {
            if i > 0 {
                assert(calls(first, cs).2[i] == rest.2[i - 1]);
            }
        }
    }
}

} // verus!
