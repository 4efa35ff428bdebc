//! The challenge-bypass fetch policy.
//!
//! Fetching itself is network work and lives outside the library; what is
//! verified here is the policy: how a response body is classified, when a
//! retry (after the fixed delay) happens, and when the attempt budget is
//! exhausted. [`Bypasser::get`] applies the policy to the successive
//! response bodies of the underlying requests, so a driver performs one
//! request per consumed entry, sleeping the fixed delay once per retry.

use vstd::prelude::*;

verus! {

/// How a fetch through the bypasser fails: the attempt budget ran out on
/// challenge pages, or a single request failed at the transport level
/// (which is never retried; the message is the transport error's text).
#[derive(Debug, Clone, PartialEq, Eq)]
pub enum BypassErr {
    MaxTriesErr,
    GetReqErr(String),
}

/// The mathematical shape of a [`BypassErr`].
pub enum BypassErrV {
    MaxTriesErr,
    GetReqErr(Seq<char>),
}

impl DeepView for BypassErr {
    type V = BypassErrV;

    open spec fn deep_view(&self) -> BypassErrV {
        match self {
            BypassErr::MaxTriesErr => BypassErrV::MaxTriesErr,
            BypassErr::GetReqErr(s) => BypassErrV::GetReqErr(s@),
        }
    }
}

/// Whether the pattern, compiled as a regular expression, captures
/// somewhere in the text; false when the pattern is not a valid one.
pub uninterp spec fn regex_has_capture(pattern: Seq<char>, text: Seq<char>) -> bool;

/// Relies on `regex::Regex::new` and `regex::Regex::captures`: compiling
/// and matching are functions of the pattern and text alone, and an
/// invalid pattern captures nothing.
#[verifier::external_body]
fn regex_captures_some(pattern: &str, text: &str) -> (r: bool)
    ensures
        r == regex_has_capture(pattern@, text@),
{
    match regex::Regex::new(pattern) {
        Ok(re) => re.captures(text).is_some(),
        Err(_) => false,
    }
}

/// The form-action marker of an anti-automation challenge interstitial.
pub open spec fn spec_challenge_pattern() -> Seq<char> {
    r#"id="challenge-form" action="([^"]*)""#@
}

/// The marker pattern a challenge page is recognised by.
pub fn challenge_pattern() -> (r: &'static str)
    ensures
        r@ == spec_challenge_pattern(),
{
    r#"id="challenge-form" action="([^"]*)""#
}

/// Whether a response body is a challenge interstitial.
pub open spec fn spec_is_challenge(body: Seq<char>) -> bool {
    regex_has_capture(spec_challenge_pattern(), body)
}

/// Whether a response body is a challenge interstitial rather than the
/// requested content.
pub fn is_challenge_page(body: &str) -> (r: bool)
    ensures
        r == spec_is_challenge(body@),
{
    regex_captures_some(challenge_pattern(), body)
}

/// The number of seconds slept between attempts; constant by design.
pub const RETRY_DELAY_SECS: u64 = 5;

/// The challenge-retry policy: a bounded number of re-attempts on
/// challenge pages, with a fixed delay between attempts.
#[derive(Debug, Clone, PartialEq, Eq)]
pub struct Bypasser {
    max_tries: u8,
}

/// What one application of the policy did: its outcome, how many
/// requests it consumed, and how many fixed delays it slept.
#[derive(Debug, PartialEq, Eq)]
pub struct BypassRun {
    pub outcome: Result<String, BypassErr>,
    pub requests: u32,
    pub sleeps: u32,
}

/// The mathematical shape of a [`BypassRun`].
pub struct BypassRunV {
    pub outcome: Result<Seq<char>, BypassErrV>,
    pub requests: int,
    pub sleeps: int,
}

impl DeepView for BypassRun {
    type V = BypassRunV;

    open spec fn deep_view(&self) -> BypassRunV {
        BypassRunV {
            outcome: match &self.outcome {
                Ok(s) => Ok(s@),
                Err(e) => Err(e.deep_view()),
            },
            requests: self.requests as int,
            sleeps: self.sleeps as int,
        }
    }
}

/// The body-or-error of one response, as sequences.
pub open spec fn event_view(e: Result<String, String>) -> Result<Seq<char>, Seq<char>> {
    match e {
        Ok(s) => Ok(s@),
        Err(m) => Err(m@),
    }
}

/// The bodies-or-errors of a response vector, as sequences.
pub open spec fn events_view(v: Seq<Result<String, String>>) -> Seq<Result<Seq<char>, Seq<char>>> {
    Seq::new(v.len(), |i: int| event_view(v[i]))
}

/// What the policy does from a state where `made` requests have been
/// made and every one of them came back as a challenge page: give up
/// once the budget of `max + 1` requests is spent, fail at once on a
/// transport error, return the first non-challenge body, and otherwise
/// sleep the fixed delay once and try again. A delay is slept only
/// between adjacent requests — never after the last one — so a run of
/// `n` requests sleeps exactly `n - 1` delays.
pub open spec fn spec_run(
    events: Seq<Result<Seq<char>, Seq<char>>>,
    made: int,
    max: int,
) -> BypassRunV
    recommends
        0 <= made,
        events.len() >= max + 1,
    decreases max + 1 - made,
{
    if made > max || made < 0 || made >= events.len() {
        BypassRunV {
            outcome: Err(BypassErrV::MaxTriesErr),
            requests: made,
            sleeps: if made > 0 {
                made - 1
            } else {
                0
            },
        }
    } else {
        match events[made] {
            Err(msg) => BypassRunV {
                outcome: Err(BypassErrV::GetReqErr(msg)),
                requests: made + 1,
                sleeps: made,
            },
            Ok(body) => {
                if spec_is_challenge(body) {
                    spec_run(events, made + 1, max)
                } else {
                    BypassRunV { outcome: Ok(body), requests: made + 1, sleeps: made }
                }
            },
        }
    }
}

/// What the policy decides after one more response: either the run is
/// finished with an outcome, or the driver should sleep the fixed
/// delay once and request again.
#[derive(Debug, PartialEq, Eq)]
pub enum BypassStep {
    Finished(BypassRun),
    SleepAndRetry,
}

/// The mathematical shape of a [`BypassStep`].
pub enum BypassStepV {
    Finished(BypassRunV),
    SleepAndRetry,
}

impl DeepView for BypassStep {
    type V = BypassStepV;

    open spec fn deep_view(&self) -> BypassStepV {
        match self {
            BypassStep::Finished(run) => BypassStepV::Finished(run.deep_view()),
            BypassStep::SleepAndRetry => BypassStepV::SleepAndRetry,
        }
    }
}

/// The policy's decision on the response to request number `made + 1`,
/// every earlier response having been a challenge page: a transport
/// error or ordinary content finishes the run at once; a challenge
/// page finishes it with the budget exhausted when no attempt remains,
/// and otherwise asks for one fixed delay and another request.
pub open spec fn spec_step(made: int, max: int, ev: Result<Seq<char>, Seq<char>>) -> BypassStepV {
    match ev {
        Err(msg) => BypassStepV::Finished(
            BypassRunV {
                outcome: Err(BypassErrV::GetReqErr(msg)),
                requests: made + 1,
                sleeps: made,
            },
        ),
        Ok(body) => if !spec_is_challenge(body) {
            BypassStepV::Finished(
                BypassRunV { outcome: Ok(body), requests: made + 1, sleeps: made },
            )
        } else if made >= max {
            BypassStepV::Finished(
                BypassRunV {
                    outcome: Err(BypassErrV::MaxTriesErr),
                    requests: made + 1,
                    sleeps: made,
                },
            )
        } else {
            BypassStepV::SleepAndRetry
        },
    }
}

/// Law: the per-response decisions compose into the whole-run policy —
/// from any mid-run state, one step either finishes with exactly the
/// run's outcome or continues it one request further.
pub proof fn lemma_step_runs(events: Seq<Result<Seq<char>, Seq<char>>>, made: int, max: int)
    requires
        events.len() >= max + 1,
        0 <= made <= max,
    ensures
        spec_run(events, made, max) == (match spec_step(made, max, events[made]) {
            BypassStepV::Finished(run) => run,
            BypassStepV::SleepAndRetry => spec_run(events, made + 1, max),
        }),
{
    match events[made] {
        Err(_) => {
        },
        Ok(body) => {
            if spec_is_challenge(body) && made == max {
                assert(spec_run(events, made + 1, max) == (BypassRunV {
                    outcome: Err(BypassErrV::MaxTriesErr),
                    requests: made + 1,
                    sleeps: made,
                }));
            }
        },
    }
}

impl Bypasser {
    /// A bypasser with the default attempt budget.
    pub fn new() -> (r: Self)
        ensures
            r.spec_max_tries() == 5,
    {
        Bypasser::default()
    }

    /// The configured maximum number of re-attempts.
    pub closed spec fn spec_max_tries(&self) -> u8 {
        self.max_tries
    }

    /// The configured maximum number of re-attempts.
    pub fn max_tries(&self) -> (r: u8)
        ensures
            r == self.spec_max_tries(),
    {
        self.max_tries
    }

    /// The policy's decision on one more response, `made` requests
    /// having been made so far with every body a challenge page. An
    /// online driver loops over this: it performs a request, hands the
    /// outcome here, and either finishes with the run or sleeps the
    /// fixed delay once and goes round again.
    pub fn on_response(&self, made: u32, response: &Result<String, String>) -> (r: BypassStep)
        requires
            made <= self.spec_max_tries(),
        ensures
            r.deep_view() == spec_step(
                made as int,
                self.spec_max_tries() as int,
                event_view(*response),
            ),
    {
        match response {
            Err(e) => BypassStep::Finished(
                BypassRun {
                    outcome: Err(BypassErr::GetReqErr(e.clone())),
                    requests: made + 1,
                    sleeps: made,
                },
            ),
            Ok(body) => {
                if !is_challenge_page(body.as_str()) {
                    BypassStep::Finished(
                        BypassRun {
                            outcome: Ok(body.clone()),
                            requests: made + 1,
                            sleeps: made,
                        },
                    )
                } else if made >= self.max_tries as u32 {
                    BypassStep::Finished(
                        BypassRun {
                            outcome: Err(BypassErr::MaxTriesErr),
                            requests: made + 1,
                            sleeps: made,
                        },
                    )
                } else {
                    BypassStep::SleepAndRetry
                }
            },
        }
    }

    /// The challenge-retry decision applied to the successive response
    /// bodies of the underlying requests, one per attempt: exactly the
    /// loop of the asynchronous fetch, with the requests themselves
    /// performed by the caller beforehand or alongside, built out of
    /// the same per-response steps an online driver takes.
    pub fn get(&self, responses: &Vec<Result<String, String>>) -> (r: BypassRun)
        requires
            responses@.len() >= self.spec_max_tries() + 1,
        ensures
            r.deep_view() == spec_run(
                events_view(responses@),
                0,
                self.spec_max_tries() as int,
            ),
            r.requests <= self.spec_max_tries() + 1,
    {
        let ghost dv = events_view(responses@);
        let ghost max = self.max_tries as int;
        proof {
            assert(dv.len() == responses@.len());
        }
        let mut tries: u32 = 0;
        while tries <= self.max_tries as u32
            invariant
                responses@.len() >= self.spec_max_tries() + 1,
                dv == events_view(responses@),
                max == self.spec_max_tries() as int,
                dv.len() == responses@.len(),
                0 <= tries <= max + 1,
                spec_run(dv, 0, max) == spec_run(dv, tries as int, max),
            decreases max + 1 - tries,
        {
            let ev = &responses[tries as usize];
            proof {
                assert(dv[tries as int] == event_view(responses@[tries as int]));
                lemma_step_runs(dv, tries as int, max);
            }
            match self.on_response(tries, ev) {
                BypassStep::Finished(run) => {
                    return run;
                },
                BypassStep::SleepAndRetry => {
                    tries = tries + 1;
                },
            }
        }
        proof {
            assert(spec_run(dv, tries as int, max) == (BypassRunV {
                outcome: Err(BypassErrV::MaxTriesErr),
                requests: tries as int,
                sleeps: tries - 1,
            }));
        }
        BypassRun { outcome: Err(BypassErr::MaxTriesErr), requests: tries, sleeps: tries - 1 }
    }
}

impl Default for Bypasser {
    fn default() -> (r: Self)
        ensures
            r.spec_max_tries() == 5,
    {
        Bypasser { max_tries: 5 }
    }
}

/// Law: a fetch sequence whose first `k` responses are challenge pages
/// and whose next response is ordinary content returns that content,
/// after exactly `k + 1` requests with the fixed delay slept between
/// each adjacent pair.
pub proof fn lemma_challenge_bypass(
    events: Seq<Result<Seq<char>, Seq<char>>>,
    max: int,
    k: int,
)
    requires
        events.len() >= max + 1,
        0 <= k <= max,
        forall|j: int| 0 <= j < k ==> #[trigger] events[j] is Ok && spec_is_challenge(
            events[j]->Ok_0,
        ),
        (events[k] is Ok),
        !spec_is_challenge(events[k]->Ok_0),
    ensures
        spec_run(events, 0, max) == (BypassRunV {
            outcome: Ok::<Seq<char>, BypassErrV>(events[k]->Ok_0),
            requests: k + 1,
            sleeps: k,
        }),
{
    lemma_run_skips_challenges(events, max, k);
}

/// Law: a fetch sequence whose every response, up to the whole budget of
/// `max + 1` requests, is a challenge page fails with the budget
/// exhausted, after exactly `max + 1` requests with the fixed delay
/// slept between each adjacent pair.
pub proof fn lemma_max_retries(events: Seq<Result<Seq<char>, Seq<char>>>, max: int)
    requires
        0 <= max,
        events.len() >= max + 1,
        forall|j: int| 0 <= j <= max ==> #[trigger] events[j] is Ok && spec_is_challenge(
            events[j]->Ok_0,
        ),
    ensures
        spec_run(events, 0, max) == (BypassRunV {
            outcome: Err::<Seq<char>, BypassErrV>(BypassErrV::MaxTriesErr),
            requests: max + 1,
            sleeps: max,
        }),
{
    lemma_run_skips_challenges(events, max, max + 1);
}

proof fn lemma_run_skips_challenges(events: Seq<Result<Seq<char>, Seq<char>>>, max: int, i: int)
    requires
        events.len() >= max + 1,
        0 <= i <= max + 1,
        forall|j: int| 0 <= j < i ==> #[trigger] events[j] is Ok && spec_is_challenge(
            events[j]->Ok_0,
        ),
    ensures
        spec_run(events, 0, max) == spec_run(events, i, max),
    decreases i,
{
    if i > 0 {
        lemma_run_skips_challenges(events, max, i - 1);
    }
}

} // verus!
