//! The generation client: its setup, the cleaning of answers, and the retry policy.

use vstd::prelude::*;

use crate::config::Config;
use crate::text::{chars_of, has_prefix, has_prefix_spec, string_of, trim, trim_spec, Strip};

verus! {

/// Attempts made for one generation request, the first included.
pub const MAX_ATTEMPTS: u32 = 3;

/// The pause between two attempts, in milliseconds.
pub const RETRY_DELAY_MS: u64 = 1000;

/// The time one attempt may take, in seconds.
pub const ATTEMPT_TIMEOUT_SECS: u64 = 30;

/// Why one attempt at generation failed.
#[derive(Debug, Clone)]
pub enum AttemptFailure {
    /// No usable answer came within the time allowed for the attempt.
    Timeout,
    /// The network or the provider failed; the text says how.
    TransportError(String),
}

/// What one attempt at generation produced.
#[derive(Debug, Clone)]
pub enum AttemptOutcome {
    Success(String),
    Failed(AttemptFailure),
}

/// Why generation could not give a text.
#[derive(Debug, Clone)]
pub enum GenerationError {
    /// The client could not be set up from the configuration.
    ConfigurationError(String),
    /// Every attempt failed; this is the failure of the last one.
    GenerationFailed(AttemptFailure),
}

/// What the caller of the service does after an attempt.
#[derive(Debug, Clone)]
pub enum RetryDecision {
    /// Generation is over: this is the cleaned text.
    Done(String),
    /// Wait this many milliseconds, then make another attempt.
    Retry(u64),
    /// Generation failed.
    GiveUp(GenerationError),
}

/// `s` ends with `p`.
pub open spec fn has_suffix_spec(s: Seq<char>, p: Seq<char>) -> bool {
    p.len() <= s.len() && s.subrange(s.len() - p.len(), s.len() as int) == p
}

/// An answer without white space at its ends, and without one code fence of three
/// backticks at its start and one at its end; no other markup is touched.
pub open spec fn clean_spec(raw: Seq<char>) -> Seq<char> {
    let fence = seq!['`', '`', '`'];
    let t = trim_spec(Strip::Space, raw);
    let u = if has_prefix_spec(t, fence) {
        t.subrange(3, t.len() as int)
    } else {
        t
    };
    let w = if has_suffix_spec(u, fence) {
        u.subrange(0, u.len() - 3)
    } else {
        u
    };
    trim_spec(Strip::Space, w)
}

/// The decision after an attempt, as plain values.
pub enum Step {
    Finish(Seq<char>),
    Again,
    Fail(AttemptFailure),
}

pub open spec fn step_of(d: RetryDecision) -> Step {
    match d {
        RetryDecision::Done(t) => Step::Finish(t@),
        RetryDecision::Retry(_) => Step::Again,
        RetryDecision::GiveUp(GenerationError::GenerationFailed(f)) => Step::Fail(f),
        RetryDecision::GiveUp(GenerationError::ConfigurationError(_)) => Step::Again,
    }
}

/// What follows the `attempt`-th attempt for one request when it ended in `outcome`.
pub open spec fn decide(attempt: nat, outcome: AttemptOutcome) -> Step {
    match outcome {
        AttemptOutcome::Success(text) => Step::Finish(clean_spec(text@)),
        AttemptOutcome::Failed(f) => if attempt < MAX_ATTEMPTS {
            Step::Again
        } else {
            Step::Fail(f)
        },
    }
}

/// The attempts made for one request, from the `k`-th on, when the successive attempts
/// would end in `outs`: how many were made in all, and how generation ended.
pub open spec fn run_from(outs: Seq<AttemptOutcome>, k: nat) -> (nat, Step)
    decreases 3 - k,
{
    if k == 0 || k > MAX_ATTEMPTS || k > outs.len() {
        (k, Step::Again)
    } else {
        match decide(k, outs[k - 1]) {
            Step::Again => if k < MAX_ATTEMPTS {
                run_from(outs, k + 1)
            } else {
                (k, Step::Again)
            },
            d => (k, d),
        }
    }
}

/// The retry policy: attempts go on only after failures, at most three are made, and
/// generation fails, with the last attempt's failure, exactly when all three fail; a
/// success, even of an empty text, ends generation with that text cleaned.
pub proof fn lemma_retry_policy(outs: Seq<AttemptOutcome>)
    requires
        outs.len() >= 3,
    ensures
        1 <= run_from(outs, 1).0 <= MAX_ATTEMPTS,
        forall|i: int| 0 <= i < run_from(outs, 1).0 - 1 ==> #[trigger] outs[i] is Failed,
        run_from(outs, 1).1 is Fail <==> (outs[0] is Failed && outs[1] is Failed
            && outs[2] is Failed),
        run_from(outs, 1).1 is Fail ==> run_from(outs, 1).0 == MAX_ATTEMPTS
            && run_from(outs, 1).1 == Step::Fail(outs[2]->Failed_0),
        run_from(outs, 1).1 is Fail || run_from(outs, 1).1 == Step::Finish(
            clean_spec(outs[run_from(outs, 1).0 - 1]->Success_0@),
        ),
{
    reveal_with_fuel(run_from, 4);
}

fn fenced_at(cs: &Vec<char>, at: usize) -> (r: bool)
    requires
        at + 3 <= cs.len(),
    ensures
        r == (cs@.subrange(at as int, at + 3) == seq!['`', '`', '`']),
{
    let r = cs[at] == '`' && cs[at + 1] == '`' && cs[at + 2] == '`';
    assert(r ==> cs@.subrange(at as int, at + 3) =~= seq!['`', '`', '`']);
    assert(cs@.subrange(at as int, at + 3) == seq!['`', '`', '`'] ==> cs@[at + 1]
        == cs@.subrange(at as int, at + 3)[1]);
    r
}

/// An endpoint that a client can be built for: an `http://` or `https://` URL.
pub open spec fn is_endpoint(u: Seq<char>) -> bool {
    has_prefix_spec(u, "http://"@) || has_prefix_spec(u, "https://"@)
}

/// The message generator: where the text-generation service is and which model to ask.
pub struct MessageGenerator {
    pub base_url: String,
    pub api_key: String,
    pub model: String,
}

impl MessageGenerator {
    /// A generator for the service in `config`; it needs an HTTP(S) base URL, an API key
    /// and a model.
    pub fn new(config: &Config) -> (r: Result<Self, GenerationError>)
        ensures
            r is Ok <==> (is_endpoint(config@.base_url) && config@.api_key.len() > 0
                && config@.model.len() > 0),
            r matches Ok(g) ==> g.base_url@ == config@.base_url && g.api_key@ == config@.api_key
                && g.model@ == config@.model,
            r is Err ==> r matches Err(GenerationError::ConfigurationError(_)),
    {
        let url = config.llm.base_url.as_str();
        if !(has_prefix(url, "http://") || has_prefix(url, "https://")) {
            return Err(
                GenerationError::ConfigurationError(
                    "the base URL is not an http:// or https:// URL".to_string(),
                ),
            );
        }
        if config.llm.api_key.unicode_len() == 0 {
            return Err(GenerationError::ConfigurationError("the API key is empty".to_string()));
        }
        if config.llm.model.unicode_len() == 0 {
            return Err(GenerationError::ConfigurationError("the model is empty".to_string()));
        }
        Ok(MessageGenerator {
            base_url: config.llm.base_url.clone(),
            api_key: config.llm.api_key.clone(),
            model: config.llm.model.clone(),
        })
    }

    /// Cleans an answer of the service; see `clean_spec`.
    pub fn clean_response(raw: &str) -> (r: String)
        ensures
            r@ == clean_spec(raw@),
    {
        let t = trim(raw);
        let cs = chars_of(t.as_str());
        let n = cs.len();
        let lo: usize = if n >= 3 && fenced_at(&cs, 0) {
            3
        } else {
            0
        };
        let hi: usize = if n - lo >= 3 && fenced_at(&cs, n - 3) {
            n - 3
        } else {
            n
        };
        let ghost fence = seq!['`', '`', '`'];
        let ghost u = cs@.subrange(lo as int, n as int);
        assert(cs@.subrange(0, n as int) =~= cs@);
        assert(u == if has_prefix_spec(t@, fence) {
            t@.subrange(3, t@.len() as int)
        } else {
            t@
        });
        if n - lo >= 3 {
            assert(u.subrange(u.len() - 3, u.len() as int) =~= cs@.subrange(n - 3, n as int));
        }
        assert(cs@.subrange(lo as int, hi as int) == if has_suffix_spec(u, fence) {
            u.subrange(0, u.len() - 3)
        } else {
            u
        }) by {
            if has_suffix_spec(u, fence) {
                assert(cs@.subrange(lo as int, hi as int) =~= u.subrange(0, u.len() - 3));
            }
        }
        let w = string_of(&cs, lo, hi);
        trim(w.as_str())
    }

    /// What to do after the `attempt`-th attempt for a request ended in `outcome`: a
    /// success ends generation with the cleaned text, however short; a failure is retried
    /// after a pause until three attempts are spent, and the last failure is then reported.
    pub fn next_step(attempt: u32, outcome: AttemptOutcome) -> (r: RetryDecision)
        requires
            1 <= attempt <= MAX_ATTEMPTS,
        ensures
            step_of(r) == decide(attempt as nat, outcome),
            r matches RetryDecision::Retry(ms) ==> ms == RETRY_DELAY_MS,
            !(r matches RetryDecision::GiveUp(GenerationError::ConfigurationError(_))),
    {
        match outcome {
            AttemptOutcome::Success(text) => RetryDecision::Done(
                MessageGenerator::clean_response(text.as_str()),
            ),
            AttemptOutcome::Failed(f) => if attempt < MAX_ATTEMPTS {
                RetryDecision::Retry(RETRY_DELAY_MS)
            } else {
                RetryDecision::GiveUp(GenerationError::GenerationFailed(f))
            },
        }
    }
}

} // verus!
