use vstd::prelude::*;

verus! {

/// Where device counts go: the local log, or an HTTP endpoint with a bound
/// on the attempts per report.
#[derive(Debug)]
pub enum CacheLogger {
    Local,
    Api { url: String, api_key: Option<String>, max_retries: u64 },
}

impl CacheLogger {
    /// The HTTP sink where both a URL and a retry limit are given; the local
    /// log otherwise.
    pub fn new(url: Option<String>, api_key: Option<String>, max_retries: Option<u64>) -> (r: CacheLogger)
        ensures
            match (url, max_retries) {
                (Some(u), Some(m)) => r == (CacheLogger::Api { url: u, api_key, max_retries: m }),
                _ => r == CacheLogger::Local,
            },
    {
        match (url, max_retries) {
            (Some(u), Some(m)) => CacheLogger::Api { url: u, api_key, max_retries: m },
            _ => CacheLogger::Local,
        }
    }
}

/// One report of the device count, as sent to the HTTP sink.
#[derive(Debug)]
pub struct Report {
    pub location: String,
    pub device_count: u64,
    /// Unix seconds at which the count was sampled; the same on every retry.
    pub created_at: u64,
}

/// What the reporter does next for the report in hand.
#[derive(Clone, Copy, Debug, PartialEq, Eq, Structural)]
pub enum AttemptAction {
    /// Make one more delivery attempt.
    Send,
    /// Stop: the report was delivered or the attempts are used up.
    Done,
}

/// The progress of delivering one report to the HTTP sink.
#[derive(Clone, Copy, Debug)]
pub struct ReportAttempts {
    pub max_retries: u64,
    pub failures: u64,
    pub delivered: bool,
}

pub open spec fn wants_attempt(s: ReportAttempts) -> bool {
    !s.delivered && s.failures < s.max_retries
}

impl ReportAttempts {
    /// A fresh sequence of attempts; each report starts one.
    pub fn new(max_retries: u64) -> (r: ReportAttempts)
        ensures
            r == (ReportAttempts { max_retries, failures: 0, delivered: false }),
    {
        ReportAttempts { max_retries, failures: 0, delivered: false }
    }

    pub fn next_action(&self) -> (r: AttemptAction)
        ensures
            r == (if wants_attempt(*self) { AttemptAction::Send } else { AttemptAction::Done }),
    {
        if !self.delivered && self.failures < self.max_retries {
            AttemptAction::Send
        } else {
            AttemptAction::Done
        }
    }

    /// Takes in the outcome of an attempt; returns whether the failure
    /// callback is to be invoked, which it is for every failed attempt.
    pub fn record(&mut self, succeeded: bool) -> (notify: bool)
        requires
            wants_attempt(*old(self)),
        ensures
            notify == !succeeded,
            final(self).max_retries == old(self).max_retries,
            final(self).delivered == succeeded,
            final(self).failures == old(self).failures + if succeeded { 0int } else { 1int },
    {
        if succeeded {
            self.delivered = true;
        } else {
            self.failures = self.failures + 1;
        }
        !succeeded
    }
}

/// How delivering one report ended.
#[derive(Clone, Copy, Debug, PartialEq, Eq, Structural)]
pub struct ReportSummary {
    pub attempts: u64,
    pub failure_callbacks: u64,
    pub delivered: bool,
}

/// Whether the first `n` attempt outcomes all failed.
pub open spec fn all_failed(outcomes: Seq<bool>, n: int) -> bool {
    forall|i: int| 0 <= i < n ==> !#[trigger] outcomes[i]
}

/// How a report ends when attempt `i` has outcome `outcomes[i]`, at most
/// `max_retries` attempts being made and none past the outcomes given.
pub open spec fn summary_spec(max_retries: u64, outcomes: Seq<bool>) -> ReportSummary {
    let limit = if (max_retries as int) < outcomes.len() { max_retries as int } else { outcomes.len() as int };
    if exists|i: int| 0 <= i < limit && outcomes[i] && all_failed(outcomes, i) {
        let i = choose|i: int| 0 <= i < limit && outcomes[i] && all_failed(outcomes, i);
        ReportSummary { attempts: (i + 1) as u64, failure_callbacks: i as u64, delivered: true }
    } else {
        ReportSummary { attempts: limit as u64, failure_callbacks: limit as u64, delivered: false }
    }
}

/// Runs the attempt sequence of one report against the given attempt
/// outcomes, in order, and tells how it ended.
pub fn summarize_attempts(max_retries: u64, outcomes: &Vec<bool>) -> (r: ReportSummary)
    ensures
        r == summary_spec(max_retries, outcomes@),
{
    let mut state = ReportAttempts::new(max_retries);
    let mut callbacks: u64 = 0;
    let mut i: usize = 0;
    while i < outcomes.len() && state.next_action() == AttemptAction::Send
        invariant
            i <= outcomes@.len(),
            state.max_retries == max_retries,
            state.failures as int == callbacks as int,
            state.delivered ==> i > 0 && outcomes@[i - 1] && callbacks as int == i - 1
                && callbacks < max_retries,
            !state.delivered ==> callbacks as int == i,
            all_failed(outcomes@, callbacks as int),
            callbacks <= max_retries,
        decreases outcomes@.len() - i,
    {
        if state.record(outcomes[i]) {
            callbacks = callbacks + 1;
        }
        i = i + 1;
    }
    let r = ReportSummary { attempts: i as u64, failure_callbacks: callbacks, delivered: state.delivered };
    proof {
        let limit = if (max_retries as int) < outcomes@.len() { max_retries as int } else { outcomes@.len() as int };
        if state.delivered {
            let w = i - 1;
            assert(0 <= w < limit && outcomes@[w] && all_failed(outcomes@, w));
            let c = choose|c: int| 0 <= c < limit && outcomes@[c] && all_failed(outcomes@, c);
            if c < w {
                assert(!outcomes@[c]);
            }
            if w < c {
                assert(!outcomes@[w]);
            }
        } else {
            assert(i as int == limit);
            if exists|c: int| 0 <= c < limit && outcomes@[c] && all_failed(outcomes@, c) {
                let c = choose|c: int| 0 <= c < limit && outcomes@[c] && all_failed(outcomes@, c);
                assert(!outcomes@[c]);
            }
        }
    }
    r
}

} // verus!
