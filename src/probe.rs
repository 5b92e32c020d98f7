//! The decisions of one probe: what it sends and what its outcome means.
use vstd::prelude::*;
use crate::packet::IpFamily;
use crate::resolve::{family_of, IpAddress};
use crate::summary::{average, summarizes, PingResult, PingRunResult};

verus! {

/// What happened on the socket after a probe was built.
#[derive(Debug)]
pub enum ReceiveOutcome {
    /// The Echo Request could not be sent.
    SendFailed,
    /// A datagram arrived; its first `bytes_received` bytes of `buffer` are
    /// valid.
    Received { buffer: Vec<u8>, bytes_received: usize },
    /// Nothing arrived before the receive timeout, or the receive failed.
    NoReply,
}

/// Whether a receive outcome is consistent: a received count never exceeds
/// the buffer.
pub open spec fn outcome_wf(outcome: ReceiveOutcome) -> bool {
    match outcome {
        ReceiveOutcome::Received { buffer, bytes_received } => bytes_received <= buffer@.len(),
        _ => true,
    }
}

/// The result of a probe of `family` whose outcome was `outcome`, where
/// `elapsed_ms` passed between sending and the end of the wait.
pub open spec fn probe_result_of(
    family: IpFamily,
    outcome: ReceiveOutcome,
    elapsed_ms: u64,
    timeout_ms: u64,
) -> PingResult {
    match outcome {
        ReceiveOutcome::SendFailed => PingResult { dropped: true, latency_ms: timeout_ms },
        ReceiveOutcome::Received { buffer, bytes_received } => PingResult {
            dropped: !family.is_echo_reply(buffer@, bytes_received as nat),
            latency_ms: elapsed_ms,
        },
        ReceiveOutcome::NoReply => PingResult { dropped: true, latency_ms: elapsed_ms },
    }
}

/// Turns the outcome of one probe into its result. A send failure counts as
/// a drop that waited the whole timeout; a reply counts only if it is an Echo
/// Reply of the probed family; a missing reply is a drop that records the
/// time waited.
pub fn probe_result(
    family: IpFamily,
    outcome: &ReceiveOutcome,
    elapsed_ms: u64,
    timeout_ms: u64,
) -> (r: PingResult)
    requires
        outcome_wf(*outcome),
    ensures
        r == probe_result_of(family, *outcome, elapsed_ms, timeout_ms),
{
    match outcome {
        ReceiveOutcome::SendFailed => PingResult { dropped: true, latency_ms: timeout_ms },
        ReceiveOutcome::Received { buffer, bytes_received } => {
            let valid = family.validate_reply(buffer.as_slice(), *bytes_received);
            PingResult { dropped: !valid, latency_ms: elapsed_ms }
        },
        ReceiveOutcome::NoReply => PingResult { dropped: true, latency_ms: elapsed_ms },
    }
}

/// The marker shown after each probe: `!` for a reply, `.` for a drop.
pub fn progress_marker(result: &PingResult) -> (r: char)
    ensures
        r == if result.dropped {
            '.'
        } else {
            '!'
        },
{
    if result.dropped {
        '.'
    } else {
        '!'
    }
}

/// A run of a fixed number of probes against one target. The target, and so
/// the family of every packet, is fixed when the run starts; results are kept
/// in the order the probes were made.
pub struct ProbeRun {
    target: IpAddress,
    number: u64,
    results: Vec<PingResult>,
}

impl ProbeRun {
    /// The address every probe of the run goes to.
    pub closed spec fn target_spec(&self) -> IpAddress {
        self.target
    }

    /// How many probes the run makes.
    pub closed spec fn number_spec(&self) -> nat {
        self.number as nat
    }

    /// The results recorded so far, oldest first.
    pub closed spec fn results_spec(&self) -> Seq<PingResult> {
        self.results@
    }

    /// At least one probe is asked for, and no more results are held than
    /// probes.
    pub closed spec fn wf(&self) -> bool {
        &&& self.number >= 1
        &&& self.results@.len() <= self.number
    }

    /// Starts a run of `number` probes against `target`.
    pub fn new(target: IpAddress, number: u64) -> (r: ProbeRun)
        requires
            number >= 1,
        ensures
            r.wf(),
            r.target_spec() == target,
            r.number_spec() == number,
            r.results_spec() == Seq::<PingResult>::empty(),
    {
        ProbeRun { target, number, results: Vec::new() }
    }

    /// The address every probe of the run goes to.
    pub fn target(&self) -> (r: IpAddress)
        ensures
            r == self.target_spec(),
    {
        self.target
    }

    /// The family of every probe of the run.
    pub fn family(&self) -> (r: IpFamily)
        ensures
            r == family_of(self.target_spec()),
    {
        self.target.family()
    }

    /// Whether every probe of the run has a result.
    pub fn is_finished(&self) -> (r: bool)
        requires
            self.wf(),
        ensures
            r == (self.results_spec().len() == self.number_spec()),
    {
        self.results.len() as u64 == self.number
    }

    /// Records the result of the next probe.
    pub fn record(&mut self, result: PingResult)
        requires
            old(self).wf(),
            old(self).results_spec().len() < old(self).number_spec(),
        ensures
            final(self).wf(),
            final(self).target_spec() == old(self).target_spec(),
            final(self).number_spec() == old(self).number_spec(),
            final(self).results_spec() == old(self).results_spec().push(result),
    {
        self.results.push(result);
    }

    /// The results recorded so far, oldest first.
    pub fn results(&self) -> (r: &Vec<PingResult>)
        ensures
            r@ == self.results_spec(),
    {
        &self.results
    }

    /// The summary of a finished run.
    pub fn summary(&self) -> (r: PingRunResult)
        requires
            self.wf(),
            self.results_spec().len() == self.number_spec(),
        ensures
            summarizes(self.results_spec(), r),
    {
        average(&self.results)
    }
}

} // verus!
