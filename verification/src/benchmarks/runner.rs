//! Running a workload: fingerprinting its output and the order of its
//! warm-up and measured runs.

use vstd::prelude::*;

use sha2::{Digest, Sha256};

verus! {

/// The SHA-256 digest of `data`, as the `sha2` crate computes it.
pub uninterp spec fn sha256_of(data: Seq<u8>) -> Seq<u8>;

/// Calls `sha2::Sha256::digest`. The digest is named, not spelled out; its
/// length, 32 bytes, is the output size the crate declares for SHA-256.
#[verifier::external_body]
fn sha256_digest(data: &[u8]) -> (res: Vec<u8>)
    ensures
        res@ == sha256_of(data@),
        res@.len() == 32,
{
    Sha256::digest(data).to_vec()
}

/// The lower-case hexadecimal digit for `n` (below 16).
pub open spec fn hex_digit(n: int) -> char {
    if n < 10 {
        (48 + n) as char
    } else {
        (87 + n) as char
    }
}

/// Lower-case hexadecimal text of `data`: two digits per byte, the high
/// half first.
pub open spec fn hex_lower(data: Seq<u8>) -> Seq<char>
    decreases data.len(),
{
    if data.len() == 0 {
        Seq::empty()
    } else {
        seq![hex_digit((data[0] / 16) as int), hex_digit((data[0] % 16) as int)] + hex_lower(data.drop_first())
    }
}

/// Calls `hex::encode`, which writes each byte as two lower-case digits
/// from `0123456789abcdef`, the high half first.
#[verifier::external_body]
fn hex_encode(data: &[u8]) -> (res: String)
    ensures
        res@ == hex_lower(data@),
{
    hex::encode(data)
}

/// The hexadecimal text of a byte sequence is twice as long as the sequence.
pub proof fn lemma_hex_length(data: Seq<u8>)
    ensures
        hex_lower(data).len() == 2 * data.len(),
    decreases data.len(),
{
    if data.len() > 0 {
        lemma_hex_length(data.drop_first());
    }
}

/// The fingerprint of a workload's output: its SHA-256 digest in lower-case
/// hexadecimal, 64 characters.
pub fn hash_bytes(bytes: &[u8]) -> (res: String)
    ensures
        res@ == hex_lower(sha256_of(bytes@)),
        res@.len() == 64,
{
    let digest = sha256_digest(bytes);
    let text = hex_encode(digest.as_slice());
    proof {
        lemma_hex_length(digest@);
    }
    text
}

} // verus!

verus! {

/// What the workload runner does next.
#[derive(Clone, Copy, Debug, PartialEq, Eq, Structural)]
pub enum SampleStep {
    /// Run unmeasured warm-up number `n` (counting from 0).
    Warmup(usize),
    /// Run measured sample number `n` (counting from 0) and report whether it succeeded.
    Measure(usize),
    /// Stop: the samples measured so far are the result.
    Finish,
}

/// The progress of a workload through its warm-up and measured runs.
///
/// Warm-ups come first and their results are ignored; measured runs follow
/// until enough samples succeeded, one failed, or a stop was requested.
#[derive(Clone, Copy, Debug)]
pub struct SampleSchedule {
    pub warmups: usize,
    pub samples: usize,
    pub warmups_started: usize,
    pub measured: usize,
    pub measuring: bool,
    pub awaiting: bool,
    pub stopped: bool,
    pub failed: bool,
}

impl SampleSchedule {
    pub open spec fn wf(self) -> bool {
        &&& self.warmups_started <= self.warmups
        &&& self.measured <= self.samples
        &&& self.awaiting ==> self.measuring && !self.stopped && self.measured < self.samples
        &&& self.stopped ==> self.measuring
        &&& self.failed ==> self.stopped
        &&& !self.measuring ==> self.measured == 0
    }

    /// The next step when asked with the stop flag `cancelled`, and the
    /// schedule after it.
    pub open spec fn stepped(self, cancelled: bool) -> (SampleSchedule, SampleStep) {
        if self.awaiting {
            (self, SampleStep::Measure(self.measured))
        } else if !self.measuring && !cancelled && self.warmups_started < self.warmups {
            (
                SampleSchedule { warmups_started: (self.warmups_started + 1) as usize, ..self },
                SampleStep::Warmup(self.warmups_started),
            )
        } else if !self.stopped && !cancelled && self.measured < self.samples {
            (
                SampleSchedule { measuring: true, awaiting: true, ..self },
                SampleStep::Measure(self.measured),
            )
        } else {
            (SampleSchedule { measuring: true, stopped: true, ..self }, SampleStep::Finish)
        }
    }

    /// The schedule after the outcome of the pending measured run is reported.
    pub open spec fn recorded(self, ok: bool) -> SampleSchedule {
        if !self.awaiting {
            self
        } else if ok {
            SampleSchedule { awaiting: false, measured: (self.measured + 1) as usize, ..self }
        } else {
            SampleSchedule { awaiting: false, stopped: true, failed: true, ..self }
        }
    }

    /// A fresh schedule with the given numbers of warm-ups and samples.
    pub fn new(warmups: usize, samples: usize) -> (res: SampleSchedule)
        ensures
            res.wf(),
            res.warmups == warmups,
            res.samples == samples,
            res.warmups_started == 0,
            res.measured == 0,
            !res.measuring,
            !res.awaiting,
            !res.stopped,
            !res.failed,
    {
        SampleSchedule {
            warmups,
            samples,
            warmups_started: 0,
            measured: 0,
            measuring: false,
            awaiting: false,
            stopped: false,
            failed: false,
        }
    }

    /// Decides the next step; `cancelled` tells whether a stop was requested.
    pub fn next_step(&mut self, cancelled: bool) -> (res: SampleStep)
        requires
            old(self).wf(),
        ensures
            final(self).wf(),
            (*final(self), res) == old(self).stepped(cancelled),
    {
        if self.awaiting {
            return SampleStep::Measure(self.measured);
        }
        if !self.measuring && !cancelled && self.warmups_started < self.warmups {
            let n = self.warmups_started;
            self.warmups_started = n + 1;
            return SampleStep::Warmup(n);
        }
        if !self.stopped && !cancelled && self.measured < self.samples {
            self.measuring = true;
            self.awaiting = true;
            return SampleStep::Measure(self.measured);
        }
        self.measuring = true;
        self.stopped = true;
        SampleStep::Finish
    }

    /// Reports whether the pending measured run succeeded; a failure ends
    /// the measuring.
    pub fn record(&mut self, ok: bool)
        requires
            old(self).wf(),
        ensures
            final(self).wf(),
            *final(self) == old(self).recorded(ok),
    {
        if self.awaiting {
            self.awaiting = false;
            if ok {
                self.measured = self.measured + 1;
            } else {
                self.stopped = true;
                self.failed = true;
            }
        }
    }

    /// Whether the workload's result counts: at least one sample was
    /// measured, no measured run failed, the samples are reliable, and no
    /// stop was requested. A failed or unreliable workload is left out of
    /// the scores rather than counted as zero.
    pub fn is_valid(&self, reliable: bool, cancelled: bool) -> (res: bool)
        ensures
            res == (self.measured > 0 && !self.failed && reliable && !cancelled),
    {
        self.measured > 0 && !self.failed && reliable && !cancelled
    }
}

/// A requested stop starts no further run: unless a measured run is still
/// being reported, the next step is to finish.
pub proof fn lemma_cancel_finishes(s: SampleSchedule)
    requires
        s.wf(),
        !s.awaiting,
    ensures
        s.stepped(true).1 == SampleStep::Finish,
        s.stepped(true).0.stopped,
{
}

/// Once finished, a schedule stays finished, whatever is reported.
pub proof fn lemma_finish_is_final(s: SampleSchedule, cancelled: bool, ok: bool)
    requires
        s.wf(),
        s.stopped,
    ensures
        s.stepped(cancelled).1 == SampleStep::Finish,
        s.recorded(ok) == s,
{
}

/// A failed measured run ends the measuring and makes the workload invalid,
/// whatever was measured before it.
pub proof fn lemma_failure_stops(s: SampleSchedule, cancelled: bool)
    requires
        s.wf(),
        s.awaiting,
    ensures
        s.recorded(false).stopped,
        s.recorded(false).failed,
        s.recorded(false).measured == s.measured,
        s.recorded(false).stepped(cancelled).1 == SampleStep::Finish,
{
}

/// Every step stays within the profile: warm-up `n` has `n` below the
/// number of warm-ups, measured run `n` has `n` below the number of samples
/// and equal to the samples measured so far, and no warm-up follows a
/// measured run.
pub proof fn lemma_steps_in_bounds(s: SampleSchedule, cancelled: bool)
    requires
        s.wf(),
    ensures
        s.stepped(cancelled).0.wf(),
        s.stepped(cancelled).1 matches SampleStep::Warmup(n) ==> n < s.warmups && !s.measuring,
        s.stepped(cancelled).1 matches SampleStep::Measure(n) ==> n < s.samples && n == s.measured,
        s.measuring ==> s.stepped(cancelled).0.measuring,
{
}

} // verus!

verus! {

/// One step of an undisturbed run: no stop is requested and every measured
/// run succeeds.
pub open spec fn advance(s: SampleSchedule) -> (SampleSchedule, SampleStep) {
    let (t, step) = s.stepped(false);
    if step is Measure {
        (t.recorded(true), step)
    } else {
        (t, step)
    }
}

/// The first `n` steps of an undisturbed run from `s`.
pub open spec fn trace(s: SampleSchedule, n: nat) -> Seq<SampleStep>
    decreases n,
{
    if n == 0 {
        Seq::empty()
    } else {
        seq![advance(s).1] + trace(advance(s).0, (n - 1) as nat)
    }
}

proof fn lemma_measuring_trace(s: SampleSchedule)
    requires
        s.wf(),
        !s.awaiting,
        !s.stopped,
        s.measuring || s.warmups_started == s.warmups,
    ensures
        trace(s, (s.samples - s.measured + 1) as nat) == Seq::new(
            (s.samples - s.measured) as nat,
            |i: int| SampleStep::Measure((s.measured + i) as usize),
        ).push(SampleStep::Finish),
    decreases s.samples - s.measured,
{
    let n = (s.samples - s.measured + 1) as nat;
    if s.measured == s.samples {
        reveal_with_fuel(trace, 2);
        assert(trace(s, n) =~= seq![SampleStep::Finish]);
    } else {
        let t = advance(s).0;
        lemma_measuring_trace(t);
        assert(trace(s, n) =~= Seq::new(
            (s.samples - s.measured) as nat,
            |i: int| SampleStep::Measure((s.measured + i) as usize),
        ).push(SampleStep::Finish));
    }
}

proof fn lemma_warmup_trace(s: SampleSchedule)
    requires
        s.wf(),
        !s.awaiting,
        !s.stopped,
        !s.measuring,
    ensures
        trace(s, (s.warmups - s.warmups_started + s.samples + 1) as nat) == Seq::new(
            (s.warmups - s.warmups_started) as nat,
            |i: int| SampleStep::Warmup((s.warmups_started + i) as usize),
        ) + Seq::new(s.samples as nat, |i: int| SampleStep::Measure(i as usize)).push(
            SampleStep::Finish,
        ),
    decreases s.warmups - s.warmups_started,
{
    if s.warmups_started == s.warmups {
        lemma_measuring_trace(s);
        assert(Seq::new(
            (s.warmups - s.warmups_started) as nat,
            |i: int| SampleStep::Warmup((s.warmups_started + i) as usize),
        ) =~= Seq::empty());
        assert(Seq::new(
            (s.samples - s.measured) as nat,
            |i: int| SampleStep::Measure((s.measured + i) as usize),
        ) =~= Seq::new(s.samples as nat, |i: int| SampleStep::Measure(i as usize)));
        assert(trace(s, (s.warmups - s.warmups_started + s.samples + 1) as nat) =~= Seq::new(
            (s.warmups - s.warmups_started) as nat,
            |i: int| SampleStep::Warmup((s.warmups_started + i) as usize),
        ) + Seq::new(s.samples as nat, |i: int| SampleStep::Measure(i as usize)).push(
            SampleStep::Finish,
        ));
    } else {
        let t = advance(s).0;
        lemma_warmup_trace(t);
        assert(trace(s, (s.warmups - s.warmups_started + s.samples + 1) as nat) =~= Seq::new(
            (s.warmups - s.warmups_started) as nat,
            |i: int| SampleStep::Warmup((s.warmups_started + i) as usize),
        ) + Seq::new(s.samples as nat, |i: int| SampleStep::Measure(i as usize)).push(
            SampleStep::Finish,
        ));
    }
}

/// An undisturbed run of a workload warms up `warmups` times, then measures
/// `samples` samples, then finishes.
pub proof fn lemma_full_run(warmups: usize, samples: usize)
    ensures
        ({
            let s = SampleSchedule {
                warmups,
                samples,
                warmups_started: 0,
                measured: 0,
                measuring: false,
                awaiting: false,
                stopped: false,
                failed: false,
            };
            trace(s, (warmups + samples + 1) as nat) == Seq::new(
                warmups as nat,
                |i: int| SampleStep::Warmup(i as usize),
            ) + Seq::new(samples as nat, |i: int| SampleStep::Measure(i as usize)).push(
                SampleStep::Finish,
            )
        }),
{
    let s = SampleSchedule {
        warmups,
        samples,
        warmups_started: 0,
        measured: 0,
        measuring: false,
        awaiting: false,
        stopped: false,
        failed: false,
    };
    lemma_warmup_trace(s);
    assert(Seq::new((warmups - 0) as nat, |i: int| SampleStep::Warmup((0 + i) as usize)) =~= Seq::new(
        warmups as nat,
        |i: int| SampleStep::Warmup(i as usize),
    ));
}

} // verus!

verus! {

/// Only a failed measured run marks a schedule failed: asking for the next
/// step never changes the mark, and reporting a measured run sets it exactly
/// when that run failed. A reported success counts one more sample, a
/// reported failure none.
pub proof fn lemma_only_failures_mark_failed(s: SampleSchedule, cancelled: bool, ok: bool)
    requires
        s.wf(),
    ensures
        s.stepped(cancelled).0.failed == s.failed,
        s.stepped(cancelled).0.measured == s.measured,
        s.recorded(ok).failed == (s.failed || (s.awaiting && !ok)),
        s.recorded(ok).measured == if s.awaiting && ok {
            s.measured + 1
        } else {
            s.measured as int
        },
{
}

/// The schedule after `n` steps of an undisturbed run from `s`.
pub open spec fn advanced(s: SampleSchedule, n: nat) -> SampleSchedule
    decreases n,
{
    if n == 0 {
        s
    } else {
        advanced(advance(s).0, (n - 1) as nat)
    }
}

proof fn lemma_measuring_end(s: SampleSchedule)
    requires
        s.wf(),
        !s.awaiting,
        !s.stopped,
        !s.failed,
        s.measuring || s.warmups_started == s.warmups,
    ensures
        advanced(s, (s.samples - s.measured + 1) as nat).measured == s.samples,
        !advanced(s, (s.samples - s.measured + 1) as nat).failed,
        advanced(s, (s.samples - s.measured + 1) as nat).stopped,
    decreases s.samples - s.measured,
{
    if s.measured == s.samples {
        reveal_with_fuel(advanced, 2);
    } else {
        let t = advance(s).0;
        assert(t.measured == s.measured + 1);
        lemma_measuring_end(t);
        assert(advanced(s, (s.samples - s.measured + 1) as nat) == advanced(
            t,
            (t.samples - t.measured + 1) as nat,
        ));
    }
}

proof fn lemma_warmup_end(s: SampleSchedule)
    requires
        s.wf(),
        !s.awaiting,
        !s.stopped,
        !s.failed,
        !s.measuring,
    ensures
        advanced(s, (s.warmups - s.warmups_started + s.samples + 1) as nat).measured == s.samples,
        !advanced(s, (s.warmups - s.warmups_started + s.samples + 1) as nat).failed,
        advanced(s, (s.warmups - s.warmups_started + s.samples + 1) as nat).stopped,
    decreases s.warmups - s.warmups_started,
{
    if s.warmups_started == s.warmups {
        lemma_measuring_end(s);
    } else {
        let t = advance(s).0;
        lemma_warmup_end(t);
        assert(advanced(s, (s.warmups - s.warmups_started + s.samples + 1) as nat) == advanced(
            t,
            (t.warmups - t.warmups_started + t.samples + 1) as nat,
        ));
    }
}

/// After an undisturbed run in which every measured run succeeds, the
/// schedule has finished with every sample measured and no failure, so the
/// workload counts when its samples are reliable and there are any.
pub proof fn lemma_successful_run_is_valid(warmups: usize, samples: usize)
    ensures
        ({
            let s = SampleSchedule {
                warmups,
                samples,
                warmups_started: 0,
                measured: 0,
                measuring: false,
                awaiting: false,
                stopped: false,
                failed: false,
            };
            let end = advanced(s, (warmups + samples + 1) as nat);
            &&& end.measured == samples
            &&& !end.failed
            &&& end.stopped
            &&& (samples > 0 ==> (end.measured > 0 && !end.failed))
        }),
{
    let s = SampleSchedule {
        warmups,
        samples,
        warmups_started: 0,
        measured: 0,
        measuring: false,
        awaiting: false,
        stopped: false,
        failed: false,
    };
    lemma_warmup_end(s);
}

} // verus!
