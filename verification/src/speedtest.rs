//! The peer speedtest: how large the next run is, when to stop, and what is
//! reported.
//!
//! A test starts with a small payload and doubles it until a run takes long
//! enough to say something past connection setup, or the payload reaches the
//! upload limit. A slow link stops at the first run, a fast one climbs.
//!
//! Rates are carried as the bit patterns of floating-point numbers: they are
//! passed on, never computed with. The pattern 0 is the rate zero.

use vstd::prelude::*;

verus! {

/// Payload of the first run, 256 KiB.
pub const START_BYTES: u64 = 262_144;

/// Payload of the largest run, 64 MiB: the upload limit.
pub const MAX_BYTES: u64 = 67_108_864;

/// A run that takes this long, in milliseconds, is a meaningful measurement.
pub const TARGET_MS: u64 = 5_000;

/// How long one run may take, in seconds.
pub const RUN_TIMEOUT_SECS: u64 = 120;

/// The reported state of the speedtest.
#[derive(Debug, Clone)]
pub struct SpeedtestView {
    pub running: bool,
    pub peer_npub: String,
    /// Bit pattern of the upload rate in Mbit/s.
    pub up_mbps_bits: u64,
    /// Bit pattern of the download rate in Mbit/s.
    pub down_mbps_bits: u64,
    pub bytes: u64,
    pub generation: u64,
    pub error: String,
}

/// The speedtest: what is reported, and where a test that is under way stands.
#[derive(Debug, Clone)]
pub struct Speedtest {
    pub view: SpeedtestView,
    /// Payload of the run under way.
    pub size: u64,
    /// Whether a run of the test under way has succeeded.
    pub any_ok: bool,
}

/// What a [`Speedtest`] holds.
pub struct SpeedtestModel {
    pub running: bool,
    pub peer_npub: Seq<char>,
    pub up_mbps_bits: u64,
    pub down_mbps_bits: u64,
    pub bytes: u64,
    pub generation: nat,
    pub error: Seq<char>,
    pub size: u64,
    pub any_ok: bool,
}

/// One finished run: its rates or the reason it failed, and how long it took.
pub struct RunModel {
    pub rates: Result<(u64, u64), Seq<char>>,
    pub elapsed_ms: u64,
}

impl View for Speedtest {
    type V = SpeedtestModel;

    open spec fn view(&self) -> SpeedtestModel {
        SpeedtestModel {
            running: self.view.running,
            peer_npub: self.view.peer_npub@,
            up_mbps_bits: self.view.up_mbps_bits,
            down_mbps_bits: self.view.down_mbps_bits,
            bytes: self.view.bytes,
            generation: self.view.generation as nat,
            error: self.view.error@,
            size: self.size,
            any_ok: self.any_ok,
        }
    }
}

/// The payload of run number `n` of a test, counted from 0.
pub open spec fn run_size(n: nat) -> nat
    decreases n,
{
    if n == 0 {
        START_BYTES as nat
    } else {
        2 * run_size((n - 1) as nat)
    }
}

/// The number of the last run there can be.
pub open spec fn last_run() -> nat {
    8
}

/// Whether a test has a run of this payload.
pub open spec fn is_run_size(size: nat) -> bool {
    exists|n: nat| n <= last_run() && size == #[trigger] run_size(n)
}

/// A finished run as it is reported.
pub open spec fn run_of(rates: Result<(u64, u64), String>, elapsed_ms: u64) -> RunModel {
    RunModel {
        rates: match rates {
            Ok(rates) => Ok(rates),
            Err(reason) => Err(reason@),
        },
        elapsed_ms,
    }
}

impl SpeedtestModel {
    /// A test that is under way is at one of its payloads.
    pub open spec fn wf(self) -> bool {
        self.running ==> is_run_size(self.size as nat)
    }

    /// No test has been run.
    pub open spec fn idle() -> SpeedtestModel {
        SpeedtestModel {
            running: false,
            peer_npub: seq![],
            up_mbps_bits: 0,
            down_mbps_bits: 0,
            bytes: 0,
            generation: 0,
            error: seq![],
            size: START_BYTES,
            any_ok: false,
        }
    }

    /// A test has begun, unless one is under way. The last figures stay until a
    /// run replaces them.
    pub open spec fn begun(self, npub: Seq<char>) -> SpeedtestModel {
        if self.running {
            self
        } else {
            SpeedtestModel {
                running: true,
                peer_npub: npub,
                error: seq![],
                size: START_BYTES,
                any_ok: false,
                ..self
            }
        }
    }

    /// The test is over.
    pub open spec fn ended(self) -> SpeedtestModel {
        SpeedtestModel { running: false, generation: self.generation + 1, error: seq![], ..self }
    }

    /// A run has finished. A good one is reported and, if it was short and
    /// there is a larger payload, followed by one of twice the payload. A
    /// failed one ends the test, and is an error only if none was good before.
    pub open spec fn after_run(self, run: RunModel) -> SpeedtestModel {
        if !self.running {
            self
        } else {
            match run.rates {
                Ok((up, down)) => {
                    let measured = SpeedtestModel {
                        up_mbps_bits: up,
                        down_mbps_bits: down,
                        bytes: self.size,
                        generation: self.generation + 1,
                        any_ok: true,
                        ..self
                    };
                    if run.elapsed_ms >= TARGET_MS || self.size >= MAX_BYTES {
                        measured.ended()
                    } else if 2 * self.size < MAX_BYTES {
                        SpeedtestModel { size: (2 * self.size) as u64, ..measured }
                    } else {
                        SpeedtestModel { size: MAX_BYTES, ..measured }
                    }
                },
                Err(reason) => if self.any_ok {
                    self.ended()
                } else {
                    SpeedtestModel {
                        up_mbps_bits: 0,
                        down_mbps_bits: 0,
                        error: reason,
                        ..self.ended()
                    }
                },
            }
        }
    }

    /// The test after a number of runs.
    pub open spec fn after_runs(self, runs: Seq<RunModel>) -> SpeedtestModel
        decreases runs.len(),
    {
        if runs.len() == 0 {
            self
        } else {
            self.after_runs(runs.drop_last()).after_run(runs.last())
        }
    }

    /// The payload of the run that is to be made now, where there is one.
    pub open spec fn next_size(self) -> Option<u64> {
        if self.running {
            Some(self.size)
        } else {
            None
        }
    }
}

/// The payloads double from the first to the limit.
pub proof fn lemma_run_sizes()
    ensures
        run_size(0) == START_BYTES,
        run_size(last_run()) == MAX_BYTES,
        is_run_size(START_BYTES as nat),
        forall|n: nat| n < last_run() ==> 2 * #[trigger] run_size(n) <= MAX_BYTES,
        forall|n: nat| #[trigger] run_size(n + 1) == 2 * run_size(n),
        forall|n: nat| n <= last_run() && #[trigger] run_size(n) >= MAX_BYTES ==> n == last_run(),
        forall|n: nat| n <= last_run() ==> START_BYTES <= #[trigger] run_size(n) <= MAX_BYTES,
{
    reveal_with_fuel(run_size, 9);
    assert(run_size(1) == 2 * run_size(0));
    assert(run_size(2) == 2 * run_size(1));
    assert(run_size(3) == 2 * run_size(2));
    assert(run_size(4) == 2 * run_size(3));
    assert(run_size(5) == 2 * run_size(4));
    assert(run_size(6) == 2 * run_size(5));
    assert(run_size(7) == 2 * run_size(6));
    assert(run_size(8) == 2 * run_size(7));
}

impl Speedtest {
    /// No test has been run.
    pub fn new() -> (test: Speedtest)
        ensures
            test@ == SpeedtestModel::idle(),
            test@.wf(),
    {
        let test = Speedtest {
            view: SpeedtestView {
                running: false,
                peer_npub: String::new(),
                up_mbps_bits: 0,
                down_mbps_bits: 0,
                bytes: 0,
                generation: 0,
                error: String::new(),
            },
            size: START_BYTES,
            any_ok: false,
        };
        test
    }

    /// Begins a test, and gives the payload of its first run. Ignored while a
    /// test is under way.
    pub fn begin(&mut self, npub: String) -> (first: Option<u64>)
        ensures
            final(self)@ == old(self)@.begun(npub@),
            first == (if old(self)@.running {
                None
            } else {
                Some(START_BYTES)
            }),
            old(self)@.wf() ==> final(self)@.wf(),
    {
        proof {
            lemma_run_sizes();
        }
        if self.view.running {
            return None;
        }
        self.view.running = true;
        self.view.peer_npub = npub;
        self.view.error = String::new();
        self.size = START_BYTES;
        self.any_ok = false;
        Some(START_BYTES)
    }

    /// A run has finished: gives the payload of the next one, or none where the
    /// test is over.
    pub fn run_finished(&mut self, rates: Result<(u64, u64), String>, elapsed_ms: u64) -> (next:
        Option<u64>)
        requires
            old(self)@.wf(),
            old(self)@.after_run(run_of(rates, elapsed_ms)).generation <= u64::MAX,
        ensures
            final(self)@ == old(self)@.after_run(run_of(rates, elapsed_ms)),
            next == final(self)@.next_size(),
            final(self)@.wf(),
            old(self).view.running ==> (rates matches Ok((up, down)) ==> {
                &&& final(self).view.up_mbps_bits == up
                &&& final(self).view.down_mbps_bits == down
                &&& final(self).view.bytes == old(self).size
            }),
    {
        proof {
            lemma_run_sizes();
        }
        if !self.view.running {
            return None;
        }
        let ghost n = choose|n: nat| n <= last_run() && self.size == #[trigger] run_size(n);
        match rates {
            Ok((up, down)) => {
                self.any_ok = true;
                self.view.up_mbps_bits = up;
                self.view.down_mbps_bits = down;
                self.view.bytes = self.size;
                self.view.generation = self.view.generation + 1;
                if !(elapsed_ms >= TARGET_MS || self.size >= MAX_BYTES) {
                    assert(2 * self.size == run_size(n + 1));
                    let doubled: u64 = self.size * 2;
                    self.size = if doubled < MAX_BYTES {
                        doubled
                    } else {
                        MAX_BYTES
                    };
                    return Some(self.size);
                }
                self.view.error = String::new();
            },
            Err(reason) => {
                if self.any_ok {
                    self.view.error = String::new();
                } else {
                    self.view.up_mbps_bits = 0;
                    self.view.down_mbps_bits = 0;
                    self.view.error = reason;
                }
            },
        }
        self.view.running = false;
        self.view.generation = self.view.generation + 1;
        None
    }

    /// What is reported.
    pub fn report(&self) -> (report: SpeedtestView)
        ensures
            report == self.view,
    {
        SpeedtestView {
            running: self.view.running,
            peer_npub: self.view.peer_npub.clone(),
            up_mbps_bits: self.view.up_mbps_bits,
            down_mbps_bits: self.view.down_mbps_bits,
            bytes: self.view.bytes,
            generation: self.view.generation,
            error: self.view.error.clone(),
        }
    }
}

/// A test that is under way stays at one of its payloads.
pub proof fn lemma_a_run_keeps_the_payloads(m: SpeedtestModel, run: RunModel)
    requires
        m.wf(),
    ensures
        m.after_run(run).wf(),
        m.after_run(run).running ==> m.running,
{
    lemma_run_sizes();
    if m.after_run(run).running {
        let n = choose|n: nat| n <= last_run() && m.size == #[trigger] run_size(n);
        assert(run_size(n + 1) == 2 * run_size(n));
    }
}

proof fn lemma_runs(m: SpeedtestModel, runs: Seq<RunModel>)
    requires
        m.running,
        m.size == START_BYTES,
    ensures
        m.after_runs(runs).running ==> runs.len() <= last_run() && m.after_runs(runs).size
            == run_size(runs.len()),
    decreases runs.len(),
{
    lemma_run_sizes();
    if runs.len() > 0 {
        let before = runs.drop_last();
        lemma_runs(m, before);
        if m.after_runs(runs).running {
            assert(m.after_runs(before).running);
            assert(run_size(before.len() + 1) == 2 * run_size(before.len()));
            assert(before.len() + 1 == runs.len());
        }
    }
}

/// A test that goes on doubles its payload with each run: run number `n` has
/// the payload of run 0 times two to the power of `n`, up to the limit. So a
/// test is over after nine runs, whatever they find.
pub proof fn law_a_test_doubles_and_ends(
    m: SpeedtestModel,
    npub: Seq<char>,
    runs: Seq<RunModel>,
)
    requires
        !m.running,
    ensures
        ({
            let after = m.begun(npub).after_runs(runs);
            &&& after.running ==> after.size == run_size(runs.len()) && START_BYTES <= after.size
                <= MAX_BYTES
            &&& runs.len() > last_run() ==> !after.running
        }),
{
    lemma_run_sizes();
    lemma_runs(m.begun(npub), runs);
}

/// A larger run that fails after a smaller one succeeded keeps the good result
/// and reports no error.
pub proof fn law_a_good_run_is_kept(m: SpeedtestModel, run: RunModel)
    requires
        m.running,
        m.any_ok,
        run.rates is Err,
    ensures
        ({
            let after = m.after_run(run);
            &&& !after.running
            &&& after.error == Seq::<char>::empty()
            &&& after.up_mbps_bits == m.up_mbps_bits
            &&& after.down_mbps_bits == m.down_mbps_bits
            &&& after.bytes == m.bytes
        }),
{
}

/// A test that begins is of the peer that was named, starts with 256 KiB, has no
/// error and keeps the last figures. One that is under way is not disturbed.
pub proof fn law_a_test_begins_small(m: SpeedtestModel, npub: Seq<char>)
    ensures
        m.running ==> m.begun(npub) == m,
        !m.running ==> m.begun(npub) == (SpeedtestModel {
            running: true,
            peer_npub: npub,
            error: seq![],
            size: 262_144,
            any_ok: false,
            ..m
        }),
        ({
            let idle = SpeedtestModel::idle();
            &&& !idle.running
            &&& idle.peer_npub.len() == 0
            &&& idle.error.len() == 0
            &&& idle.up_mbps_bits == 0
            &&& idle.down_mbps_bits == 0
            &&& idle.bytes == 0
            &&& idle.generation == 0
        }),
        m.next_size() == (if m.running {
            Some(m.size)
        } else {
            None
        }),
{
}

/// A run that succeeded is what is reported, whatever was reported before: its
/// two rates and its payload. It is the last where it took five seconds or its
/// payload was the largest; otherwise the next has twice the payload. Each run
/// is counted, and the end of the test once more.
pub proof fn law_a_good_run_is_what_is_reported(
    m: SpeedtestModel,
    up: u64,
    down: u64,
    elapsed_ms: u64,
)
    requires
        m.wf(),
        m.running,
    ensures
        ({
            let after = m.after_run(RunModel { rates: Ok((up, down)), elapsed_ms });
            &&& after.up_mbps_bits == up
            &&& after.down_mbps_bits == down
            &&& after.bytes == m.size
            &&& after.any_ok
            &&& after.peer_npub == m.peer_npub
            &&& after.running <==> elapsed_ms < 5_000 && m.size < 67_108_864
            &&& after.running ==> after.size == 2 * m.size && after.generation == m.generation + 1
                && after.error == m.error
            &&& !after.running ==> after.generation == m.generation + 2 && after.error.len() == 0
        }),
{
    lemma_run_sizes();
    let n = choose|n: nat| n <= last_run() && m.size == #[trigger] run_size(n);
    assert(n < last_run() ==> 2 * run_size(n) <= MAX_BYTES);
}

/// A run that failed ends the test. Where none was good before, its reason is
/// the error and the rates are zero; otherwise there is no error and the figures
/// stay. Where no test is under way, a run changes nothing.
pub proof fn law_a_failed_run_ends_the_test(m: SpeedtestModel, reason: Seq<char>, run: RunModel)
    requires
        run.rates == Err::<(u64, u64), Seq<char>>(reason),
    ensures
        ({
            let after = m.after_run(run);
            &&& m.running ==> !after.running && after.generation == m.generation + 1
            &&& after.bytes == m.bytes
            &&& after.peer_npub == m.peer_npub
            &&& m.running && !m.any_ok ==> after.error == reason && after.up_mbps_bits == 0
                && after.down_mbps_bits == 0
            &&& m.running && m.any_ok ==> after.error.len() == 0 && after.up_mbps_bits
                == m.up_mbps_bits && after.down_mbps_bits == m.down_mbps_bits
        }),
{
}

/// A run that ends after the test is over changes nothing.
pub proof fn law_a_late_run_changes_nothing(m: SpeedtestModel, run: RunModel)
    requires
        !m.running,
    ensures
        m.after_run(run) == m,
{
}

proof fn lemma_runs_keep_wf(m: SpeedtestModel, runs: Seq<RunModel>)
    requires
        m.wf(),
    ensures
        m.after_runs(runs).wf(),
    decreases runs.len(),
{
    if runs.len() > 0 {
        lemma_runs_keep_wf(m, runs.drop_last());
        lemma_a_run_keeps_the_payloads(m.after_runs(runs.drop_last()), runs.last());
    }
}

/// After any sequence of runs the figures are those of the last run that
/// succeeded while the test was under way: run number `k` here, after which
/// every run failed or came too late.
pub proof fn law_the_last_good_run_counts(
    m: SpeedtestModel,
    npub: Seq<char>,
    runs: Seq<RunModel>,
    k: int,
    up: u64,
    down: u64,
)
    requires
        !m.running,
        0 <= k < runs.len(),
        runs[k].rates == Ok::<(u64, u64), Seq<char>>((up, down)),
        m.begun(npub).after_runs(runs.take(k)).running,
        forall|j: int|
            k < j < runs.len() ==> #[trigger] runs[j].rates is Err || !m.begun(npub).after_runs(
                runs.take(j),
            ).running,
    ensures
        ({
            let after = m.begun(npub).after_runs(runs);
            &&& after.up_mbps_bits == up
            &&& after.down_mbps_bits == down
            &&& after.bytes == run_size(k as nat)
            &&& after.any_ok
            &&& after.peer_npub == npub
        }),
    decreases runs.len(),
{
    lemma_run_sizes();
    let begun = m.begun(npub);
    let before = runs.drop_last();
    assert(before =~= runs.take(runs.len() - 1));
    lemma_runs_keep_wf(begun, before);
    lemma_runs(begun, before);
    lemma_runs_keep_peer(begun, before);
    if k == runs.len() - 1 {
        law_a_good_run_is_what_is_reported(
            begun.after_runs(before),
            up,
            down,
            runs[k].elapsed_ms,
        );
        assert(runs.last() == (RunModel { rates: Ok((up, down)), elapsed_ms: runs[k].elapsed_ms }));
    } else {
        assert(before.take(k) =~= runs.take(k));
        assert forall|j: int| k < j < before.len() implies #[trigger] before[j].rates is Err
            || !begun.after_runs(before.take(j)).running by {
            assert(before.take(j) =~= runs.take(j));
            assert(runs[j].rates is Err || !begun.after_runs(runs.take(j)).running);
        }
        law_the_last_good_run_counts(m, npub, before, k, up, down);
        let last = runs[runs.len() - 1];
        assert(last.rates is Err || !begun.after_runs(before).running);
    }
}

proof fn lemma_runs_keep_peer(m: SpeedtestModel, runs: Seq<RunModel>)
    ensures
        m.after_runs(runs).peer_npub == m.peer_npub,
    decreases runs.len(),
{
    if runs.len() > 0 {
        lemma_runs_keep_peer(m, runs.drop_last());
    }
}

/// A run is taken as it was reported: with its rates or its reason, and with the
/// time that it took.
pub proof fn law_a_run_is_taken_as_reported(
    rates: (u64, u64),
    reason: String,
    elapsed_ms: u64,
)
    ensures
        run_of(Ok(rates), elapsed_ms) == (RunModel { rates: Ok(rates), elapsed_ms }),
        run_of(Err(reason), elapsed_ms) == (RunModel { rates: Err(reason@), elapsed_ms }),
{
}

} // verus!
