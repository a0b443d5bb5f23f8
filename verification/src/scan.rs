//! The scan state machine and the shared sample buffer.
//!
//! The device is Idle or Scanning (with two reserved states); stop and reset
//! drive it to Idle from anywhere, and the ingestion loop runs exactly while
//! it is Scanning. The buffer applies the seeking gate: nothing is retained
//! until the first revolution-start sample arrives, so the first retained
//! sample always begins a revolution.

use crate::sample::Sample;
use crate::sample::decode_sample;
use crate::sample::spec_sample_of;
use vstd::prelude::*;

verus! {

/// The device state: the single source of truth for whether the ingestion
/// loop should keep running. `Processing` and `ProtectionStop` are reserved.
#[derive(Clone, Copy, Debug, PartialEq, Eq, Structural)]
pub enum LidarState {
    Idle,
    Processing,
    Scanning,
    ProtectionStop,
}

/// Whether the ingestion loop is expected to run in this state.
pub fn is_scanning(state: &LidarState) -> (r: bool)
    ensures
        r == (*state is Scanning),
{
    match state {
        LidarState::Scanning => true,
        _ => false,
    }
}

/// Stop and reset both drive the state to Idle, from any state.
pub fn stop_transition(state: &mut LidarState)
    ensures
        *final(state) is Idle,
{
    *state = LidarState::Idle;
}

/// A successful scan-start request drives the state to Scanning.
pub fn scan_transition(state: &mut LidarState)
    ensures
        *final(state) is Scanning,
{
    *state = LidarState::Scanning;
}

/// One step of the seeking gate on the abstract state (still seeking?,
/// retained samples): a sample is retained once seeking has ended or when it
/// begins a revolution, which also ends seeking; anything else is discarded.
pub open spec fn gate_step(seeking: bool, samples: Seq<Sample>, raw: Seq<u8>) -> (bool, Seq<
    Sample,
>) {
    if !seeking || spec_sample_of(raw).start {
        (false, samples.push(spec_sample_of(raw)))
    } else {
        (true, samples)
    }
}

/// The seeking gate run over a whole sequence of quadruplets, oldest first.
pub open spec fn gate_run(seeking: bool, samples: Seq<Sample>, raws: Seq<Seq<u8>>) -> (bool, Seq<
    Sample,
>)
    decreases raws.len(),
{
    if raws.len() == 0 {
        (seeking, samples)
    } else {
        let stepped = gate_step(seeking, samples, raws.first());
        gate_run(stepped.0, stepped.1, raws.drop_first())
    }
}

/// The samples encoded by a sequence of quadruplets, in order.
pub open spec fn spec_samples_of(raws: Seq<Seq<u8>>) -> Seq<Sample> {
    raws.map_values(|b: Seq<u8>| spec_sample_of(b))
}

/// What a fresh scan session retains from a sequence of raw quadruplets:
/// everything before the first revolution-start quadruplet is discarded, and
/// everything from it on is decoded and kept.
pub open spec fn spec_retained(raws: Seq<Seq<u8>>) -> Seq<Sample>
    decreases raws.len(),
{
    if raws.len() == 0 {
        Seq::empty()
    } else if spec_sample_of(raws.first()).start {
        spec_samples_of(raws)
    } else {
        spec_retained(raws.drop_first())
    }
}

/// How one ingested quadruplet relates the buffer after (`post`) to the
/// buffer before (`pre`): exactly one step of the seeking gate.
pub open spec fn ingest_post(pre: ScanBuffer, post: ScanBuffer, raw: Seq<u8>) -> bool {
    &&& post.spec_seeking() == gate_step(pre.spec_seeking(), pre.spec_samples(), raw).0
    &&& post.spec_samples() == gate_step(pre.spec_seeking(), pre.spec_samples(), raw).1
}

/// A gate that is no longer seeking discards nothing.
pub proof fn lemma_gate_open_retains_all(samples: Seq<Sample>, raws: Seq<Seq<u8>>)
    ensures
        gate_run(false, samples, raws).0 == false,
        gate_run(false, samples, raws).1 == samples + spec_samples_of(raws),
    decreases raws.len(),
{
    if raws.len() == 0 {
        assert(samples + spec_samples_of(raws) =~= samples);
    } else {
        let s0 = spec_sample_of(raws.first());
        lemma_gate_open_retains_all(samples.push(s0), raws.drop_first());
        assert(samples.push(s0) + spec_samples_of(raws.drop_first()) =~= samples
            + spec_samples_of(raws));
    }
}

/// The seeking-gate law for a whole session: ingesting any sequence of
/// quadruplets into a fresh buffer retains exactly the decoded samples from
/// the first revolution-start quadruplet on; everything before it is
/// discarded.
pub proof fn lemma_seeking_gate_run(raws: Seq<Seq<u8>>)
    ensures
        gate_run(true, Seq::empty(), raws).1 == spec_retained(raws),
    decreases raws.len(),
{
    if raws.len() == 0 {
    } else if spec_sample_of(raws.first()).start {
        let s0 = spec_sample_of(raws.first());
        lemma_gate_open_retains_all(Seq::empty().push(s0), raws.drop_first());
        assert(Seq::empty().push(s0) + spec_samples_of(raws.drop_first()) =~= spec_samples_of(
            raws,
        ));
    } else {
        lemma_seeking_gate_run(raws.drop_first());
    }
}

/// Whatever the session's input was, a non-empty retained sequence begins
/// with a revolution-start sample.
pub proof fn lemma_retained_starts(raws: Seq<Seq<u8>>)
    requires
        spec_retained(raws).len() > 0,
    ensures
        spec_retained(raws)[0].start,
    decreases raws.len(),
{
    if raws.len() == 0 {
    } else if spec_sample_of(raws.first()).start {
        assert(spec_samples_of(raws)[0] == spec_sample_of(raws[0]));
    } else {
        lemma_retained_starts(raws.drop_first());
    }
}

/// The ordered, append-only sequence of decoded samples shared between the
/// single producer (the ingestion loop) and any number of consumers, together
/// with the producer's seeking flag.
pub struct ScanBuffer {
    seeking: bool,
    samples: Vec<Sample>,
}

impl ScanBuffer {
    /// The retained samples, oldest first.
    pub closed spec fn spec_samples(self) -> Seq<Sample> {
        self.samples@
    }

    /// Whether the buffer is still waiting for the first revolution-start
    /// sample.
    pub closed spec fn spec_seeking(self) -> bool {
        self.seeking
    }

    /// Well-formedness: the buffer seeks exactly while nothing has been
    /// retained, and the first retained sample always begins a revolution.
    pub open spec fn wf(self) -> bool {
        &&& (self.spec_seeking() <==> self.spec_samples().len() == 0)
        &&& (self.spec_samples().len() > 0 ==> self.spec_samples()[0].start)
    }

    /// A freshly started scan buffer: empty and seeking.
    pub fn new() -> (b: ScanBuffer)
        ensures
            b.wf(),
            b.spec_seeking(),
            b.spec_samples().len() == 0,
    {
        ScanBuffer { seeking: true, samples: Vec::new() }
    }

    /// Decodes one raw quadruplet and appends the sample, subject to the
    /// seeking gate.
    pub fn ingest(&mut self, raw: &[u8; 5])
        requires
            old(self).wf(),
        ensures
            final(self).wf(),
            ingest_post(*old(self), *final(self), raw@),
    {
        let sample = decode_sample(raw);
        if self.seeking && !sample.start {
            return ;
        }
        self.seeking = false;
        self.samples.push(sample);
    }

    /// How many samples have been retained so far.
    pub fn len(&self) -> (n: usize)
        ensures
            n == self.spec_samples().len(),
    {
        self.samples.len()
    }

    /// A snapshot copy of the first `n` retained samples. Non-consuming: the
    /// buffer is never trimmed by reads.
    pub fn first_n(&self, n: usize) -> (r: Vec<Sample>)
        requires
            n <= self.spec_samples().len(),
        ensures
            r@.len() == n,
            r@ == self.spec_samples().subrange(0, n as int),
    {
        let mut r: Vec<Sample> = Vec::new();
        let mut i: usize = 0;
        while i < n
            invariant
                i <= n,
                n <= self.spec_samples().len(),
                r@ == self.spec_samples().subrange(0, i as int),
        decreases n - i,
        {
            proof {
                assert(self.spec_samples().subrange(0, i as int + 1) =~= self.spec_samples()
                    .subrange(0, i as int).push(self.spec_samples()[i as int]));
            }
            r.push(self.samples[i]);
            i = i + 1;
        }
        r
    }
}

/// One decision step of the ingestion loop, taken after a raw quadruplet has
/// been read: while the state is Scanning the quadruplet is ingested and the
/// loop goes on; in any other state nothing is appended and the loop ends.
pub fn scan_step(state: &LidarState, buf: &mut ScanBuffer, raw: &[u8; 5]) -> (cont: bool)
    requires
        old(buf).wf(),
    ensures
        final(buf).wf(),
        cont == (*state is Scanning),
        !cont ==> final(buf).spec_seeking() == old(buf).spec_seeking() && final(buf).spec_samples()
            == old(buf).spec_samples(),
        cont ==> ingest_post(*old(buf), *final(buf), raw@),
{
    if !is_scanning(state) {
        return false;
    }
    buf.ingest(raw);
    true
}

/// The seeking gate's guarantee: the first retained sample of a well-formed
/// scan buffer begins a revolution; every sample seen before it was
/// discarded, never stored.
pub proof fn lemma_first_retained_sample_starts(b: ScanBuffer)
    requires
        b.wf(),
        b.spec_samples().len() > 0,
    ensures
        b.spec_samples()[0].start,
{
}

/// Snapshots are prefix-stable: with no reset in between, waiting for `m`
/// samples returns a prefix of a later wait for `n >= m` samples.
pub proof fn lemma_snapshot_prefix_stable(s: Seq<Sample>, m: int, n: int)
    requires
        0 <= m <= n <= s.len(),
    ensures
        s.subrange(0, m) == s.subrange(0, n).subrange(0, m),
{
    assert(s.subrange(0, m) =~= s.subrange(0, n).subrange(0, m));
}

} // verus!
