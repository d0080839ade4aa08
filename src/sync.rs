//! Change detection and the decisions of the polling loop.
//!
//! The loop itself (reading sources, writing modules, sleeping) belongs to
//! the caller. For each pair on each tick it hands the freshly read source
//! text to [`Tracker::poll`], writes the module text that comes back, if any,
//! and calls [`Tracker::halt`] on any I/O failure, after which nothing is
//! emitted again.
use vstd::prelude::*;
use crate::module_text::{wrapped, wrap_source};

verus! {

/// The lowercase hexadecimal MD5 digest of the UTF-8 encoding of `s`.
pub uninterp spec fn md5_hex_of(s: Seq<char>) -> Seq<char>;

/// Relies on `md5::compute` and the `LowerHex` formatting of its `Digest`:
/// the result depends on the text alone, and is sixteen bytes written as two
/// hex digits each.
#[verifier::external_body]
fn md5_hex(s: &str) -> (r: String)
    ensures
        r@ == md5_hex_of(s@),
        r@.len() == 32,
{
    format!("{:x}", md5::compute(s))
}

/// Computes the fingerprint of a source text.
pub fn fingerprint(contents: &str) -> (r: String)
    ensures
        r@ == md5_hex_of(contents@),
        r@.len() > 0,
{
    md5_hex(contents)
}

/// What to do for one pair on one tick.
#[derive(Debug)]
pub enum Step {
    /// The source changed: write this text to the destination.
    Emit(String),
    /// The source is as it was on the last tick: write nothing.
    Unchanged,
    /// The watcher has stopped after a failure: do nothing.
    Stopped,
}

/// The abstract state of a tracker: the last fingerprint seen for each pair
/// (empty before the first tick) and whether the watcher has stopped.
pub struct TrackerState {
    pub fingerprints: Seq<Seq<char>>,
    pub stopped: bool,
}

/// Whether observing fingerprint `fp` for pair `i` in state `s` emits.
pub open spec fn emits(s: TrackerState, i: int, fp: Seq<char>) -> bool {
    !s.stopped && s.fingerprints[i] != fp
}

/// The state after observing fingerprint `fp` for pair `i` in state `s`.
pub open spec fn next_state(s: TrackerState, i: int, fp: Seq<char>) -> TrackerState {
    if emits(s, i, fp) {
        TrackerState { fingerprints: s.fingerprints.update(i, fp), stopped: false }
    } else {
        s
    }
}

/// The fingerprint table of a running watcher.
pub struct Tracker {
    fingerprints: Vec<String>,
    stopped: bool,
}

impl View for Tracker {
    type V = TrackerState;

    closed spec fn view(&self) -> TrackerState {
        TrackerState {
            fingerprints: self.fingerprints@.map_values(|f: String| f@),
            stopped: self.stopped,
        }
    }
}

impl Tracker {
    /// A running tracker for `n` pairs that has seen no fingerprint yet.
    pub fn new(n: usize) -> (r: Tracker)
        ensures
            r@.fingerprints == Seq::new(n as nat, |i: int| Seq::<char>::empty()),
            !r@.stopped,
    {
        let mut fingerprints: Vec<String> = Vec::new();
        let mut i: usize = 0;
        while i < n
            invariant
                i <= n,
                fingerprints@.len() == i,
                forall|k: int| 0 <= k < i ==> fingerprints@[k]@ == Seq::<char>::empty(),
            decreases n - i,
        {
            fingerprints.push(String::new());
            i = i + 1;
        }
        let r = Tracker { fingerprints, stopped: false };
        assert(r@.fingerprints =~= Seq::new(n as nat, |i: int| Seq::<char>::empty()));
        r
    }

    /// The number of tracked pairs.
    pub fn len(&self) -> (r: usize)
        ensures
            r == self@.fingerprints.len(),
    {
        self.fingerprints.len()
    }

    /// Whether the watcher is still running.
    pub fn is_running(&self) -> (r: bool)
        ensures
            r == !self@.stopped,
    {
        !self.stopped
    }

    /// Records a fatal I/O failure: from now on every poll reports `Stopped`.
    pub fn halt(&mut self)
        ensures
            final(self)@.stopped,
            final(self)@.fingerprints == old(self)@.fingerprints,
    {
        self.stopped = true;
    }

    /// Decides what to do for pair `i`, given the fingerprint `fp` of its
    /// source text `contents`.
    pub fn observe(&mut self, i: usize, fp: String, contents: &str) -> (r: Step)
        requires
            i < old(self)@.fingerprints.len(),
        ensures
            final(self)@ == next_state(old(self)@, i as int, fp@),
            old(self)@.stopped ==> r is Stopped,
            !old(self)@.stopped && old(self)@.fingerprints[i as int] == fp@ ==> r is Unchanged,
            emits(old(self)@, i as int, fp@) ==> (match r {
                Step::Emit(t) => t@ == wrapped(contents@),
                _ => false,
            }),
    {
        if self.stopped {
            return Step::Stopped;
        }
        if self.fingerprints[i] == fp {
            return Step::Unchanged;
        }
        let out = wrap_source(contents);
        self.fingerprints.set(i, fp);
        proof {
            let s = old(self)@;
            assert(self@.fingerprints =~= s.fingerprints.update(i as int, fp@));
        }
        Step::Emit(out)
    }

    /// Decides what to do for pair `i` whose source now reads `contents`.
    /// On the first poll of a pair of a running tracker the module is always
    /// written.
    pub fn poll(&mut self, i: usize, contents: &str) -> (r: Step)
        requires
            i < old(self)@.fingerprints.len(),
        ensures
            final(self)@ == next_state(old(self)@, i as int, md5_hex_of(contents@)),
            old(self)@.stopped ==> r is Stopped,
            !old(self)@.stopped && old(self)@.fingerprints[i as int] == md5_hex_of(contents@)
                ==> r is Unchanged,
            emits(old(self)@, i as int, md5_hex_of(contents@)) ==> (match r {
                Step::Emit(t) => t@ == wrapped(contents@),
                _ => false,
            }),
            !old(self)@.stopped && old(self)@.fingerprints[i as int].len() == 0 ==> r is Emit,
    {
        let fp = fingerprint(contents);
        self.observe(i, fp, contents)
    }
}

/// A pair whose source is read again with the same fingerprint is left
/// alone: the second observation emits nothing and changes nothing.
pub proof fn lemma_unchanged_source_is_quiet(s: TrackerState, i: int, fp: Seq<char>)
    requires
        0 <= i < s.fingerprints.len(),
    ensures
        !emits(next_state(s, i, fp), i, fp),
        next_state(next_state(s, i, fp), i, fp) == next_state(s, i, fp),
{
}

/// A fingerprint that differs from the one last recorded for the pair, on a
/// running tracker, triggers a write, and exactly one: observing it again
/// writes nothing. This holds as well when the source returns to an earlier
/// text, since only the last recorded fingerprint is compared.
pub proof fn lemma_change_writes_once(s: TrackerState, i: int, fp: Seq<char>)
    requires
        0 <= i < s.fingerprints.len(),
        !s.stopped,
        s.fingerprints[i] != fp,
    ensures
        emits(s, i, fp),
        next_state(s, i, fp).fingerprints[i] == fp,
        !emits(next_state(s, i, fp), i, fp),
{
}

/// A change back to an earlier text is a change: after `a` then `b`, with
/// different fingerprints, seeing `a` again writes once more.
pub proof fn lemma_change_back_writes(s: TrackerState, i: int, a: Seq<char>, b: Seq<char>)
    requires
        0 <= i < s.fingerprints.len(),
        !s.stopped,
        a != b,
    ensures
        emits(next_state(next_state(s, i, a), i, b), i, a),
{
}

/// Once stopped, a tracker emits nothing and stays as it is, whatever it
/// observes.
pub proof fn lemma_stopped_emits_nothing(s: TrackerState, i: int, fp: Seq<char>)
    requires
        s.stopped,
    ensures
        !emits(s, i, fp),
        next_state(s, i, fp) == s,
{
}

} // verus!
