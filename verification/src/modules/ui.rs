//! The state behind the live bandwidth graph: the recent speed samples, the
//! current and peak speed, the spinner frame, and what the graph shows.
//!
//! Speeds are in Mbps and reach this module as f64 bit patterns (see
//! [`crate::float_bits`]). Printing the graph is the application's part; the
//! thresholds of its rows are computed there in floating point and handed in
//! as bit patterns.

use vstd::prelude::*;
use crate::float_bits::{float_ge, float_gt, ge, gt, is_nan, nan};
use crate::modules::types::F64_0;

verus! {

/// 1.0 as an f64 bit pattern.
pub const F64_1: u64 = 0x3FF0_0000_0000_0000;
/// How many samples the monitor keeps.
pub const HISTORY_LIMIT: usize = 100;
/// How many frames the spinner cycles through.
pub const THROBBER_FRAMES: usize = 10;
/// How many columns the graph has.
pub const GRAPH_WIDTH: usize = 80;
/// How many rows the graph has.
pub const GRAPH_HEIGHT: usize = 8;

/// `f64::max` on bit patterns: a NaN argument yields the other one; of two
/// equal values the first is kept.
pub open spec fn fmax(a: u64, b: u64) -> u64 {
    if is_nan(a) {
        b
    } else if is_nan(b) {
        a
    } else if gt(b, a) {
        b
    } else {
        a
    }
}

/// `f64::max` on bit patterns.
pub fn float_max(a: u64, b: u64) -> (r: u64)
    ensures
        r == fmax(a, b),
{
    if nan(a) {
        b
    } else if nan(b) {
        a
    } else if float_gt(b, a) {
        b
    } else {
        a
    }
}

/// The history after a new sample is appended: the oldest sample leaves once
/// there are more than the limit.
pub open spec fn keep_recent(s: Seq<u64>) -> Seq<u64> {
    if s.len() > HISTORY_LIMIT {
        s.drop_first()
    } else {
        s
    }
}

/// The last `HISTORY_LIMIT` samples of a run (all of them when fewer).
pub open spec fn last_samples(all: Seq<u64>) -> Seq<u64> {
    if all.len() > HISTORY_LIMIT {
        all.subrange(all.len() - HISTORY_LIMIT, all.len() as int)
    } else {
        all
    }
}

/// The spinner glyphs, one per frame.
pub open spec fn throbber_glyphs() -> Seq<char> {
    seq!['⠋', '⠙', '⠹', '⠸', '⠼', '⠴', '⠦', '⠧', '⠇', '⠏']
}

/// The glyph shown once the measurement is final.
pub open spec fn done_glyph() -> char {
    '✓'
}

/// The largest sample, folding `f64::max` over the samples from 0.0.
pub open spec fn fold_max(s: Seq<u64>) -> u64
    decreases s.len(),
{
    if s.len() == 0 {
        F64_0
    } else {
        fmax(fold_max(s.drop_last()), s.last())
    }
}

/// The value at the top of the graph: the largest sample, at least 1.0.
pub open spec fn scale_of(history: Seq<u64>) -> u64 {
    if history.len() == 0 {
        F64_1
    } else {
        fmax(fold_max(history), F64_1)
    }
}

/// How many samples the graph shows: the most recent ones, up to its width.
pub open spec fn shown_count(len: nat) -> nat {
    if len < GRAPH_WIDTH {
        len
    } else {
        GRAPH_WIDTH as nat
    }
}

/// One row of the graph for a threshold: a column is filled when its sample
/// reaches the threshold; the most recent samples come first from the left
/// and the columns past them stay empty.
pub open spec fn graph_row_of(history: Seq<u64>, threshold: u64) -> Seq<bool> {
    let shown = shown_count(history.len());
    let start = history.len() - shown;
    Seq::new(GRAPH_WIDTH as nat, |i: int| i < shown && ge(history[start + i], threshold))
}

/// The state of a live bandwidth graph.
pub struct BandwidthMonitor {
    speed_history: Vec<u64>,
    current_speed: u64,
    peak_speed: u64,
    is_final: bool,
    throbber_frame: usize,
    title: String,
}

impl BandwidthMonitor {
    #[verifier::type_invariant]
    spec fn inv(self) -> bool {
        &&& self.speed_history@.len() <= HISTORY_LIMIT
        &&& self.throbber_frame < THROBBER_FRAMES
    }

    /// The samples kept, oldest first.
    pub closed spec fn history(self) -> Seq<u64> {
        self.speed_history@
    }

    /// The latest sample.
    pub closed spec fn current(self) -> u64 {
        self.current_speed
    }

    /// The largest sample seen.
    pub closed spec fn peak(self) -> u64 {
        self.peak_speed
    }

    /// Whether the measurement has ended.
    pub closed spec fn finished(self) -> bool {
        self.is_final
    }

    /// The spinner frame.
    pub closed spec fn frame(self) -> nat {
        self.throbber_frame as nat
    }

    /// The title given at creation.
    pub closed spec fn heading(self) -> Seq<char> {
        self.title@
    }

    /// A monitor with no samples, speeds at 0.0 and the spinner at its first
    /// frame.
    pub fn new(title: String) -> (m: Self)
        ensures
            m.history() == Seq::<u64>::empty(),
            m.current() == F64_0,
            m.peak() == F64_0,
            !m.finished(),
            m.frame() == 0,
            m.heading() == title@,
    {
        BandwidthMonitor {
            speed_history: Vec::new(),
            current_speed: F64_0,
            peak_speed: F64_0,
            is_final: false,
            throbber_frame: 0,
            title,
        }
    }

    /// Records a sample: it becomes the current speed, raises the peak,
    /// joins the history (dropping the oldest beyond the limit) and advances
    /// the spinner.
    pub fn update(&mut self, speed: u64)
        ensures
            final(self).current() == speed,
            final(self).peak() == fmax(old(self).peak(), speed),
            final(self).history() == keep_recent(old(self).history().push(speed)),
            final(self).history().len() <= HISTORY_LIMIT,
            final(self).frame() == (old(self).frame() + 1) % (THROBBER_FRAMES as nat),
            final(self).finished() == old(self).finished(),
            final(self).heading() == old(self).heading(),
    {
        proof {
            use_type_invariant(&*self);
        }
        let mut history: Vec<u64> = Vec::new();
        std::mem::swap(&mut history, &mut self.speed_history);
        history.push(speed);
        if history.len() > HISTORY_LIMIT {
            history.remove(0);
        }
        assert(history@ =~= keep_recent(old(self).speed_history@.push(speed)));
        self.speed_history = history;
        self.current_speed = speed;
        self.peak_speed = float_max(self.peak_speed, speed);
        self.throbber_frame = (self.throbber_frame + 1) % THROBBER_FRAMES;
    }

    /// Marks the measurement as ended.
    pub fn mark_final(&mut self)
        ensures
            final(self).finished(),
            final(self).history() == old(self).history(),
            final(self).current() == old(self).current(),
            final(self).peak() == old(self).peak(),
            final(self).frame() == old(self).frame(),
            final(self).heading() == old(self).heading(),
    {
        proof {
            use_type_invariant(&*self);
        }
        self.is_final = true;
    }

    /// The samples kept, oldest first.
    pub fn speed_history(&self) -> (r: &Vec<u64>)
        ensures
            r@ == self.history(),
            r@.len() <= HISTORY_LIMIT,
    {
        proof {
            use_type_invariant(self);
        }
        &self.speed_history
    }

    /// The latest sample.
    pub fn current_speed(&self) -> (r: u64)
        ensures
            r == self.current(),
    {
        self.current_speed
    }

    /// The largest sample seen.
    pub fn peak_speed(&self) -> (r: u64)
        ensures
            r == self.peak(),
    {
        self.peak_speed
    }

    /// Whether the measurement has ended.
    pub fn is_final(&self) -> (r: bool)
        ensures
            r == self.finished(),
    {
        self.is_final
    }

    /// The title given at creation.
    pub fn title(&self) -> (r: &str)
        ensures
            r@ == self.heading(),
    {
        self.title.as_str()
    }

    /// The glyph beside the current speed: a check mark once final, the
    /// spinner glyph of the current frame before.
    pub fn indicator(&self) -> (c: char)
        ensures
            c == (if self.finished() {
                done_glyph()
            } else {
                throbber_glyphs()[self.frame() as int]
            }),
    {
        proof {
            use_type_invariant(self);
        }
        if self.is_final {
            '✓'
        } else {
            let glyphs: [char; 10] = ['⠋', '⠙', '⠹', '⠸', '⠼', '⠴', '⠦', '⠧', '⠇', '⠏'];
            assert(glyphs@ == throbber_glyphs());
            glyphs[self.throbber_frame]
        }
    }

    /// The value at the top of the graph.
    pub fn graph_scale(&self) -> (r: u64)
        ensures
            r == scale_of(self.history()),
    {
        if self.speed_history.len() == 0 {
            return F64_1;
        }
        let mut acc: u64 = F64_0;
        let mut i: usize = 0;
        while i < self.speed_history.len()
            invariant
                i <= self.speed_history@.len(),
                acc == fold_max(self.speed_history@.take(i as int)),
            decreases self.speed_history@.len() - i,
        {
            assert(self.speed_history@.take(i + 1).drop_last() =~= self.speed_history@.take(
                i as int,
            ));
            acc = float_max(acc, self.speed_history[i]);
            i = i + 1;
        }
        assert(self.speed_history@.take(i as int) =~= self.speed_history@);
        float_max(acc, F64_1)
    }

    /// One row of the graph: which of its columns are filled for the row's
    /// threshold.
    pub fn graph_row(&self, threshold: u64) -> (row: Vec<bool>)
        ensures
            row@ == graph_row_of(self.history(), threshold),
    {
        let len = self.speed_history.len();
        let shown: usize = if len < GRAPH_WIDTH { len } else { GRAPH_WIDTH };
        let start: usize = len - shown;
        let mut row: Vec<bool> = Vec::new();
        let mut i: usize = 0;
        while i < GRAPH_WIDTH
            invariant
                len == self.speed_history@.len(),
                shown == shown_count(len as nat),
                start == len - shown,
                i <= GRAPH_WIDTH,
                row@.len() == i,
                forall|j: int|
                    0 <= j < i ==> row@[j] == (j < shown && ge(
                        self.speed_history@[start + j],
                        threshold,
                    )),
            decreases GRAPH_WIDTH - i,
        {
            let filled = i < shown && float_ge(self.speed_history[start + i], threshold);
            row.push(filled);
            i = i + 1;
        }
        assert(row@ =~= graph_row_of(self.history(), threshold));
        row
    }
}

/// The monitor keeps exactly the last samples of a run: if its history is
/// the tail of all samples so far, after one more sample it is the tail of
/// the longer run.
pub proof fn lemma_history_is_recent(all: Seq<u64>, speed: u64)
    ensures
        keep_recent(last_samples(all).push(speed)) == last_samples(all.push(speed)),
{
    let longer = all.push(speed);
    if all.len() > HISTORY_LIMIT {
        assert(keep_recent(last_samples(all).push(speed)) =~= last_samples(longer));
    } else if all.len() == HISTORY_LIMIT {
        assert(keep_recent(all.push(speed)) =~= longer.subrange(
            longer.len() - HISTORY_LIMIT,
            longer.len() as int,
        ));
    } else {
        assert(keep_recent(all.push(speed)) =~= longer);
    }
}

/// Starting from a new monitor, the history after a run of samples is the
/// last `HISTORY_LIMIT` of them.
pub proof fn lemma_run_keeps_last(all: Seq<u64>)
    ensures
        run_history(all) == last_samples(all),
    decreases all.len(),
{
    if all.len() > 0 {
        lemma_run_keeps_last(all.drop_last());
        assert(all.drop_last().push(all.last()) =~= all);
        lemma_history_is_recent(all.drop_last(), all.last());
    }
}

/// The history a new monitor holds after the samples `all`, one update each.
pub open spec fn run_history(all: Seq<u64>) -> Seq<u64>
    decreases all.len(),
{
    if all.len() == 0 {
        Seq::empty()
    } else {
        keep_recent(run_history(all.drop_last()).push(all.last()))
    }
}

/// The largest sample, when none is NaN, is at least every sample.
proof fn lemma_fold_max_bounds(s: Seq<u64>, i: int)
    requires
        0 <= i < s.len(),
        forall|j: int| 0 <= j < s.len() ==> !is_nan(#[trigger] s[j]),
    ensures
        ge(fold_max(s), s[i]),
        !is_nan(fold_max(s)),
    decreases s.len(),
{
    let init = s.drop_last();
    if init.len() > 0 {
        assert forall|j: int| 0 <= j < init.len() implies !is_nan(#[trigger] init[j]) by {
            assert(init[j] == s[j]);
        }
        if i < init.len() {
            lemma_fold_max_bounds(init, i);
            assert(init[i] == s[i]);
        } else {
            lemma_fold_max_bounds(init, 0);
        }
    }
}

/// When no sample is NaN, the top of the graph is at least every sample
/// kept, so no column is cut off.
pub proof fn lemma_scale_covers_samples(history: Seq<u64>, i: int)
    requires
        0 <= i < history.len(),
        forall|j: int| 0 <= j < history.len() ==> !is_nan(#[trigger] history[j]),
    ensures
        ge(scale_of(history), history[i]),
{
    lemma_fold_max_bounds(history, i);
}

} // verus!
