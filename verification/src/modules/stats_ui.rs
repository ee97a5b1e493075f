//! Statistics dashboard: the state of the interactive screen (which chart
//! has focus, how far the results table is scrolled), how it reacts to keys,
//! and how the recent results are sorted into the slices of the pie charts.
//!
//! Drawing the screen with the terminal toolkit is the application's part.

use vstd::prelude::*;
use crate::float_bits::{float_ge, ge};
use crate::modules::keys::Key;
use crate::modules::types::{ConnectionQuality, F64_10, F64_100, F64_20, F64_25, F64_5, F64_50};
use crate::tally::{count_where, lemma_count_take_step};

verus! {

/// Which chart panel is currently focused
#[derive(Debug, Clone, Copy, PartialEq, Eq, Structural)]
pub enum Focus {
    Download,
    Upload,
    Ping,
    Quality,
}

impl Focus {
    /// The position of the panel in the cycle Download, Upload, Ping, Quality.
    pub open spec fn index(self) -> int {
        match self {
            Focus::Download => 0,
            Focus::Upload => 1,
            Focus::Ping => 2,
            Focus::Quality => 3,
        }
    }

    /// The panel at a position of the cycle.
    pub open spec fn at(i: int) -> Focus {
        if i % 4 == 0 {
            Focus::Download
        } else if i % 4 == 1 {
            Focus::Upload
        } else if i % 4 == 2 {
            Focus::Ping
        } else {
            Focus::Quality
        }
    }

    /// The panel after this one, wrapping from Quality to Download.
    pub open spec fn following(self) -> Focus {
        Focus::at(self.index() + 1)
    }

    /// The panel before this one, wrapping from Download to Quality.
    pub open spec fn preceding(self) -> Focus {
        Focus::at(self.index() + 3)
    }

    /// The panel after this one.
    pub fn next(self) -> (f: Self)
        ensures
            f == self.following(),
    {
        match self {
            Focus::Download => Focus::Upload,
            Focus::Upload => Focus::Ping,
            Focus::Ping => Focus::Quality,
            Focus::Quality => Focus::Download,
        }
    }

    /// The panel before this one.
    pub fn prev(self) -> (f: Self)
        ensures
            f == self.preceding(),
    {
        match self {
            Focus::Download => Focus::Quality,
            Focus::Upload => Focus::Download,
            Focus::Ping => Focus::Upload,
            Focus::Quality => Focus::Ping,
        }
    }
}

/// Moving the focus forward and then back, or back and then forward,
/// returns to the panel one started from.
pub proof fn lemma_focus_next_prev_inverse(f: Focus)
    ensures
        f.following().preceding() == f,
        f.preceding().following() == f,
{
}

/// Four steps forward visit every panel once and return to the start.
pub proof fn lemma_focus_cycle(f: Focus)
    ensures
        f.following().following().following().following() == f,
        f.following() != f,
        f.following().following() != f,
        f.following().following().following() != f,
{
}

/// The number of rows the results table shows at once.
pub open spec fn page_size() -> nat {
    8
}

/// The largest scroll offset for a table of `n` results.
pub open spec fn max_scroll(n: nat) -> nat {
    if n > page_size() { (n - page_size()) as nat } else { 0 }
}

/// The scroll offset after one step down in a table of `n` results.
pub open spec fn scrolled_down(s: nat, n: nat) -> nat {
    if s < max_scroll(n) { s + 1 } else { s }
}

/// The scroll offset after one step up.
pub open spec fn scrolled_up(s: nat) -> nat {
    if s > 0 { (s - 1) as nat } else { 0 }
}

/// A step down undone by a step up, or a step up undone by a step down,
/// leaves the table where it was, as long as the step could be taken.
pub proof fn lemma_scroll_round_trip(s: nat, n: nat)
    requires
        s <= max_scroll(n),
    ensures
        s < max_scroll(n) ==> scrolled_up(scrolled_down(s, n)) == s,
        s > 0 ==> scrolled_down(scrolled_up(s), n) == s,
        scrolled_down(s, n) <= max_scroll(n),
        scrolled_up(s) <= max_scroll(n),
{
}

/// Application state for the statistics dashboard: the focused chart, the
/// scroll offset of the results table and the number of results it holds.
pub struct StatsApp {
    focus: Focus,
    scroll: usize,
    result_count: usize,
}

impl StatsApp {
    /// The scroll offset never passes the last full page.
    #[verifier::type_invariant]
    spec fn scroll_in_range(self) -> bool {
        self.scroll <= max_scroll(self.result_count as nat)
    }

    /// The focused chart.
    pub closed spec fn focus_spec(self) -> Focus {
        self.focus
    }

    /// The first row the results table shows.
    pub closed spec fn scroll_spec(self) -> nat {
        self.scroll as nat
    }

    /// The number of results in the table.
    pub closed spec fn count_spec(self) -> nat {
        self.result_count as nat
    }

    /// A dashboard over `result_count` results, focused on the download
    /// chart and scrolled to the top.
    pub fn new(result_count: usize) -> (app: Self)
        ensures
            app.focus_spec() == Focus::Download,
            app.scroll_spec() == 0,
            app.count_spec() == result_count,
    {
        StatsApp { focus: Focus::Download, scroll: 0, result_count }
    }

    /// The focused chart.
    pub fn focus(&self) -> (f: Focus)
        ensures
            f == self.focus_spec(),
    {
        self.focus
    }

    /// The first row the results table shows.
    pub fn scroll(&self) -> (s: usize)
        ensures
            s == self.scroll_spec(),
            s <= max_scroll(self.count_spec()),
    {
        proof {
            use_type_invariant(self);
        }
        self.scroll
    }

    /// The number of results in the table.
    pub fn result_count(&self) -> (n: usize)
        ensures
            n == self.count_spec(),
    {
        self.result_count
    }

    /// Maximum rows visible in the results table
    pub fn table_page_size(&self) -> (n: usize)
        ensures
            n == page_size(),
    {
        8
    }

    /// Scrolls one row down, unless the last page is already shown.
    pub fn scroll_down(&mut self)
        ensures
            final(self).scroll_spec() == scrolled_down(old(self).scroll_spec(), old(self).count_spec()),
            final(self).focus_spec() == old(self).focus_spec(),
            final(self).count_spec() == old(self).count_spec(),
    {
        proof {
            use_type_invariant(&*self);
        }
        let max = self.result_count.saturating_sub(self.table_page_size());
        if self.scroll < max {
            self.scroll = self.scroll + 1;
        }
    }

    /// Scrolls one row up, unless the table is at the top.
    pub fn scroll_up(&mut self)
        ensures
            final(self).scroll_spec() == scrolled_up(old(self).scroll_spec()),
            final(self).focus_spec() == old(self).focus_spec(),
            final(self).count_spec() == old(self).count_spec(),
    {
        proof {
            use_type_invariant(&*self);
        }
        if self.scroll > 0 {
            self.scroll = self.scroll - 1;
        }
    }

    /// Moves the focus to the next chart.
    pub fn focus_next(&mut self)
        ensures
            final(self).focus_spec() == old(self).focus_spec().following(),
            final(self).scroll_spec() == old(self).scroll_spec(),
            final(self).count_spec() == old(self).count_spec(),
    {
        proof {
            use_type_invariant(&*self);
        }
        self.focus = self.focus.next();
    }

    /// Moves the focus to the previous chart.
    pub fn focus_prev(&mut self)
        ensures
            final(self).focus_spec() == old(self).focus_spec().preceding(),
            final(self).scroll_spec() == old(self).scroll_spec(),
            final(self).count_spec() == old(self).count_spec(),
    {
        proof {
            use_type_invariant(&*self);
        }
        self.focus = self.focus.prev();
    }

    /// The rows `start..end` of the results that the table shows.
    pub fn visible_rows(&self) -> (r: (usize, usize))
        ensures
            r.0 == self.scroll_spec(),
            r.1 == if self.scroll_spec() + page_size() < self.count_spec() {
                self.scroll_spec() + page_size()
            } else {
                self.count_spec()
            },
            r.0 <= r.1 <= self.count_spec(),
    {
        proof {
            use_type_invariant(self);
        }
        let start = self.scroll;
        let end = if start + 8 < self.result_count { start + 8 } else { self.result_count };
        (start, end)
    }

    /// Reacts to a sequence of keys in order until one quits; returns the
    /// position of that key, or `None` when none did.
    pub fn handle_keys(&mut self, keys: &Vec<Key>) -> (quit_at: Option<usize>)
        ensures
            ({
                let r = after_keys(
                    old(self).focus_spec(),
                    old(self).scroll_spec(),
                    old(self).count_spec(),
                    keys@,
                );
                &&& final(self).focus_spec() == r.0
                &&& final(self).scroll_spec() == r.1
                &&& final(self).count_spec() == old(self).count_spec()
                &&& match quit_at {
                    Some(q) => r.2 == Some(q as nat),
                    None => r.2 is None,
                }
            }),
            quit_at is None <==> (forall|j: int|
                0 <= j < keys@.len() ==> !is_quit_key(#[trigger] keys@[j])),
            quit_at matches Some(q) ==> {
                &&& q < keys@.len()
                &&& is_quit_key(keys@[q as int])
                &&& forall|j: int| 0 <= j < q ==> !is_quit_key(#[trigger] keys@[j])
            },
    {
        let ghost f0 = self.focus_spec();
        let ghost s0 = self.scroll_spec();
        let ghost n = self.count_spec();
        assert(keys@.skip(0) =~= keys@);
        assert(after_keys(f0, s0, n, keys@) == shifted(after_keys(f0, s0, n, keys@), 0));
        let mut i: usize = 0;
        while i < keys.len()
            invariant
                i <= keys@.len(),
                self.count_spec() == n,
                f0 == old(self).focus_spec(),
                s0 == old(self).scroll_spec(),
                n == old(self).count_spec(),
                after_keys(f0, s0, n, keys@) == shifted(
                    after_keys(self.focus_spec(), self.scroll_spec(), n, keys@.skip(i as int)),
                    i as nat,
                ),
            decreases keys.len() - i,
        {
            let ghost before = after_keys(
                self.focus_spec(),
                self.scroll_spec(),
                n,
                keys@.skip(i as int),
            );
            assert(keys@.skip(i as int)[0] == keys@[i as int]);
            assert(keys@.skip(i as int).drop_first() =~= keys@.skip(i + 1));
            let ghost f1 = self.focus_spec();
            let ghost s1 = self.scroll_spec();
            if !self.handle_key(keys[i]) {
                assert(before == (f1, s1, Some(0nat)));
                proof {
                    lemma_quit_at_first_quit(f0, s0, n, keys@);
                }
                return Some(i);
            }
            let ghost rest = after_keys(
                self.focus_spec(),
                self.scroll_spec(),
                n,
                keys@.skip(i + 1),
            );
            assert(before == shifted(rest, 1));
            assert(shifted(before, i as nat) == shifted(rest, (i + 1) as nat));
            i = i + 1;
        }
        assert(keys@.skip(i as int) =~= Seq::<Key>::empty());
        proof {
            lemma_quit_at_first_quit(f0, s0, n, keys@);
        }
        None
    }

    /// Reacts to a key: `q` or Esc ends the dashboard (the result is
    /// `false`); Tab, Right and `l` focus the next chart; BackTab, Left and
    /// `h` the previous one; Down and `j` scroll down; Up and `k` scroll up;
    /// other keys change nothing.
    pub fn handle_key(&mut self, key: Key) -> (keep_running: bool)
        ensures
            keep_running == !is_quit_key(key),
            final(self).count_spec() == old(self).count_spec(),
            final(self).focus_spec() == if is_next_key(key) {
                old(self).focus_spec().following()
            } else if is_prev_key(key) {
                old(self).focus_spec().preceding()
            } else {
                old(self).focus_spec()
            },
            final(self).scroll_spec() == if is_down_key(key) {
                scrolled_down(old(self).scroll_spec(), old(self).count_spec())
            } else if is_up_key(key) {
                scrolled_up(old(self).scroll_spec())
            } else {
                old(self).scroll_spec()
            },
            key == Key::Char('q') || key == Key::Esc <==> !keep_running,
            key == Key::Up || key == Key::Char('k') ==> {
                &&& final(self).scroll_spec() <= old(self).scroll_spec()
                &&& final(self).scroll_spec() == if old(self).scroll_spec() == 0 {
                    0
                } else {
                    old(self).scroll_spec() - 1
                }
                &&& final(self).focus_spec() == old(self).focus_spec()
            },
            key == Key::Down || key == Key::Char('j') ==> {
                &&& final(self).scroll_spec() >= old(self).scroll_spec()
                &&& final(self).scroll_spec() == if old(self).scroll_spec() + 8 < old(
                    self,
                ).count_spec() {
                    old(self).scroll_spec() + 1
                } else {
                    old(self).scroll_spec()
                }
                &&& final(self).focus_spec() == old(self).focus_spec()
            },
            key == Key::Tab || key == Key::Right || key == Key::Char('l') ==> {
                &&& final(self).focus_spec().index() == (old(self).focus_spec().index() + 1) % 4
                &&& final(self).scroll_spec() == old(self).scroll_spec()
            },
            key == Key::BackTab || key == Key::Left || key == Key::Char('h') ==> {
                &&& final(self).focus_spec().index() == (old(self).focus_spec().index() + 3) % 4
                &&& final(self).scroll_spec() == old(self).scroll_spec()
            },
            key == Key::Enter || key == Key::Other ==> {
                &&& keep_running
                &&& final(self).focus_spec() == old(self).focus_spec()
                &&& final(self).scroll_spec() == old(self).scroll_spec()
            },
    {
        proof {
            use_type_invariant(&*self);
        }
        match key {
            Key::Char('q') | Key::Esc => false,
            Key::Tab | Key::Right | Key::Char('l') => {
                self.focus_next();
                true
            },
            Key::BackTab | Key::Left | Key::Char('h') => {
                self.focus_prev();
                true
            },
            Key::Down | Key::Char('j') => {
                self.scroll_down();
                true
            },
            Key::Up | Key::Char('k') => {
                self.scroll_up();
                true
            },
            _ => true,
        }
    }
}

/// The quality-chart slice of a rating: Excellent 0, Good 1, Average 2,
/// Poor and VeryPoor 3, Failed 4.
pub open spec fn quality_bucket(q: ConnectionQuality) -> int {
    match q {
        ConnectionQuality::Excellent => 0,
        ConnectionQuality::Good => 1,
        ConnectionQuality::Average => 2,
        ConnectionQuality::Poor | ConnectionQuality::VeryPoor => 3,
        ConnectionQuality::Failed => 4,
    }
}

/// The ratings that fall into quality slice `b`.
pub open spec fn in_quality_bucket(b: int) -> spec_fn(ConnectionQuality) -> bool {
    |q: ConnectionQuality| quality_bucket(q) == b
}

/// The results rated exactly `q`.
pub open spec fn rated_as(q: ConnectionQuality) -> spec_fn(ConnectionQuality) -> bool {
    |r: ConnectionQuality| r == q
}

/// The results rated Poor or VeryPoor.
pub open spec fn rated_poor() -> spec_fn(ConnectionQuality) -> bool {
    |r: ConnectionQuality| r == ConnectionQuality::Poor || r == ConnectionQuality::VeryPoor
}

/// Each slice of the quality chart counts exactly its own ratings: the
/// Excellent, Good, Average and Failed slices the results with that rating,
/// the Poor slice those rated Poor or VeryPoor.
pub proof fn lemma_quality_slices(results: Seq<ConnectionQuality>)
    ensures
        count_where(results, in_quality_bucket(0)) == count_where(
            results,
            rated_as(ConnectionQuality::Excellent),
        ),
        count_where(results, in_quality_bucket(1)) == count_where(
            results,
            rated_as(ConnectionQuality::Good),
        ),
        count_where(results, in_quality_bucket(2)) == count_where(
            results,
            rated_as(ConnectionQuality::Average),
        ),
        count_where(results, in_quality_bucket(3)) == count_where(results, rated_poor()),
        count_where(results, in_quality_bucket(4)) == count_where(
            results,
            rated_as(ConnectionQuality::Failed),
        ),
{
    assert(in_quality_bucket(0) =~= rated_as(ConnectionQuality::Excellent));
    assert(in_quality_bucket(1) =~= rated_as(ConnectionQuality::Good));
    assert(in_quality_bucket(2) =~= rated_as(ConnectionQuality::Average));
    assert(in_quality_bucket(3) =~= rated_poor());
    assert(in_quality_bucket(4) =~= rated_as(ConnectionQuality::Failed));
}

/// How many results fall into each slice of the quality chart.
#[derive(Debug, Clone, Copy, PartialEq, Eq, Structural)]
pub struct QualityCounts {
    pub excellent: u32,
    pub good: u32,
    pub average: u32,
    pub poor: u32,
    pub failed: u32,
}

impl QualityCounts {
    /// The count of slice `b` (0 to 4).
    pub open spec fn get(self, b: int) -> int {
        if b == 0 {
            self.excellent as int
        } else if b == 1 {
            self.good as int
        } else if b == 2 {
            self.average as int
        } else if b == 3 {
            self.poor as int
        } else {
            self.failed as int
        }
    }
}

/// Sorts the recent results' ratings into the quality chart's slices. With
/// no results, the chart shows one count for `aggregate`, the rating of the
/// averaged statistics.
pub fn quality_counts(results: &Vec<ConnectionQuality>, aggregate: ConnectionQuality) -> (c:
    QualityCounts)
    requires
        results.len() <= u32::MAX,
    ensures
        forall|b: int|
            0 <= b < 5 ==> #[trigger] c.get(b) == if results.len() > 0 {
                count_where(results@, in_quality_bucket(b)) as int
            } else if quality_bucket(aggregate) == b {
                1
            } else {
                0
            },
        results.len() > 0 ==> {
            &&& c.excellent == count_where(results@, rated_as(ConnectionQuality::Excellent))
            &&& c.good == count_where(results@, rated_as(ConnectionQuality::Good))
            &&& c.average == count_where(results@, rated_as(ConnectionQuality::Average))
            &&& c.poor == count_where(results@, rated_poor())
            &&& c.failed == count_where(results@, rated_as(ConnectionQuality::Failed))
        },
        results.len() == 0 ==> c == (match aggregate {
            ConnectionQuality::Excellent => QualityCounts {
                excellent: 1,
                good: 0,
                average: 0,
                poor: 0,
                failed: 0,
            },
            ConnectionQuality::Good => QualityCounts {
                excellent: 0,
                good: 1,
                average: 0,
                poor: 0,
                failed: 0,
            },
            ConnectionQuality::Average => QualityCounts {
                excellent: 0,
                good: 0,
                average: 1,
                poor: 0,
                failed: 0,
            },
            ConnectionQuality::Poor | ConnectionQuality::VeryPoor => QualityCounts {
                excellent: 0,
                good: 0,
                average: 0,
                poor: 1,
                failed: 0,
            },
            ConnectionQuality::Failed => QualityCounts {
                excellent: 0,
                good: 0,
                average: 0,
                poor: 0,
                failed: 1,
            },
        }),
{
    proof {
        lemma_quality_slices(results@);
    }
    let mut c = QualityCounts { excellent: 0, good: 0, average: 0, poor: 0, failed: 0 };
    if results.len() == 0 {
        match aggregate {
            ConnectionQuality::Excellent => c.excellent = 1,
            ConnectionQuality::Good => c.good = 1,
            ConnectionQuality::Average => c.average = 1,
            ConnectionQuality::Poor | ConnectionQuality::VeryPoor => c.poor = 1,
            ConnectionQuality::Failed => c.failed = 1,
        }
        return c;
    }
    let mut i: usize = 0;
    while i < results.len()
        invariant
            i <= results.len() <= u32::MAX,
            forall|b: int|
                0 <= b < 5 ==> #[trigger] c.get(b) == count_where(
                    results@.take(i as int),
                    in_quality_bucket(b),
                ),
            forall|b: int| 0 <= b < 5 ==> #[trigger] c.get(b) <= i,
        decreases results.len() - i,
    {
        proof {
            lemma_count_take_step(results@, in_quality_bucket(0), i as int);
            lemma_count_take_step(results@, in_quality_bucket(1), i as int);
            lemma_count_take_step(results@, in_quality_bucket(2), i as int);
            lemma_count_take_step(results@, in_quality_bucket(3), i as int);
            lemma_count_take_step(results@, in_quality_bucket(4), i as int);
            assert(c.get(0) <= i && c.get(1) <= i && c.get(2) <= i && c.get(3) <= i && c.get(4)
                <= i);
        }
        let ghost prev = c;
        match results[i] {
            ConnectionQuality::Excellent => c.excellent = c.excellent + 1,
            ConnectionQuality::Good => c.good = c.good + 1,
            ConnectionQuality::Average => c.average = c.average + 1,
            ConnectionQuality::Poor | ConnectionQuality::VeryPoor => c.poor = c.poor + 1,
            ConnectionQuality::Failed => c.failed = c.failed + 1,
        }
        assert forall|b: int| 0 <= b < 5 implies #[trigger] c.get(b) == count_where(
            results@.take(i + 1),
            in_quality_bucket(b),
        ) by {
            assert(prev.get(b) == count_where(results@.take(i as int), in_quality_bucket(b)));
            assert(c.get(b) == prev.get(b) + if quality_bucket(results@[i as int]) == b {
                1int
            } else {
                0int
            });
        }
        i = i + 1;
    }
    assert(results@.take(results.len() as int) =~= results@);
    assert(c.get(0) == count_where(results@, in_quality_bucket(0)));
    assert(c.get(1) == count_where(results@, in_quality_bucket(1)));
    assert(c.get(2) == count_where(results@, in_quality_bucket(2)));
    assert(c.get(3) == count_where(results@, in_quality_bucket(3)));
    assert(c.get(4) == count_where(results@, in_quality_bucket(4)));
    c
}

/// The ping-chart slice of a latency in whole milliseconds: below 20 is 0,
/// 20 to 49 is 1, 50 to 99 is 2, 100 and above is 3.
pub open spec fn ping_bucket(ms: u64) -> int {
    if ms <= 19 {
        0
    } else if ms <= 49 {
        1
    } else if ms <= 99 {
        2
    } else {
        3
    }
}

/// The latencies that fall into ping slice `b`.
pub open spec fn in_ping_bucket(b: int) -> spec_fn(u64) -> bool {
    |ms: u64| ping_bucket(ms) == b
}

/// The slice of a speed against three falling thresholds (f64 bit
/// patterns): at least `t1` is 0, else at least `t2` is 1, else at least
/// `t3` is 2, else 3.
pub open spec fn speed_bucket(v: u64, t1: u64, t2: u64, t3: u64) -> int {
    if ge(v, t1) {
        0
    } else if ge(v, t2) {
        1
    } else if ge(v, t3) {
        2
    } else {
        3
    }
}

/// The speeds that fall into speed slice `b`.
pub open spec fn in_speed_bucket(b: int, t1: u64, t2: u64, t3: u64) -> spec_fn(u64) -> bool {
    |v: u64| speed_bucket(v, t1, t2, t3) == b
}

/// Four slice counts.
pub open spec fn tuple_get(c: (u32, u32, u32, u32), b: int) -> int {
    if b == 0 {
        c.0 as int
    } else if b == 1 {
        c.1 as int
    } else if b == 2 {
        c.2 as int
    } else {
        c.3 as int
    }
}

/// Sorts the recent latencies (whole milliseconds) into the ping chart's
/// slices. With no results, the chart shows one count for the averaged
/// latency `aggregate_ms`.
pub fn ping_counts(pings: &Vec<u64>, aggregate_ms: u64) -> (c: (u32, u32, u32, u32))
    requires
        pings.len() <= u32::MAX,
    ensures
        forall|b: int|
            0 <= b < 4 ==> #[trigger] tuple_get(c, b) == if pings.len() > 0 {
                count_where(pings@, in_ping_bucket(b)) as int
            } else if ping_bucket(aggregate_ms) == b {
                1
            } else {
                0
            },
{
    let (mut great, mut good, mut fair, mut poor): (u32, u32, u32, u32) = (0, 0, 0, 0);
    if pings.len() == 0 {
        if aggregate_ms <= 19 {
            great = 1;
        } else if aggregate_ms <= 49 {
            good = 1;
        } else if aggregate_ms <= 99 {
            fair = 1;
        } else {
            poor = 1;
        }
        return (great, good, fair, poor);
    }
    let mut i: usize = 0;
    while i < pings.len()
        invariant
            i <= pings.len() <= u32::MAX,
            forall|b: int|
                0 <= b < 4 ==> #[trigger] tuple_get((great, good, fair, poor), b) == count_where(
                    pings@.take(i as int),
                    in_ping_bucket(b),
                ),
            forall|b: int| 0 <= b < 4 ==> #[trigger] tuple_get((great, good, fair, poor), b) <= i,
        decreases pings.len() - i,
    {
        proof {
            lemma_count_take_step(pings@, in_ping_bucket(0), i as int);
            lemma_count_take_step(pings@, in_ping_bucket(1), i as int);
            lemma_count_take_step(pings@, in_ping_bucket(2), i as int);
            lemma_count_take_step(pings@, in_ping_bucket(3), i as int);
            assert(great <= i && good <= i && fair <= i && poor <= i) by {
                assert(tuple_get((great, good, fair, poor), 0) <= i);
                assert(tuple_get((great, good, fair, poor), 1) <= i);
                assert(tuple_get((great, good, fair, poor), 2) <= i);
                assert(tuple_get((great, good, fair, poor), 3) <= i);
            }
        }
        let ms = pings[i];
        let ghost prev = (great, good, fair, poor);
        if ms <= 19 {
            great = great + 1;
        } else if ms <= 49 {
            good = good + 1;
        } else if ms <= 99 {
            fair = fair + 1;
        } else {
            poor = poor + 1;
        }
        assert forall|b: int| 0 <= b < 4 implies #[trigger] tuple_get(
            (great, good, fair, poor),
            b,
        ) == count_where(pings@.take(i + 1), in_ping_bucket(b)) by {
            assert(tuple_get(prev, b) == count_where(pings@.take(i as int), in_ping_bucket(b)));
            assert(tuple_get((great, good, fair, poor), b) == tuple_get(prev, b) + if ping_bucket(
                pings@[i as int],
            ) == b {
                1int
            } else {
                0int
            });
        }
        i = i + 1;
    }
    assert(pings@.take(pings.len() as int) =~= pings@);
    (great, good, fair, poor)
}

/// Count how many speeds (f64 bit patterns) fall into four tiers: at least
/// `t1` (ultra), at least `t2` (fast), at least `t3` (moderate), and below
/// (slow).
pub fn bucket_speeds(values: &Vec<u64>, t1: u64, t2: u64, t3: u64) -> (c: (u32, u32, u32, u32))
    requires
        values.len() <= u32::MAX,
    ensures
        forall|b: int|
            0 <= b < 4 ==> #[trigger] tuple_get(c, b) == count_where(
                values@,
                in_speed_bucket(b, t1, t2, t3),
            ) as int,
{
    let (mut ultra, mut fast, mut moderate, mut slow): (u32, u32, u32, u32) = (0, 0, 0, 0);
    let mut i: usize = 0;
    while i < values.len()
        invariant
            i <= values.len() <= u32::MAX,
            forall|b: int|
                0 <= b < 4 ==> #[trigger] tuple_get((ultra, fast, moderate, slow), b)
                    == count_where(values@.take(i as int), in_speed_bucket(b, t1, t2, t3)),
            forall|b: int|
                0 <= b < 4 ==> #[trigger] tuple_get((ultra, fast, moderate, slow), b) <= i,
        decreases values.len() - i,
    {
        proof {
            lemma_count_take_step(values@, in_speed_bucket(0, t1, t2, t3), i as int);
            lemma_count_take_step(values@, in_speed_bucket(1, t1, t2, t3), i as int);
            lemma_count_take_step(values@, in_speed_bucket(2, t1, t2, t3), i as int);
            lemma_count_take_step(values@, in_speed_bucket(3, t1, t2, t3), i as int);
            assert(ultra <= i && fast <= i && moderate <= i && slow <= i) by {
                assert(tuple_get((ultra, fast, moderate, slow), 0) <= i);
                assert(tuple_get((ultra, fast, moderate, slow), 1) <= i);
                assert(tuple_get((ultra, fast, moderate, slow), 2) <= i);
                assert(tuple_get((ultra, fast, moderate, slow), 3) <= i);
            }
        }
        let v = values[i];
        let ghost prev = (ultra, fast, moderate, slow);
        if float_ge(v, t1) {
            ultra = ultra + 1;
        } else if float_ge(v, t2) {
            fast = fast + 1;
        } else if float_ge(v, t3) {
            moderate = moderate + 1;
        } else {
            slow = slow + 1;
        }
        assert forall|b: int| 0 <= b < 4 implies #[trigger] tuple_get(
            (ultra, fast, moderate, slow),
            b,
        ) == count_where(values@.take(i + 1), in_speed_bucket(b, t1, t2, t3)) by {
            assert(tuple_get(prev, b) == count_where(
                values@.take(i as int),
                in_speed_bucket(b, t1, t2, t3),
            ));
            assert(tuple_get((ultra, fast, moderate, slow), b) == tuple_get(prev, b) + if speed_bucket(
                values@[i as int],
                t1,
                t2,
                t3,
            ) == b {
                1int
            } else {
                0int
            });
        }
        i = i + 1;
    }
    assert(values@.take(values.len() as int) =~= values@);
    (ultra, fast, moderate, slow)
}

/// The download chart's tiers: 100 Mbps and up, 50, 25, below.
pub fn download_buckets(values: &Vec<u64>) -> (c: (u32, u32, u32, u32))
    requires
        values.len() <= u32::MAX,
    ensures
        forall|b: int|
            0 <= b < 4 ==> #[trigger] tuple_get(c, b) == count_where(
                values@,
                in_speed_bucket(b, F64_100, F64_50, F64_25),
            ) as int,
{
    bucket_speeds(values, F64_100, F64_50, F64_25)
}

/// The upload chart's tiers: 20 Mbps and up, 10, 5, below.
pub fn upload_buckets(values: &Vec<u64>) -> (c: (u32, u32, u32, u32))
    requires
        values.len() <= u32::MAX,
    ensures
        forall|b: int|
            0 <= b < 4 ==> #[trigger] tuple_get(c, b) == count_where(
                values@,
                in_speed_bucket(b, F64_20, F64_10, F64_5),
            ) as int,
{
    bucket_speeds(values, F64_20, F64_10, F64_5)
}

/// Every result lands in exactly one slice of the quality chart.
pub proof fn lemma_quality_counts_cover(results: Seq<ConnectionQuality>)
    ensures
        count_where(results, in_quality_bucket(0)) + count_where(results, in_quality_bucket(1))
            + count_where(results, in_quality_bucket(2)) + count_where(
            results,
            in_quality_bucket(3),
        ) + count_where(results, in_quality_bucket(4)) == results.len(),
    decreases results.len(),
{
    if results.len() > 0 {
        lemma_quality_counts_cover(results.drop_last());
    }
}

/// Every latency lands in exactly one slice of the ping chart.
pub proof fn lemma_ping_counts_cover(pings: Seq<u64>)
    ensures
        count_where(pings, in_ping_bucket(0)) + count_where(pings, in_ping_bucket(1))
            + count_where(pings, in_ping_bucket(2)) + count_where(pings, in_ping_bucket(3))
            == pings.len(),
    decreases pings.len(),
{
    if pings.len() > 0 {
        lemma_ping_counts_cover(pings.drop_last());
    }
}

/// Every speed lands in exactly one tier, NaN included (in the slow tier).
pub proof fn lemma_speed_buckets_cover(values: Seq<u64>, t1: u64, t2: u64, t3: u64)
    ensures
        count_where(values, in_speed_bucket(0, t1, t2, t3)) + count_where(
            values,
            in_speed_bucket(1, t1, t2, t3),
        ) + count_where(values, in_speed_bucket(2, t1, t2, t3)) + count_where(
            values,
            in_speed_bucket(3, t1, t2, t3),
        ) == values.len(),
    decreases values.len(),
{
    if values.len() > 0 {
        lemma_speed_buckets_cover(values.drop_last(), t1, t2, t3);
    }
}

/// Latencies (whole milliseconds) from `lo` up to but not including `hi`.
pub open spec fn latency_between(lo: u64, hi: u64) -> spec_fn(u64) -> bool {
    |ms: u64| lo <= ms && ms < hi
}

/// Latencies of at least `lo` milliseconds.
pub open spec fn latency_from(lo: u64) -> spec_fn(u64) -> bool {
    |ms: u64| lo <= ms
}

/// Each slice of the ping chart counts the latencies of its band: under
/// 20 ms, 20 to 49, 50 to 99, and 100 ms or more.
pub proof fn lemma_ping_slices(pings: Seq<u64>)
    ensures
        count_where(pings, in_ping_bucket(0)) == count_where(pings, latency_between(0, 20)),
        count_where(pings, in_ping_bucket(1)) == count_where(pings, latency_between(20, 50)),
        count_where(pings, in_ping_bucket(2)) == count_where(pings, latency_between(50, 100)),
        count_where(pings, in_ping_bucket(3)) == count_where(pings, latency_from(100)),
{
    assert(in_ping_bucket(0) =~= latency_between(0, 20));
    assert(in_ping_bucket(1) =~= latency_between(20, 50));
    assert(in_ping_bucket(2) =~= latency_between(50, 100));
    assert(in_ping_bucket(3) =~= latency_from(100));
}

/// Speeds (f64 bit patterns) of at least `t`.
pub open spec fn speed_at_least(t: u64) -> spec_fn(u64) -> bool {
    |v: u64| ge(v, t)
}

/// Speeds below `hi` (or NaN) but at least `lo`.
pub open spec fn speed_below_at_least(hi: u64, lo: u64) -> spec_fn(u64) -> bool {
    |v: u64| !ge(v, hi) && ge(v, lo)
}

/// Each speed tier counts the speeds of its band: the first those of at
/// least `t1`, the second those below `t1` and at least `t2`, the third
/// those below both and at least `t3`, the last all the others (NaN too).
pub proof fn lemma_speed_slices(values: Seq<u64>, t1: u64, t2: u64, t3: u64)
    ensures
        count_where(values, in_speed_bucket(0, t1, t2, t3)) == count_where(
            values,
            speed_at_least(t1),
        ),
        count_where(values, in_speed_bucket(1, t1, t2, t3)) == count_where(
            values,
            speed_below_at_least(t1, t2),
        ),
        count_where(values, in_speed_bucket(2, t1, t2, t3)) == count_where(
            values,
            |v: u64| !ge(v, t1) && !ge(v, t2) && ge(v, t3),
        ),
        count_where(values, in_speed_bucket(3, t1, t2, t3)) == count_where(
            values,
            |v: u64| !ge(v, t1) && !ge(v, t2) && !ge(v, t3),
        ),
{
    assert(in_speed_bucket(0, t1, t2, t3) =~= speed_at_least(t1));
    assert(in_speed_bucket(1, t1, t2, t3) =~= speed_below_at_least(t1, t2));
    assert(in_speed_bucket(2, t1, t2, t3) =~= (|v: u64| !ge(v, t1) && !ge(v, t2) && ge(v, t3)));
    assert(in_speed_bucket(3, t1, t2, t3) =~= (|v: u64| !ge(v, t1) && !ge(v, t2) && !ge(v, t3)));
}

/// The focus cycles Download, Upload, Ping, Quality and back, every step
/// moving to another chart; stepping back walks the cycle the other way.
pub proof fn lemma_focus_order()
    ensures
        Focus::Download.following() == Focus::Upload,
        Focus::Upload.following() == Focus::Ping,
        Focus::Ping.following() == Focus::Quality,
        Focus::Quality.following() == Focus::Download,
        Focus::Download.preceding() == Focus::Quality,
        Focus::Upload.preceding() == Focus::Download,
        Focus::Ping.preceding() == Focus::Upload,
        Focus::Quality.preceding() == Focus::Ping,
{
}

/// The colours of the dashboard palette.
#[derive(Debug, Clone, Copy, PartialEq, Eq, Structural)]
pub enum ChartColor {
    /// RGB (0, 255, 255)
    Cyan,
    /// RGB (255, 0, 255)
    Magenta,
    /// RGB (0, 255, 128)
    Green,
    /// RGB (255, 220, 0)
    Yellow,
    /// RGB (255, 140, 0)
    Orange,
    /// RGB (255, 60, 60)
    Red,
    /// RGB (60, 140, 255)
    Blue,
    /// RGB (80, 80, 100)
    Dim,
    /// The terminal's own dark grey.
    DarkGray,
}

impl ChartColor {
    /// The red, green and blue parts of the colour; `None` for the
    /// terminal's named dark grey.
    pub fn rgb(self) -> (c: Option<(u8, u8, u8)>)
        ensures
            c == chart_rgb(self),
    {
        match self {
            ChartColor::Cyan => Some((0, 255, 255)),
            ChartColor::Magenta => Some((255, 0, 255)),
            ChartColor::Green => Some((0, 255, 128)),
            ChartColor::Yellow => Some((255, 220, 0)),
            ChartColor::Orange => Some((255, 140, 0)),
            ChartColor::Red => Some((255, 60, 60)),
            ChartColor::Blue => Some((60, 140, 255)),
            ChartColor::Dim => Some((80, 80, 100)),
            ChartColor::DarkGray => None,
        }
    }
}

/// The red, green and blue parts of each palette colour; `None` for the
/// terminal's named dark grey.
pub open spec fn chart_rgb(c: ChartColor) -> Option<(u8, u8, u8)> {
    match c {
        ChartColor::Cyan => Some((0, 255, 255)),
        ChartColor::Magenta => Some((255, 0, 255)),
        ChartColor::Green => Some((0, 255, 128)),
        ChartColor::Yellow => Some((255, 220, 0)),
        ChartColor::Orange => Some((255, 140, 0)),
        ChartColor::Red => Some((255, 60, 60)),
        ChartColor::Blue => Some((60, 140, 255)),
        ChartColor::Dim => Some((80, 80, 100)),
        ChartColor::DarkGray => None,
    }
}

/// Pick a colour that reflects connection quality.
pub fn quality_color(quality: ConnectionQuality) -> (c: ChartColor)
    ensures
        c == quality_palette(quality),
{
    match quality {
        ConnectionQuality::Excellent => ChartColor::Green,
        ConnectionQuality::Good => ChartColor::Cyan,
        ConnectionQuality::Average => ChartColor::Yellow,
        ConnectionQuality::Poor => ChartColor::Orange,
        ConnectionQuality::VeryPoor => ChartColor::Red,
        ConnectionQuality::Failed => ChartColor::DarkGray,
    }
}

/// Green, cyan, yellow, orange, red and dark grey from Excellent to Failed.
pub open spec fn quality_palette(quality: ConnectionQuality) -> ChartColor {
    match quality {
        ConnectionQuality::Excellent => ChartColor::Green,
        ConnectionQuality::Good => ChartColor::Cyan,
        ConnectionQuality::Average => ChartColor::Yellow,
        ConnectionQuality::Poor => ChartColor::Orange,
        ConnectionQuality::VeryPoor => ChartColor::Red,
        ConnectionQuality::Failed => ChartColor::DarkGray,
    }
}

/// The labelled slices that the pie charts can show.
#[derive(Debug, Clone, Copy, PartialEq, Eq, Structural)]
pub enum SliceLabel {
    Ultra,
    Fast,
    Moderate,
    Slow,
    PingUnder20,
    Ping20To50,
    Ping50To100,
    PingOver100,
    Excellent,
    Good,
    Average,
    Poor,
    Failed,
    NoData,
}

impl SliceLabel {
    /// The legend text of the slice.
    pub fn text(self) -> (s: &'static str)
        ensures
            s@ == slice_text(self),
    {
        match self {
            SliceLabel::Ultra => "Ultra",
            SliceLabel::Fast => "Fast",
            SliceLabel::Moderate => "Moderate",
            SliceLabel::Slow => "Slow",
            SliceLabel::PingUnder20 => "< 20 ms",
            SliceLabel::Ping20To50 => "20–50 ms",
            SliceLabel::Ping50To100 => "50–100 ms",
            SliceLabel::PingOver100 => "> 100 ms",
            SliceLabel::Excellent => "Excellent",
            SliceLabel::Good => "Good",
            SliceLabel::Average => "Average",
            SliceLabel::Poor => "Poor",
            SliceLabel::Failed => "Failed",
            SliceLabel::NoData => "No data",
        }
    }

    /// The colour of the slice.
    pub fn color(self) -> (c: ChartColor)
        ensures
            c == slice_palette(self),
    {
        match self {
            SliceLabel::Ultra | SliceLabel::PingUnder20 | SliceLabel::Excellent => ChartColor::Green,
            SliceLabel::Fast | SliceLabel::Ping20To50 | SliceLabel::Good => ChartColor::Cyan,
            SliceLabel::Moderate | SliceLabel::Ping50To100 | SliceLabel::Average => ChartColor::Yellow,
            SliceLabel::Slow | SliceLabel::PingOver100 => ChartColor::Red,
            SliceLabel::Poor => ChartColor::Orange,
            SliceLabel::Failed => ChartColor::Red,
            SliceLabel::NoData => ChartColor::Dim,
        }
    }
}

/// The legend text of each slice.
pub open spec fn slice_text(l: SliceLabel) -> Seq<char> {
    match l {
        SliceLabel::Ultra => "Ultra"@,
        SliceLabel::Fast => "Fast"@,
        SliceLabel::Moderate => "Moderate"@,
        SliceLabel::Slow => "Slow"@,
        SliceLabel::PingUnder20 => "< 20 ms"@,
        SliceLabel::Ping20To50 => "20–50 ms"@,
        SliceLabel::Ping50To100 => "50–100 ms"@,
        SliceLabel::PingOver100 => "> 100 ms"@,
        SliceLabel::Excellent => "Excellent"@,
        SliceLabel::Good => "Good"@,
        SliceLabel::Average => "Average"@,
        SliceLabel::Poor => "Poor"@,
        SliceLabel::Failed => "Failed"@,
        SliceLabel::NoData => "No data"@,
    }
}

/// The colour of each slice: green for the best tier, cyan, yellow, then
/// red for the worst; the quality chart's Poor is orange; "No data" is dim.
pub open spec fn slice_palette(l: SliceLabel) -> ChartColor {
    match l {
        SliceLabel::Ultra | SliceLabel::PingUnder20 | SliceLabel::Excellent => ChartColor::Green,
        SliceLabel::Fast | SliceLabel::Ping20To50 | SliceLabel::Good => ChartColor::Cyan,
        SliceLabel::Moderate | SliceLabel::Ping50To100 | SliceLabel::Average => ChartColor::Yellow,
        SliceLabel::Slow | SliceLabel::PingOver100 => ChartColor::Red,
        SliceLabel::Poor => ChartColor::Orange,
        SliceLabel::Failed => ChartColor::Red,
        SliceLabel::NoData => ChartColor::Dim,
    }
}

/// A slice of a pie chart: its label and its count.
#[derive(Debug, Clone, Copy, PartialEq, Eq, Structural)]
pub struct ChartSlice {
    pub label: SliceLabel,
    pub value: u32,
}

/// The candidates with a count above zero, in order.
pub open spec fn nonzero_slices(s: Seq<ChartSlice>) -> Seq<ChartSlice>
    decreases s.len(),
{
    if s.len() == 0 {
        Seq::empty()
    } else if s.last().value > 0 {
        nonzero_slices(s.drop_last()).push(s.last())
    } else {
        nonzero_slices(s.drop_last())
    }
}

/// The slices a chart shows: those with a count, or a single "No data"
/// slice of one when none has.
pub open spec fn shown_slices(s: Seq<ChartSlice>) -> Seq<ChartSlice> {
    if nonzero_slices(s).len() > 0 {
        nonzero_slices(s)
    } else {
        seq![ChartSlice { label: SliceLabel::NoData, value: 1 }]
    }
}

/// Drops the slices with a zero count; falls back to a single "No data"
/// slice when nothing is left.
pub fn build_slices(candidates: &Vec<ChartSlice>) -> (r: Vec<ChartSlice>)
    ensures
        r@ == shown_slices(candidates@),
{
    let mut kept: Vec<ChartSlice> = Vec::new();
    let mut i: usize = 0;
    while i < candidates.len()
        invariant
            i <= candidates.len(),
            kept@ == nonzero_slices(candidates@.take(i as int)),
        decreases candidates.len() - i,
    {
        assert(candidates@.take(i + 1).drop_last() =~= candidates@.take(i as int));
        if candidates[i].value > 0 {
            kept.push(candidates[i]);
        }
        i = i + 1;
    }
    assert(candidates@.take(candidates.len() as int) =~= candidates@);
    if kept.len() == 0 {
        vec![ChartSlice { label: SliceLabel::NoData, value: 1 }]
    } else {
        kept
    }
}

/// Turn four speed-tier counts into labelled slices.
pub fn build_speed_slices(ultra: u32, fast: u32, moderate: u32, slow: u32) -> (r: Vec<ChartSlice>)
    ensures
        r@ == shown_slices(
            seq![
                ChartSlice { label: SliceLabel::Ultra, value: ultra },
                ChartSlice { label: SliceLabel::Fast, value: fast },
                ChartSlice { label: SliceLabel::Moderate, value: moderate },
                ChartSlice { label: SliceLabel::Slow, value: slow },
            ],
        ),
{
    let c = vec![
        ChartSlice { label: SliceLabel::Ultra, value: ultra },
        ChartSlice { label: SliceLabel::Fast, value: fast },
        ChartSlice { label: SliceLabel::Moderate, value: moderate },
        ChartSlice { label: SliceLabel::Slow, value: slow },
    ];
    build_slices(&c)
}

/// Turn four ping-tier counts into labelled slices.
pub fn build_ping_slices(c: (u32, u32, u32, u32)) -> (r: Vec<ChartSlice>)
    ensures
        r@ == shown_slices(
            seq![
                ChartSlice { label: SliceLabel::PingUnder20, value: c.0 },
                ChartSlice { label: SliceLabel::Ping20To50, value: c.1 },
                ChartSlice { label: SliceLabel::Ping50To100, value: c.2 },
                ChartSlice { label: SliceLabel::PingOver100, value: c.3 },
            ],
        ),
{
    let v = vec![
        ChartSlice { label: SliceLabel::PingUnder20, value: c.0 },
        ChartSlice { label: SliceLabel::Ping20To50, value: c.1 },
        ChartSlice { label: SliceLabel::Ping50To100, value: c.2 },
        ChartSlice { label: SliceLabel::PingOver100, value: c.3 },
    ];
    build_slices(&v)
}

/// Turn the quality counts into labelled slices.
pub fn build_quality_slices(c: QualityCounts) -> (r: Vec<ChartSlice>)
    ensures
        r@ == shown_slices(
            seq![
                ChartSlice { label: SliceLabel::Excellent, value: c.excellent },
                ChartSlice { label: SliceLabel::Good, value: c.good },
                ChartSlice { label: SliceLabel::Average, value: c.average },
                ChartSlice { label: SliceLabel::Poor, value: c.poor },
                ChartSlice { label: SliceLabel::Failed, value: c.failed },
            ],
        ),
{
    let v = vec![
        ChartSlice { label: SliceLabel::Excellent, value: c.excellent },
        ChartSlice { label: SliceLabel::Good, value: c.good },
        ChartSlice { label: SliceLabel::Average, value: c.average },
        ChartSlice { label: SliceLabel::Poor, value: c.poor },
        ChartSlice { label: SliceLabel::Failed, value: c.failed },
    ];
    build_slices(&v)
}

/// The slices with a count above zero.
pub open spec fn has_count() -> spec_fn(ChartSlice) -> bool {
    |c: ChartSlice| c.value > 0
}

/// A chart shows its candidate slices that have a count, in their order,
/// dropping exactly those with none; only when every count is zero does it
/// show the single "No data" slice instead.
pub proof fn lemma_shown_slices_filter(s: Seq<ChartSlice>)
    ensures
        nonzero_slices(s) == s.filter(has_count()),
        (exists|i: int| 0 <= i < s.len() && #[trigger] s[i].value > 0) ==> shown_slices(s)
            == s.filter(has_count()),
        (forall|i: int| 0 <= i < s.len() ==> #[trigger] s[i].value == 0) ==> shown_slices(s)
            == seq![ChartSlice { label: SliceLabel::NoData, value: 1 }],
    decreases s.len(),
{
    reveal(Seq::filter);
    if s.len() > 0 {
        lemma_shown_slices_filter(s.drop_last());
        assert(s.drop_last().len() < s.len());
    }
    if exists|i: int| 0 <= i < s.len() && #[trigger] s[i].value > 0 {
        let i = choose|i: int| 0 <= i < s.len() && #[trigger] s[i].value > 0;
        s.lemma_filter_contains(has_count(), i);
    }
    if forall|i: int| 0 <= i < s.len() ==> #[trigger] s[i].value == 0 {
        if s.filter(has_count()).len() > 0 {
            s.lemma_filter_pred(has_count(), 0);
            let x = s.filter(has_count())[0];
            assert(s.filter(has_count()).contains(x));
            s.lemma_filter_contains_rev(has_count(), x);
            let j = choose|j: int| 0 <= j < s.len() && s[j] == x;
            assert(s[j].value == 0);
        }
    }
}

/// A chart never shows a slice without a count, and never shows nothing.
pub proof fn lemma_shown_slices_nonempty_positive(s: Seq<ChartSlice>)
    ensures
        shown_slices(s).len() >= 1,
        forall|i: int| 0 <= i < shown_slices(s).len() ==> #[trigger] shown_slices(s)[i].value > 0,
{
    lemma_nonzero_slices_positive(s);
}

proof fn lemma_nonzero_slices_positive(s: Seq<ChartSlice>)
    ensures
        forall|i: int| 0 <= i < nonzero_slices(s).len() ==> #[trigger] nonzero_slices(s)[i].value > 0,
    decreases s.len(),
{
    if s.len() > 0 {
        lemma_nonzero_slices_positive(s.drop_last());
    }
}

/// The noun after the number of tests in the summary: "test" for one,
/// "tests" otherwise.
pub fn test_noun(count: usize) -> (s: &'static str)
    ensures
        s@ == (if count == 1 {
            "test"@
        } else {
            "tests"@
        }),
{
    if count == 1 {
        "test"
    } else {
        "tests"
    }
}

/// The focus and scroll offset after one key that does not quit, for a
/// table of `n` results.
pub open spec fn key_step(f: Focus, s: nat, n: nat, k: Key) -> (Focus, nat) {
    (
        if is_next_key(k) {
            f.following()
        } else if is_prev_key(k) {
            f.preceding()
        } else {
            f
        },
        if is_down_key(k) {
            scrolled_down(s, n)
        } else if is_up_key(k) {
            scrolled_up(s)
        } else {
            s
        },
    )
}

/// The focus and scroll offset after a sequence of keys acts in order,
/// and the position of the key that quit: the first `q` or Esc ends the
/// dashboard and the keys after it are ignored.
pub open spec fn after_keys(f: Focus, s: nat, n: nat, keys: Seq<Key>) -> (Focus, nat, Option<nat>)
    decreases keys.len(),
{
    if keys.len() == 0 {
        (f, s, None)
    } else if is_quit_key(keys[0]) {
        (f, s, Some(0nat))
    } else {
        let next = key_step(f, s, n, keys[0]);
        shifted(after_keys(next.0, next.1, n, keys.drop_first()), 1)
    }
}

/// A result of `after_keys` for keys that come after `by` others.
pub open spec fn shifted(r: (Focus, nat, Option<nat>), by: nat) -> (Focus, nat, Option<nat>) {
    (
        r.0,
        r.1,
        match r.2 {
            Some(q) => Some(q + by),
            None => None,
        },
    )
}

/// Once a quit key has come, further keys change nothing: the dashboard
/// ends at the first `q` or Esc.
pub proof fn lemma_keys_after_quit_ignored(
    f: Focus,
    s: nat,
    n: nat,
    keys: Seq<Key>,
    more: Seq<Key>,
)
    requires
        after_keys(f, s, n, keys).2 is Some,
    ensures
        after_keys(f, s, n, keys + more) == after_keys(f, s, n, keys),
    decreases keys.len(),
{
    if keys.len() > 0 {
        assert((keys + more)[0] == keys[0]);
        if !is_quit_key(keys[0]) {
            let next = key_step(f, s, n, keys[0]);
            assert((keys + more).drop_first() =~= keys.drop_first() + more);
            lemma_keys_after_quit_ignored(next.0, next.1, n, keys.drop_first(), more);
        }
    }
}

/// The dashboard ends at the first `q` or Esc among the keys it reads, and
/// keeps going only when there is none.
pub proof fn lemma_quit_at_first_quit(f: Focus, s: nat, n: nat, keys: Seq<Key>)
    ensures
        after_keys(f, s, n, keys).2 is None <==> (forall|j: int|
            0 <= j < keys.len() ==> !is_quit_key(#[trigger] keys[j])),
        after_keys(f, s, n, keys).2 matches Some(i) ==> {
            &&& i < keys.len()
            &&& is_quit_key(keys[i as int])
            &&& forall|j: int| 0 <= j < i ==> !is_quit_key(#[trigger] keys[j])
        },
    decreases keys.len(),
{
    if keys.len() > 0 {
        if is_quit_key(keys[0]) {
            assert(!(forall|j: int| 0 <= j < keys.len() ==> !is_quit_key(#[trigger] keys[j])));
        } else {
            let next = key_step(f, s, n, keys[0]);
            let rest = keys.drop_first();
            lemma_quit_at_first_quit(next.0, next.1, n, rest);
            assert forall|j: int| 0 <= j < rest.len() implies rest[j] == keys[j + 1] by {}
            if (forall|j: int| 0 <= j < rest.len() ==> !is_quit_key(#[trigger] rest[j])) {
                assert forall|j: int| 0 <= j < keys.len() implies !is_quit_key(#[trigger] keys[j]) by {
                    if j > 0 {
                        assert(keys[j] == rest[j - 1]);
                    }
                }
            } else {
                let j = choose|j: int| 0 <= j < rest.len() && is_quit_key(#[trigger] rest[j]);
                assert(is_quit_key(keys[j + 1]));
            }
            if after_keys(next.0, next.1, n, rest).2 is Some {
                let i = after_keys(next.0, next.1, n, rest).2->0;
                assert forall|j: int| 0 <= j < i + 1 implies !is_quit_key(#[trigger] keys[j]) by {
                    if j > 0 {
                        assert(keys[j] == rest[j - 1]);
                    }
                }
                assert(keys[i as int + 1] == rest[i as int]);
            }
        }
    }
}

/// What each dashboard key does, for any chart focus `f`, scroll offset `s`
/// and table of `n` results: Up and `k` move one row up (staying at 0),
/// Down and `j` one row down (while a later row is hidden), Tab, Right and
/// `l` focus the next chart, BackTab, Left and `h` the previous one, `q`
/// and Esc quit, and a step down then up comes back to the same row.
pub proof fn lemma_dashboard_key_effects(f: Focus, s: nat, n: nat)
    ensures
        key_step(f, s, n, Key::Up) == (f, if s == 0 { 0 } else { (s - 1) as nat }),
        key_step(f, s, n, Key::Char('k')) == key_step(f, s, n, Key::Up),
        key_step(f, s, n, Key::Up).1 <= s,
        key_step(f, s, n, Key::Down) == (f, if s + 8 < n { s + 1 } else { s }),
        key_step(f, s, n, Key::Char('j')) == key_step(f, s, n, Key::Down),
        key_step(f, s, n, Key::Down).1 >= s,
        key_step(f, s, n, Key::Tab).0.index() == (f.index() + 1) % 4,
        key_step(f, s, n, Key::Right) == key_step(f, s, n, Key::Tab),
        key_step(f, s, n, Key::Char('l')) == key_step(f, s, n, Key::Tab),
        key_step(f, s, n, Key::Tab).1 == s,
        key_step(f, s, n, Key::BackTab).0.index() == (f.index() + 3) % 4,
        key_step(f, s, n, Key::Left) == key_step(f, s, n, Key::BackTab),
        key_step(f, s, n, Key::Char('h')) == key_step(f, s, n, Key::BackTab),
        key_step(f, s, n, Key::BackTab).1 == s,
        key_step(f, s, n, Key::Enter) == (f, s),
        key_step(f, s, n, Key::Other) == (f, s),
        after_keys(f, s, n, seq![Key::Char('q')]) == (f, s, Some(0nat)),
        after_keys(f, s, n, seq![Key::Esc]) == (f, s, Some(0nat)),
        after_keys(f, s, n, seq![Key::Up]).2 is None,
        after_keys(f, s, n, seq![Key::Down]).2 is None,
        s + 8 < n ==> key_step(f, s + 1, n, Key::Up).1 == s,
        s > 0 ==> key_step(f, (s - 1) as nat, n, Key::Down).1 == s || (s - 1) + 8 >= n,
{
    reveal_with_fuel(after_keys, 2);
    assert(seq![Key::Up].drop_first() =~= Seq::<Key>::empty());
    assert(seq![Key::Down].drop_first() =~= Seq::<Key>::empty());
}

/// Keys handled in two batches act as the whole sequence handled at once:
/// when the first batch does not quit, the second starts from the state the
/// first left. So a loop that reacts to one key at a time follows
/// `after_keys` over all the keys it read.
pub proof fn lemma_after_keys_concat(f: Focus, s: nat, n: nat, a: Seq<Key>, b: Seq<Key>)
    requires
        after_keys(f, s, n, a).2 is None,
    ensures
        after_keys(f, s, n, a + b) == shifted(
            after_keys(after_keys(f, s, n, a).0, after_keys(f, s, n, a).1, n, b),
            a.len(),
        ),
    decreases a.len(),
{
    if a.len() == 0 {
        assert(a + b =~= b);
    } else {
        assert((a + b)[0] == a[0]);
        let next = key_step(f, s, n, a[0]);
        assert((a + b).drop_first() =~= a.drop_first() + b);
        lemma_after_keys_concat(next.0, next.1, n, a.drop_first(), b);
    }
}

/// The scroll offset stays on the last full page whatever keys come, when
/// it starts there.
pub proof fn lemma_keys_keep_scroll_in_range(f: Focus, s: nat, n: nat, keys: Seq<Key>)
    requires
        s <= max_scroll(n),
    ensures
        after_keys(f, s, n, keys).1 <= max_scroll(n),
    decreases keys.len(),
{
    if keys.len() > 0 && !is_quit_key(keys[0]) {
        let next = key_step(f, s, n, keys[0]);
        lemma_keys_keep_scroll_in_range(next.0, next.1, n, keys.drop_first());
    }
}

/// `q` and Esc leave the dashboard.
pub open spec fn is_quit_key(k: Key) -> bool {
    k == Key::Char('q') || k == Key::Esc
}

/// Tab, Right and `l` focus the next chart.
pub open spec fn is_next_key(k: Key) -> bool {
    k == Key::Tab || k == Key::Right || k == Key::Char('l')
}

/// BackTab, Left and `h` focus the previous chart.
pub open spec fn is_prev_key(k: Key) -> bool {
    k == Key::BackTab || k == Key::Left || k == Key::Char('h')
}

/// Down and `j` scroll the table down.
pub open spec fn is_down_key(k: Key) -> bool {
    k == Key::Down || k == Key::Char('j')
}

/// Up and `k` scroll the table up.
pub open spec fn is_up_key(k: Key) -> bool {
    k == Key::Up || k == Key::Char('k')
}

} // verus!
