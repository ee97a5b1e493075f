//! History storage: how records are keyed, which records the retention
//! rule retires, which record holds a best value, and how trends read.
//!
//! The records live in an embedded database on disk and carry floating-point
//! measurements; reading and writing them is the application's part. This
//! module decides on plain values: timestamps in nanoseconds since the epoch,
//! and measurements as f64 bit patterns.

use vstd::prelude::*;
use crate::float_bits::{float_gt, float_lt, ge, gt, is_nan, lt};
use crate::modules::types::{ConnectionQuality, F64_0};
use crate::tally::{
    keyed, lemma_picked_positions_filter, lemma_positions_where_exact, lemma_positions_where_step,
    picked, positions_where,
};
use crate::text::{seq_contains, str_contains};

verus! {

/// Records older than this many days are removed.
pub const RETENTION_DAYS: i64 = 30;

/// Size and content figures of the history database
#[derive(Debug, Clone)]
pub struct DbStats {
    pub size_on_disk: u64,
    pub results_count: usize,
    pub db_path: String,
}

/// Get the retention period in days
pub fn get_retention_days() -> (d: i64)
    ensures
        d == RETENTION_DAYS,
{
    RETENTION_DAYS
}

/// 256 to the `k`th.
pub open spec fn pow256(k: nat) -> nat
    decreases k,
{
    if k == 0 { 1 } else { 256 * pow256((k - 1) as nat) }
}

/// The `k` lowest base-256 digits of `u`, most significant first.
pub open spec fn be_digits(u: nat, k: nat) -> Seq<u8>
    decreases k,
{
    if k == 0 {
        Seq::empty()
    } else {
        be_digits(u / 256, (k - 1) as nat).push((u % 256) as u8)
    }
}

/// The two's-complement reading of a 64-bit signed integer as unsigned.
pub open spec fn twos_complement(n: i64) -> nat {
    if n >= 0 { n as nat } else { (n + 0x1_0000_0000_0000_0000) as nat }
}

/// The database key of a record: the big-endian bytes of its timestamp in
/// nanoseconds since the epoch.
pub open spec fn key_bytes(nanos: i64) -> Seq<u8> {
    be_digits(twos_complement(nanos), 8)
}

/// The timestamp a key is made from: the nanoseconds, or 0 when the
/// timestamp lies outside what 64-bit nanoseconds can hold.
pub open spec fn key_nanos(timestamp_nanos: Option<i64>) -> i64 {
    match timestamp_nanos {
        Some(n) => n,
        None => 0,
    }
}

fn digits(u: u64, k: usize) -> (v: Vec<u8>)
    requires
        k <= 8,
    ensures
        v@ == be_digits(u as nat, k as nat),
    decreases k,
{
    if k == 0 {
        Vec::new()
    } else {
        let mut v = digits(u / 256, k - 1);
        v.push((u % 256) as u8);
        v
    }
}

/// The key under which a record with this timestamp is stored and looked
/// up (`None` stands for a timestamp outside the nanosecond range).
pub fn record_key(timestamp_nanos: Option<i64>) -> (k: Vec<u8>)
    ensures
        k@ == key_bytes(key_nanos(timestamp_nanos)),
        k@.len() == 8,
{
    let n: i64 = match timestamp_nanos {
        Some(n) => n,
        None => 0,
    };
    let wide: i128 = if n >= 0 {
        n as i128
    } else {
        n as i128 + 0x1_0000_0000_0000_0000i128
    };
    let u: u64 = wide as u64;
    let k = digits(u, 8);
    proof {
        lemma_digits_len(u as nat, 8);
    }
    k
}

proof fn lemma_digits_len(u: nat, k: nat)
    ensures
        be_digits(u, k).len() == k,
    decreases k,
{
    if k > 0 {
        lemma_digits_len(u / 256, (k - 1) as nat);
    }
}

/// Byte strings of equal length in lexicographic order, as the database
/// orders its keys: the first byte that differs decides.
pub open spec fn lex_lt(x: Seq<u8>, y: Seq<u8>) -> bool
    decreases x.len(),
{
    x.len() > 0 && y.len() == x.len() && (lex_lt(x.drop_last(), y.drop_last()) || (
    x.drop_last() == y.drop_last() && x.last() < y.last()))
}

/// `x` comes no later than `y` in key order.
pub open spec fn lex_le(x: Seq<u8>, y: Seq<u8>) -> bool {
    x == y || lex_lt(x, y)
}

proof fn lemma_digits_order(a: nat, b: nat, k: nat)
    requires
        a < b < pow256(k),
    ensures
        lex_lt(be_digits(a, k), be_digits(b, k)),
    decreases k,
{
    lemma_digits_len(a, k);
    lemma_digits_len(b, k);
    if k > 0 {
        let k1 = (k - 1) as nat;
        assert(be_digits(a, k).drop_last() == be_digits(a / 256, k1));
        assert(be_digits(b, k).drop_last() == be_digits(b / 256, k1));
        assert(pow256(k) == 256 * pow256(k1));
        assert(a / 256 <= b / 256) by (nonlinear_arith)
            requires
                a < b,
        ;
        assert(b / 256 < pow256(k1)) by (nonlinear_arith)
            requires
                b < 256 * pow256(k1),
        ;
        if a / 256 < b / 256 {
            lemma_digits_order(a / 256, b / 256, k1);
        } else {
            assert(a % 256 < b % 256) by (nonlinear_arith)
                requires
                    a < b,
                    a / 256 == b / 256,
            ;
        }
    }
}

proof fn lemma_lex_lt_irreflexive(x: Seq<u8>)
    ensures
        !lex_lt(x, x),
    decreases x.len(),
{
    if x.len() > 0 {
        lemma_lex_lt_irreflexive(x.drop_last());
    }
}

proof fn lemma_lex_lt_asymmetric(x: Seq<u8>, y: Seq<u8>)
    requires
        lex_lt(x, y),
    ensures
        !lex_lt(y, x),
        x != y,
    decreases x.len(),
{
    lemma_lex_lt_irreflexive(x);
    if lex_lt(x.drop_last(), y.drop_last()) {
        lemma_lex_lt_asymmetric(x.drop_last(), y.drop_last());
    } else {
        lemma_lex_lt_irreflexive(x.drop_last());
    }
}

proof fn lemma_pow256_8()
    ensures
        pow256(8) == 0x1_0000_0000_0000_0000,
{
    reveal_with_fuel(pow256, 9);
}

/// Keys sort like their timestamps, for timestamps from the epoch on: the
/// database's key order is the order of time. (Before the epoch it is not:
/// a negative timestamp's key starts with a high byte.)
pub proof fn lemma_key_order(t1: i64, t2: i64)
    requires
        0 <= t1 < t2,
    ensures
        lex_lt(key_bytes(t1), key_bytes(t2)),
{
    lemma_pow256_8();
    lemma_digits_order(t1 as nat, t2 as nat, 8);
}

/// Different timestamps get different keys, so one record never replaces
/// another with a different timestamp.
pub proof fn lemma_key_injective(t1: i64, t2: i64)
    requires
        t1 != t2,
    ensures
        key_bytes(t1) != key_bytes(t2),
{
    lemma_pow256_8();
    let a = twos_complement(t1);
    let b = twos_complement(t2);
    if a < b {
        lemma_digits_order(a, b, 8);
        lemma_lex_lt_asymmetric(be_digits(a, 8), be_digits(b, 8));
    } else {
        lemma_digits_order(b, a, 8);
        lemma_lex_lt_asymmetric(be_digits(b, 8), be_digits(a, 8));
    }
}

/// A date-range query, which scans the keys from the start's key to the
/// end's key inclusive, returns exactly the records whose timestamps lie in
/// the range, for timestamps from the epoch on.
pub proof fn lemma_date_range_selects(start: i64, end: i64, t: i64)
    requires
        0 <= start,
        0 <= end,
        0 <= t,
    ensures
        (lex_le(key_bytes(start), key_bytes(t)) && lex_le(key_bytes(t), key_bytes(end))) <==> (
        start <= t <= end),
{
    if t < start {
        lemma_key_order(t, start);
        lemma_lex_lt_asymmetric(key_bytes(t), key_bytes(start));
    } else if t > start {
        lemma_key_order(start, t);
    }
    if t > end {
        lemma_key_order(end, t);
        lemma_lex_lt_asymmetric(key_bytes(end), key_bytes(t));
    } else if t < end {
        lemma_key_order(t, end);
    }
}

/// What reading a stored record gave for its timestamp.
#[derive(Debug, Clone, Copy, PartialEq, Eq, Structural)]
pub enum RecordTime {
    /// The stored value could not be decoded; the record is left alone.
    Undecodable,
    /// The timestamp lies outside what 64-bit nanoseconds can hold; it
    /// counts as 0.
    OutOfRange,
    /// The timestamp in nanoseconds since the epoch.
    Nanos(i64),
}

/// Whether the retention rule removes a record: its timestamp (0 when out
/// of range) lies before the cutoff; undecodable records are kept.
pub open spec fn is_expired(t: RecordTime, cutoff_nanos: i64) -> bool {
    match t {
        RecordTime::Undecodable => false,
        RecordTime::OutOfRange => 0 < cutoff_nanos,
        RecordTime::Nanos(n) => n < cutoff_nanos,
    }
}

/// The positions of the expired records among the first `k`, in order.
pub open spec fn expired_positions(times: Seq<RecordTime>, cutoff_nanos: i64, k: nat) -> Seq<usize> {
    positions_where(times, |t: RecordTime| is_expired(t, cutoff_nanos), k)
}

/// The records (given by position, in storage order) that the retention
/// rule removes for a cutoff of `cutoff_nanos`.
pub fn expired_records(times: &Vec<RecordTime>, cutoff_nanos: i64) -> (r: Vec<usize>)
    ensures
        r@ == expired_positions(times@, cutoff_nanos, times@.len()),
{
    let mut r: Vec<usize> = Vec::new();
    let mut i: usize = 0;
    while i < times.len()
        invariant
            i <= times.len(),
            r@ == expired_positions(times@, cutoff_nanos, i as nat),
        decreases times.len() - i,
    {
        proof {
            lemma_positions_where_step(times@, |t: RecordTime| is_expired(t, cutoff_nanos), i as int);
        }
        let expired = match times[i] {
            RecordTime::Undecodable => false,
            RecordTime::OutOfRange => 0 < cutoff_nanos,
            RecordTime::Nanos(n) => n < cutoff_nanos,
        };
        if expired {
            r.push(i);
        }
        i = i + 1;
    }
    r
}

/// The retention rule removes exactly the expired records: every listed
/// position holds an expired record, positions rise, and every expired
/// record is listed.
pub proof fn lemma_expired_positions_exact(times: Seq<RecordTime>, cutoff_nanos: i64, k: nat)
    requires
        k <= times.len(),
        times.len() <= usize::MAX,
    ensures
        forall|j: int|
            0 <= j < expired_positions(times, cutoff_nanos, k).len() ==> {
                let p = #[trigger] expired_positions(times, cutoff_nanos, k)[j];
                p < k && is_expired(times[p as int], cutoff_nanos)
            },
        forall|i: int, j: int|
            0 <= i < j < expired_positions(times, cutoff_nanos, k).len() ==> #[trigger]
            expired_positions(times, cutoff_nanos, k)[i] < #[trigger] expired_positions(
                times,
                cutoff_nanos,
                k,
            )[j],
        forall|p: int|
            0 <= p < k && is_expired(#[trigger] times[p], cutoff_nanos) ==> expired_positions(
                times,
                cutoff_nanos,
                k,
            ).contains(p as usize),
{
    lemma_positions_where_exact(times, |t: RecordTime| is_expired(t, cutoff_nanos), k);
}

/// The records among the first `k` that the retention rule keeps, in
/// order.
pub open spec fn kept_upto(times: Seq<RecordTime>, cutoff_nanos: i64, k: nat) -> Seq<RecordTime>
    decreases k,
{
    if k == 0 {
        Seq::empty()
    } else {
        let before = kept_upto(times, cutoff_nanos, (k - 1) as nat);
        if is_expired(times[k - 1], cutoff_nanos) {
            before
        } else {
            before.push(times[k - 1])
        }
    }
}

/// The records the retention rule keeps.
pub open spec fn unexpired(cutoff_nanos: i64) -> spec_fn(RecordTime) -> bool {
    |t: RecordTime| !is_expired(t, cutoff_nanos)
}

proof fn lemma_kept_upto_filter(times: Seq<RecordTime>, cutoff_nanos: i64, k: nat)
    requires
        k <= times.len(),
    ensures
        kept_upto(times, cutoff_nanos, k) == times.take(k as int).filter(unexpired(cutoff_nanos)),
    decreases k,
{
    reveal(Seq::filter);
    if k == 0 {
        assert(times.take(0) =~= Seq::<RecordTime>::empty());
    } else {
        lemma_kept_upto_filter(times, cutoff_nanos, (k - 1) as nat);
        let t = times.take(k as int);
        assert(t.drop_last() =~= times.take(k - 1));
        assert(t.last() == times[k - 1]);
        assert(unexpired(cutoff_nanos)(t.last()) == !is_expired(times[k - 1], cutoff_nanos));
    }
}

/// The records left in the store after the retention rule removed the
/// expired ones, in storage order.
pub open spec fn kept_records(times: Seq<RecordTime>, cutoff_nanos: i64) -> Seq<RecordTime> {
    kept_upto(times, cutoff_nanos, times.len())
}

proof fn lemma_kept_upto(times: Seq<RecordTime>, cutoff_nanos: i64, k: nat)
    requires
        k <= times.len(),
    ensures
        kept_upto(times, cutoff_nanos, k).len() + expired_positions(times, cutoff_nanos, k).len()
            == k,
        forall|j: int|
            0 <= j < kept_upto(times, cutoff_nanos, k).len() ==> !is_expired(
                #[trigger] kept_upto(times, cutoff_nanos, k)[j],
                cutoff_nanos,
            ),
        forall|x: RecordTime|
            #[trigger] kept_upto(times, cutoff_nanos, k).contains(x) <==> (exists|p: int|
                0 <= p < k && times[p] == x) && !is_expired(x, cutoff_nanos),
    decreases k,
{
    if k > 0 {
        let k1 = (k - 1) as nat;
        lemma_kept_upto(times, cutoff_nanos, k1);
        let before = kept_upto(times, cutoff_nanos, k1);
        let t = times[k - 1];
        if !is_expired(t, cutoff_nanos) {
            let after = before.push(t);
            assert forall|j: int| 0 <= j < after.len() implies !is_expired(
                #[trigger] after[j],
                cutoff_nanos,
            ) by {
                if j < before.len() {
                    assert(after[j] == before[j]);
                }
            }
            assert forall|x: RecordTime| #[trigger] after.contains(x) <==> (exists|p: int|
                0 <= p < k && times[p] == x) && !is_expired(x, cutoff_nanos) by {
                if after.contains(x) {
                    let j = choose|j: int| 0 <= j < after.len() && after[j] == x;
                    if j < before.len() {
                        assert(after[j] == before[j]);
                        assert(before.contains(x));
                    } else {
                        assert(times[k - 1] == x);
                    }
                }
                if (exists|p: int| 0 <= p < k && times[p] == x) && !is_expired(x, cutoff_nanos) {
                    let p = choose|p: int| 0 <= p < k && times[p] == x;
                    if p < k - 1 {
                        assert(before.contains(x));
                        let j = choose|j: int| 0 <= j < before.len() && before[j] == x;
                        assert(after[j] == x);
                    } else {
                        assert(after[before.len() as int] == x);
                    }
                }
            }
        } else {
            assert forall|x: RecordTime| #[trigger] before.contains(x) <==> (exists|p: int|
                0 <= p < k && times[p] == x) && !is_expired(x, cutoff_nanos) by {
                if (exists|p: int| 0 <= p < k && times[p] == x) && !is_expired(x, cutoff_nanos) {
                    let p = choose|p: int| 0 <= p < k && times[p] == x;
                    assert(p < k - 1);
                }
            }
        }
    }
}

proof fn lemma_nothing_expired(times: Seq<RecordTime>, cutoff_nanos: i64, k: nat)
    requires
        k <= times.len(),
        forall|j: int| 0 <= j < times.len() ==> !is_expired(#[trigger] times[j], cutoff_nanos),
    ensures
        expired_positions(times, cutoff_nanos, k).len() == 0,
        kept_upto(times, cutoff_nanos, k) == times.take(k as int),
    decreases k,
{
    if k > 0 {
        lemma_nothing_expired(times, cutoff_nanos, (k - 1) as nat);
        assert(times.take(k as int) =~= times.take(k - 1).push(times[k - 1]));
    }
}

proof fn lemma_kept_prefix(stored: Seq<RecordTime>, new: RecordTime, cutoff_nanos: i64, k: nat)
    requires
        k <= stored.len(),
    ensures
        kept_upto(stored.push(new), cutoff_nanos, k) == kept_upto(stored, cutoff_nanos, k),
    decreases k,
{
    if k > 0 {
        lemma_kept_prefix(stored, new, cutoff_nanos, (k - 1) as nat);
        assert(stored.push(new)[k - 1] == stored[k - 1]);
    }
}

/// The cleanup removes exactly the expired records: the removed and the
/// kept records add up to the store, the kept ones are the store's
/// unexpired records in their order, and a second cleanup with the same
/// cutoff removes nothing.
pub proof fn lemma_cleanup_exact(times: Seq<RecordTime>, cutoff_nanos: i64)
    ensures
        kept_records(times, cutoff_nanos) == times.filter(unexpired(cutoff_nanos)),
        kept_records(times, cutoff_nanos).len() + expired_positions(
            times,
            cutoff_nanos,
            times.len(),
        ).len() == times.len(),
        forall|x: RecordTime|
            #[trigger] kept_records(times, cutoff_nanos).contains(x) <==> times.contains(x)
                && !is_expired(x, cutoff_nanos),
        expired_positions(
            kept_records(times, cutoff_nanos),
            cutoff_nanos,
            kept_records(times, cutoff_nanos).len(),
        ).len() == 0,
{
    let kept = kept_records(times, cutoff_nanos);
    lemma_kept_upto(times, cutoff_nanos, times.len());
    lemma_kept_upto_filter(times, cutoff_nanos, times.len());
    assert(times.take(times.len() as int) =~= times);
    lemma_nothing_expired(kept, cutoff_nanos, kept.len());
}

/// Saving a record and then applying the retention rule leaves exactly the
/// records of the store and the new one that have not expired; the new one
/// stays unless it has itself expired, and when nothing expired the store
/// keeps every record, so a count kept by adding one per save stays equal to
/// the number of stored records.
pub proof fn lemma_save_with_retention(stored: Seq<RecordTime>, new: RecordTime, cutoff_nanos: i64)
    ensures
        kept_records(stored.push(new), cutoff_nanos) == stored.push(new).filter(
            unexpired(cutoff_nanos),
        ),
        forall|x: RecordTime|
            #[trigger] kept_records(stored.push(new), cutoff_nanos).contains(x) <==> (
            stored.contains(x) || x == new) && !is_expired(x, cutoff_nanos),
        kept_records(stored.push(new), cutoff_nanos) == if is_expired(new, cutoff_nanos) {
            kept_records(stored, cutoff_nanos)
        } else {
            kept_records(stored, cutoff_nanos).push(new)
        },
        expired_positions(stored.push(new), cutoff_nanos, stored.len() + 1).len() == 0
            ==> kept_records(stored.push(new), cutoff_nanos).len() == stored.len() + 1,
{
    let all = stored.push(new);
    lemma_kept_prefix(stored, new, cutoff_nanos, stored.len());
    lemma_kept_upto(all, cutoff_nanos, all.len());
    assert forall|x: RecordTime| all.contains(x) <==> (stored.contains(x) || x == new) by {
        if all.contains(x) {
            let j = choose|j: int| 0 <= j < all.len() && all[j] == x;
            if j < stored.len() {
                assert(all[j] == stored[j]);
            }
        }
        if stored.contains(x) {
            let j = choose|j: int| 0 <= j < stored.len() && stored[j] == x;
            assert(all[j] == x);
        }
        if x == new {
            assert(all[stored.len() as int] == x);
        }
    }
    lemma_cleanup_exact(all, cutoff_nanos);
}

/// The ratings equal to `quality`.
pub open spec fn has_quality(quality: ConnectionQuality) -> spec_fn(ConnectionQuality) -> bool {
    |q: ConnectionQuality| q == quality
}

/// The server locations that contain `fragment`.
pub open spec fn names_server(fragment: Seq<char>) -> spec_fn(String) -> bool {
    |l: String| seq_contains(l@, fragment)
}

/// The results (given by position) rated `quality`, in order, as the
/// history is filtered by rating.
pub fn results_with_quality(qualities: &Vec<ConnectionQuality>, quality: ConnectionQuality) -> (r:
    Vec<usize>)
    ensures
        r@ == positions_where(qualities@, has_quality(quality), qualities@.len()),
{
    let mut r: Vec<usize> = Vec::new();
    let mut i: usize = 0;
    while i < qualities.len()
        invariant
            i <= qualities.len(),
            r@ == positions_where(qualities@, has_quality(quality), i as nat),
        decreases qualities.len() - i,
    {
        proof {
            lemma_positions_where_step(qualities@, has_quality(quality), i as int);
        }
        if qualities[i] == quality {
            r.push(i);
        }
        i = i + 1;
    }
    r
}

/// Filtering by rating keeps exactly the results with that rating, in
/// their order: each listed position holds the rating, the positions rise,
/// and every result with the rating is listed.
pub proof fn lemma_results_with_quality_exact(qualities: Seq<ConnectionQuality>, quality: ConnectionQuality)
    requires
        qualities.len() <= usize::MAX,
    ensures
        forall|j: int|
            0 <= j < positions_where(qualities, has_quality(quality), qualities.len()).len() ==> {
                let p = #[trigger] positions_where(
                    qualities,
                    has_quality(quality),
                    qualities.len(),
                )[j];
                p < qualities.len() && qualities[p as int] == quality
            },
        forall|i: int, j: int|
            0 <= i < j < positions_where(qualities, has_quality(quality), qualities.len()).len()
                ==> #[trigger] positions_where(qualities, has_quality(quality), qualities.len())[i]
                < #[trigger] positions_where(qualities, has_quality(quality), qualities.len())[j],
        forall|p: int|
            0 <= p < qualities.len() && #[trigger] qualities[p] == quality ==> positions_where(
                qualities,
                has_quality(quality),
                qualities.len(),
            ).contains(p as usize),
{
    lemma_positions_where_exact(qualities, has_quality(quality), qualities.len());
    assert forall|p: int| 0 <= p < qualities.len() && #[trigger] qualities[p] == quality implies positions_where(
        qualities,
        has_quality(quality),
        qualities.len(),
    ).contains(p as usize) by {
        assert(has_quality(quality)(qualities[p]));
    }
}

/// Taking the results at the positions that the filter by rating lists
/// gives the history filtered by rating: the results rated `quality`, in
/// their order.
pub proof fn lemma_quality_filter_picks<B>(
    results: Seq<B>,
    rating: spec_fn(B) -> ConnectionQuality,
    quality: ConnectionQuality,
)
    requires
        results.len() <= usize::MAX,
    ensures
        picked(
            results,
            positions_where(results.map_values(rating), has_quality(quality), results.len()),
        ) == results.filter(keyed(rating, has_quality(quality))),
{
    lemma_picked_positions_filter(results, rating, has_quality(quality), results.len());
    assert(results.take(results.len() as int) =~= results);
}

/// Taking the results at the positions that the filter by server lists
/// gives the history filtered by server: the results whose location
/// contains `fragment`, in their order.
pub proof fn lemma_server_filter_picks<B>(
    results: Seq<B>,
    location: spec_fn(B) -> String,
    fragment: Seq<char>,
)
    requires
        results.len() <= usize::MAX,
    ensures
        picked(
            results,
            positions_where(results.map_values(location), names_server(fragment), results.len()),
        ) == results.filter(keyed(location, names_server(fragment))),
{
    lemma_picked_positions_filter(results, location, names_server(fragment), results.len());
    assert(results.take(results.len() as int) =~= results);
}

/// Filtering by server keeps exactly the results whose location contains
/// the fragment, in their order.
pub proof fn lemma_results_at_server_exact(locations: Seq<String>, fragment: Seq<char>)
    requires
        locations.len() <= usize::MAX,
    ensures
        forall|j: int|
            0 <= j < positions_where(locations, names_server(fragment), locations.len()).len() ==> {
                let p = #[trigger] positions_where(
                    locations,
                    names_server(fragment),
                    locations.len(),
                )[j];
                p < locations.len() && seq_contains(locations[p as int]@, fragment)
            },
        forall|i: int, j: int|
            0 <= i < j < positions_where(locations, names_server(fragment), locations.len()).len()
                ==> #[trigger] positions_where(locations, names_server(fragment), locations.len())[i]
                < #[trigger] positions_where(locations, names_server(fragment), locations.len())[j],
        forall|p: int|
            0 <= p < locations.len() && seq_contains(#[trigger] locations[p]@, fragment)
                ==> positions_where(locations, names_server(fragment), locations.len()).contains(
                p as usize,
            ),
{
    lemma_positions_where_exact(locations, names_server(fragment), locations.len());
    assert forall|p: int|
        0 <= p < locations.len() && seq_contains(#[trigger] locations[p]@, fragment) implies positions_where(
        locations,
        names_server(fragment),
        locations.len(),
    ).contains(p as usize) by {
        assert(names_server(fragment)(locations[p]));
    }
}

/// The results (given by position) whose server location contains
/// `fragment`, in order, as the history is filtered by server.
pub fn results_at_server(locations: &Vec<String>, fragment: &str) -> (r: Vec<usize>)
    ensures
        r@ == positions_where(
            locations@,
            names_server(fragment@),
            locations@.len(),
        ),
{
    let mut r: Vec<usize> = Vec::new();
    let mut i: usize = 0;
    while i < locations.len()
        invariant
            i <= locations.len(),
            r@ == positions_where(locations@, names_server(fragment@), i as nat),
        decreases locations.len() - i,
    {
        proof {
            lemma_positions_where_step(
                locations@,
                names_server(fragment@),
                i as int,
            );
        }
        if str_contains(locations[i].as_str(), fragment) {
            r.push(i);
        }
        i = i + 1;
    }
    r
}

/// Whether the speed trends read as improving: download and upload trends
/// above zero and the ping trend below zero (each an f64 bit pattern).
pub fn is_improving(download_trend: u64, upload_trend: u64, ping_trend: u64) -> (b: bool)
    ensures
        b == (gt(download_trend, F64_0) && gt(upload_trend, F64_0) && lt(ping_trend, F64_0)),
{
    float_gt(download_trend, F64_0) && float_gt(upload_trend, F64_0) && float_lt(ping_trend, F64_0)
}

/// The position that `Iterator::max_by` with `partial_cmp` (incomparable
/// counting as equal) picks: the running pick is kept only while it is
/// strictly greater than the next value, so among equal maxima the last
/// one wins.
pub open spec fn max_position(values: Seq<u64>) -> int
    decreases values.len(),
{
    if values.len() <= 1 {
        0
    } else {
        let m = max_position(values.drop_last());
        if gt(values[m], values.last()) { m } else { values.len() - 1 }
    }
}

/// The position that `Iterator::min_by` with `partial_cmp` (incomparable
/// counting as equal) picks: the running pick is replaced only by a value
/// strictly smaller than it, so among equal minima the first one wins.
pub open spec fn min_position(values: Seq<u64>) -> int
    decreases values.len(),
{
    if values.len() <= 1 {
        0
    } else {
        let m = min_position(values.drop_last());
        if gt(values[m], values.last()) { values.len() - 1 } else { m }
    }
}

proof fn lemma_position_in_range(values: Seq<u64>)
    requires
        values.len() > 0,
    ensures
        0 <= max_position(values) < values.len(),
        0 <= min_position(values) < values.len(),
    decreases values.len(),
{
    if values.len() > 1 {
        lemma_position_in_range(values.drop_last());
    }
}

/// The record with the highest value (an f64 bit pattern per record), as
/// the fastest download or upload is picked; `None` when there are none.
pub fn fastest_index(values: &Vec<u64>) -> (r: Option<usize>)
    ensures
        values.len() == 0 ==> r is None,
        values.len() > 0 ==> r == Some(max_position(values@) as usize),
{
    if values.len() == 0 {
        return None;
    }
    let mut m: usize = 0;
    let mut i: usize = 1;
    while i < values.len()
        invariant
            1 <= i <= values.len(),
            m == max_position(values@.take(i as int)),
            m < i,
        decreases values.len() - i,
    {
        assert(values@.take(i + 1).drop_last() =~= values@.take(i as int));
        assert(values@.take(i as int)[m as int] == values@[m as int]);
        if !float_gt(values[m], values[i]) {
            m = i;
        }
        i = i + 1;
    }
    assert(values@.take(values.len() as int) =~= values@);
    Some(m)
}

/// The record with the lowest value (an f64 bit pattern per record), as
/// the lowest ping is picked; `None` when there are none.
pub fn lowest_index(values: &Vec<u64>) -> (r: Option<usize>)
    ensures
        values.len() == 0 ==> r is None,
        values.len() > 0 ==> r == Some(min_position(values@) as usize),
{
    if values.len() == 0 {
        return None;
    }
    let mut m: usize = 0;
    let mut i: usize = 1;
    while i < values.len()
        invariant
            1 <= i <= values.len(),
            m == min_position(values@.take(i as int)),
            m < i,
        decreases values.len() - i,
    {
        assert(values@.take(i + 1).drop_last() =~= values@.take(i as int));
        assert(values@.take(i as int)[m as int] == values@[m as int]);
        if float_gt(values[m], values[i]) {
            m = i;
        }
        i = i + 1;
    }
    assert(values@.take(values.len() as int) =~= values@);
    Some(m)
}

/// Without NaN, the fastest record's value is at least every other value,
/// and the lowest record's value at most every other value.
pub proof fn lemma_extremes(values: Seq<u64>)
    requires
        values.len() > 0,
        forall|i: int| 0 <= i < values.len() ==> !is_nan(#[trigger] values[i]),
    ensures
        0 <= max_position(values) < values.len(),
        0 <= min_position(values) < values.len(),
        forall|i: int|
            0 <= i < values.len() ==> ge(values[max_position(values)], #[trigger] values[i]),
        forall|i: int|
            0 <= i < values.len() ==> ge(#[trigger] values[i], values[min_position(values)]),
    decreases values.len(),
{
    lemma_position_in_range(values);
    if values.len() > 1 {
        let init = values.drop_last();
        assert forall|i: int| 0 <= i < init.len() implies !is_nan(#[trigger] init[i]) by {
            assert(init[i] == values[i]);
        }
        lemma_extremes(init);
        assert forall|i: int| 0 <= i < values.len() implies ge(
            values[max_position(values)],
            #[trigger] values[i],
        ) by {
            if i < init.len() {
                assert(init[i] == values[i]);
            }
        }
        assert forall|i: int| 0 <= i < values.len() implies ge(
            #[trigger] values[i],
            values[min_position(values)],
        ) by {
            if i < init.len() {
                assert(init[i] == values[i]);
            }
        }
    }
}

} // verus!
