use netrunner_cli::modules::history::{
    expired_records, fastest_index, get_retention_days, is_improving, lowest_index, record_key,
    results_at_server, results_with_quality, DbStats, RecordTime, RETENTION_DAYS,
};
use netrunner_cli::modules::types::ConnectionQuality;

fn bits(v: &[f64]) -> Vec<u64> {
    v.iter().map(|x| x.to_bits()).collect()
}

#[test]
fn retention_is_thirty_days() {
    assert_eq!(get_retention_days(), 30);
    assert_eq!(RETENTION_DAYS, 30);
}

#[test]
fn record_keys_are_big_endian_nanoseconds() {
    let n: i64 = 1_700_000_000_123_456_789;
    assert_eq!(record_key(Some(n)), n.to_be_bytes().to_vec());
    assert_eq!(record_key(None), vec![0u8; 8]);
    assert_eq!(record_key(Some(-1)), vec![0xFFu8; 8]);
}

#[test]
fn record_keys_sort_like_their_times() {
    let times: [i64; 6] = [0, 1, 255, 256, 1_600_000_000_000_000_000, i64::MAX];
    for w in times.windows(2) {
        assert!(record_key(Some(w[0])) < record_key(Some(w[1])));
    }
}

#[test]
fn expired_records_are_those_before_the_cutoff() {
    let times = vec![
        RecordTime::Nanos(5),
        RecordTime::Undecodable,
        RecordTime::Nanos(20),
        RecordTime::OutOfRange,
        RecordTime::Nanos(9),
        RecordTime::Nanos(10),
    ];
    assert_eq!(expired_records(&times, 10), vec![0, 3, 4]);
    assert_eq!(expired_records(&times, 0), Vec::<usize>::new());
    assert_eq!(expired_records(&Vec::new(), 10), Vec::<usize>::new());
}

#[test]
fn fastest_picks_the_last_of_equal_maxima() {
    assert_eq!(fastest_index(&Vec::new()), None);
    assert_eq!(fastest_index(&bits(&[10.0, 50.0, 20.0])), Some(1));
    assert_eq!(fastest_index(&bits(&[50.0, 10.0, 50.0])), Some(2));
    let v = [10.0, 50.0, 20.0];
    let std_pick = v
        .iter()
        .enumerate()
        .max_by(|a, b| a.1.partial_cmp(b.1).unwrap_or(std::cmp::Ordering::Equal))
        .map(|(i, _)| i);
    assert_eq!(fastest_index(&bits(&v)), std_pick);
}

#[test]
fn lowest_picks_the_first_of_equal_minima() {
    assert_eq!(lowest_index(&Vec::new()), None);
    assert_eq!(lowest_index(&bits(&[30.0, 12.0, 40.0])), Some(1));
    assert_eq!(lowest_index(&bits(&[12.0, 30.0, 12.0])), Some(0));
}

#[test]
fn extremes_agree_with_iterator_picks() {
    let samples: [&[f64]; 4] = [
        &[3.0, 1.0, 2.0, 3.0, 0.5],
        &[7.5],
        &[1.0, f64::NAN, 2.0],
        &[f64::NAN, 4.0, 4.0, 1.0],
    ];
    for s in samples.iter() {
        let max = s
            .iter()
            .enumerate()
            .max_by(|a, b| a.1.partial_cmp(b.1).unwrap_or(std::cmp::Ordering::Equal))
            .map(|(i, _)| i);
        let min = s
            .iter()
            .enumerate()
            .min_by(|a, b| a.1.partial_cmp(b.1).unwrap_or(std::cmp::Ordering::Equal))
            .map(|(i, _)| i);
        assert_eq!(fastest_index(&bits(s)), max);
        assert_eq!(lowest_index(&bits(s)), min);
    }
}

#[test]
fn trends_improve_only_when_all_three_do() {
    let b = |x: f64| x.to_bits();
    assert!(is_improving(b(1.0), b(0.5), b(-2.0)));
    assert!(!is_improving(b(0.0), b(0.5), b(-2.0)));
    assert!(!is_improving(b(1.0), b(0.5), b(0.0)));
    assert!(!is_improving(b(f64::NAN), b(0.5), b(-2.0)));
}

#[test]
fn db_stats_holds_its_fields() {
    let s = DbStats { size_on_disk: 4096, results_count: 3, db_path: "/tmp/db".to_string() };
    assert_eq!(s.size_on_disk, 4096);
    assert_eq!(s.results_count, 3);
    assert_eq!(s.db_path, "/tmp/db");
}

#[test]
fn filters_by_rating_and_server() {
    let ratings = vec![
        ConnectionQuality::Good,
        ConnectionQuality::Poor,
        ConnectionQuality::Good,
        ConnectionQuality::VeryPoor,
    ];
    assert_eq!(results_with_quality(&ratings, ConnectionQuality::Good), vec![0, 2]);
    assert_eq!(results_with_quality(&ratings, ConnectionQuality::Excellent), Vec::<usize>::new());
    let places = vec![
        "Global CDN".to_string(),
        "Frankfurt, DE".to_string(),
        "Global".to_string(),
        "".to_string(),
    ];
    assert_eq!(results_at_server(&places, "Global"), vec![0, 2]);
    assert_eq!(results_at_server(&places, ""), vec![0, 1, 2, 3]);
    assert_eq!(results_at_server(&places, "global"), Vec::<usize>::new());
}

#[test]
fn date_range_keys_select_the_range() {
    let start: i64 = 1_000;
    let end: i64 = 5_000;
    let lo = record_key(Some(start));
    let hi = record_key(Some(end));
    for t in [0i64, 999, 1_000, 1_001, 4_999, 5_000, 5_001, 1 << 40].iter() {
        let k = record_key(Some(*t));
        assert_eq!(lo <= k && k <= hi, start <= *t && *t <= end, "t = {}", t);
    }
}

#[test]
fn cleanup_twice_removes_nothing_more() {
    let times = vec![
        RecordTime::Nanos(5),
        RecordTime::Undecodable,
        RecordTime::Nanos(20),
        RecordTime::OutOfRange,
        RecordTime::Nanos(9),
        RecordTime::Nanos(10),
    ];
    let expired = expired_records(&times, 10);
    let kept: Vec<RecordTime> = times
        .iter()
        .enumerate()
        .filter(|(i, _)| !expired.contains(i))
        .map(|(_, t)| *t)
        .collect();
    assert_eq!(kept.len() + expired.len(), times.len());
    assert_eq!(expired_records(&kept, 10), Vec::<usize>::new());
    // saving a new record then cleaning up keeps it unless it has expired
    let mut with_new = kept.clone();
    with_new.push(RecordTime::Nanos(30));
    assert_eq!(expired_records(&with_new, 10), Vec::<usize>::new());
    with_new.push(RecordTime::Nanos(3));
    assert_eq!(expired_records(&with_new, 10), vec![with_new.len() - 1]);
}
