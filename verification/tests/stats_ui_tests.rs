use netrunner_cli::modules::keys::Key;
use netrunner_cli::modules::stats_ui::{
    build_ping_slices, build_quality_slices, build_slices, build_speed_slices, bucket_speeds,
    download_buckets, ping_counts, quality_color, quality_counts, upload_buckets, ChartColor,
    ChartSlice, Focus, QualityCounts, SliceLabel, StatsApp, test_noun,
};
use netrunner_cli::modules::types::ConnectionQuality;

fn bits(v: &[f64]) -> Vec<u64> {
    v.iter().map(|x| x.to_bits()).collect()
}

#[test]
fn focus_cycles_both_ways() {
    assert_eq!(Focus::Download.next(), Focus::Upload);
    assert_eq!(Focus::Upload.next(), Focus::Ping);
    assert_eq!(Focus::Ping.next(), Focus::Quality);
    assert_eq!(Focus::Quality.next(), Focus::Download);
    assert_eq!(Focus::Download.prev(), Focus::Quality);
    assert_eq!(Focus::Quality.prev(), Focus::Ping);
    for f in [Focus::Download, Focus::Upload, Focus::Ping, Focus::Quality].iter() {
        assert_eq!(f.next().prev(), *f);
        assert_eq!(f.next().next().next().next(), *f);
    }
}

#[test]
fn scrolling_stops_at_both_ends() {
    let mut app = StatsApp::new(10);
    assert_eq!(app.table_page_size(), 8);
    assert_eq!(app.scroll(), 0);
    app.scroll_up();
    assert_eq!(app.scroll(), 0);
    app.scroll_down();
    app.scroll_down();
    app.scroll_down();
    assert_eq!(app.scroll(), 2);
    assert_eq!(app.visible_rows(), (2, 10));
    app.scroll_up();
    assert_eq!(app.scroll(), 1);
    assert_eq!(app.visible_rows(), (1, 9));

    let mut short = StatsApp::new(5);
    short.scroll_down();
    assert_eq!(short.scroll(), 0);
    assert_eq!(short.visible_rows(), (0, 5));
}

#[test]
fn keys_drive_the_dashboard() {
    let mut app = StatsApp::new(20);
    assert!(app.handle_key(Key::Tab));
    assert_eq!(app.focus(), Focus::Upload);
    assert!(app.handle_key(Key::Char('l')));
    assert_eq!(app.focus(), Focus::Ping);
    assert!(app.handle_key(Key::BackTab));
    assert!(app.handle_key(Key::Char('h')));
    assert!(app.handle_key(Key::Left));
    assert_eq!(app.focus(), Focus::Quality);
    assert!(app.handle_key(Key::Char('j')));
    assert!(app.handle_key(Key::Down));
    assert_eq!(app.scroll(), 2);
    assert!(app.handle_key(Key::Char('k')));
    assert_eq!(app.scroll(), 1);
    assert!(app.handle_key(Key::Char('z')));
    assert_eq!(app.scroll(), 1);
    assert_eq!(app.focus(), Focus::Quality);
    assert!(!app.handle_key(Key::Char('q')));
    assert!(!app.handle_key(Key::Esc));
    assert_eq!(app.result_count(), 20);
}

#[test]
fn quality_counts_sort_results() {
    let results = vec![
        ConnectionQuality::Excellent,
        ConnectionQuality::Good,
        ConnectionQuality::Good,
        ConnectionQuality::Poor,
        ConnectionQuality::VeryPoor,
        ConnectionQuality::Failed,
    ];
    let c = quality_counts(&results, ConnectionQuality::Average);
    assert_eq!(c, QualityCounts { excellent: 1, good: 2, average: 0, poor: 2, failed: 1 });
    let empty = quality_counts(&Vec::new(), ConnectionQuality::VeryPoor);
    assert_eq!(empty, QualityCounts { excellent: 0, good: 0, average: 0, poor: 1, failed: 0 });
}

#[test]
fn ping_counts_sort_latencies() {
    let pings = vec![0, 19, 20, 49, 50, 99, 100, 1000];
    assert_eq!(ping_counts(&pings, 0), (2, 2, 2, 2));
    assert_eq!(ping_counts(&Vec::new(), 75), (0, 0, 1, 0));
    assert_eq!(ping_counts(&Vec::new(), 5), (1, 0, 0, 0));
}

#[test]
fn speed_tiers() {
    let dl = bits(&[150.0, 100.0, 99.9, 50.0, 30.0, 25.0, 24.9, 0.0, f64::NAN]);
    assert_eq!(download_buckets(&dl), (2, 2, 2, 3));
    let ul = bits(&[25.0, 20.0, 10.0, 5.0, 4.9]);
    assert_eq!(upload_buckets(&ul), (2, 1, 1, 1));
    assert_eq!(
        bucket_speeds(&bits(&[3.0, 2.0, 1.0]), 3.0f64.to_bits(), 2.0f64.to_bits(), 1.0f64.to_bits()),
        (1, 1, 1, 0)
    );
}

#[test]
fn slices_drop_zero_counts() {
    let s = build_speed_slices(0, 3, 0, 1);
    assert_eq!(
        s,
        vec![
            ChartSlice { label: SliceLabel::Fast, value: 3 },
            ChartSlice { label: SliceLabel::Slow, value: 1 },
        ]
    );
    let none = build_speed_slices(0, 0, 0, 0);
    assert_eq!(none, vec![ChartSlice { label: SliceLabel::NoData, value: 1 }]);
    let p = build_ping_slices((1, 0, 0, 2));
    assert_eq!(p.len(), 2);
    assert_eq!(p[0].label, SliceLabel::PingUnder20);
    assert_eq!(p[1].label, SliceLabel::PingOver100);
    let q = build_quality_slices(QualityCounts { excellent: 0, good: 0, average: 4, poor: 0, failed: 0 });
    assert_eq!(q, vec![ChartSlice { label: SliceLabel::Average, value: 4 }]);
    assert_eq!(build_slices(&Vec::new()), vec![ChartSlice { label: SliceLabel::NoData, value: 1 }]);
}

#[test]
fn chart_colours() {
    assert_eq!(quality_color(ConnectionQuality::Excellent), ChartColor::Green);
    assert_eq!(quality_color(ConnectionQuality::Failed), ChartColor::DarkGray);
    assert_eq!(ChartColor::DarkGray.rgb(), None);
    assert_eq!(ChartColor::Orange.rgb(), Some((255, 140, 0)));
    assert_eq!(SliceLabel::Poor.color(), ChartColor::Orange);
    assert_eq!(SliceLabel::Ping20To50.text(), "20–50 ms");
    assert_eq!(SliceLabel::NoData.text(), "No data");
}

#[test]
fn summary_noun() {
    assert_eq!(test_noun(1), "test");
    assert_eq!(test_noun(0), "tests");
    assert_eq!(test_noun(2), "tests");
}

#[test]
fn key_sequences_act_in_order_and_stop_at_quit() {
    let mut app = StatsApp::new(12);
    let keys = vec![Key::Tab, Key::Down, Key::Char('j'), Key::Char('x'), Key::Left, Key::Esc, Key::Tab, Key::Down];
    assert_eq!(app.handle_keys(&keys), Some(5));
    assert_eq!(app.focus(), Focus::Download);
    assert_eq!(app.scroll(), 2);

    let mut one_by_one = StatsApp::new(12);
    let mut quit = None;
    for (i, k) in keys.iter().enumerate() {
        if one_by_one.handle_keys(&vec![*k]).is_some() {
            quit = Some(i);
            break;
        }
    }
    assert_eq!(quit, Some(5));
    assert_eq!(one_by_one.focus(), app.focus());
    assert_eq!(one_by_one.scroll(), app.scroll());

    let mut none = StatsApp::new(3);
    assert_eq!(none.handle_keys(&vec![Key::Down, Key::Up, Key::Right]), None);
    assert_eq!(none.scroll(), 0);
    assert_eq!(none.focus(), Focus::Upload);
}
