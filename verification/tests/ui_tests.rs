use netrunner_cli::modules::ui::{float_max, BandwidthMonitor, F64_1, GRAPH_WIDTH, HISTORY_LIMIT};

#[test]
fn new_monitor_is_empty() {
    let m = BandwidthMonitor::new("Download".to_string());
    assert!(m.speed_history().is_empty());
    assert_eq!(f64::from_bits(m.current_speed()), 0.0);
    assert_eq!(f64::from_bits(m.peak_speed()), 0.0);
    assert!(!m.is_final());
    assert_eq!(m.title(), "Download");
    assert_eq!(m.indicator(), '⠋');
    assert_eq!(m.graph_scale(), F64_1);
}

#[test]
fn update_tracks_current_and_peak() {
    let mut m = BandwidthMonitor::new("x".to_string());
    m.update(12.5f64.to_bits());
    m.update(40.0f64.to_bits());
    m.update(20.0f64.to_bits());
    assert_eq!(f64::from_bits(m.current_speed()), 20.0);
    assert_eq!(f64::from_bits(m.peak_speed()), 40.0);
    assert_eq!(m.speed_history(), &vec![12.5f64.to_bits(), 40.0f64.to_bits(), 20.0f64.to_bits()]);
    assert_eq!(m.indicator(), '⠸');
    assert_eq!(f64::from_bits(m.graph_scale()), 40.0);
    m.mark_final();
    assert!(m.is_final());
    assert_eq!(m.indicator(), '✓');
}

#[test]
fn history_keeps_the_last_hundred() {
    let mut m = BandwidthMonitor::new("x".to_string());
    for i in 0..250u32 {
        m.update((i as f64).to_bits());
    }
    assert_eq!(m.speed_history().len(), HISTORY_LIMIT);
    assert_eq!(f64::from_bits(m.speed_history()[0]), 150.0);
    assert_eq!(f64::from_bits(m.speed_history()[99]), 249.0);
    // 250 updates advance the spinner 250 times: frame 0
    assert_eq!(m.indicator(), '⠋');
}

#[test]
fn graph_rows_fill_columns_that_reach_the_threshold() {
    let mut m = BandwidthMonitor::new("x".to_string());
    for s in [0.5f64, 3.0, 1.0, 4.0].iter() {
        m.update(s.to_bits());
    }
    let row = m.graph_row(2.0f64.to_bits());
    assert_eq!(row.len(), GRAPH_WIDTH);
    assert_eq!(&row[..4], &[false, true, false, true]);
    assert!(row[4..].iter().all(|c| !c));
    let empty = BandwidthMonitor::new("y".to_string());
    assert!(empty.graph_row(0).iter().all(|c| !c));
}

#[test]
fn graph_shows_the_latest_eighty_samples() {
    let mut m = BandwidthMonitor::new("x".to_string());
    for i in 0..90u32 {
        m.update((i as f64).to_bits());
    }
    let row = m.graph_row(85.0f64.to_bits());
    // columns hold samples 10..90; those from 85 on are filled
    for (c, filled) in row.iter().enumerate() {
        assert_eq!(*filled, c + 10 >= 85, "column {}", c);
    }
}

#[test]
fn graph_scale_is_at_least_one() {
    let mut m = BandwidthMonitor::new("x".to_string());
    m.update(0.25f64.to_bits());
    assert_eq!(m.graph_scale(), F64_1);
}

#[test]
fn max_on_bit_patterns() {
    let b = |x: f64| x.to_bits();
    assert_eq!(float_max(b(1.0), b(2.0)), b(2.0));
    assert_eq!(float_max(b(3.0), b(2.0)), b(3.0));
    assert_eq!(float_max(b(f64::NAN), b(2.0)), b(2.0));
    assert_eq!(float_max(b(2.0), b(f64::NAN)), b(2.0));
    assert_eq!(float_max(b(-1.0), b(-3.0)), b(-1.0));
}
