use netrunner_cli::cli::{
    build_config, declines_menu, menu_action, menu_options, parse_detail_level, parse_mode,
    plan_launch, probe_servers, CliOptions, Launch, MenuAction, Mode,
};
use netrunner_cli::modules::types::DetailLevel;

fn options(json: bool, no_animation: bool, history: bool, mode: &str) -> CliOptions {
    CliOptions {
        server_url: "https://httpbin.org".to_string(),
        server_given: false,
        test_size_mb: 10,
        timeout_seconds: 30,
        json,
        no_animation,
        detail: "standard".to_string(),
        mode: mode.to_string(),
        debug_servers: false,
        history,
    }
}

#[test]
fn detail_levels_from_options() {
    assert_eq!(parse_detail_level("basic"), DetailLevel::Basic);
    assert_eq!(parse_detail_level("detailed"), DetailLevel::Detailed);
    assert_eq!(parse_detail_level("debug"), DetailLevel::Debug);
    assert_eq!(parse_detail_level("standard"), DetailLevel::Standard);
    assert_eq!(parse_detail_level("Basic"), DetailLevel::Standard);
    assert_eq!(parse_detail_level(""), DetailLevel::Standard);
}

#[test]
fn modes_from_options() {
    assert_eq!(parse_mode("speed"), Mode::SpeedTest);
    assert_eq!(parse_mode("diag"), Mode::Diagnostics);
    assert_eq!(parse_mode("history"), Mode::History);
    assert_eq!(parse_mode("full"), Mode::FullTest);
    assert_eq!(parse_mode("servers"), Mode::Servers);
    assert_eq!(parse_mode("menu"), Mode::Menu);
    assert_eq!(parse_mode("SPEED"), Mode::Menu);
}

#[test]
fn config_from_options() {
    let mut o = options(true, true, false, "speed");
    o.detail = "debug".to_string();
    o.test_size_mb = 50;
    let c = build_config(&o);
    assert_eq!(c.server_url, "https://httpbin.org");
    assert_eq!(c.test_size_mb, 50);
    assert_eq!(c.timeout_seconds, 30);
    assert!(c.json_output);
    assert!(!c.animation_enabled);
    assert_eq!(c.detail_level, DetailLevel::Debug);
    assert_eq!(c.max_servers, 3);
}

#[test]
fn launch_plans() {
    assert_eq!(plan_launch(&options(true, false, true, "diag")), Launch::JsonSpeedTest);
    assert_eq!(
        plan_launch(&options(false, false, false, "diag")),
        Launch::Interactive { animated_intro: true, mode: Mode::Diagnostics }
    );
    assert_eq!(
        plan_launch(&options(false, true, true, "diag")),
        Launch::Interactive { animated_intro: false, mode: Mode::History }
    );
    assert_eq!(
        plan_launch(&options(false, false, false, "other")),
        Launch::Interactive { animated_intro: true, mode: Mode::Menu }
    );
}

#[test]
fn menu_entries() {
    let labels = menu_options();
    assert_eq!(labels.len(), 7);
    assert_eq!(labels[0], "🚀 Run Speed Test");
    assert_eq!(labels[6], "❌ Exit");
    assert_eq!(menu_action(0), MenuAction::SpeedTest);
    assert_eq!(menu_action(4), MenuAction::Servers);
    assert_eq!(menu_action(5), MenuAction::Showcase);
    assert_eq!(menu_action(6), MenuAction::Exit);
    assert_eq!(menu_action(99), MenuAction::Exit);
}

#[test]
fn menu_answers() {
    for a in ["n", "N", " n\n", "\tN \r\n", "\u{3000}n\u{a0}"].iter() {
        assert!(declines_menu(a), "{:?}", a);
        assert_eq!(a.trim().to_lowercase() == "n", true);
    }
    for a in ["", "\n", "y", "Y\n", "no", "nn", "n n", "x"].iter() {
        assert!(!declines_menu(a), "{:?}", a);
        assert_eq!(a.trim().to_lowercase() == "n", false);
    }
}

#[test]
fn probed_servers() {
    let s = probe_servers();
    assert_eq!(s.len(), 6);
    assert_eq!(s[0], ("Cloudflare Global", "https://speed.cloudflare.com", "Global CDN"));
    assert_eq!(s[5], ("HTTPBin Test", "https://httpbin.org", "Global"));
}
