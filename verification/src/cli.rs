//! How the command line and the interactive menu are interpreted: the test
//! configuration built from the options, what the program does first, which
//! menu entry runs what, and when the menu loop ends.
//!
//! Reading the arguments, the terminal and the keyboard is the application's
//! part; it hands the option values and the answers in as plain values.

use vstd::prelude::*;
use crate::modules::types::{DetailLevel, TestConfig};
use crate::text::str_eq;

verus! {

/// How many servers a test tries.
pub const MAX_SERVERS: usize = 3;

/// The option values of a command line, after their defaults were applied.
pub struct CliOptions {
    pub server_url: String,
    /// Whether `--server` was given (rather than left at its default).
    pub server_given: bool,
    pub test_size_mb: u64,
    pub timeout_seconds: u64,
    pub json: bool,
    pub no_animation: bool,
    pub detail: String,
    pub mode: String,
    pub debug_servers: bool,
    pub history: bool,
}

/// The detail level an option value names; unknown values mean Standard.
pub open spec fn detail_named(s: Seq<char>) -> DetailLevel {
    if s == "basic"@ {
        DetailLevel::Basic
    } else if s == "detailed"@ {
        DetailLevel::Detailed
    } else if s == "debug"@ {
        DetailLevel::Debug
    } else {
        DetailLevel::Standard
    }
}

/// The option value that names a detail level.
pub open spec fn detail_option(d: DetailLevel) -> Seq<char> {
    match d {
        DetailLevel::Basic => "basic"@,
        DetailLevel::Standard => "standard"@,
        DetailLevel::Detailed => "detailed"@,
        DetailLevel::Debug => "debug"@,
    }
}

/// Each detail level is chosen by its own option value, and only by it: a
/// value that names no other level means Standard.
pub proof fn lemma_detail_option_round_trip(d: DetailLevel, s: Seq<char>)
    ensures
        detail_named(detail_option(d)) == d,
        detail_named(s) != DetailLevel::Standard ==> s == detail_option(detail_named(s)),
{
    reveal_strlit("basic");
    reveal_strlit("standard");
    reveal_strlit("detailed");
    reveal_strlit("debug");
    assert("detailed"@[0] != "basic"@[0]);
    assert("debug"@[0] != "basic"@[0]);
    assert("debug"@[2] != "detailed"@[2]);
    assert("standard"@[0] != "basic"@[0]);
    assert("standard"@[0] != "detailed"@[0]);
    assert("standard"@[0] != "debug"@[0]);
}

/// Reads the detail level option.
pub fn parse_detail_level(s: &str) -> (d: DetailLevel)
    ensures
        d == detail_named(s@),
{
    if str_eq(s, "basic") {
        DetailLevel::Basic
    } else if str_eq(s, "detailed") {
        DetailLevel::Detailed
    } else if str_eq(s, "debug") {
        DetailLevel::Debug
    } else {
        DetailLevel::Standard
    }
}

/// What the program runs.
#[derive(Debug, Clone, Copy, PartialEq, Eq, Structural)]
pub enum Mode {
    SpeedTest,
    Diagnostics,
    History,
    FullTest,
    Servers,
    /// The interactive menu.
    Menu,
}

/// The mode an option value names; unknown values open the menu.
pub open spec fn mode_named(s: Seq<char>) -> Mode {
    if s == "speed"@ {
        Mode::SpeedTest
    } else if s == "diag"@ {
        Mode::Diagnostics
    } else if s == "history"@ {
        Mode::History
    } else if s == "full"@ {
        Mode::FullTest
    } else if s == "servers"@ {
        Mode::Servers
    } else {
        Mode::Menu
    }
}

/// The option value that names a mode.
pub open spec fn mode_option(m: Mode) -> Seq<char> {
    match m {
        Mode::SpeedTest => "speed"@,
        Mode::Diagnostics => "diag"@,
        Mode::History => "history"@,
        Mode::FullTest => "full"@,
        Mode::Servers => "servers"@,
        Mode::Menu => "menu"@,
    }
}

/// Each mode is chosen by its own option value, and only by it: a value
/// that names no mode opens the menu.
pub proof fn lemma_mode_option_round_trip(m: Mode, s: Seq<char>)
    ensures
        mode_named(mode_option(m)) == m,
        mode_named(s) != Mode::Menu ==> s == mode_option(mode_named(s)),
{
    reveal_strlit("speed");
    reveal_strlit("diag");
    reveal_strlit("history");
    reveal_strlit("full");
    reveal_strlit("servers");
    reveal_strlit("menu");
    assert("diag"@[0] != "speed"@[0]);
    assert("history"@[0] != "speed"@[0]);
    assert("history"@[0] != "diag"@[0]);
    assert("full"@[0] != "speed"@[0]);
    assert("full"@[0] != "diag"@[0]);
    assert("full"@[0] != "history"@[0]);
    assert("servers"@[1] != "speed"@[1]);
    assert("servers"@[0] != "diag"@[0]);
    assert("servers"@[0] != "history"@[0]);
    assert("servers"@[0] != "full"@[0]);
    assert("menu"@[0] != "speed"@[0]);
    assert("menu"@[0] != "diag"@[0]);
    assert("menu"@[0] != "history"@[0]);
    assert("menu"@[0] != "full"@[0]);
    assert("menu"@[0] != "servers"@[0]);
}

/// Reads the mode option.
pub fn parse_mode(s: &str) -> (m: Mode)
    ensures
        m == mode_named(s@),
{
    if str_eq(s, "speed") {
        Mode::SpeedTest
    } else if str_eq(s, "diag") {
        Mode::Diagnostics
    } else if str_eq(s, "history") {
        Mode::History
    } else if str_eq(s, "full") {
        Mode::FullTest
    } else if str_eq(s, "servers") {
        Mode::Servers
    } else {
        Mode::Menu
    }
}

/// The test configuration the options give.
pub fn build_config(options: &CliOptions) -> (c: TestConfig)
    ensures
        c.server_url@ == options.server_url@,
        c.test_size_mb == options.test_size_mb,
        c.timeout_seconds == options.timeout_seconds,
        c.json_output == options.json,
        c.animation_enabled == !options.no_animation,
        c.detail_level == detail_named(options.detail@),
        c.max_servers == MAX_SERVERS,
{
    TestConfig {
        server_url: options.server_url.clone(),
        test_size_mb: options.test_size_mb,
        timeout_seconds: options.timeout_seconds,
        json_output: options.json,
        animation_enabled: !options.no_animation,
        detail_level: parse_detail_level(options.detail.as_str()),
        max_servers: MAX_SERVERS,
    }
}

/// What the program does after reading its options.
#[derive(Debug, Clone, Copy, PartialEq, Eq, Structural)]
pub enum Launch {
    /// Run a speed test and print it as JSON, with no intro and no banner.
    JsonSpeedTest,
    /// Show the intro (animated or plain) and the banner, then run `mode`.
    Interactive { animated_intro: bool, mode: Mode },
}

/// The launch the options ask for: JSON output goes straight to a speed
/// test; otherwise the history flag wins over the mode option.
pub open spec fn launch_for(json: bool, no_animation: bool, history: bool, mode: Seq<char>) -> Launch {
    if json {
        Launch::JsonSpeedTest
    } else {
        Launch::Interactive {
            animated_intro: !no_animation,
            mode: if history { Mode::History } else { mode_named(mode) },
        }
    }
}

/// Decides what the program does first.
pub fn plan_launch(options: &CliOptions) -> (l: Launch)
    ensures
        l == launch_for(options.json, options.no_animation, options.history, options.mode@),
{
    if options.json {
        Launch::JsonSpeedTest
    } else {
        let mode = if options.history {
            Mode::History
        } else {
            parse_mode(options.mode.as_str())
        };
        Launch::Interactive { animated_intro: !options.no_animation, mode }
    }
}

/// An entry of the interactive menu.
#[derive(Debug, Clone, Copy, PartialEq, Eq, Structural)]
pub enum MenuAction {
    SpeedTest,
    Diagnostics,
    History,
    FullTest,
    /// Test all servers, with the detailed listing.
    Servers,
    Showcase,
    Exit,
}

/// The entries of the menu, in the order shown.
pub open spec fn menu_labels() -> Seq<Seq<char>> {
    seq![
        "🚀 Run Speed Test"@,
        "🔍 Run Network Diagnostics"@,
        "📈 View Test History"@,
        "🌐 Full Network Analysis"@,
        "🛠️ Test All Servers"@,
        "🎮 Animation Showcase"@,
        "❌ Exit"@,
    ]
}

/// The entries of the menu.
pub fn menu_options() -> (v: Vec<&'static str>)
    ensures
        v@.len() == menu_labels().len(),
        forall|i: int| 0 <= i < v@.len() ==> #[trigger] v@[i]@ == menu_labels()[i],
{
    let v = vec![
        "🚀 Run Speed Test",
        "🔍 Run Network Diagnostics",
        "📈 View Test History",
        "🌐 Full Network Analysis",
        "🛠️ Test All Servers",
        "🎮 Animation Showcase",
        "❌ Exit",
    ];
    v
}

/// The action of the entry at `selection`; anything past the sixth exits.
pub open spec fn action_at(selection: nat) -> MenuAction {
    if selection == 0 {
        MenuAction::SpeedTest
    } else if selection == 1 {
        MenuAction::Diagnostics
    } else if selection == 2 {
        MenuAction::History
    } else if selection == 3 {
        MenuAction::FullTest
    } else if selection == 4 {
        MenuAction::Servers
    } else if selection == 5 {
        MenuAction::Showcase
    } else {
        MenuAction::Exit
    }
}

/// The menu entry that runs an action.
pub open spec fn action_label(a: MenuAction) -> Seq<char> {
    match a {
        MenuAction::SpeedTest => "🚀 Run Speed Test"@,
        MenuAction::Diagnostics => "🔍 Run Network Diagnostics"@,
        MenuAction::History => "📈 View Test History"@,
        MenuAction::FullTest => "🌐 Full Network Analysis"@,
        MenuAction::Servers => "🛠️ Test All Servers"@,
        MenuAction::Showcase => "🎮 Animation Showcase"@,
        MenuAction::Exit => "❌ Exit"@,
    }
}

/// Each menu entry runs the action its label names, and every selection
/// past the last entry exits.
pub proof fn lemma_menu_entries_run_their_actions()
    ensures
        forall|i: nat| i < 7 ==> action_label(#[trigger] action_at(i)) == menu_labels()[i as int],
        forall|i: nat| i >= 6 ==> #[trigger] action_at(i) == MenuAction::Exit,
        action_at(0) == MenuAction::SpeedTest,
        action_at(1) == MenuAction::Diagnostics,
        action_at(2) == MenuAction::History,
        action_at(3) == MenuAction::FullTest,
        action_at(4) == MenuAction::Servers,
        action_at(5) == MenuAction::Showcase,
{
    assert forall|i: nat| i < 7 implies action_label(#[trigger] action_at(i))
        == menu_labels()[i as int] by {
        if i == 0 {
        } else if i == 1 {
        } else if i == 2 {
        } else if i == 3 {
        } else if i == 4 {
        } else if i == 5 {
        } else {
        }
    }
}

/// The action of a menu selection.
pub fn menu_action(selection: usize) -> (a: MenuAction)
    ensures
        a == action_at(selection as nat),
        selection < 7 ==> action_label(a) == menu_labels()[selection as int],
        selection >= 6 ==> a == MenuAction::Exit,
{
    match selection {
        0 => MenuAction::SpeedTest,
        1 => MenuAction::Diagnostics,
        2 => MenuAction::History,
        3 => MenuAction::FullTest,
        4 => MenuAction::Servers,
        5 => MenuAction::Showcase,
        _ => MenuAction::Exit,
    }
}

/// The characters that `str::trim` removes: those with the Unicode
/// `White_Space` property.
pub open spec fn is_white_space(c: char) -> bool {
    ||| '\u{9}' <= c <= '\u{d}'
    ||| c == ' '
    ||| c == '\u{85}'
    ||| c == '\u{a0}'
    ||| c == '\u{1680}'
    ||| '\u{2000}' <= c <= '\u{200a}'
    ||| c == '\u{2028}'
    ||| c == '\u{2029}'
    ||| c == '\u{202f}'
    ||| c == '\u{205f}'
    ||| c == '\u{3000}'
}

fn white_space(c: char) -> (b: bool)
    ensures
        b == is_white_space(c),
{
    ('\u{9}' <= c && c <= '\u{d}') || c == ' ' || c == '\u{85}' || c == '\u{a0}' || c == '\u{1680}'
        || ('\u{2000}' <= c && c <= '\u{200a}') || c == '\u{2028}' || c == '\u{2029}' || c
        == '\u{202f}' || c == '\u{205f}' || c == '\u{3000}'
}

/// Whether an answer to "Return to main menu? [Y/n]" declines: trimmed of
/// white space and lowercased it reads `n`. That is, it holds one `n` or
/// `N` and white space only besides.
pub open spec fn declines(answer: Seq<char>) -> bool {
    exists|i: int|
        0 <= i < answer.len() && (answer[i] == 'n' || answer[i] == 'N') && forall|j: int|
            0 <= j < answer.len() && j != i ==> is_white_space(#[trigger] answer[j])
}

/// Whether the answer ends the menu loop.
pub fn declines_menu(answer: &str) -> (b: bool)
    ensures
        b == declines(answer@),
{
    let n = answer.unicode_len();
    let mut found: bool = false;
    let mut at: usize = 0;
    let mut i: usize = 0;
    while i < n
        invariant
            n == answer@.len(),
            i <= n,
            found ==> at < i && (answer@[at as int] == 'n' || answer@[at as int] == 'N'),
            forall|j: int|
                0 <= j < i && !(found && j == at) ==> is_white_space(#[trigger] answer@[j]),
        decreases n - i,
    {
        let c = answer.get_char(i);
        if !white_space(c) {
            if found || !(c == 'n' || c == 'N') {
                proof {
                    if declines(answer@) {
                        let k = choose|k: int|
                            0 <= k < answer@.len() && (answer@[k] == 'n' || answer@[k] == 'N')
                                && forall|j: int|
                                0 <= j < answer@.len() && j != k ==> is_white_space(
                                    #[trigger] answer@[j],
                                );
                        if found {
                            assert(k == i || k == at);
                        }
                    }
                }
                return false;
            }
            found = true;
            at = i;
        }
        i = i + 1;
    }
    if !found {
        proof {
            if declines(answer@) {
                let k = choose|k: int|
                    0 <= k < answer@.len() && (answer@[k] == 'n' || answer@[k] == 'N') && forall|
                        j: int,
                    |
                        0 <= j < answer@.len() && j != k ==> is_white_space(#[trigger] answer@[j]);
                assert(is_white_space(answer@[k]));
            }
        }
    }
    found
}

/// A server that the server analysis probes: name, address and where it
/// serves from.
pub open spec fn probe_server_list() -> Seq<(Seq<char>, Seq<char>, Seq<char>)> {
    seq![
        ("Cloudflare Global"@, "https://speed.cloudflare.com"@, "Global CDN"@),
        ("Cloudflare US"@, "https://cloudflare.com"@, "United States"@),
        ("Cloudflare EU"@, "https://1.1.1.1"@, "Europe"@),
        ("Google Global"@, "https://www.google.com"@, "Global CDN"@),
        ("Netflix Fast.com"@, "https://fast.com"@, "Netflix CDN"@),
        ("HTTPBin Test"@, "https://httpbin.org"@, "Global"@),
    ]
}

/// The servers the server analysis probes, in order.
pub fn probe_servers() -> (v: Vec<(&'static str, &'static str, &'static str)>)
    ensures
        v@.len() == probe_server_list().len(),
        forall|i: int|
            0 <= i < v@.len() ==> (#[trigger] v@[i]).0@ == probe_server_list()[i].0 && v@[i].1@
                == probe_server_list()[i].1 && v@[i].2@ == probe_server_list()[i].2,
{
    vec![
        ("Cloudflare Global", "https://speed.cloudflare.com", "Global CDN"),
        ("Cloudflare US", "https://cloudflare.com", "United States"),
        ("Cloudflare EU", "https://1.1.1.1", "Europe"),
        ("Google Global", "https://www.google.com", "Global CDN"),
        ("Netflix Fast.com", "https://fast.com", "Netflix CDN"),
        ("HTTPBin Test", "https://httpbin.org", "Global"),
    ]
}

} // verus!
