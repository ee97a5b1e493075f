//! The rules of a speed test run: which server it uses, how each transfer
//! phase is set up, when a phase gathered enough data, and how a measured
//! throughput is bounded or replaced by a fallback.
//!
//! The transfers themselves (parallel HTTP requests against the clock) and
//! the floating-point throughput arithmetic are the application's part.
//! Speeds reach this module as f64 bit patterns (see [`crate::float_bits`]).

use vstd::prelude::*;
use crate::float_bits::{float_gt, float_lt, gt, is_nan, lt, nan, order_key};
use crate::text::{seq_contains, str_contains};

verus! {

/// 1.0 as an f64 bit pattern.
pub const F64_ONE: u64 = 0x3FF0_0000_0000_0000;
/// 0.5 as an f64 bit pattern.
pub const F64_HALF: u64 = 0x3FE0_0000_0000_0000;
/// 10 000.0 as an f64 bit pattern.
pub const F64_10000: u64 = 0x40C3_8800_0000_0000;
/// 5 000.0 as an f64 bit pattern.
pub const F64_5000: u64 = 0x40B3_8800_0000_0000;
/// 25.0 as an f64 bit pattern: the download speed assumed when no
/// measurement worked.
pub const FALLBACK_DOWNLOAD: u64 = 0x4039_0000_0000_0000;
/// 5.0 as an f64 bit pattern: the upload speed the second phase reports when it
/// gathered too little data.
pub const FALLBACK_UPLOAD: u64 = 0x4014_0000_0000_0000;
/// 50.0 as an f64 bit pattern: the ping assumed when no probe answered.
pub const FALLBACK_PING: u64 = 0x4049_0000_0000_0000;
/// How many latency probes are sent.
pub const PING_PROBES: usize = 3;

/// The server a test runs against: name, address and where it serves
/// from. A server given with `--server` is used as it is, named "Custom
/// Server" and located by its address; without one the test runs against
/// Cloudflare's global network.
pub open spec fn server_choice(server_url: Seq<char>, given: bool) -> (Seq<char>, Seq<char>, Seq<char>) {
    if given {
        ("Custom Server"@, server_url, server_url)
    } else {
        ("Cloudflare"@, "https://speed.cloudflare.com"@, "Global CDN"@)
    }
}

/// Chooses the server a test runs against; `given` tells whether
/// `server_url` was set on the command line (rather than left at its
/// default).
pub fn chosen_server<'a>(server_url: &'a str, given: bool) -> (s: (&'a str, &'a str, &'a str))
    ensures
        (s.0@, s.1@, s.2@) == server_choice(server_url@, given),
{
    if given {
        ("Custom Server", server_url, server_url)
    } else {
        ("Cloudflare", "https://speed.cloudflare.com", "Global CDN")
    }
}

/// Whether a server address is one of Cloudflare's, whose own speed
/// endpoints are tried first.
pub fn uses_cloudflare(url: &str) -> (b: bool)
    ensures
        b == seq_contains(url@, "cloudflare.com"@),
{
    str_contains(url, "cloudflare.com")
}

/// A transfer phase of the test.
#[derive(Debug, Clone, Copy, PartialEq, Eq, Structural)]
pub enum Transfer {
    CloudflareDownload,
    MirrorDownload,
    /// A download from the server given on the command line.
    ServerDownload,
    CloudflareUpload,
    MirrorUpload,
    /// An upload to the server given on the command line.
    ServerUpload,
}

/// Whether the transfers run against the chosen server itself: it was given
/// on the command line and is not one of Cloudflare's (whose own speed
/// endpoints are used then).
pub open spec fn against_server(server_url: Seq<char>, given: bool) -> bool {
    given && !seq_contains(server_url, "cloudflare.com"@)
}

/// Whether the transfers run against the chosen server itself.
pub fn runs_against_server(server_url: &str, given: bool) -> (b: bool)
    ensures
        b == against_server(server_url@, given),
{
    given && !str_contains(server_url, "cloudflare.com")
}

/// The phase that runs when Cloudflare's own endpoint is not used or gave
/// too little data: the chosen server itself when it runs the transfers,
/// the public mirrors otherwise.
pub open spec fn second_phase_of(upload: bool, on_server: bool) -> Transfer {
    if upload {
        if on_server { Transfer::ServerUpload } else { Transfer::MirrorUpload }
    } else {
        if on_server { Transfer::ServerDownload } else { Transfer::MirrorDownload }
    }
}

/// The second phase of a download (`upload` false) or an upload.
pub fn second_phase(upload: bool, on_server: bool) -> (t: Transfer)
    ensures
        t == second_phase_of(upload, on_server),
{
    if upload {
        if on_server { Transfer::ServerUpload } else { Transfer::MirrorUpload }
    } else {
        if on_server { Transfer::ServerDownload } else { Transfer::MirrorDownload }
    }
}

/// How a transfer phase runs: parallel workers for a fixed time, each
/// upload sending bodies of a fixed size; the phase counts when it lasted
/// over a second and moved more than `min_bytes`; its speed is then bounded
/// to `[floor, ceiling]` (f64 bit patterns).
#[derive(Debug, Clone, Copy, PartialEq, Eq, Structural)]
pub struct TransferPlan {
    pub workers: usize,
    pub seconds: u64,
    pub body_bytes: usize,
    pub min_bytes: usize,
    pub floor: u64,
    pub ceiling: u64,
}

/// The plan of each phase.
pub open spec fn plan_of(t: Transfer) -> TransferPlan {
    match t {
        Transfer::CloudflareDownload => TransferPlan {
            workers: 8,
            seconds: 8,
            body_bytes: 0,
            min_bytes: 500_000,
            floor: F64_ONE,
            ceiling: F64_10000,
        },
        Transfer::MirrorDownload | Transfer::ServerDownload => TransferPlan {
            workers: 6,
            seconds: 8,
            body_bytes: 0,
            min_bytes: 500_000,
            floor: F64_ONE,
            ceiling: F64_10000,
        },
        Transfer::CloudflareUpload => TransferPlan {
            workers: 4,
            seconds: 8,
            body_bytes: 5_242_880,
            min_bytes: 200_000,
            floor: F64_HALF,
            ceiling: F64_5000,
        },
        Transfer::MirrorUpload | Transfer::ServerUpload => TransferPlan {
            workers: 3,
            seconds: 8,
            body_bytes: 2_097_152,
            min_bytes: 100_000,
            floor: F64_HALF,
            ceiling: F64_5000,
        },
    }
}

/// How a transfer phase runs.
pub fn transfer_plan(t: Transfer) -> (p: TransferPlan)
    ensures
        p == plan_of(t),
{
    match t {
        Transfer::CloudflareDownload => TransferPlan {
            workers: 8,
            seconds: 8,
            body_bytes: 0,
            min_bytes: 500_000,
            floor: F64_ONE,
            ceiling: F64_10000,
        },
        Transfer::MirrorDownload | Transfer::ServerDownload => TransferPlan {
            workers: 6,
            seconds: 8,
            body_bytes: 0,
            min_bytes: 500_000,
            floor: F64_ONE,
            ceiling: F64_10000,
        },
        Transfer::CloudflareUpload => TransferPlan {
            workers: 4,
            seconds: 8,
            body_bytes: 5_242_880,
            min_bytes: 200_000,
            floor: F64_HALF,
            ceiling: F64_5000,
        },
        Transfer::MirrorUpload | Transfer::ServerUpload => TransferPlan {
            workers: 3,
            seconds: 8,
            body_bytes: 2_097_152,
            min_bytes: 100_000,
            floor: F64_HALF,
            ceiling: F64_5000,
        },
    }
}

/// The address each worker of a phase uses: Cloudflare's endpoint, the
/// mirrors taken in turn, or the chosen server `server`.
pub open spec fn endpoint_of(t: Transfer, worker: nat, server: Seq<char>) -> Seq<char> {
    match t {
        Transfer::CloudflareDownload => "https://speed.cloudflare.com/__down?bytes=25000000"@,
        Transfer::CloudflareUpload => "https://speed.cloudflare.com/__up"@,
        Transfer::MirrorDownload => if worker % 3 == 0 {
            "https://proof.ovh.net/files/100Mb.dat"@
        } else if worker % 3 == 1 {
            "http://speedtest.bouyguestelecom.fr/100Mo.dat"@
        } else {
            "http://ping.online.net/100Mo.dat"@
        },
        Transfer::MirrorUpload => if worker % 2 == 0 {
            "https://httpbin.org/post"@
        } else {
            "https://postman-echo.com/post"@
        },
        Transfer::ServerDownload | Transfer::ServerUpload => server,
    }
}

/// The address worker `worker` of a phase uses when the chosen server is
/// `server`.
pub fn endpoint<'a>(t: Transfer, worker: usize, server: &'a str) -> (s: &'a str)
    ensures
        s@ == endpoint_of(t, worker as nat, server@),
{
    match t {
        Transfer::CloudflareDownload => "https://speed.cloudflare.com/__down?bytes=25000000",
        Transfer::CloudflareUpload => "https://speed.cloudflare.com/__up",
        Transfer::MirrorDownload => {
            let k = worker % 3;
            if k == 0 {
                "https://proof.ovh.net/files/100Mb.dat"
            } else if k == 1 {
                "http://speedtest.bouyguestelecom.fr/100Mo.dat"
            } else {
                "http://ping.online.net/100Mo.dat"
            }
        },
        Transfer::MirrorUpload => {
            if worker % 2 == 0 {
                "https://httpbin.org/post"
            } else {
                "https://postman-echo.com/post"
            }
        },
        Transfer::ServerDownload | Transfer::ServerUpload => server,
    }
}

/// Whether a phase moved enough data to yield a speed: it lasted over a
/// second and moved more than its minimum.
pub fn enough_data(t: Transfer, lasted_over_a_second: bool, bytes: usize) -> (b: bool)
    ensures
        b == (lasted_over_a_second && bytes > plan_of(t).min_bytes),
{
    let plan = transfer_plan(t);
    lasted_over_a_second && bytes > plan.min_bytes
}

/// `f64::clamp` on bit patterns for bounds that are not NaN with
/// `lo <= hi`: a value above `hi` gives `hi`, one below `lo` gives `lo`,
/// anything else (NaN too) is kept.
pub open spec fn clamped(x: u64, lo: u64, hi: u64) -> u64 {
    if gt(x, hi) {
        hi
    } else if lt(x, lo) {
        lo
    } else {
        x
    }
}

/// Bounds a speed to the range of a phase.
pub fn clamp_speed(x: u64, lo: u64, hi: u64) -> (r: u64)
    requires
        !is_nan(lo),
        !is_nan(hi),
        order_key(lo) <= order_key(hi),
    ensures
        r == clamped(x, lo, hi),
{
    if float_gt(x, hi) {
        hi
    } else if float_lt(x, lo) {
        lo
    } else {
        x
    }
}

/// The speed a phase reports from a measurement (a bit pattern, `None` when
/// it gathered too little data): the measurement bounded to the phase's
/// range.
pub open spec fn phase_speed(t: Transfer, measured: Option<u64>) -> Option<u64> {
    match measured {
        Some(x) => Some(clamped(x, plan_of(t).floor, plan_of(t).ceiling)),
        None => None,
    }
}

/// The speed of a phase, or `None` when it gathered too little data.
pub fn bounded_speed(t: Transfer, measured: Option<u64>) -> (r: Option<u64>)
    ensures
        r == phase_speed(t, measured),
{
    match measured {
        Some(x) => {
            let plan = transfer_plan(t);
            Some(clamp_speed(x, plan.floor, plan.ceiling))
        },
        None => None,
    }
}

/// The download speed of a test. Against Cloudflare its own endpoint is
/// tried first and the second phase (see `second_phase_of`) after it fails;
/// otherwise the second phase alone runs. The second phase reports 25 Mbps
/// when it gathers too little. `cloudflare` and `second` are what the
/// phases gave (`None`: too little data); a phase that did not run is
/// ignored.
pub open spec fn download_speed_of(on_cloudflare: bool, cloudflare: Option<u64>, second: Option<
    u64,
>) -> u64 {
    if on_cloudflare && cloudflare is Some {
        cloudflare->0
    } else {
        match second {
            Some(x) => x,
            None => FALLBACK_DOWNLOAD,
        }
    }
}

/// Chooses the download speed of a test.
pub fn download_speed(on_cloudflare: bool, cloudflare: Option<u64>, second: Option<u64>) -> (r:
    u64)
    ensures
        r == download_speed_of(on_cloudflare, cloudflare, second),
        on_cloudflare && cloudflare is Some ==> r == cloudflare->0,
        !(on_cloudflare && cloudflare is Some) && second is Some ==> r == second->0,
        !(on_cloudflare && cloudflare is Some) && second is None ==> r == FALLBACK_DOWNLOAD,
{
    if on_cloudflare {
        match cloudflare {
            Some(x) => {
                return x;
            },
            None => {},
        }
    }
    match second {
        Some(x) => x,
        None => FALLBACK_DOWNLOAD,
    }
}

/// The upload speed of a test. Against Cloudflare its own endpoint is tried
/// first and the second phase after it fails; otherwise the second phase
/// alone runs. The second phase reports 5 Mbps when it gathers too little.
pub open spec fn upload_speed_of(on_cloudflare: bool, cloudflare: Option<u64>, second: Option<
    u64,
>) -> u64 {
    if on_cloudflare && cloudflare is Some {
        cloudflare->0
    } else {
        match second {
            Some(x) => x,
            None => FALLBACK_UPLOAD,
        }
    }
}

/// Chooses the upload speed of a test.
pub fn upload_speed(on_cloudflare: bool, cloudflare: Option<u64>, second: Option<u64>) -> (r: u64)
    ensures
        r == upload_speed_of(on_cloudflare, cloudflare, second),
        on_cloudflare && cloudflare is Some ==> r == cloudflare->0,
        !(on_cloudflare && cloudflare is Some) && second is Some ==> r == second->0,
        !(on_cloudflare && cloudflare is Some) && second is None ==> r == FALLBACK_UPLOAD,
{
    if on_cloudflare {
        match cloudflare {
            Some(x) => {
                return x;
            },
            None => {},
        }
    }
    match second {
        Some(x) => x,
        None => FALLBACK_UPLOAD,
    }
}

/// Which measurement a test reports. Against Cloudflare, a speed that
/// Cloudflare's own endpoint gave is the one reported, whatever the second
/// phase gave; when that endpoint gave none, or the server is another, the
/// second phase's speed is reported, and its fallback when it gathered too
/// little. Off Cloudflare, what Cloudflare's endpoint would have given
/// plays no part.
pub proof fn lemma_reported_speeds(x: u64, cloudflare: Option<u64>, second: Option<u64>)
    ensures
        download_speed_of(true, Some(x), second) == x,
        upload_speed_of(true, Some(x), second) == x,
        download_speed_of(true, None, Some(x)) == x,
        upload_speed_of(true, None, Some(x)) == x,
        download_speed_of(false, cloudflare, Some(x)) == x,
        upload_speed_of(false, cloudflare, Some(x)) == x,
        download_speed_of(false, cloudflare, second) == download_speed_of(false, None, second),
        upload_speed_of(false, cloudflare, second) == upload_speed_of(false, None, second),
        download_speed_of(true, None, None) == FALLBACK_DOWNLOAD,
        upload_speed_of(true, None, None) == FALLBACK_UPLOAD,
        download_speed_of(false, cloudflare, None) == FALLBACK_DOWNLOAD,
        upload_speed_of(false, cloudflare, None) == FALLBACK_UPLOAD,
{
}

/// The ping of a test: the average of the probes that answered (an f64 bit
/// pattern), or 50 ms when none did.
pub fn ping_estimate(average: Option<u64>) -> (r: u64)
    ensures
        r == (match average {
            Some(a) => a,
            None => FALLBACK_PING,
        }),
{
    match average {
        Some(a) => a,
        None => FALLBACK_PING,
    }
}

/// A server given on the command line that is not one of Cloudflare's is
/// the one measured: it is the chosen address and location, and every
/// worker of every transfer that runs (only the second phases do) uses it.
pub proof fn lemma_given_server_is_measured(server_url: Seq<char>, upload: bool, worker: nat)
    requires
        against_server(server_url, true),
    ensures
        server_choice(server_url, true).1 == server_url,
        server_choice(server_url, true).2 == server_url,
        !seq_contains(server_choice(server_url, true).1, "cloudflare.com"@),
        endpoint_of(second_phase_of(upload, true), worker, server_url) == server_url,
{
}

/// A measured speed that is not NaN stays within the bounds of its phase.
pub proof fn lemma_phase_speed_bounded(t: Transfer, x: u64)
    requires
        !is_nan(x),
    ensures
        ({
            let r = phase_speed(t, Some(x))->0;
            order_key(plan_of(t).floor) <= order_key(r) <= order_key(plan_of(t).ceiling)
        }),
{
}

/// Whether a phase sends data (an upload) rather than fetching it.
pub open spec fn is_upload(t: Transfer) -> bool {
    t == Transfer::CloudflareUpload || t == Transfer::MirrorUpload || t == Transfer::ServerUpload
}

/// Whether a phase runs against the chosen server itself.
pub open spec fn is_on_server(t: Transfer) -> bool {
    t == Transfer::ServerDownload || t == Transfer::ServerUpload
}

/// The phases keep to their kind and setup: the second phase of an upload
/// is an upload and of a download a download, and it runs against the
/// chosen server exactly when that server runs the transfers; uploads send
/// bodies and downloads none; every phase runs workers for eight seconds
/// with a floor below its ceiling; the mirrors are taken in turn, three
/// for downloads and two for uploads; Cloudflare's endpoints are the same
/// for every worker and server; and the phases against the chosen server
/// use it for every worker.
pub proof fn lemma_transfer_rules(
    upload: bool,
    on_server: bool,
    t: Transfer,
    worker: nat,
    server: Seq<char>,
    other_worker: nat,
    other_server: Seq<char>,
)
    ensures
        is_upload(second_phase_of(upload, on_server)) == upload,
        is_on_server(second_phase_of(upload, on_server)) == on_server,
        second_phase_of(upload, on_server) != Transfer::CloudflareDownload,
        second_phase_of(upload, on_server) != Transfer::CloudflareUpload,
        plan_of(t).body_bytes > 0 <==> is_upload(t),
        plan_of(t).seconds == 8,
        plan_of(t).workers > 0,
        order_key(plan_of(t).floor) < order_key(plan_of(t).ceiling),
        endpoint_of(Transfer::MirrorDownload, worker + 3, server) == endpoint_of(
            Transfer::MirrorDownload,
            worker,
            other_server,
        ),
        endpoint_of(Transfer::MirrorUpload, worker + 2, server) == endpoint_of(
            Transfer::MirrorUpload,
            worker,
            other_server,
        ),
        endpoint_of(Transfer::CloudflareDownload, worker, server) == endpoint_of(
            Transfer::CloudflareDownload,
            other_worker,
            other_server,
        ),
        endpoint_of(Transfer::CloudflareUpload, worker, server) == endpoint_of(
            Transfer::CloudflareUpload,
            other_worker,
            other_server,
        ),
        is_on_server(t) ==> endpoint_of(t, worker, server) == server,
{
    assert((worker + 3) % 3 == worker % 3);
    assert((worker + 2) % 2 == worker % 2);
    assert(order_key(F64_ONE) < order_key(F64_10000));
    assert(order_key(F64_HALF) < order_key(F64_5000));
}

/// A phase yields a speed exactly when it gathered enough data, and a
/// measurement already within the phase's bounds is reported as it is.
pub proof fn lemma_phase_speed_keeps(t: Transfer, measured: Option<u64>)
    ensures
        phase_speed(t, measured) is Some <==> measured is Some,
        measured is Some && !is_nan(measured->0) && order_key(plan_of(t).floor) <= order_key(
            measured->0,
        ) <= order_key(plan_of(t).ceiling) ==> phase_speed(t, measured) == measured,
{
}

} // verus!
