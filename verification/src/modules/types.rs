//! The rating of a connection, the output detail level and the test
//! configuration.
//!
//! Speeds and latencies are measured as `f64`; they reach this module as the
//! bit patterns of those values (see [`crate::float_bits`]).

use vstd::prelude::*;
use crate::float_bits::{float_ge, float_gt, float_lt, ge, gt, lt};
use crate::text::str_eq;

verus! {

/// 100.0 as an f64 bit pattern.
pub const F64_100: u64 = 0x4059_0000_0000_0000;
/// 50.0 as an f64 bit pattern.
pub const F64_50: u64 = 0x4049_0000_0000_0000;
/// 25.0 as an f64 bit pattern.
pub const F64_25: u64 = 0x4039_0000_0000_0000;
/// 20.0 as an f64 bit pattern.
pub const F64_20: u64 = 0x4034_0000_0000_0000;
/// 10.0 as an f64 bit pattern.
pub const F64_10: u64 = 0x4024_0000_0000_0000;
/// 5.0 as an f64 bit pattern.
pub const F64_5: u64 = 0x4014_0000_0000_0000;
/// 2.0 as an f64 bit pattern.
pub const F64_2: u64 = 0x4000_0000_0000_0000;
/// 150.0 as an f64 bit pattern.
pub const F64_150: u64 = 0x4062_C000_0000_0000;
/// 0.0 as an f64 bit pattern.
pub const F64_0: u64 = 0;

/// Represents the quality rating of a network connection
#[derive(Debug, Clone, Copy, PartialEq, Eq, Structural, Hash)]
pub enum ConnectionQuality {
    Excellent,
    Good,
    Average,
    Poor,
    VeryPoor,
    Failed,
}

/// The rating that the thresholds give for a download speed, an upload
/// speed (both in Mbps) and a ping (in ms), each an f64 bit pattern.
///
/// | rating    | download | upload | ping   |
/// |-----------|----------|--------|--------|
/// | Excellent | >= 100   | >= 20  | < 20   |
/// | Good      | >= 50    | >= 10  | < 50   |
/// | Average   | >= 25    | >= 5   | < 100  |
/// | Poor      | >= 10    | >= 2   | < 150  |
///
/// The first row that all three meet wins; otherwise the rating is
/// VeryPoor when both speeds are above zero, and Failed when not.
pub open spec fn rating(download: u64, upload: u64, ping: u64) -> ConnectionQuality {
    if ge(download, F64_100) && ge(upload, F64_20) && lt(ping, F64_20) {
        ConnectionQuality::Excellent
    } else if ge(download, F64_50) && ge(upload, F64_10) && lt(ping, F64_50) {
        ConnectionQuality::Good
    } else if ge(download, F64_25) && ge(upload, F64_5) && lt(ping, F64_100) {
        ConnectionQuality::Average
    } else if ge(download, F64_10) && ge(upload, F64_2) && lt(ping, F64_150) {
        ConnectionQuality::Poor
    } else if gt(download, F64_0) && gt(upload, F64_0) {
        ConnectionQuality::VeryPoor
    } else {
        ConnectionQuality::Failed
    }
}

impl ConnectionQuality {
    /// The place of a rating on the scale: Failed is 0, Excellent is 5.
    pub open spec fn rank(self) -> nat {
        match self {
            ConnectionQuality::Excellent => 5,
            ConnectionQuality::Good => 4,
            ConnectionQuality::Average => 3,
            ConnectionQuality::Poor => 2,
            ConnectionQuality::VeryPoor => 1,
            ConnectionQuality::Failed => 0,
        }
    }

    /// The name under which a rating is shown and parsed.
    pub open spec fn label(self) -> Seq<char> {
        match self {
            ConnectionQuality::Excellent => "Excellent"@,
            ConnectionQuality::Good => "Good"@,
            ConnectionQuality::Average => "Average"@,
            ConnectionQuality::Poor => "Poor"@,
            ConnectionQuality::VeryPoor => "Very Poor"@,
            ConnectionQuality::Failed => "Failed"@,
        }
    }

    /// Rates a connection. Each argument is the `f64::to_bits` pattern of
    /// the measurement: download and upload in Mbps, ping in ms.
    pub fn from_speed_and_ping(download_mbps: u64, upload_mbps: u64, ping_ms: u64) -> (q: Self)
        ensures
            q == rating(download_mbps, upload_mbps, ping_ms),
    {
        if float_ge(download_mbps, F64_100) && float_ge(upload_mbps, F64_20) && float_lt(
            ping_ms,
            F64_20,
        ) {
            ConnectionQuality::Excellent
        } else if float_ge(download_mbps, F64_50) && float_ge(upload_mbps, F64_10) && float_lt(
            ping_ms,
            F64_50,
        ) {
            ConnectionQuality::Good
        } else if float_ge(download_mbps, F64_25) && float_ge(upload_mbps, F64_5) && float_lt(
            ping_ms,
            F64_100,
        ) {
            ConnectionQuality::Average
        } else if float_ge(download_mbps, F64_10) && float_ge(upload_mbps, F64_2) && float_lt(
            ping_ms,
            F64_150,
        ) {
            ConnectionQuality::Poor
        } else if float_gt(download_mbps, F64_0) && float_gt(upload_mbps, F64_0) {
            ConnectionQuality::VeryPoor
        } else {
            ConnectionQuality::Failed
        }
    }

    /// The display name of the rating ("Very Poor" for `VeryPoor`).
    pub fn to_string(&self) -> (s: String)
        ensures
            s@ == self.label(),
    {
        let name: &str = match self {
            ConnectionQuality::Excellent => "Excellent",
            ConnectionQuality::Good => "Good",
            ConnectionQuality::Average => "Average",
            ConnectionQuality::Poor => "Poor",
            ConnectionQuality::VeryPoor => "Very Poor",
            ConnectionQuality::Failed => "Failed",
        };
        proof {
            reveal_strlit("Excellent");
            reveal_strlit("Good");
            reveal_strlit("Average");
            reveal_strlit("Poor");
            reveal_strlit("Very Poor");
            reveal_strlit("Failed");
        }
        name.to_owned()
    }

    /// Parses a display name back into the rating; any other text is refused.
    pub fn from_label(s: &str) -> (q: Option<Self>)
        ensures
            q matches Some(v) ==> v.label() == s@,
            q is None ==> forall|v: ConnectionQuality| v.label() != s@,
    {
        proof {
            reveal_strlit("Excellent");
            reveal_strlit("Good");
            reveal_strlit("Average");
            reveal_strlit("Poor");
            reveal_strlit("Very Poor");
            reveal_strlit("Failed");
        }
        if str_eq(s, "Excellent") {
            Some(ConnectionQuality::Excellent)
        } else if str_eq(s, "Good") {
            Some(ConnectionQuality::Good)
        } else if str_eq(s, "Average") {
            Some(ConnectionQuality::Average)
        } else if str_eq(s, "Poor") {
            Some(ConnectionQuality::Poor)
        } else if str_eq(s, "Very Poor") {
            Some(ConnectionQuality::VeryPoor)
        } else if str_eq(s, "Failed") {
            Some(ConnectionQuality::Failed)
        } else {
            proof {
                assert forall|v: ConnectionQuality| v.label() != s@ by {
                    match v {
                        ConnectionQuality::Excellent => {},
                        ConnectionQuality::Good => {},
                        ConnectionQuality::Average => {},
                        ConnectionQuality::Poor => {},
                        ConnectionQuality::VeryPoor => {},
                        ConnectionQuality::Failed => {},
                    }
                }
            }
            None
        }
    }
}

/// Better measurements never give a worse rating: a download and an upload
/// at least as fast and a ping at most as long rate at least as high.
pub proof fn lemma_rating_monotone(d1: u64, u1: u64, p1: u64, d2: u64, u2: u64, p2: u64)
    requires
        ge(d2, d1),
        ge(u2, u1),
        ge(p1, p2),
    ensures
        rating(d2, u2, p2).rank() >= rating(d1, u1, p1).rank(),
{
}

/// The rating table read row by row: meeting a row's three thresholds
/// rates at least that row, Excellent needs all three of its own, and a
/// connection that misses even the Poor row rates VeryPoor or Failed.
pub proof fn lemma_rating_rows(d: u64, u: u64, p: u64)
    ensures
        rating(d, u, p) == ConnectionQuality::Excellent <==> (ge(d, F64_100) && ge(u, F64_20) && lt(
            p,
            F64_20,
        )),
        ge(d, F64_50) && ge(u, F64_10) && lt(p, F64_50) ==> rating(d, u, p).rank() >= 4,
        ge(d, F64_25) && ge(u, F64_5) && lt(p, F64_100) ==> rating(d, u, p).rank() >= 3,
        ge(d, F64_10) && ge(u, F64_2) && lt(p, F64_150) ==> rating(d, u, p).rank() >= 2,
        !(ge(d, F64_10) && ge(u, F64_2) && lt(p, F64_150)) ==> rating(d, u, p).rank() <= 1,
        !(ge(d, F64_50) && ge(u, F64_10) && lt(p, F64_50)) ==> rating(d, u, p).rank() <= 3 || rating(
            d,
            u,
            p,
        ) == ConnectionQuality::Excellent,
{
}

/// A connection is rated Failed exactly when its download or its upload
/// speed is not above zero (NaN included).
pub proof fn lemma_failed_iff_no_throughput(d: u64, u: u64, p: u64)
    ensures
        (rating(d, u, p) == ConnectionQuality::Failed) <==> !(gt(d, F64_0) && gt(u, F64_0)),
{
}

/// Different ratings have different display names, so parsing a rating's
/// name gives that rating back.
pub proof fn lemma_quality_label_injective(a: ConnectionQuality, b: ConnectionQuality)
    requires
        a.label() == b.label(),
    ensures
        a == b,
{
    reveal_strlit("Excellent");
    reveal_strlit("Good");
    reveal_strlit("Average");
    reveal_strlit("Poor");
    reveal_strlit("Very Poor");
    reveal_strlit("Failed");
    assert(a.label().len() == b.label().len() && a.label()[0] == b.label()[0]);
    assert(quality_signature(a) == quality_signature(b));
    match a {
        ConnectionQuality::Excellent => {},
        ConnectionQuality::Good => {},
        ConnectionQuality::Average => {},
        ConnectionQuality::Poor => {},
        ConnectionQuality::VeryPoor => {},
        ConnectionQuality::Failed => {},
    }
    match b {
        ConnectionQuality::Excellent => {},
        ConnectionQuality::Good => {},
        ConnectionQuality::Average => {},
        ConnectionQuality::Poor => {},
        ConnectionQuality::VeryPoor => {},
        ConnectionQuality::Failed => {},
    }
}

/// The length and first letter of a rating's name, which tell the ratings
/// apart.
spec fn quality_signature(q: ConnectionQuality) -> (nat, char) {
    (q.label().len(), q.label()[0])
}

/// Level of detail for test output
#[derive(Debug, Clone, Copy, PartialEq, Eq, Structural, PartialOrd, Ord, Hash)]
pub enum DetailLevel {
    Basic,
    Standard,
    Detailed,
    Debug,
}

impl DetailLevel {
    /// The place of a level in the order Basic < Standard < Detailed < Debug.
    pub open spec fn rank(self) -> nat {
        match self {
            DetailLevel::Basic => 0,
            DetailLevel::Standard => 1,
            DetailLevel::Detailed => 2,
            DetailLevel::Debug => 3,
        }
    }

    /// The name under which a level is shown and parsed.
    pub open spec fn label(self) -> Seq<char> {
        match self {
            DetailLevel::Basic => "Basic"@,
            DetailLevel::Standard => "Standard"@,
            DetailLevel::Detailed => "Detailed"@,
            DetailLevel::Debug => "Debug"@,
        }
    }

    /// The display name of the level.
    pub fn to_string(&self) -> (s: String)
        ensures
            s@ == self.label(),
    {
        let name: &str = match self {
            DetailLevel::Basic => "Basic",
            DetailLevel::Standard => "Standard",
            DetailLevel::Detailed => "Detailed",
            DetailLevel::Debug => "Debug",
        };
        proof {
            reveal_strlit("Basic");
            reveal_strlit("Standard");
            reveal_strlit("Detailed");
            reveal_strlit("Debug");
        }
        name.to_owned()
    }

    /// Parses a display name back into the level; any other text is refused.
    pub fn from_label(s: &str) -> (d: Option<Self>)
        ensures
            d matches Some(v) ==> v.label() == s@,
            d is None ==> forall|v: DetailLevel| v.label() != s@,
    {
        proof {
            reveal_strlit("Basic");
            reveal_strlit("Standard");
            reveal_strlit("Detailed");
            reveal_strlit("Debug");
        }
        if str_eq(s, "Basic") {
            Some(DetailLevel::Basic)
        } else if str_eq(s, "Standard") {
            Some(DetailLevel::Standard)
        } else if str_eq(s, "Detailed") {
            Some(DetailLevel::Detailed)
        } else if str_eq(s, "Debug") {
            Some(DetailLevel::Debug)
        } else {
            proof {
                assert forall|v: DetailLevel| v.label() != s@ by {
                    match v {
                        DetailLevel::Basic => {},
                        DetailLevel::Standard => {},
                        DetailLevel::Detailed => {},
                        DetailLevel::Debug => {},
                    }
                }
            }
            None
        }
    }
}

/// Configuration for the speed test
#[derive(Debug, Clone)]
pub struct TestConfig {
    pub server_url: String,
    pub test_size_mb: u64,
    pub timeout_seconds: u64,
    pub json_output: bool,
    pub animation_enabled: bool,
    pub detail_level: DetailLevel,
    pub max_servers: usize,
}

impl Default for TestConfig {
    /// The configuration the tool starts from: the httpbin server, 10 MB,
    /// 30 seconds, no JSON, animations on, standard detail, 3 servers.
    fn default() -> (c: Self)
        ensures
            c.server_url@ == "https://httpbin.org"@,
            c.test_size_mb == 10,
            c.timeout_seconds == 30,
            !c.json_output,
            c.animation_enabled,
            c.detail_level == DetailLevel::Standard,
            c.max_servers == 3,
    {
        TestConfig {
            server_url: "https://httpbin.org".to_owned(),
            test_size_mb: 10,
            timeout_seconds: 30,
            json_output: false,
            animation_enabled: true,
            detail_level: DetailLevel::Standard,
            max_servers: 3,
        }
    }
}

} // verus!
