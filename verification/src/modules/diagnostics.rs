//! Network diagnostics: the simulated route trace, the rating of the DNS
//! response time, and the advice drawn from a diagnostics run.
//!
//! Probing the network, sleeping between hops and printing the tables are the
//! application's part. Measurements reach this module as integers (whole
//! milliseconds) or as f64 bit patterns (see [`crate::float_bits`]).

use vstd::prelude::*;
use rand::Rng;
use crate::float_bits::{float_gt, float_lt, gt, is_nan, lt, order_key};
use crate::modules::types::{F64_100, F64_20, F64_50};
use crate::tally::count_where;
use crate::text::{seq_contains, str_contains};

verus! {

/// 200.0 as an f64 bit pattern.
pub const F64_200: u64 = 0x4069_0000_0000_0000;
/// How many hops the route trace makes; the last one is the target.
pub const MAX_HOPS: u32 = 15;

/// An IPv4 address by its four octets.
pub type Ipv4 = (u8, u8, u8, u8);

/// The address the route trace ends at.
pub open spec fn trace_target() -> Ipv4 {
    (8, 8, 8, 8)
}

/// The gateway that the diagnostics report.
pub fn simulated_gateway() -> (a: Ipv4)
    ensures
        a == (192u8, 168u8, 1u8, 1u8),
{
    (192, 168, 1, 1)
}

/// The DNS servers that the diagnostics report.
pub fn simulated_dns_servers() -> (v: Vec<Ipv4>)
    ensures
        v@ == seq![(8u8, 8u8, 8u8, 8u8), (8u8, 8u8, 4u8, 4u8)],
{
    vec![(8, 8, 8, 8), (8, 8, 4, 4)]
}

/// The hosts whose lookups time the DNS response.
pub fn dns_probe_domains() -> (v: Vec<&'static str>)
    ensures
        v@.len() == 5,
        v@[0]@ == "google.com"@,
        v@[1]@ == "amazon.com"@,
        v@[2]@ == "facebook.com"@,
        v@[3]@ == "microsoft.com"@,
        v@[4]@ == "apple.com"@,
{
    vec!["google.com", "amazon.com", "facebook.com", "microsoft.com", "apple.com"]
}

/// The connection type reported for a wireless or a wired link.
pub fn connection_type_label(wireless: bool) -> (s: &'static str)
    ensures
        s@ == (if wireless {
            "Wireless (Wi-Fi)"@
        } else {
            "Wired (Ethernet)"@
        }),
{
    if wireless {
        "Wireless (Wi-Fi)"
    } else {
        "Wired (Ethernet)"
    }
}

/// The range (low inclusive, high exclusive) of the simulated delay of a
/// hop, in milliseconds: local hops are fastest, then the provider's network,
/// then the internet.
pub open spec fn delay_bounds(hop: u32) -> (u64, u64) {
    if hop < 3 {
        (1, 10)
    } else if hop < 8 {
        (10, 50)
    } else {
        (50, 150)
    }
}

/// The delay range of a hop.
pub fn delay_range(hop: u32) -> (r: (u64, u64))
    ensures
        r == delay_bounds(hop),
{
    if hop < 3 {
        (1, 10)
    } else if hop < 8 {
        (10, 50)
    } else {
        (50, 150)
    }
}

/// Calls `rand::thread_rng().gen_range(low..high)`. The contract claims only
/// what its documentation promises of every outcome: it lies in the range.
#[verifier::external_body]
fn random_in(low: u64, high: u64) -> (r: u64)
    requires
        low < high,
    ensures
        low <= r < high,
{
    rand::thread_rng().gen_range(low..high)
}

/// A random delay for a hop, within its range.
pub fn hop_delay(hop: u32) -> (d: u64)
    ensures
        delay_bounds(hop).0 <= d < delay_bounds(hop).1,
{
    let (low, high) = delay_range(hop);
    random_in(low, high)
}

/// Whether a simulated hop answers: hops 6 and 9 stay silent.
pub open spec fn hop_answers(hop: u32) -> bool {
    hop != 6 && hop != 9
}

/// The address a simulated intermediate hop answers from.
pub open spec fn hop_address(hop: u32) -> Ipv4 {
    (192, 168, hop as u8, (hop * 10) as u8)
}

/// One hop of a route trace.
#[derive(Debug, Clone)]
pub struct RouteHop {
    pub hop_number: u32,
    pub address: Option<Ipv4>,
    pub hostname: Option<String>,
    /// The response time in whole milliseconds.
    pub response_time_ms: Option<u64>,
}

/// What the trace records for hop `hop` (1 to `MAX_HOPS`) that took `delay`
/// milliseconds: intermediate hops answer from a private address, except
/// the silent ones; the last hop is the target, named by `target`.
pub open spec fn hop_as_simulated(h: RouteHop, hop: u32, delay: u64, target: Seq<char>) -> bool {
    &&& h.hop_number == hop
    &&& hop == MAX_HOPS ==> {
        &&& h.address == Some(trace_target())
        &&& h.hostname matches Some(name) && name@ == target
        &&& h.response_time_ms == Some(delay)
    }
    &&& hop < MAX_HOPS && hop_answers(hop) ==> {
        &&& h.address == Some(hop_address(hop))
        &&& h.hostname is None
        &&& h.response_time_ms == Some(delay)
    }
    &&& hop < MAX_HOPS && !hop_answers(hop) ==> {
        &&& h.address is None
        &&& h.hostname is None
        &&& h.response_time_ms is None
    }
}

/// The hop `hop` of a trace, taking `delay` milliseconds.
pub fn simulated_hop(hop: u32, delay: u64, target: &str) -> (h: RouteHop)
    requires
        1 <= hop <= MAX_HOPS,
    ensures
        hop_as_simulated(h, hop, delay, target@),
{
    if hop == MAX_HOPS {
        RouteHop {
            hop_number: hop,
            address: Some((8, 8, 8, 8)),
            hostname: Some(target.to_string()),
            response_time_ms: Some(delay),
        }
    } else if hop != 6 && hop != 9 {
        let third: u8 = hop as u8;
        let fourth: u8 = (hop * 10) as u8;
        RouteHop {
            hop_number: hop,
            address: Some((192, 168, third, fourth)),
            hostname: None,
            response_time_ms: Some(delay),
        }
    } else {
        RouteHop { hop_number: hop, address: None, hostname: None, response_time_ms: None }
    }
}

/// The whole trace to `target`, hops 1 to `MAX_HOPS` in order, hop `i + 1`
/// having taken `delays[i]` milliseconds; it ends at the target and has
/// exactly two silent hops.
pub fn route_trace(delays: &Vec<u64>, target: &str) -> (v: Vec<RouteHop>)
    requires
        delays@.len() == MAX_HOPS,
    ensures
        v@.len() == MAX_HOPS,
        forall|i: int|
            0 <= i < MAX_HOPS ==> hop_as_simulated(
                #[trigger] v@[i],
                (i + 1) as u32,
                delays@[i],
                target@,
            ),
        count_where(v@, |h: RouteHop| is_silent(h)) == 2,
{
    let mut v: Vec<RouteHop> = Vec::new();
    let mut hop: u32 = 1;
    while hop <= MAX_HOPS
        invariant
            1 <= hop <= MAX_HOPS + 1,
            delays@.len() == MAX_HOPS,
            v@.len() == hop - 1,
            forall|i: int|
                0 <= i < v@.len() ==> hop_as_simulated(
                    #[trigger] v@[i],
                    (i + 1) as u32,
                    delays@[i],
                    target@,
                ),
        decreases MAX_HOPS + 1 - hop,
    {
        let delay = delays[(hop - 1) as usize];
        let h = simulated_hop(hop, delay, target);
        v.push(h);
        hop = hop + 1;
    }
    proof {
        assert forall|i: int| 0 <= i < MAX_HOPS implies (is_silent(#[trigger] v@[i]) <==> ((i
            + 1) < MAX_HOPS && !hop_answers((i + 1) as u32))) by {
            assert(hop_as_simulated(v@[i], (i + 1) as u32, delays@[i], target@));
        }
        lemma_trace_has_two_silent_hops(v@);
    }
    v
}

/// Whether a hop gave no address.
pub open spec fn is_silent(h: RouteHop) -> bool {
    h.address is None
}

/// How many hops gave no address.
pub fn count_missing(hops: &Vec<RouteHop>) -> (n: usize)
    ensures
        n == count_where(hops@, |h: RouteHop| is_silent(h)),
{
    let mut n: usize = 0;
    let mut i: usize = 0;
    while i < hops.len()
        invariant
            i <= hops@.len(),
            n == count_where(hops@.take(i as int), |h: RouteHop| is_silent(h)),
            n <= i,
        decreases hops@.len() - i,
    {
        proof {
            crate::tally::lemma_count_take_step(hops@, |h: RouteHop| is_silent(h), i as int);
        }
        if hops[i].address.is_none() {
            n = n + 1;
        }
        i = i + 1;
    }
    assert(hops@.take(i as int) =~= hops@);
    n
}

/// A full trace, hops 1 to `MAX_HOPS` in order, whose hops are silent
/// exactly as `simulated_hop` makes them (only the intermediate hops that do
/// not answer), has exactly two silent hops, so it never draws the advice
/// about unresponsive hops (which needs more than two).
pub proof fn lemma_trace_has_two_silent_hops(hops: Seq<RouteHop>)
    requires
        hops.len() == MAX_HOPS,
        forall|i: int|
            0 <= i < MAX_HOPS ==> (is_silent(#[trigger] hops[i]) <==> ((i + 1) < MAX_HOPS
                && !hop_answers((i + 1) as u32))),
    ensures
        count_where(hops, |h: RouteHop| is_silent(h)) == 2,
{
    let pred = |h: RouteHop| is_silent(h);
    assert forall|k: int| 0 <= k <= MAX_HOPS implies #[trigger] count_where(hops.take(k), pred)
        == if k <= 5 {
        0int
    } else if k <= 8 {
        1int
    } else {
        2int
    } by {
        lemma_silent_prefix(hops, k);
    }
    assert(hops.take(MAX_HOPS as int) =~= hops);
}

proof fn lemma_silent_prefix(hops: Seq<RouteHop>, k: int)
    requires
        hops.len() == MAX_HOPS,
        forall|i: int|
            0 <= i < MAX_HOPS ==> (is_silent(#[trigger] hops[i]) <==> ((i + 1) < MAX_HOPS
                && !hop_answers((i + 1) as u32))),
        0 <= k <= MAX_HOPS,
    ensures
        count_where(hops.take(k), |h: RouteHop| is_silent(h)) == if k <= 5 {
            0int
        } else if k <= 8 {
            1int
        } else {
            2int
        },
    decreases k,
{
    if k > 0 {
        lemma_silent_prefix(hops, k - 1);
        crate::tally::lemma_count_take_step(hops, |h: RouteHop| is_silent(h), k - 1);
        assert(is_silent(hops[k - 1]) <==> (k - 1 == 5 || k - 1 == 8));
    }
}

/// How the DNS response time rates.
#[derive(Debug, Clone, Copy, PartialEq, Eq, Structural)]
pub enum DnsRating {
    Excellent,
    Good,
    Average,
    Slow,
    VerySlow,
}

/// The rating of a DNS response time (an f64 bit pattern, in ms): under 20
/// is excellent, under 50 good, under 100 average, under 200 slow, anything
/// else (NaN too) very slow.
pub open spec fn dns_rating_of(ms: u64) -> DnsRating {
    if lt(ms, F64_20) {
        DnsRating::Excellent
    } else if lt(ms, F64_50) {
        DnsRating::Good
    } else if lt(ms, F64_100) {
        DnsRating::Average
    } else if lt(ms, F64_200) {
        DnsRating::Slow
    } else {
        DnsRating::VerySlow
    }
}

/// Rates a DNS response time.
pub fn dns_rating(ms: u64) -> (r: DnsRating)
    ensures
        r == dns_rating_of(ms),
{
    if float_lt(ms, F64_20) {
        DnsRating::Excellent
    } else if float_lt(ms, F64_50) {
        DnsRating::Good
    } else if float_lt(ms, F64_100) {
        DnsRating::Average
    } else if float_lt(ms, F64_200) {
        DnsRating::Slow
    } else {
        DnsRating::VerySlow
    }
}

/// The place of a rating from best (0) to worst (4).
pub open spec fn dns_rank(r: DnsRating) -> int {
    match r {
        DnsRating::Excellent => 0,
        DnsRating::Good => 1,
        DnsRating::Average => 2,
        DnsRating::Slow => 3,
        DnsRating::VerySlow => 4,
    }
}

/// A faster DNS response never rates worse than a slower one; a response
/// under 20 ms is excellent and one of 200 ms or more very slow.
pub proof fn lemma_dns_rating_monotone(a: u64, b: u64)
    requires
        !is_nan(a),
        !is_nan(b),
        order_key(a) <= order_key(b),
    ensures
        dns_rank(dns_rating_of(a)) <= dns_rank(dns_rating_of(b)),
        order_key(a) < order_key(F64_20) ==> dns_rating_of(a) == DnsRating::Excellent,
        order_key(F64_200) <= order_key(a) ==> dns_rating_of(a) == DnsRating::VerySlow,
{
}

impl DnsRating {
    /// The word shown for the rating.
    pub fn label(self) -> (s: &'static str)
        ensures
            s@ == dns_label(self),
    {
        match self {
            DnsRating::Excellent => "Excellent",
            DnsRating::Good => "Good",
            DnsRating::Average => "Average",
            DnsRating::Slow => "Slow",
            DnsRating::VerySlow => "Very Slow",
        }
    }
}

/// The word of a rating.
pub open spec fn dns_label(r: DnsRating) -> Seq<char> {
    match r {
        DnsRating::Excellent => "Excellent"@,
        DnsRating::Good => "Good"@,
        DnsRating::Average => "Average"@,
        DnsRating::Slow => "Slow"@,
        DnsRating::VerySlow => "Very Slow"@,
    }
}

/// A piece of advice drawn from the diagnostics.
#[derive(Debug, Clone, Copy, PartialEq, Eq, Structural)]
pub enum Advice {
    /// The DNS response time is over 100 ms.
    SlowDns,
    /// IPv6 is not available.
    NoIpv6,
    /// More than two hops did not answer.
    UnresponsiveHops,
    /// The link is wireless.
    Wireless,
    /// DNS answers in under 50 ms and at most two hops are silent.
    Healthy,
}

impl Advice {
    /// The sentence shown for the advice.
    pub fn text(self) -> (s: &'static str)
        ensures
            s@ == advice_text(self),
    {
        match self {
            Advice::SlowDns => "Your DNS response time is slow. Consider using alternative DNS servers like Google (8.8.8.8) or Cloudflare (1.1.1.1).",
            Advice::NoIpv6 => "IPv6 is not available on your network. This is not an issue, but enabling IPv6 may improve connectivity to some modern services.",
            Advice::UnresponsiveHops => "Multiple hops in your network path are not responding. This could indicate network configuration issues along your connection path.",
            Advice::Wireless => "You're using a wireless connection. For better speed and stability, consider using a wired Ethernet connection for critical activities.",
            Advice::Healthy => "Your network configuration appears healthy! No significant issues detected.",
        }
    }
}

/// The sentence of a piece of advice.
pub open spec fn advice_text(a: Advice) -> Seq<char> {
    match a {
        Advice::SlowDns => "Your DNS response time is slow. Consider using alternative DNS servers like Google (8.8.8.8) or Cloudflare (1.1.1.1)."@,
        Advice::NoIpv6 => "IPv6 is not available on your network. This is not an issue, but enabling IPv6 may improve connectivity to some modern services."@,
        Advice::UnresponsiveHops => "Multiple hops in your network path are not responding. This could indicate network configuration issues along your connection path."@,
        Advice::Wireless => "You're using a wireless connection. For better speed and stability, consider using a wired Ethernet connection for critical activities."@,
        Advice::Healthy => "Your network configuration appears healthy! No significant issues detected."@,
    }
}

/// Whether a connection type names a wireless link.
pub open spec fn is_wireless(kind: Seq<char>) -> bool {
    seq_contains(kind, "Wi-Fi"@) || seq_contains(kind, "Wireless"@)
}

/// The advice, in the order it is shown, for a DNS response time (an f64
/// bit pattern, in ms), IPv6 availability, the number of silent hops and
/// the connection type when known.
pub open spec fn advice_for(
    dns_ms: u64,
    ipv6: bool,
    missing_hops: nat,
    connection_type: Option<Seq<char>>,
) -> Seq<Advice> {
    let s1 = if gt(dns_ms, F64_100) { seq![Advice::SlowDns] } else { Seq::empty() };
    let s2 = if !ipv6 { s1.push(Advice::NoIpv6) } else { s1 };
    let s3 = if missing_hops > 2 { s2.push(Advice::UnresponsiveHops) } else { s2 };
    let s4 = if connection_type matches Some(kind) && is_wireless(kind) {
        s3.push(Advice::Wireless)
    } else {
        s3
    };
    if lt(dns_ms, F64_50) && missing_hops <= 2 {
        s4.push(Advice::Healthy)
    } else {
        s4
    }
}

/// Which advice a diagnostics run gives, each for its own reason and
/// whatever the other inputs: slow-DNS advice exactly when DNS took over
/// 100 ms, IPv6 advice exactly when IPv6 is missing, hop advice exactly when
/// more than two hops stayed silent, wireless advice exactly when the
/// connection type is known and names Wi-Fi or a wireless link, and the
/// all-clear exactly when DNS took under 50 ms and at most two hops stayed
/// silent.
pub proof fn lemma_advice_reasons(
    dns_ms: u64,
    ipv6: bool,
    missing_hops: nat,
    connection_type: Option<Seq<char>>,
)
    ensures
        advice_for(dns_ms, ipv6, missing_hops, connection_type).contains(Advice::SlowDns)
            <==> gt(dns_ms, F64_100),
        advice_for(dns_ms, ipv6, missing_hops, connection_type).contains(Advice::NoIpv6)
            <==> !ipv6,
        advice_for(dns_ms, ipv6, missing_hops, connection_type).contains(
            Advice::UnresponsiveHops,
        ) <==> missing_hops > 2,
        advice_for(dns_ms, ipv6, missing_hops, connection_type).contains(Advice::Wireless)
            <==> (connection_type matches Some(kind) && (seq_contains(kind, "Wi-Fi"@)
            || seq_contains(kind, "Wireless"@))),
        advice_for(dns_ms, ipv6, missing_hops, connection_type).contains(Advice::Healthy)
            <==> (lt(dns_ms, F64_50) && missing_hops <= 2),
{
    let a = advice_for(dns_ms, ipv6, missing_hops, connection_type);
    let s1 = if gt(dns_ms, F64_100) { seq![Advice::SlowDns] } else { Seq::<Advice>::empty() };
    let s2 = if !ipv6 { s1.push(Advice::NoIpv6) } else { s1 };
    let s3 = if missing_hops > 2 { s2.push(Advice::UnresponsiveHops) } else { s2 };
    let wireless = connection_type matches Some(kind) && is_wireless(kind);
    let s4 = if wireless { s3.push(Advice::Wireless) } else { s3 };
    assert(a == if lt(dns_ms, F64_50) && missing_hops <= 2 { s4.push(Advice::Healthy) } else { s4 });
    assert forall|x: Advice| a.contains(x) <==> (
        (x == Advice::SlowDns && gt(dns_ms, F64_100))
        || (x == Advice::NoIpv6 && !ipv6)
        || (x == Advice::UnresponsiveHops && missing_hops > 2)
        || (x == Advice::Wireless && wireless)
        || (x == Advice::Healthy && lt(dns_ms, F64_50) && missing_hops <= 2)) by {
        broadcast use vstd::seq_lib::group_seq_properties;
        if gt(dns_ms, F64_100) {
            assert(s1[0] == Advice::SlowDns);
        }
    }
}

/// The view of an optional string slice.
pub open spec fn opt_view(s: Option<&str>) -> Option<Seq<char>> {
    match s {
        Some(t) => Some(t@),
        None => None,
    }
}

/// The advice for a diagnostics run.
pub fn recommendations(
    dns_ms: u64,
    ipv6: bool,
    missing_hops: usize,
    connection_type: Option<&str>,
) -> (r: Vec<Advice>)
    ensures
        r@ == advice_for(dns_ms, ipv6, missing_hops as nat, opt_view(connection_type)),
        r@.contains(Advice::Wireless) <==> (connection_type matches Some(kind) && (seq_contains(
            kind@,
            "Wi-Fi"@,
        ) || seq_contains(kind@, "Wireless"@))),
        r@.contains(Advice::SlowDns) <==> gt(dns_ms, F64_100),
        r@.contains(Advice::NoIpv6) <==> !ipv6,
        r@.contains(Advice::UnresponsiveHops) <==> missing_hops > 2,
        r@.contains(Advice::Healthy) <==> (lt(dns_ms, F64_50) && missing_hops <= 2),
{
    proof {
        lemma_advice_reasons(dns_ms, ipv6, missing_hops as nat, opt_view(connection_type));
    }
    let mut r: Vec<Advice> = Vec::new();
    if float_gt(dns_ms, F64_100) {
        r.push(Advice::SlowDns);
    }
    if !ipv6 {
        r.push(Advice::NoIpv6);
    }
    if missing_hops > 2 {
        r.push(Advice::UnresponsiveHops);
    }
    match connection_type {
        Some(kind) => {
            if str_contains(kind, "Wi-Fi") || str_contains(kind, "Wireless") {
                r.push(Advice::Wireless);
            }
        },
        None => {},
    }
    if float_lt(dns_ms, F64_50) && missing_hops <= 2 {
        r.push(Advice::Healthy);
    }
    assert(r@ =~= advice_for(dns_ms, ipv6, missing_hops as nat, opt_view(connection_type)));
    r
}

/// Slow DNS and the all-clear never come together, nor silent-hop trouble
/// and the all-clear.
pub proof fn lemma_healthy_excludes_trouble(
    dns_ms: u64,
    ipv6: bool,
    missing_hops: nat,
    connection_type: Option<Seq<char>>,
)
    ensures
        advice_for(dns_ms, ipv6, missing_hops, connection_type).contains(Advice::Healthy) ==> !(
        advice_for(dns_ms, ipv6, missing_hops, connection_type).contains(Advice::SlowDns)
            || advice_for(dns_ms, ipv6, missing_hops, connection_type).contains(
            Advice::UnresponsiveHops,
        )),
{
    let a = advice_for(dns_ms, ipv6, missing_hops, connection_type);
    if a.contains(Advice::Healthy) {
        assert(lt(dns_ms, F64_50) && missing_hops <= 2) by {
            if !(lt(dns_ms, F64_50) && missing_hops <= 2) {
                let i = choose|i: int| 0 <= i < a.len() && a[i] == Advice::Healthy;
                assert(a[i] != Advice::Healthy);
            }
        }
        if a.contains(Advice::SlowDns) {
            let i = choose|i: int| 0 <= i < a.len() && a[i] == Advice::SlowDns;
            assert(a[i] != Advice::SlowDns);
        }
        if a.contains(Advice::UnresponsiveHops) {
            let i = choose|i: int| 0 <= i < a.len() && a[i] == Advice::UnresponsiveHops;
            assert(a[i] != Advice::UnresponsiveHops);
        }
    }
}

} // verus!
