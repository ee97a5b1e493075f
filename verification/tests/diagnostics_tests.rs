use netrunner_cli::modules::diagnostics::{
    connection_type_label, count_missing, delay_range, dns_probe_domains, dns_rating, hop_delay,
    recommendations, route_trace, simulated_dns_servers, simulated_gateway, simulated_hop, Advice, DnsRating,
    MAX_HOPS,
};
use netrunner_cli::text::str_contains;

fn ms(x: f64) -> u64 {
    x.to_bits()
}

#[test]
fn hop_delays_stay_in_their_ranges() {
    assert_eq!(delay_range(1), (1, 10));
    assert_eq!(delay_range(2), (1, 10));
    assert_eq!(delay_range(3), (10, 50));
    assert_eq!(delay_range(7), (10, 50));
    assert_eq!(delay_range(8), (50, 150));
    assert_eq!(delay_range(15), (50, 150));
    for hop in 1..=MAX_HOPS {
        let (lo, hi) = delay_range(hop);
        for _ in 0..20 {
            let d = hop_delay(hop);
            assert!(lo <= d && d < hi, "hop {} delay {}", hop, d);
        }
    }
}

#[test]
fn simulated_trace_shape() {
    let hops: Vec<_> = (1..=MAX_HOPS).map(|h| simulated_hop(h, 7, "8.8.8.8")).collect();
    assert_eq!(hops.len(), 15);
    assert_eq!(hops[0].address, Some((192, 168, 1, 10)));
    assert_eq!(hops[0].response_time_ms, Some(7));
    assert_eq!(hops[13].address, Some((192, 168, 14, 140)));
    assert_eq!(hops[5].address, None);
    assert_eq!(hops[5].response_time_ms, None);
    assert_eq!(hops[8].address, None);
    assert_eq!(hops[14].address, Some((8, 8, 8, 8)));
    assert_eq!(hops[14].hostname.as_deref(), Some("8.8.8.8"));
    assert_eq!(hops[14].hop_number, 15);
    assert!(hops[..14].iter().all(|h| h.hostname.is_none()));
    assert_eq!(count_missing(&hops), 2);
}

#[test]
fn route_trace_numbers_hops_and_ends_at_target() {
    let delays: Vec<u64> = (1..=MAX_HOPS as u64).map(|h| h * 3).collect();
    let hops = route_trace(&delays, "1.1.1.1");
    assert_eq!(hops.len(), 15);
    for (i, h) in hops.iter().enumerate() {
        assert_eq!(h.hop_number, i as u32 + 1);
    }
    assert_eq!(hops[0].address, Some((192, 168, 1, 10)));
    assert_eq!(hops[0].response_time_ms, Some(3));
    assert_eq!(hops[6].response_time_ms, Some(21));
    assert_eq!(hops[5].address, None);
    assert_eq!(hops[8].response_time_ms, None);
    assert_eq!(hops[14].address, Some((8, 8, 8, 8)));
    assert_eq!(hops[14].hostname.as_deref(), Some("1.1.1.1"));
    assert_eq!(hops[14].response_time_ms, Some(45));
    assert_eq!(count_missing(&hops), 2);
}

#[test]
fn dns_ratings() {
    assert_eq!(dns_rating(ms(0.0)), DnsRating::Excellent);
    assert_eq!(dns_rating(ms(19.99)), DnsRating::Excellent);
    assert_eq!(dns_rating(ms(20.0)), DnsRating::Good);
    assert_eq!(dns_rating(ms(50.0)), DnsRating::Average);
    assert_eq!(dns_rating(ms(150.0)), DnsRating::Slow);
    assert_eq!(dns_rating(ms(200.0)), DnsRating::VerySlow);
    assert_eq!(dns_rating(ms(f64::NAN)), DnsRating::VerySlow);
    assert_eq!(DnsRating::VerySlow.label(), "Very Slow");
}

#[test]
fn advice_follows_the_diagnostics() {
    assert_eq!(recommendations(ms(10.0), true, 2, Some("Wired (Ethernet)")), vec![Advice::Healthy]);
    assert_eq!(
        recommendations(ms(120.0), false, 3, Some("Wireless (Wi-Fi)")),
        vec![Advice::SlowDns, Advice::NoIpv6, Advice::UnresponsiveHops, Advice::Wireless]
    );
    assert_eq!(recommendations(ms(75.0), true, 0, None), Vec::<Advice>::new());
    assert_eq!(
        recommendations(ms(30.0), false, 1, Some("Home Wi-Fi")),
        vec![Advice::NoIpv6, Advice::Wireless, Advice::Healthy]
    );
    assert!(Advice::Healthy.text().starts_with("Your network configuration appears healthy!"));
}

#[test]
fn simulated_values() {
    assert_eq!(simulated_gateway(), (192, 168, 1, 1));
    assert_eq!(simulated_dns_servers(), vec![(8, 8, 8, 8), (8, 8, 4, 4)]);
    assert_eq!(dns_probe_domains(), vec!["google.com", "amazon.com", "facebook.com", "microsoft.com", "apple.com"]);
    assert_eq!(connection_type_label(true), "Wireless (Wi-Fi)");
    assert_eq!(connection_type_label(false), "Wired (Ethernet)");
}

#[test]
fn substring_search() {
    assert!(str_contains("Wireless (Wi-Fi)", "Wi-Fi"));
    assert!(str_contains("abc", ""));
    assert!(str_contains("abc", "abc"));
    assert!(!str_contains("ab", "abc"));
    assert!(!str_contains("Wired (Ethernet)", "Wireless"));
    assert!(str_contains("São Paulo", "o P"));
}

#[test]
fn hop_delays_vary() {
    let draws: Vec<u64> = (0..200).map(|_| hop_delay(10)).collect();
    assert!(draws.iter().all(|d| (50..150).contains(d)));
    assert!(draws.iter().any(|d| *d != draws[0]));
}
