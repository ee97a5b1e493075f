use netrunner_cli::modules::speed_test::{
    bounded_speed, chosen_server, clamp_speed, download_speed, endpoint, enough_data,
    ping_estimate, runs_against_server, second_phase, transfer_plan, upload_speed,
    uses_cloudflare, Transfer, FALLBACK_DOWNLOAD, FALLBACK_PING, FALLBACK_UPLOAD,
};

fn b(x: f64) -> u64 {
    x.to_bits()
}

#[test]
fn server_and_endpoints() {
    let (name, url, location) = chosen_server("https://httpbin.org", false);
    assert_eq!((name, url, location), ("Cloudflare", "https://speed.cloudflare.com", "Global CDN"));
    assert!(uses_cloudflare(url));
    assert!(!uses_cloudflare("https://httpbin.org"));
    assert_eq!(endpoint(Transfer::MirrorDownload, 0, "https://example.net"), "https://proof.ovh.net/files/100Mb.dat");
    assert_eq!(endpoint(Transfer::MirrorDownload, 4, "https://example.net"), "http://speedtest.bouyguestelecom.fr/100Mo.dat");
    assert_eq!(endpoint(Transfer::MirrorDownload, 5, "https://example.net"), "http://ping.online.net/100Mo.dat");
    assert_eq!(endpoint(Transfer::MirrorUpload, 1, "https://example.net"), "https://postman-echo.com/post");
    assert_eq!(endpoint(Transfer::MirrorUpload, 2, "https://example.net"), "https://httpbin.org/post");
    assert_eq!(endpoint(Transfer::CloudflareUpload, 3, "https://example.net"), "https://speed.cloudflare.com/__up");
}

#[test]
fn phase_plans() {
    let p = transfer_plan(Transfer::CloudflareDownload);
    assert_eq!((p.workers, p.seconds, p.min_bytes), (8, 8, 500_000));
    let p = transfer_plan(Transfer::CloudflareUpload);
    assert_eq!((p.workers, p.body_bytes, p.min_bytes), (4, 5 * 1024 * 1024, 200_000));
    let p = transfer_plan(Transfer::MirrorUpload);
    assert_eq!((p.workers, p.body_bytes, p.min_bytes), (3, 2 * 1024 * 1024, 100_000));
    assert!(enough_data(Transfer::MirrorDownload, true, 500_001));
    assert!(!enough_data(Transfer::MirrorDownload, true, 500_000));
    assert!(!enough_data(Transfer::MirrorUpload, false, 5_000_000));
}

#[test]
fn speeds_are_bounded() {
    assert_eq!(clamp_speed(b(20000.0), b(1.0), b(10000.0)), b(10000.0));
    assert_eq!(clamp_speed(b(0.2), b(1.0), b(10000.0)), b(1.0));
    assert_eq!(clamp_speed(b(55.5), b(1.0), b(10000.0)), b(55.5));
    assert!(f64::from_bits(clamp_speed(b(f64::NAN), b(1.0), b(10.0))).is_nan());
    for x in [0.1f64, 0.5, 3.0, 4999.0, 7000.0].iter() {
        assert_eq!(clamp_speed(b(*x), b(0.5), b(5000.0)), b(x.clamp(0.5, 5000.0)));
    }
    assert_eq!(bounded_speed(Transfer::CloudflareUpload, Some(b(9000.0))), Some(b(5000.0)));
    assert_eq!(bounded_speed(Transfer::MirrorDownload, None), None);
}

#[test]
fn fallbacks() {
    assert_eq!(download_speed(true, Some(b(80.0)), Some(b(30.0))), b(80.0));
    assert_eq!(download_speed(true, None, Some(b(30.0))), b(30.0));
    assert_eq!(download_speed(true, None, None), FALLBACK_DOWNLOAD);
    assert_eq!(download_speed(false, Some(b(80.0)), None), FALLBACK_DOWNLOAD);
    assert_eq!(f64::from_bits(FALLBACK_DOWNLOAD), 25.0);
    assert_eq!(upload_speed(true, None, None), FALLBACK_UPLOAD);
    assert_eq!(f64::from_bits(FALLBACK_UPLOAD), 5.0);
    assert_eq!(upload_speed(false, None, Some(b(12.0))), b(12.0));
    assert_eq!(ping_estimate(None), FALLBACK_PING);
    assert_eq!(f64::from_bits(FALLBACK_PING), 50.0);
    assert_eq!(ping_estimate(Some(b(12.0))), b(12.0));
}

#[test]
fn a_given_server_is_the_one_tested() {
    let url = "https://custom-server.example.com";
    assert_eq!(chosen_server(url, true), ("Custom Server", url, url));
    assert!(runs_against_server(url, true));
    assert!(!runs_against_server(url, false));
    assert!(!runs_against_server("https://speed.cloudflare.com", true));
    assert_eq!(second_phase(false, true), Transfer::ServerDownload);
    assert_eq!(second_phase(true, true), Transfer::ServerUpload);
    assert_eq!(second_phase(false, false), Transfer::MirrorDownload);
    assert_eq!(second_phase(true, false), Transfer::MirrorUpload);
    for w in 0..6 {
        assert_eq!(endpoint(Transfer::ServerDownload, w, url), url);
        assert_eq!(endpoint(Transfer::ServerUpload, w, url), url);
    }
    let p = transfer_plan(Transfer::ServerDownload);
    assert_eq!((p.workers, p.min_bytes), (6, 500_000));
    let p = transfer_plan(Transfer::ServerUpload);
    assert_eq!((p.workers, p.body_bytes, p.min_bytes), (3, 2 * 1024 * 1024, 100_000));
    // without --server the default address is not used
    assert_eq!(chosen_server("https://httpbin.org", false).1, "https://speed.cloudflare.com");
}
