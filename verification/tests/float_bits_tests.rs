use netrunner_cli::float_bits::{float_ge, float_gt, float_lt, nan};

#[test]
fn bit_comparisons_match_f64() {
    let values = [
        0.0f64,
        -0.0,
        1.0,
        -1.0,
        0.3,
        19.99,
        20.0,
        1e-310,
        -1e-310,
        f64::MIN_POSITIVE,
        f64::MAX,
        f64::MIN,
        f64::INFINITY,
        f64::NEG_INFINITY,
        f64::NAN,
        -f64::NAN,
    ];
    for &a in values.iter() {
        assert_eq!(nan(a.to_bits()), a.is_nan());
        for &b in values.iter() {
            assert_eq!(float_ge(a.to_bits(), b.to_bits()), a >= b, "{} >= {}", a, b);
            assert_eq!(float_gt(a.to_bits(), b.to_bits()), a > b, "{} > {}", a, b);
            assert_eq!(float_lt(a.to_bits(), b.to_bits()), a < b, "{} < {}", a, b);
        }
    }
}
