use pttd::numeral::{numeral_kind, NumeralKind};

fn kind_by_parsing(text: &str) -> NumeralKind {
    match text.parse::<f64>() {
        Err(_) => NumeralKind::NotNumeric,
        Ok(number) if number.is_finite() => NumeralKind::Finite,
        Ok(_) => NumeralKind::NotFinite,
    }
}

fn check(text: &str) {
    assert_eq!(
        numeral_kind(text.as_bytes()),
        kind_by_parsing(text),
        "{text:?}"
    );
}

#[test]
fn plain_numerals_are_finite() {
    for text in ["0", "1.00", "0.4", ".5", "5.", "+1", "-0", "1e5", "1E-5", "00012", "1.5e+3"] {
        assert_eq!(numeral_kind(text.as_bytes()), NumeralKind::Finite);
        check(text);
    }
}

#[test]
fn words_for_what_is_not_finite_are_numerals() {
    for text in [
        "inf", "Inf", "INF", "+inf", "-inf", "infinity", "-INFINITY", "nan", "NaN", "+nan", "-nan",
    ] {
        assert_eq!(numeral_kind(text.as_bytes()), NumeralKind::NotFinite);
        check(text);
    }
}

#[test]
fn everything_else_is_no_numeral() {
    for text in [
        "", ".", "+", "-", "e5", ".e5", "1e", "1e+", "1e-", "1 ", " 1", "1_0", "0x10", "1.2.3",
        "--1", "+-1", "infi", "infinit", "infinityy", "na", "nann", "1e5.0", "1e1e1", "\u{0661}",
        "1f", "inf ", "e", "1ee5",
    ] {
        assert_eq!(numeral_kind(text.as_bytes()), NumeralKind::NotNumeric);
        check(text);
    }
}

#[test]
fn the_edge_of_the_finite_is_exact() {
    // Half-way between the largest double and the next power of two.
    let edge = "179769313486231580793728971405303415079934132710037826936173778980444968292764750946649017977587207096330286416692887910946555547851940402630657488671505820681908902000708383676273854845817711531764475730270069855571366959622842914819860834936475292719074168444365510704342711559699508093042880177904174497792";
    let below = "179769313486231580793728971405303415079934132710037826936173778980444968292764750946649017977587207096330286416692887910946555547851940402630657488671505820681908902000708383676273854845817711531764475730270069855571366959622842914819860834936475292719074168444365510704342711559699508093042880177904174497791";
    assert_eq!(numeral_kind(edge.as_bytes()), NumeralKind::NotFinite);
    assert_eq!(numeral_kind(below.as_bytes()), NumeralKind::Finite);
    check(edge);
    check(below);
    check(&format!("{edge}.0"));
    check(&format!("{below}.99999999999999999999"));
    check(&format!("-{edge}"));
    check(&format!("0.{below}e309"));
    check(&format!("0.{edge}e309"));
    for text in [
        "1.7976931348623157e308",
        "1.7976931348623158e308",
        "1.7976931348623159e308",
        "1.797693134862315807e308",
        "1.797693134862315808e308",
        "1e308", "1e309", "1e400", "1e-400", "0e999999999999999999999", "0.0e400",
        "1e99999999999999999999", "1e-99999999999999999999", "1e18446744073709551616",
        "1e-18446744073709551616", "1e4294967296", "0.00000000000001e322", "0.00000000000001e323",
        "17976931348623157e292", "17976931348623159e292", "10000000000e298", "10000000000e299",
    ] {
        check(text);
    }
    assert_eq!(
        numeral_kind(b"1.797693134862315807e308"),
        NumeralKind::Finite
    );
    assert_eq!(
        numeral_kind(b"1.797693134862315808e308"),
        NumeralKind::NotFinite
    );
}

#[test]
fn long_runs_of_digits_are_read() {
    let many_zeros = "0".repeat(800);
    for text in [
        format!("{many_zeros}1"),
        format!("1{many_zeros}"),
        format!("0.{many_zeros}1"),
        format!("1{many_zeros}e-600"),
        format!("1{many_zeros}e-492"),
        format!("1{many_zeros}e-491"),
        format!("0.{many_zeros}1e1109"),
        format!("0.{many_zeros}1e1110"),
        "9".repeat(308),
        "9".repeat(309),
        format!("1.{}e308", "9".repeat(900)),
        format!("1.{}e308", "7".repeat(900)),
    ] {
        check(&text);
    }
}

#[test]
fn every_short_text_of_the_relevant_characters_is_judged_alike() {
    let alphabet: Vec<char> = "+-.0159eEinfNaty ".chars().collect();
    let mut texts: Vec<String> = vec![String::new()];
    for _ in 0..4 {
        let mut longer: Vec<String> = Vec::new();
        for text in &texts {
            for letter in &alphabet {
                let mut next = text.clone();
                next.push(*letter);
                longer.push(next);
            }
        }
        for text in &longer {
            check(text);
        }
        texts = longer;
    }
}

#[test]
fn generated_numerals_are_judged_alike() {
    let mut state: u64 = 0x9e37_79b9_7f4a_7c15;
    for _ in 0..20_000 {
        let mut digits = || {
            state ^= state << 13;
            state ^= state >> 7;
            state ^= state << 17;
            state
        };
        let whole = digits() >> (digits() % 64);
        let fraction = digits() >> (digits() % 64);
        let exponent = (digits() % 700) as i64 - 350;
        check(&format!("{whole}.{fraction}e{exponent}"));
        check(&format!("-{whole}e{exponent}"));
        check(&format!(".{fraction}E+{}", exponent.abs()));
    }
}
