//! Verdicts from plain values: the arithmetic and the alternative names.

use ssl_expiration::names::alternative_names;
use ssl_expiration::names::dns_names;
use ssl_expiration::Error;
use ssl_expiration::SslExpiration;
use ssl_expiration::Status;
use ssl_expiration::TimeDelta;

fn verdict_of(days: i32, secs: i32) -> SslExpiration {
    SslExpiration::evaluate(&None, TimeDelta { days, secs })
}

fn dns(name: &str) -> Option<String> {
    Some(name.to_string())
}

#[test]
fn total_seconds_joins_days_and_seconds() {
    assert_eq!(TimeDelta { days: 0, secs: 0 }.total_seconds(), 0);
    assert_eq!(TimeDelta { days: 1, secs: 1 }.total_seconds(), 86_401);
    assert_eq!(TimeDelta { days: 89, secs: 86_399 }.total_seconds(), 7_775_999);
    assert_eq!(TimeDelta { days: -1, secs: -1 }.total_seconds(), -86_401);
    assert_eq!(TimeDelta { days: -3, secs: 0 }.total_seconds(), -259_200);
}

#[test]
fn parts_of_unlike_sign_are_joined_as_signed() {
    assert_eq!(TimeDelta { days: 1, secs: -1 }.total_seconds(), 86_399);
    assert_eq!(TimeDelta { days: -1, secs: 1 }.total_seconds(), -86_399);
    assert!(verdict_of(-1, 1).is_expired());
    assert!(!verdict_of(1, -1).is_expired());
}

#[test]
fn total_seconds_holds_what_32_bits_cannot() {
    // A `notAfter` in the year 9999 lies some 2.9 million days ahead.
    assert_eq!(TimeDelta { days: 2_912_000, secs: 17 }.total_seconds(), 251_596_800_017);
    assert_eq!(
        TimeDelta { days: i32::MAX, secs: i32::MAX }.total_seconds(),
        185_544_734_584_447
    );
    assert_eq!(
        TimeDelta { days: i32::MIN, secs: i32::MIN }.total_seconds(),
        -185_544_734_670_848
    );
}

#[test]
fn seconds_are_the_whole_span() {
    assert_eq!(verdict_of(10, 30).secs(), 864_030);
    assert_eq!(verdict_of(-10, -30).secs(), -864_030);
    assert_eq!(verdict_of(0, 0).secs(), 0);
}

#[test]
fn past_not_after_is_expired() {
    let by_a_second = verdict_of(0, -1);
    assert!(by_a_second.is_expired());
    assert!(by_a_second.secs() < 0);
    assert_eq!(by_a_second.secs(), -1);

    let by_a_day = verdict_of(-1, 0);
    assert!(by_a_day.is_expired());
    assert_eq!(by_a_day.secs(), -86_400);

    let by_years = verdict_of(-4_000, -12);
    assert!(by_years.is_expired());
    assert_eq!(by_years.secs(), -345_600_012);
}

#[test]
fn not_after_now_is_not_expired() {
    let at_the_second = verdict_of(0, 0);
    assert!(!at_the_second.is_expired());
    assert_eq!(at_the_second.secs(), 0);
    assert_eq!(at_the_second.days(), 0);
}

#[test]
fn future_not_after_is_not_expired() {
    assert!(!verdict_of(0, 1).is_expired());
    assert!(!verdict_of(90, 0).is_expired());
}

#[test]
fn days_round_toward_zero_when_positive() {
    assert_eq!(verdict_of(0, 86_399).days(), 0);
    assert_eq!(verdict_of(1, 0).days(), 1);
    assert_eq!(verdict_of(1, 86_399).days(), 1);
    assert_eq!(verdict_of(7, 1).days(), 7);
    assert_eq!(verdict_of(90, 0).days(), 90);
}

#[test]
fn days_round_toward_zero_when_negative() {
    assert_eq!(verdict_of(0, -1).days(), 0);
    assert_eq!(verdict_of(0, -86_399).days(), 0);
    assert_eq!(verdict_of(-1, 0).days(), -1);
    assert_eq!(verdict_of(-1, -86_399).days(), -1);
    assert_eq!(verdict_of(-2, 0).days(), -2);
}

#[test]
fn days_are_seconds_over_a_day() {
    for (days, secs) in [(0, 0), (0, 5), (3, 86_000), (-3, -86_000), (400, 0), (-400, -1)] {
        let verdict = verdict_of(days, secs);
        assert_eq!(verdict.days(), verdict.secs() / 86_400);
    }
}

#[test]
fn days_of_opposite_spans_are_opposite() {
    assert_eq!(verdict_of(5, 4_000).days(), 5);
    assert_eq!(verdict_of(-5, -4_000).days(), -5);
}

#[test]
fn expired_within_a_day_has_zero_days() {
    // Expired, and yet not a whole day ago.
    let verdict = verdict_of(0, -3_600);
    assert!(verdict.is_expired());
    assert_eq!(verdict.days(), 0);
}

#[test]
fn status_of_an_expired_certificate() {
    assert_eq!(verdict_of(0, -1).status(), Status::Expired);
    assert_eq!(verdict_of(-400, 0).status(), Status::Expired);
}

#[test]
fn status_of_a_certificate_about_to_expire() {
    assert_eq!(verdict_of(0, 0).status(), Status::ExpiresSoon);
    assert_eq!(verdict_of(3, 0).status(), Status::ExpiresSoon);
    assert_eq!(verdict_of(7, 0).status(), Status::ExpiresSoon);
    assert_eq!(verdict_of(7, 86_399).status(), Status::ExpiresSoon);
}

#[test]
fn status_of_a_healthy_certificate() {
    assert_eq!(verdict_of(8, 0).status(), Status::Healthy);
    assert_eq!(verdict_of(90, 0).status(), Status::Healthy);
}

#[test]
fn no_extension_gives_no_names() {
    let verdict = SslExpiration::evaluate(&None, TimeDelta { days: 30, secs: 0 });
    assert!(verdict.get_alt_names().is_empty());
    assert_eq!(alternative_names(&None), Vec::<String>::new());
}

#[test]
fn empty_extension_gives_no_names() {
    let verdict = SslExpiration::evaluate(&Some(vec![]), TimeDelta { days: 30, secs: 0 });
    assert!(verdict.get_alt_names().is_empty());
}

#[test]
fn extension_without_dns_entries_gives_no_names() {
    let verdict = SslExpiration::evaluate(&Some(vec![None, None]), TimeDelta { days: 30, secs: 0 });
    assert!(verdict.get_alt_names().is_empty());
}

#[test]
fn names_keep_the_order_of_the_extension() {
    let entries = vec![dns("b.example"), dns("a.example"), dns("c.example")];
    assert_eq!(dns_names(&entries), vec!["b.example", "a.example", "c.example"]);
}

#[test]
fn entries_of_other_types_are_left_out() {
    let entries = vec![None, dns("www.example"), None, None, dns("example"), None];
    assert_eq!(dns_names(&entries), vec!["www.example", "example"]);
    let verdict = SslExpiration::evaluate(&Some(entries), TimeDelta { days: 1, secs: 0 });
    assert_eq!(verdict.get_alt_names(), &vec!["www.example".to_string(), "example".to_string()]);
}

#[test]
fn repeated_names_are_kept() {
    let entries = vec![dns("a.example"), dns("a.example")];
    assert_eq!(dns_names(&entries), vec!["a.example", "a.example"]);
}

#[test]
fn names_and_seconds_do_not_depend_on_each_other() {
    let entries = Some(vec![dns("a.example")]);
    let expired = SslExpiration::evaluate(&entries, TimeDelta { days: -1, secs: 0 });
    let valid = SslExpiration::evaluate(&entries, TimeDelta { days: 1, secs: 0 });
    assert_eq!(expired.get_alt_names(), valid.get_alt_names());
    assert!(expired.is_expired());
    assert!(!valid.is_expired());
}

#[test]
fn messages_of_the_errors() {
    let refused = Error::ResolutionOrConnection("Connection refused (os error 111)".to_string());
    assert_eq!(refused.message(), "Connection refused (os error 111)");
    let handshake = Error::Handshake("the handshake failed".to_string());
    assert_eq!(handshake.message(), "HandshakeError: the handshake failed");
    assert_eq!(Error::CertificateNotFound.message(), "Certificate not found");
}

#[test]
fn value_from_openssl_is_kept() {
    let given: Result<i64, openssl::error::ErrorStack> = Ok(86_400);
    assert_eq!(Error::from_openssl(given).unwrap(), 86_400);
}

#[test]
fn failure_of_openssl_is_a_crypto_library_error() {
    let stack = openssl::asn1::Asn1Time::from_str("not a time").err().unwrap();
    let text = format!("{}", stack);
    let given: Result<i64, openssl::error::ErrorStack> = Err(stack);
    match Error::from_openssl(given) {
        Err(Error::CryptoLibrary(kept)) => assert_eq!(format!("{}", kept), text),
        other => panic!("{:?}", other),
    }
}

#[test]
fn span_from_openssl_gives_its_verdict() {
    let entries = Some(vec![None, dns("a.example")]);
    let verdict = SslExpiration::from_span(&entries, Ok(TimeDelta { days: -1, secs: -1 })).unwrap();
    assert_eq!(verdict.secs(), -86_401);
    assert!(verdict.is_expired());
    assert_eq!(verdict.get_alt_names(), &vec!["a.example"]);
}

#[test]
fn failed_span_gives_no_verdict() {
    let stack = openssl::asn1::Asn1Time::from_str("not a time").err().unwrap();
    let text = format!("{}", stack);
    match SslExpiration::from_span(&None, Err(stack)) {
        Err(Error::CryptoLibrary(kept)) => assert_eq!(format!("{}", kept), text),
        other => panic!("{:?}", other),
    }
}

#[test]
fn message_of_a_crypto_library_error() {
    let stack = openssl::asn1::Asn1Time::from_str("not a time").err().unwrap();
    let text = format!("{}", stack);
    assert_eq!(Error::CryptoLibrary(stack).message(), text);
}
