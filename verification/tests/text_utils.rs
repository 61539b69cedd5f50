use studifi_finance::amortization::calculate_monthly_payment;
use studifi_finance::text::base64_encode;
use studifi_finance::text::format_currency;
use studifi_finance::text::generate_id;
use studifi_finance::text::parse_currency;
use studifi_finance::text::sanitize_text;
use studifi_finance::text::validate_email;
use studifi_finance::utils::calculate_age_days;
use studifi_finance::utils::days_to_nanos;
use studifi_finance::utils::is_expired;
use studifi_finance::utils::months_to_nanos;
use studifi_finance::utils::nanos_to_seconds;
use studifi_finance::utils::seconds_to_nanos;
use studifi_finance::utils::validate_amount;

#[test]
fn test_validate_email() {
    assert!(validate_email("test@example.com").is_ok());
    assert!(validate_email("invalid").is_err());
}

#[test]
fn test_calculate_monthly_payment() {
    let payment = calculate_monthly_payment(100000, 500, 12);
    assert!(payment > 0);
}

#[test]
fn test_format_currency() {
    assert_eq!(format_currency(12345), "$123.45");
}

#[test]
fn format_currency_pads_cents() {
    assert_eq!(format_currency(5), "$0.05");
    assert_eq!(format_currency(100), "$1.00");
    assert_eq!(format_currency(0), "$0.00");
}

#[test]
fn monthly_payment_zero_rate_rounds_up() {
    assert_eq!(calculate_monthly_payment(100000, 0, 12), 8334);
    assert_eq!(calculate_monthly_payment(120000, 0, 12), 10000);
}

#[test]
fn monthly_payment_with_interest_exceeds_linear_share() {
    let payment = calculate_monthly_payment(100000, 500, 12);
    assert_eq!(payment, 8547);
    assert!(payment > 100000 / 12);
}

#[test]
fn generate_id_pads_counter() {
    assert_eq!(generate_id("LOAN", 1), "LOAN-00000001");
    assert_eq!(generate_id("PAY", 123456789), "PAY-123456789");
}

#[test]
fn parse_currency_round_trips_formatting() {
    assert_eq!(parse_currency("$123.45").unwrap(), 12345);
    assert_eq!(parse_currency("1,234.56").unwrap(), 123456);
    assert_eq!(parse_currency("0.5").unwrap(), 50);
    assert_eq!(parse_currency("7").unwrap(), 700);
    assert!(parse_currency("").is_err());
    assert!(parse_currency("abc").is_err());
    assert!(parse_currency(".").is_err());
}

#[test]
fn sanitize_text_trims_and_filters() {
    assert_eq!(sanitize_text("  hello, world!  "), "hello, world!");
    assert_eq!(sanitize_text("a$b%c"), "abc");
    assert_eq!(sanitize_text("user@host.name"), "user@host.name");
}

#[test]
fn base64_encode_tags_byte_length() {
    assert_eq!(base64_encode("abc"), "base64_3");
    assert_eq!(base64_encode(""), "base64_0");
}

#[test]
fn time_conversions_are_exact() {
    assert_eq!(nanos_to_seconds(2_500_000_000), 2);
    assert_eq!(seconds_to_nanos(3), 3_000_000_000);
    assert_eq!(days_to_nanos(2), 172_800_000_000_000);
    assert_eq!(months_to_nanos(1), 2_592_000_000_000_000);
}

#[test]
fn age_and_expiry_checks() {
    let day = 86_400_000_000_000u64;
    assert_eq!(calculate_age_days(0, 3 * day + 5), 3);
    assert_eq!(calculate_age_days(10, 5), 0);
    assert!(is_expired(0, day, day + 1));
    assert!(!is_expired(0, day, day));
    assert!(validate_amount(1).is_ok());
    assert!(validate_amount(0).is_err());
}
