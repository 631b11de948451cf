use regtest_opener::text::decimal_text;
use regtest_opener::wallet::{unique_wallet_name, wallet_name, wallet_name_since, wallet_url};
use std::time::{Duration, UNIX_EPOCH};

#[test]
fn a_wallet_is_named_by_its_millisecond() {
    assert_eq!(wallet_name(1_700_000_000_123), "lpk-opener-1700000000123");
    assert_eq!(wallet_name(0), "lpk-opener-0");
}

#[test]
fn different_milliseconds_give_different_names() {
    assert_ne!(wallet_name(1), wallet_name(10));
    assert_ne!(wallet_name(99), wallet_name(100));
}

#[test]
fn a_unique_name_holds_the_present_time() {
    let before = UNIX_EPOCH.elapsed().unwrap().as_millis();
    let name = unique_wallet_name().unwrap();
    let after = UNIX_EPOCH.elapsed().unwrap().as_millis();
    let millis: u128 = name.strip_prefix("lpk-opener-").unwrap().parse().unwrap();
    assert!(before <= millis && millis <= after);
}

#[test]
fn a_reading_after_the_epoch_gives_a_name() {
    let elapsed = Duration::new(1_700_000_000, 123_999_999);
    assert_eq!(wallet_name_since(Ok(elapsed)).unwrap(), "lpk-opener-1700000000123");
    assert_eq!(wallet_name_since(Ok(Duration::from_micros(1_999_999))).unwrap(), "lpk-opener-1999");
    assert_eq!(wallet_name_since(Ok(Duration::ZERO)).unwrap(), "lpk-opener-0");
}

#[test]
fn readings_share_a_name_within_a_millisecond() {
    let name = |micros: u64| wallet_name_since(Ok(Duration::from_micros(micros))).unwrap();
    assert_eq!(name(5_000), name(5_999));
    assert_ne!(name(5_999), name(6_000));
    assert!(!name(5_000).contains('/'));
}

#[test]
fn a_reading_before_the_epoch_gives_no_name() {
    let before = UNIX_EPOCH - Duration::from_secs(1);
    assert!(wallet_name_since(before.duration_since(UNIX_EPOCH)).is_none());
}

#[test]
fn trailing_slashes_are_dropped_from_the_node_url() {
    assert_eq!(wallet_url("http://127.0.0.1:18443", "w"), "http://127.0.0.1:18443/wallet/w");
    assert_eq!(wallet_url("http://127.0.0.1:18443///", "w"), "http://127.0.0.1:18443/wallet/w");
    assert_eq!(wallet_url("//", "w"), "/wallet/w");
    assert_eq!(wallet_url("", "w"), "/wallet/w");
    assert_eq!(wallet_url("http://n/a/", "\u{e9}"), "http://n/a/wallet/\u{e9}");
}

#[test]
fn numbers_are_written_in_decimal() {
    for n in [0, 7, 10, 101, 1_000_000, u128::MAX] {
        assert_eq!(decimal_text(n), n.to_string());
    }
}
