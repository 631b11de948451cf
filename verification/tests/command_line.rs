use regtest_opener::config::{
    integer_or_error, next_value, parse_args, parse_decimal, parse_u64, Argument, Config, FeeRate,
};
use regtest_opener::error::{input_error, InputError};

fn argument(text: &str) -> Argument {
    Argument {
        text: text.to_string(),
        decimal: text
            .parse::<f32>()
            .map(|rate| FeeRate { bits: rate.to_bits() })
            .map_err(|error| error.to_string()),
    }
}

fn parse(words: &[&str]) -> Result<Config, InputError> {
    parse_args(words.iter().map(|word| argument(word)).collect())
}

fn rejection(words: &[&str]) -> String {
    parse(words).unwrap_err().message
}

#[test]
fn no_arguments_give_the_defaults() {
    let config = parse(&[]).unwrap();
    assert_eq!(config.rpc_url, "http://127.0.0.1:18443");
    assert_eq!(config.rpc_user, "lpk");
    assert_eq!(config.rpc_password, "lpk");
    assert_eq!(config.channel_sats, 1_000_000);
    assert_eq!(config.initiator_input_sats, 1_100_000);
    assert_eq!(config.counterparty_input_sats, 200_000);
    assert_eq!(f32::from_bits(config.fee_rate_sat_vb.bits), 2.0);
    assert!(config.broadcast);
    assert!(!config.help);
}

#[test]
fn default_is_the_empty_command_line() {
    let config = Config::default();
    assert_eq!(config.rpc_url, "http://127.0.0.1:18443");
    assert_eq!(config.fee_rate_sat_vb, FeeRate { bits: 2.0f32.to_bits() });
    assert!(config.broadcast);
}

#[test]
fn every_flag_sets_its_own_field() {
    let config = parse(&[
        "--rpc-url", "http://node:1/", "--rpc-user", "alice", "--rpc-password", "secret",
        "--channel-sats", "2000000", "--initiator-input-sats", "3000000",
        "--counterparty-input-sats", "+400000", "--fee-rate", "3.5", "--no-broadcast", "--help",
    ])
    .unwrap();
    assert_eq!(config.rpc_url, "http://node:1/");
    assert_eq!(config.rpc_user, "alice");
    assert_eq!(config.rpc_password, "secret");
    assert_eq!(config.channel_sats, 2_000_000);
    assert_eq!(config.initiator_input_sats, 3_000_000);
    assert_eq!(config.counterparty_input_sats, 400_000);
    assert_eq!(f32::from_bits(config.fee_rate_sat_vb.bits), 3.5);
    assert!(!config.broadcast);
    assert!(config.help);
}

#[test]
fn no_broadcast_leaves_the_rest_alone() {
    let config = parse(&["--no-broadcast"]).unwrap();
    assert!(!config.broadcast);
    assert!(!config.help);
    assert_eq!(config.channel_sats, 1_000_000);
}

#[test]
fn channel_sats_sets_the_capacity() {
    let config = parse(&["--channel-sats", "2000000"]).unwrap();
    assert_eq!(config.channel_sats, 2_000_000);
    assert_eq!(config.initiator_input_sats, 1_100_000);
    assert!(config.broadcast);
}

#[test]
fn help_has_two_spellings() {
    assert!(parse(&["-h"]).unwrap().help);
    assert!(parse(&["--help"]).unwrap().help);
    assert!(parse(&["--help"]).unwrap().broadcast);
}

#[test]
fn a_switch_holds_wherever_it_stands() {
    let config = parse(&["--no-broadcast", "--channel-sats", "5", "-h", "--rpc-user", "x"]).unwrap();
    assert!(!config.broadcast);
    assert!(config.help);
    assert_eq!(config.rpc_user, "x");
}

#[test]
fn a_later_value_wins() {
    let config = parse(&["--channel-sats", "1", "--channel-sats", "2"]).unwrap();
    assert_eq!(config.channel_sats, 2);
}

#[test]
fn a_flag_may_be_a_value() {
    let config = parse(&["--rpc-user", "--no-broadcast"]).unwrap();
    assert_eq!(config.rpc_user, "--no-broadcast");
    assert!(config.broadcast);
}

#[test]
fn a_flag_at_the_end_lacks_its_value() {
    for flag in [
        "--rpc-url", "--rpc-user", "--rpc-password", "--channel-sats", "--initiator-input-sats",
        "--counterparty-input-sats", "--fee-rate",
    ] {
        assert_eq!(rejection(&[flag]), format!("{flag} requires a value"));
    }
}

#[test]
fn unknown_arguments_are_named() {
    assert_eq!(rejection(&["--bogus"]), "unknown argument: --bogus");
    assert_eq!(rejection(&["--channel-sats", "7", "extra"]), "unknown argument: extra");
    assert_eq!(rejection(&[""]), "unknown argument: ");
}

#[test]
fn invalid_integers_are_quoted() {
    assert_eq!(
        rejection(&["--channel-sats", "12x"]),
        "invalid integer '12x': invalid digit found in string"
    );
    assert_eq!(
        rejection(&["--channel-sats", ""]),
        "invalid integer '': cannot parse integer from empty string"
    );
    assert_eq!(
        rejection(&["--channel-sats", "18446744073709551616"]),
        "invalid integer '18446744073709551616': number too large to fit in target type"
    );
    assert_eq!(
        rejection(&["--counterparty-input-sats", "-1"]),
        "invalid integer '-1': invalid digit found in string"
    );
}

#[test]
fn invalid_decimals_are_quoted() {
    assert_eq!(
        rejection(&["--fee-rate", "fast"]),
        "invalid decimal 'fast': invalid float literal"
    );
}

#[test]
fn the_first_unusable_argument_decides() {
    assert_eq!(
        rejection(&["--fee-rate", "fast", "--bogus"]),
        "invalid decimal 'fast': invalid float literal"
    );
    assert_eq!(rejection(&["--bogus", "--fee-rate", "fast"]), "unknown argument: --bogus");
}

#[test]
fn integers_are_read_to_the_last_one() {
    assert_eq!(parse_u64("0".to_string()).unwrap(), 0);
    assert_eq!(parse_u64("+42".to_string()).unwrap(), 42);
    assert_eq!(parse_u64("007".to_string()).unwrap(), 7);
    assert_eq!(parse_u64("18446744073709551615".to_string()).unwrap(), u64::MAX);
    for text in ["+", "++1", "1_000", " 1", "1 ", "0x10", "1.0", "\u{661}"] {
        assert!(parse_u64(text.to_string()).is_err());
    }
}

#[test]
fn written_amounts_are_read_back() {
    for sats in [0, 9, 10, 99, 1_000_000, u64::MAX] {
        assert_eq!(parse_u64(sats.to_string()).unwrap(), sats);
    }
}

#[test]
fn a_reading_answers_an_integer_argument() {
    assert_eq!(integer_or_error("5".to_string(), Ok(5)).unwrap(), 5);
    let error = integer_or_error("five".to_string(), Err("a reason".to_string())).unwrap_err();
    assert_eq!(error.message, "invalid integer 'five': a reason");
}

#[test]
fn a_reading_answers_a_decimal_argument() {
    assert_eq!(parse_decimal(argument("2.0")).unwrap(), FeeRate { bits: 0x4000_0000 });
    assert_eq!(
        parse_decimal(argument("")).unwrap_err().message,
        "invalid decimal '': cannot parse float from empty string"
    );
}

#[test]
fn next_value_takes_one_argument() {
    let mut words = vec!["a".to_string(), "b".to_string()].into_iter();
    assert_eq!(next_value(&mut words, "--rpc-url").unwrap(), "a");
    assert_eq!(next_value(&mut words, "--rpc-url").unwrap(), "b");
    assert_eq!(
        next_value(&mut words, "--rpc-url").unwrap_err().message,
        "--rpc-url requires a value"
    );
}

#[test]
fn an_input_error_carries_its_message() {
    assert_eq!(input_error("no good".to_string()).message, "no good");
}
