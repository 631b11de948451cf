use regtest_opener::config::{parse_args, Argument, Config, FeeRate};
use regtest_opener::help::help_text;

const HELP: &str = "\
Lightning Payjoin regtest opener

Usage:
  cargo run --features corepc --bin lpk-regtest-opener -- [options]

Options:
  --rpc-url <url>                    Bitcoin Core regtest RPC URL [default: http://127.0.0.1:18443]
  --rpc-user <user>                  RPC username [default: lpk]
  --rpc-password <password>          RPC password [default: lpk]
  --channel-sats <sats>              Channel capacity [default: 1000000]
  --initiator-input-sats <sats>      Initiator funding UTXO value [default: 1100000]
  --counterparty-input-sats <sats>   Counterparty privacy UTXO value [default: 200000]
  --fee-rate <sat/vb>                Funding fee rate [default: 2.0]
  --no-broadcast                     Build and verify, but do not broadcast
  -h, --help                         Show this help

";

fn argument(text: &str) -> Argument {
    Argument {
        text: text.to_string(),
        decimal: text
            .parse::<f32>()
            .map(|rate| FeeRate { bits: rate.to_bits() })
            .map_err(|error| error.to_string()),
    }
}

fn read(args: &[&str]) -> Config {
    parse_args(args.iter().map(|text| argument(text)).collect()).unwrap()
}

#[test]
fn the_help_is_this_text() {
    assert_eq!(help_text(), HELP);
}

#[test]
fn every_listed_flag_is_accepted_and_every_shown_default_holds() {
    let expected = format!("{:?}", Config::default());
    let mut settings = 0;
    let mut switches = 0;
    let help = help_text();
    for line in help.lines().filter(|line| line.starts_with("  -")) {
        let words: Vec<&str> = line.split_whitespace().collect();
        match line.split_once("[default: ") {
            Some((_, rest)) => {
                let default = rest.strip_suffix(']').unwrap();
                assert_eq!(format!("{:?}", read(&[words[0], default])), expected);
                settings += 1;
            }
            None => {
                for flag in words.iter().filter(|word| word.starts_with('-')) {
                    read(&[flag.trim_end_matches(',')]);
                    switches += 1;
                }
            }
        }
    }
    assert_eq!((settings, switches), (7, 3));
}

#[test]
fn the_order_of_different_options_does_not_matter() {
    let options: [&[&str]; 3] =
        [&["--no-broadcast"], &["--channel-sats", "2000000"], &["--rpc-user", "a"]];
    let expected = format!("{:?}", read(&options.concat()));
    for [i, j, k] in [[0, 2, 1], [1, 0, 2], [1, 2, 0], [2, 0, 1], [2, 1, 0]] {
        let args = [options[i], options[j], options[k]].concat();
        assert_eq!(format!("{:?}", read(&args)), expected);
    }
}

#[test]
fn the_later_value_wins_over_options_between() {
    let with_both = read(&["--rpc-user", "a", "--channel-sats", "7", "-h", "--rpc-user", "b"]);
    let with_later = read(&["--channel-sats", "7", "-h", "--rpc-user", "b"]);
    assert_eq!(with_both.rpc_user, "b");
    assert_eq!(format!("{with_both:?}"), format!("{with_later:?}"));
}

#[test]
fn a_clone_holds_the_same_settings() {
    let config = read(&["--rpc-url", "http://n", "--fee-rate", "3.5", "--no-broadcast"]);
    assert_eq!(format!("{:?}", config.clone()), format!("{config:?}"));
}
