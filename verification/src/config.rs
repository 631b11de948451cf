//! The command line: what the operator may set, the defaults, and how arguments are read.

use crate::error::{input_error, InputError};
use crate::text::{
    all_digits, decimal, digits_value, is_digit, joined, lemma_decimal_round_trip, same_text,
};
use vstd::prelude::*;
use vstd::std_specs::iter::IteratorSpec;
use vstd::string::*;

verus! {

/// A fee rate in satoshis per virtual byte, kept as the bit pattern of the single-precision
/// number that the operator wrote.
#[derive(Debug, Clone, Copy, PartialEq, Eq, Structural)]
pub struct FeeRate {
    pub bits: u32,
}

/// Everything that the operator may set.
#[derive(Debug)]
pub struct Config {
    pub rpc_url: String,
    pub rpc_user: String,
    pub rpc_password: String,
    pub channel_sats: u64,
    pub initiator_input_sats: u64,
    pub counterparty_input_sats: u64,
    pub fee_rate_sat_vb: FeeRate,
    pub broadcast: bool,
    pub help: bool,
}

/// A configuration with its texts as sequences of characters.
#[verifier::ext_equal]
pub struct ConfigModel {
    pub rpc_url: Seq<char>,
    pub rpc_user: Seq<char>,
    pub rpc_password: Seq<char>,
    pub channel_sats: u64,
    pub initiator_input_sats: u64,
    pub counterparty_input_sats: u64,
    pub fee_rate_sat_vb: FeeRate,
    pub broadcast: bool,
    pub help: bool,
}

impl View for Config {
    type V = ConfigModel;

    open spec fn view(&self) -> ConfigModel {
        ConfigModel {
            rpc_url: self.rpc_url@,
            rpc_user: self.rpc_user@,
            rpc_password: self.rpc_password@,
            channel_sats: self.channel_sats,
            initiator_input_sats: self.initiator_input_sats,
            counterparty_input_sats: self.counterparty_input_sats,
            fee_rate_sat_vb: self.fee_rate_sat_vb,
            broadcast: self.broadcast,
            help: self.help,
        }
    }
}

/// The configuration of a command line without arguments. The fee rate is the number two.
pub open spec fn default_config() -> ConfigModel {
    ConfigModel {
        rpc_url: "http://127.0.0.1:18443"@,
        rpc_user: "lpk"@,
        rpc_password: "lpk"@,
        channel_sats: 1_000_000,
        initiator_input_sats: 1_100_000,
        counterparty_input_sats: 200_000,
        fee_rate_sat_vb: FeeRate { bits: 0x4000_0000 },
        broadcast: true,
        help: false,
    }
}

impl Default for Config {
    fn default() -> (config: Self)
        ensures
            config@ == default_config(),
    {
        Config {
            rpc_url: "http://127.0.0.1:18443".to_owned(),
            rpc_user: "lpk".to_owned(),
            rpc_password: "lpk".to_owned(),
            channel_sats: 1_000_000,
            initiator_input_sats: 1_100_000,
            counterparty_input_sats: 200_000,
            fee_rate_sat_vb: FeeRate { bits: 0x4000_0000 },
            broadcast: true,
            help: false,
        }
    }
}

impl Clone for Config {
    fn clone(&self) -> (config: Self)
        ensures
            config@ == self@,
    {
        Config {
            rpc_url: self.rpc_url.clone(),
            rpc_user: self.rpc_user.clone(),
            rpc_password: self.rpc_password.clone(),
            channel_sats: self.channel_sats,
            initiator_input_sats: self.initiator_input_sats,
            counterparty_input_sats: self.counterparty_input_sats,
            fee_rate_sat_vb: self.fee_rate_sat_vb,
            broadcast: self.broadcast,
            help: self.help,
        }
    }
}

/// One argument of the command line, with what it reads as when taken for a decimal number:
/// the number, or the reason why it is none.
#[derive(Debug)]
pub struct Argument {
    pub text: String,
    pub decimal: Result<FeeRate, String>,
}

/// An argument with its texts as sequences of characters.
#[verifier::ext_equal]
pub struct ArgumentModel {
    pub text: Seq<char>,
    pub decimal: Result<FeeRate, Seq<char>>,
}

impl View for Argument {
    type V = ArgumentModel;

    open spec fn view(&self) -> ArgumentModel {
        ArgumentModel {
            text: self.text@,
            decimal: match self.decimal {
                Ok(rate) => Ok(rate),
                Err(reason) => Err(reason@),
            },
        }
    }
}

/// The arguments of a command line as models.
pub open spec fn models(args: Seq<Argument>) -> Seq<ArgumentModel> {
    args.map_values(|arg: Argument| arg@)
}

/// What `text` reads as when taken for an unsigned 64-bit integer: an optional plus sign, then
/// nothing but decimal digits, at least one, whose number fits.
pub open spec fn u64_reading(text: Seq<char>) -> Option<u64> {
    let digits = if text.len() > 0 && text[0] == '+' {
        text.skip(1)
    } else {
        text
    };
    if digits.len() > 0 && all_digits(digits) && digits_value(digits) <= u64::MAX {
        Some(digits_value(digits) as u64)
    } else {
        None
    }
}

/// The reason that the standard library gives for not reading `text` as an unsigned 64-bit
/// integer, as its error displays it.
pub uninterp spec fn u64_fault(text: Seq<char>) -> Seq<char>;

/// `str::parse::<u64>` of the standard library, its error turned into text.
///
/// Trusted: the call succeeds exactly on an optional plus sign followed by one or more decimal
/// digits whose number fits, and returns that number; the error's text depends on the argument
/// alone.
#[verifier::external_body]
fn std_parse_u64(text: &str) -> (reading: Result<u64, String>)
    ensures
        match reading {
            Ok(number) => u64_reading(text@) == Some(number),
            Err(reason) => u64_reading(text@) is None && reason@ == u64_fault(text@),
        },
{
    text.parse::<u64>().map_err(|error| error.to_string())
}

/// The sentence that rejects `value` as a number of the given kind.
pub open spec fn invalid_number(kind: Seq<char>, value: Seq<char>, reason: Seq<char>) -> Seq<char> {
    "invalid "@ + kind + " '"@ + value + "': "@ + reason
}

/// Makes the error that rejects `value` as a number of the given kind.
fn invalid_number_error(kind: &str, value: &str, reason: &str) -> (error: InputError)
    ensures
        error@ == invalid_number(kind@, value@, reason@),
{
    let mut message = joined("invalid ", kind);
    message.append(" '");
    message.append(value);
    message.append("': ");
    message.append(reason);
    input_error(message)
}

/// Answers an integer argument by what the text was read as.
pub fn integer_or_error(value: String, reading: Result<u64, String>) -> (result: Result<
    u64,
    InputError,
>)
    ensures
        match reading {
            Ok(number) => result == Ok::<u64, InputError>(number),
            Err(reason) => result is Err && result->Err_0@ == invalid_number(
                "integer"@,
                value@,
                reason@,
            ),
        },
{
    match reading {
        Ok(number) => Ok(number),
        Err(reason) => Err(
            invalid_number_error("integer", value.as_str(), reason.as_str()),
        ),
    }
}

/// What the operator is told of an integer argument.
pub open spec fn integer_argument(value: Seq<char>) -> Result<u64, Seq<char>> {
    match u64_reading(value) {
        Some(number) => Ok(number),
        None => Err(invalid_number("integer"@, value, u64_fault(value))),
    }
}

/// Reads an integer argument.
pub fn parse_u64(value: String) -> (result: Result<u64, InputError>)
    ensures
        match result {
            Ok(number) => integer_argument(value@) == Ok::<u64, Seq<char>>(number),
            Err(error) => integer_argument(value@) == Err::<u64, Seq<char>>(error@),
        },
{
    let reading = std_parse_u64(value.as_str());
    integer_or_error(value, reading)
}

/// What the operator is told of a decimal argument.
pub open spec fn decimal_argument(value: ArgumentModel) -> Result<FeeRate, Seq<char>> {
    match value.decimal {
        Ok(rate) => Ok(rate),
        Err(reason) => Err(invalid_number("decimal"@, value.text, reason)),
    }
}

/// Reads a decimal argument.
pub fn parse_decimal(value: Argument) -> (result: Result<FeeRate, InputError>)
    ensures
        match result {
            Ok(rate) => decimal_argument(value@) == Ok::<FeeRate, Seq<char>>(rate),
            Err(error) => decimal_argument(value@) == Err::<FeeRate, Seq<char>>(error@),
        },
{
    match value.decimal {
        Ok(rate) => Ok(rate),
        Err(reason) => Err(
            invalid_number_error("decimal", value.text.as_str(), reason.as_str()),
        ),
    }
}

/// The sentence that rejects a flag at the end of the command line that needs a value.
pub open spec fn missing_value(flag: Seq<char>) -> Seq<char> {
    flag + " requires a value"@
}

/// Takes the argument that follows a flag off the command line.
pub fn next_value<T, I: Iterator<Item = T>>(args: &mut I, flag: &str) -> (value: Result<
    T,
    InputError,
>)
    ensures
        <I as vstd::std_specs::iter::IteratorSpec>::obeys_prophetic_iter_laws(final(args))
            == <I as vstd::std_specs::iter::IteratorSpec>::obeys_prophetic_iter_laws(old(args)),
        <I as vstd::std_specs::iter::IteratorSpec>::obeys_prophetic_iter_laws(old(args)) ==> {
            let before = <I as vstd::std_specs::iter::IteratorSpec>::remaining(old(args));
            let after = <I as vstd::std_specs::iter::IteratorSpec>::remaining(final(args));
            if before.len() > 0 {
                value == Ok::<T, InputError>(before[0]) && after == before.drop_first()
            } else {
                value is Err && value->Err_0@ == missing_value(flag@) && after == before
            }
        },
        <I as vstd::std_specs::iter::IteratorSpec>::obeys_prophetic_iter_laws(old(args)) ==> {
            let before = <I as vstd::std_specs::iter::IteratorSpec>::decrease(old(args));
            let after = <I as vstd::std_specs::iter::IteratorSpec>::decrease(final(args));
            &&& before is Some <==> after is Some
            &&& value is Ok && before is Some ==> after->0 < before->0
        },
{
    match args.next() {
        Some(value) => Ok(value),
        None => Err(input_error(joined(flag, " requires a value"))),
    }
}

/// Whether a flag is followed by a value.
pub open spec fn takes_value(flag: Seq<char>) -> bool {
    ||| flag == "--rpc-url"@
    ||| flag == "--rpc-user"@
    ||| flag == "--rpc-password"@
    ||| flag == "--channel-sats"@
    ||| flag == "--initiator-input-sats"@
    ||| flag == "--counterparty-input-sats"@
    ||| flag == "--fee-rate"@
}

/// Whether a flag stands alone.
pub open spec fn stands_alone(flag: Seq<char>) -> bool {
    ||| flag == "-h"@
    ||| flag == "--help"@
    ||| flag == "--no-broadcast"@
}

/// The configuration after a flag that stands alone.
pub open spec fn with_switch(config: ConfigModel, flag: Seq<char>) -> ConfigModel {
    if flag == "-h"@ || flag == "--help"@ {
        ConfigModel { help: true, ..config }
    } else {
        ConfigModel { broadcast: false, ..config }
    }
}

/// The configuration after a flag and its value, or the sentence that rejects the value.
pub open spec fn with_value(
    config: ConfigModel,
    flag: Seq<char>,
    value: ArgumentModel,
) -> Result<ConfigModel, Seq<char>> {
    if flag == "--rpc-url"@ {
        Ok(ConfigModel { rpc_url: value.text, ..config })
    } else if flag == "--rpc-user"@ {
        Ok(ConfigModel { rpc_user: value.text, ..config })
    } else if flag == "--rpc-password"@ {
        Ok(ConfigModel { rpc_password: value.text, ..config })
    } else if flag == "--fee-rate"@ {
        match decimal_argument(value) {
            Ok(rate) => Ok(ConfigModel { fee_rate_sat_vb: rate, ..config }),
            Err(message) => Err(message),
        }
    } else {
        match integer_argument(value.text) {
            Ok(sats) => if flag == "--channel-sats"@ {
                Ok(ConfigModel { channel_sats: sats, ..config })
            } else if flag == "--initiator-input-sats"@ {
                Ok(ConfigModel { initiator_input_sats: sats, ..config })
            } else {
                Ok(ConfigModel { counterparty_input_sats: sats, ..config })
            },
            Err(message) => Err(message),
        }
    }
}

/// The configuration that arguments make of `config`, read from the first to the last; or the
/// sentence that rejects the first of them that cannot be used.
pub open spec fn read_args(config: ConfigModel, args: Seq<ArgumentModel>) -> Result<
    ConfigModel,
    Seq<char>,
>
    decreases args.len(),
{
    if args.len() == 0 {
        Ok(config)
    } else if stands_alone(args[0].text) {
        read_args(with_switch(config, args[0].text), args.skip(1))
    } else if takes_value(args[0].text) {
        if args.len() == 1 {
            Err(missing_value(args[0].text))
        } else {
            match with_value(config, args[0].text, args[1]) {
                Ok(next) => read_args(next, args.skip(2)),
                Err(message) => Err(message),
            }
        }
    } else {
        Err("unknown argument: "@ + args[0].text)
    }
}

/// Sets what a flag that takes a value names.
fn set_value(config: &mut Config, flag: &String, value: Argument) -> (result: Result<(), InputError>)
    requires
        takes_value(flag@),
    ensures
        match result {
            Ok(()) => with_value(old(config)@, flag@, value@) == Ok::<ConfigModel, Seq<char>>(
                final(config)@,
            ),
            Err(error) => with_value(old(config)@, flag@, value@) == Err::<ConfigModel, Seq<char>>(
                error@,
            ),
        },
{
    if same_text(flag, "--rpc-url") {
        config.rpc_url = value.text;
    } else if same_text(flag, "--rpc-user") {
        config.rpc_user = value.text;
    } else if same_text(flag, "--rpc-password") {
        config.rpc_password = value.text;
    } else if same_text(flag, "--fee-rate") {
        match parse_decimal(value) {
            Ok(rate) => {
                config.fee_rate_sat_vb = rate;
            },
            Err(error) => {
                return Err(error);
            },
        }
    } else {
        match parse_u64(value.text) {
            Ok(sats) => {
                if same_text(flag, "--channel-sats") {
                    config.channel_sats = sats;
                } else if same_text(flag, "--initiator-input-sats") {
                    config.initiator_input_sats = sats;
                } else {
                    config.counterparty_input_sats = sats;
                }
            },
            Err(error) => {
                return Err(error);
            },
        }
    }
    Ok(())
}

/// Whether a flag is followed by a value.
fn needs_value(flag: &String) -> (yes: bool)
    ensures
        yes == takes_value(flag@),
{
    same_text(flag, "--rpc-url") || same_text(flag, "--rpc-user") || same_text(
        flag,
        "--rpc-password",
    ) || same_text(flag, "--channel-sats") || same_text(flag, "--initiator-input-sats")
        || same_text(flag, "--counterparty-input-sats") || same_text(flag, "--fee-rate")
}

/// Reads the arguments that an iterator still holds into a configuration.
fn read_remaining<I: Iterator<Item = Argument>>(args: I) -> (result: Result<Config, InputError>)
    requires
        IteratorSpec::obeys_prophetic_iter_laws(&args),
        IteratorSpec::decrease(&args) is Some,
    ensures
        match result {
            Ok(config) => read_args(default_config(), models(IteratorSpec::remaining(&args))) == Ok::<
                ConfigModel,
                Seq<char>,
            >(config@),
            Err(error) => read_args(default_config(), models(IteratorSpec::remaining(&args))) == Err::<
                ConfigModel,
                Seq<char>,
            >(error@),
        },
{
    let mut rest = args;
    let mut config = Config::default();
    loop
        invariant
            IteratorSpec::obeys_prophetic_iter_laws(&rest),
            IteratorSpec::decrease(&rest) is Some,
            read_args(default_config(), models(IteratorSpec::remaining(&args))) == read_args(
                config@,
                models(IteratorSpec::remaining(&rest)),
            ),
        decreases IteratorSpec::decrease(&rest)->0,
    {
        let ghost left = IteratorSpec::remaining(&rest);
        match rest.next() {
            None => {
                return Ok(config);
            },
            Some(arg) => {
                assert(models(left).skip(1) =~= models(left.drop_first()));
                if same_text(&arg.text, "-h") || same_text(&arg.text, "--help") {
                    config.help = true;
                } else if same_text(&arg.text, "--no-broadcast") {
                    config.broadcast = false;
                } else if needs_value(&arg.text) {
                    assert(left.len() >= 2 ==> models(left).skip(2) =~= models(
                        left.drop_first().drop_first(),
                    ));
                    match next_value(&mut rest, arg.text.as_str()) {
                        Ok(value) => {
                            match set_value(&mut config, &arg.text, value) {
                                Ok(()) => {},
                                Err(error) => {
                                    return Err(error);
                                },
                            }
                        },
                        Err(error) => {
                            return Err(error);
                        },
                    }
                } else {
                    return Err(input_error(joined("unknown argument: ", arg.text.as_str())));
                }
            },
        }
    }
}

/// Reads a command line, without the name of the program, into a configuration.
pub fn parse_args(args: Vec<Argument>) -> (result: Result<Config, InputError>)
    ensures
        match result {
            Ok(config) => read_args(default_config(), models(args@)) == Ok::<
                ConfigModel,
                Seq<char>,
            >(config@),
            Err(error) => read_args(default_config(), models(args@)) == Err::<
                ConfigModel,
                Seq<char>,
            >(error@),
        },
{
    read_remaining(args.into_iter())
}

/// Without arguments every default holds.
pub proof fn law_no_arguments_keep_the_defaults()
    ensures
        read_args(default_config(), Seq::empty()) == Ok::<ConfigModel, Seq<char>>(default_config()),
{
}

/// Arguments are read one after the other: what follows usable arguments is read as if it stood
/// alone, from the configuration that those made.
pub proof fn law_arguments_compose(
    config: ConfigModel,
    first: Seq<ArgumentModel>,
    second: Seq<ArgumentModel>,
)
    requires
        read_args(config, first) is Ok,
    ensures
        read_args(config, first + second) == read_args(read_args(config, first)->Ok_0, second),
    decreases first.len(),
{
    let all = first + second;
    if first.len() == 0 {
        assert(all =~= second);
    } else {
        assert(all[0] == first[0]);
        if stands_alone(first[0].text) {
            assert(all.skip(1) =~= first.skip(1) + second);
            law_arguments_compose(with_switch(config, first[0].text), first.skip(1), second);
        } else {
            assert(all[1] == first[1]);
            assert(all.skip(2) =~= first.skip(2) + second);
            law_arguments_compose(
                with_value(config, first[0].text, first[1])->Ok_0,
                first.skip(2),
                second,
            );
        }
    }
}

/// No two flags are alike: they differ in length or in their third character. So no flag that takes
/// a value is one that stands alone.
pub proof fn lemma_flags_differ()
    ensures
        "-h"@.len() == 2,
        "--help"@.len() == 6,
        "--rpc-url"@.len() == 9,
        "--rpc-user"@.len() == 10 && "--rpc-user"@[2] == 'r',
        "--fee-rate"@.len() == 10 && "--fee-rate"@[2] == 'f',
        "--rpc-password"@.len() == 14 && "--rpc-password"@[2] == 'r',
        "--channel-sats"@.len() == 14 && "--channel-sats"@[2] == 'c',
        "--no-broadcast"@.len() == 14 && "--no-broadcast"@[2] == 'n',
        "--initiator-input-sats"@.len() == 22,
        "--counterparty-input-sats"@.len() == 25,
        forall|flag: Seq<char>| #[trigger] takes_value(flag) ==> !stands_alone(flag),
{
    reveal_strlit("-h");
    reveal_strlit("--help");
    reveal_strlit("--rpc-url");
    reveal_strlit("--rpc-user");
    reveal_strlit("--fee-rate");
    reveal_strlit("--rpc-password");
    reveal_strlit("--channel-sats");
    reveal_strlit("--no-broadcast");
    reveal_strlit("--initiator-input-sats");
    reveal_strlit("--counterparty-input-sats");
    assert("-h"@.len() == 2);
    assert("--help"@.len() == 6);
    assert("--no-broadcast"@.len() == 14 && "--no-broadcast"@[2] == 'n');
    assert("--rpc-url"@.len() == 9);
    assert("--rpc-user"@.len() == 10);
    assert("--fee-rate"@.len() == 10);
    assert("--rpc-password"@.len() == 14 && "--rpc-password"@[2] == 'r');
    assert("--channel-sats"@.len() == 14 && "--channel-sats"@[2] == 'c');
    assert("--initiator-input-sats"@.len() == 22);
    assert("--counterparty-input-sats"@.len() == 25);
}

/// Whether arguments are one option: a flag that stands alone, or a flag and its value.
pub open spec fn is_option(args: Seq<ArgumentModel>) -> bool {
    ||| args.len() == 1 && stands_alone(args[0].text)
    ||| args.len() == 2 && takes_value(args[0].text)
}

/// The configuration after an option, or the sentence that rejects its value.
spec fn with_option(config: ConfigModel, option: Seq<ArgumentModel>) -> Result<
    ConfigModel,
    Seq<char>,
> {
    if option.len() == 1 {
        Ok(with_switch(config, option[0].text))
    } else {
        with_value(config, option[0].text, option[1])
    }
}

proof fn lemma_option_is_read(
    config: ConfigModel,
    option: Seq<ArgumentModel>,
    rest: Seq<ArgumentModel>,
)
    requires
        is_option(option),
    ensures
        read_args(config, option + rest) == match with_option(config, option) {
            Ok(next) => read_args(next, rest),
            Err(message) => Err(message),
        },
{
    lemma_flags_differ();
    let all = option + rest;
    assert(all[0] == option[0]);
    assert(all.skip(option.len() as int) =~= rest);
    if option.len() == 2 {
        assert(all[1] == option[1]);
    }
}

/// Two options that stand next to each other may change places, unless they are the same flag or the
/// values of both are rejected: then the later value wins, or the first rejection.
pub proof fn law_neighbouring_options_may_change_places(
    config: ConfigModel,
    before: Seq<ArgumentModel>,
    first: Seq<ArgumentModel>,
    second: Seq<ArgumentModel>,
    after: Seq<ArgumentModel>,
)
    requires
        read_args(config, before) is Ok,
        is_option(first),
        is_option(second),
        first[0].text != second[0].text,
        read_args(config, first) is Ok || read_args(config, second) is Ok,
    ensures
        read_args(config, before + (first + (second + after))) == read_args(
            config,
            before + (second + (first + after)),
        ),
{
    let none = Seq::<ArgumentModel>::empty();
    assert(first + none =~= first && second + none =~= second);
    lemma_option_is_read(config, first, none);
    lemma_option_is_read(config, second, none);
    let start = read_args(config, before)->Ok_0;
    law_arguments_compose(config, before, first + (second + after));
    law_arguments_compose(config, before, second + (first + after));
    lemma_option_is_read(start, first, second + after);
    lemma_option_is_read(start, second, first + after);
    if let Ok(next) = with_option(start, first) {
        lemma_option_is_read(next, second, after);
    }
    if let Ok(next) = with_option(start, second) {
        lemma_option_is_read(next, first, after);
    }
}

/// Whether arguments are one option that can be used.
pub open spec fn is_usable_option(args: Seq<ArgumentModel>) -> bool {
    is_option(args) && read_args(default_config(), args) is Ok
}

/// Whether all options can be used, and no flag that takes a value is given twice.
pub open spec fn sets_each_once(options: Seq<Seq<ArgumentModel>>) -> bool {
    &&& forall|i: int| 0 <= i < options.len() ==> is_usable_option(#[trigger] options[i])
    &&& forall|i: int, j: int|
        0 <= i < j < options.len() && takes_value((#[trigger] options[i])[0].text) ==> options[i][0].text
            != (#[trigger] options[j])[0].text
}

/// The arguments of options, one option after the other.
pub open spec fn all_arguments(options: Seq<Seq<ArgumentModel>>) -> Seq<ArgumentModel>
    decreases options.len(),
{
    if options.len() == 0 {
        Seq::empty()
    } else {
        all_arguments(options.drop_last()) + options.last()
    }
}

/// The configuration after options that can be used.
spec fn with_options(config: ConfigModel, options: Seq<Seq<ArgumentModel>>) -> ConfigModel
    decreases options.len(),
{
    if options.len() == 0 {
        config
    } else {
        with_option(with_options(config, options.drop_last()), options.last())->Ok_0
    }
}

proof fn lemma_usable_option(config: ConfigModel, option: Seq<ArgumentModel>)
    requires
        is_usable_option(option),
    ensures
        with_option(config, option) is Ok,
        read_args(config, option) == with_option(config, option),
{
    let none = Seq::<ArgumentModel>::empty();
    assert(option + none =~= option);
    lemma_option_is_read(config, option, none);
    lemma_option_is_read(default_config(), option, none);
}

proof fn lemma_options_are_read(config: ConfigModel, options: Seq<Seq<ArgumentModel>>)
    requires
        forall|i: int| 0 <= i < options.len() ==> is_usable_option(#[trigger] options[i]),
    ensures
        read_args(config, all_arguments(options)) == Ok::<ConfigModel, Seq<char>>(
            with_options(config, options),
        ),
    decreases options.len(),
{
    if options.len() > 0 {
        let fewer = options.drop_last();
        assert forall|i: int| 0 <= i < fewer.len() implies is_usable_option(#[trigger] fewer[i]) by {
            assert(fewer[i] == options[i]);
        }
        lemma_options_are_read(config, fewer);
        law_arguments_compose(config, all_arguments(fewer), options.last());
        lemma_usable_option(with_options(config, fewer), options.last());
    }
}

proof fn lemma_options_commute(
    config: ConfigModel,
    first: Seq<ArgumentModel>,
    second: Seq<ArgumentModel>,
)
    requires
        is_usable_option(first),
        is_usable_option(second),
        takes_value(first[0].text) ==> first[0].text != second[0].text,
    ensures
        with_option(with_option(config, first)->Ok_0, second) == with_option(
            with_option(config, second)->Ok_0,
            first,
        ),
{
    lemma_usable_option(config, first);
    lemma_usable_option(config, second);
    lemma_usable_option(with_option(config, first)->Ok_0, second);
    lemma_usable_option(with_option(config, second)->Ok_0, first);
}

proof fn lemma_option_moves_to_the_end(
    config: ConfigModel,
    options: Seq<Seq<ArgumentModel>>,
    k: int,
)
    requires
        sets_each_once(options),
        0 <= k < options.len(),
    ensures
        with_options(config, options) == with_option(
            with_options(config, options.remove(k)),
            options[k],
        )->Ok_0,
    decreases options.len(),
{
    let fewer = options.drop_last();
    let last = options.last();
    if k == options.len() - 1 {
        assert(options.remove(k) =~= fewer);
    } else {
        assert forall|i: int| 0 <= i < fewer.len() implies #[trigger] fewer[i] == options[i] by {}
        lemma_option_moves_to_the_end(config, fewer, k);
        assert(options.remove(k) =~= fewer.remove(k).push(last));
        assert(options.remove(k).drop_last() =~= fewer.remove(k));
        assert(is_usable_option(options[k]) && is_usable_option(last));
        lemma_options_commute(with_options(config, fewer.remove(k)), options[k], last);
    }
}

proof fn lemma_reordered_options(
    config: ConfigModel,
    options: Seq<Seq<ArgumentModel>>,
    reordered: Seq<Seq<ArgumentModel>>,
)
    requires
        sets_each_once(options),
        reordered.to_multiset() == options.to_multiset(),
    ensures
        with_options(config, reordered) == with_options(config, options),
        forall|i: int| 0 <= i < reordered.len() ==> is_usable_option(#[trigger] reordered[i]),
    decreases options.len(),
{
    broadcast use vstd::seq_lib::group_to_multiset_ensures;

    assert(reordered.len() == reordered.to_multiset().len());
    assert(options.len() == options.to_multiset().len());
    if reordered.len() > 0 {
        let last = reordered.last();
        let end = reordered.len() - 1;
        let fewer = reordered.drop_last();
        assert(reordered.contains(last));
        assert(reordered.to_multiset().count(last) > 0);
        assert(options.contains(last));
        let k = choose|k: int| 0 <= k < options.len() && options[k] == last;
        let rest = options.remove(k);
        assert(fewer =~= reordered.remove(end));
        assert(fewer.to_multiset() == rest.to_multiset());
        assert forall|i: int| 0 <= i < rest.len() implies #[trigger] rest[i] == options[if i < k {
            i
        } else {
            i + 1
        }] by {}
        lemma_reordered_options(config, rest, fewer);
        lemma_option_moves_to_the_end(config, options, k);
        assert forall|i: int| 0 <= i < reordered.len() implies is_usable_option(
            #[trigger] reordered[i],
        ) by {
            if i < end {
                assert(reordered[i] == fewer[i]);
            }
        }
    }
}

/// The order of options does not matter: usable options that set nothing twice make the same
/// configuration however they are reordered.
pub proof fn law_order_of_options_does_not_matter(
    config: ConfigModel,
    options: Seq<Seq<ArgumentModel>>,
    reordered: Seq<Seq<ArgumentModel>>,
)
    requires
        sets_each_once(options),
        reordered.to_multiset() == options.to_multiset(),
    ensures
        read_args(config, all_arguments(options)) is Ok,
        read_args(config, all_arguments(reordered)) == read_args(config, all_arguments(options)),
{
    lemma_reordered_options(config, options, reordered);
    lemma_options_are_read(config, options);
    lemma_options_are_read(config, reordered);
}

/// Whether the arguments end with a flag that still needs its value.
pub open spec fn ends_in_want(config: ConfigModel, args: Seq<ArgumentModel>) -> bool
    decreases args.len(),
{
    if args.len() == 0 {
        false
    } else if stands_alone(args[0].text) {
        ends_in_want(with_switch(config, args[0].text), args.skip(1))
    } else if takes_value(args[0].text) {
        args.len() == 1 || match with_value(config, args[0].text, args[1]) {
            Ok(next) => ends_in_want(next, args.skip(2)),
            Err(_) => false,
        }
    } else {
        false
    }
}

/// The first argument that cannot be used decides: whatever follows, the operator is told of that
/// one. (A flag at the very end that lacks its value would find it in what follows.)
pub proof fn law_first_unusable_argument_decides(
    config: ConfigModel,
    first: Seq<ArgumentModel>,
    second: Seq<ArgumentModel>,
)
    requires
        read_args(config, first) is Err,
        !ends_in_want(config, first),
    ensures
        read_args(config, first + second) == read_args(config, first),
    decreases first.len(),
{
    let all = first + second;
    assert(all[0] == first[0]);
    if stands_alone(first[0].text) {
        assert(all.skip(1) =~= first.skip(1) + second);
        law_first_unusable_argument_decides(
            with_switch(config, first[0].text),
            first.skip(1),
            second,
        );
    } else if takes_value(first[0].text) {
        assert(all[1] == first[1]);
        if let Ok(next) = with_value(config, first[0].text, first[1]) {
            assert(all.skip(2) =~= first.skip(2) + second);
            law_first_unusable_argument_decides(next, first.skip(2), second);
        }
    }
}

/// A configuration without what a flag that takes a value sets.
spec fn without(config: ConfigModel, flag: Seq<char>) -> ConfigModel {
    if flag == "--rpc-url"@ {
        ConfigModel { rpc_url: Seq::empty(), ..config }
    } else if flag == "--rpc-user"@ {
        ConfigModel { rpc_user: Seq::empty(), ..config }
    } else if flag == "--rpc-password"@ {
        ConfigModel { rpc_password: Seq::empty(), ..config }
    } else if flag == "--fee-rate"@ {
        ConfigModel { fee_rate_sat_vb: FeeRate { bits: 0 }, ..config }
    } else if flag == "--channel-sats"@ {
        ConfigModel { channel_sats: 0, ..config }
    } else if flag == "--initiator-input-sats"@ {
        ConfigModel { initiator_input_sats: 0, ..config }
    } else {
        ConfigModel { counterparty_input_sats: 0, ..config }
    }
}

proof fn lemma_read_alike(
    one: ConfigModel,
    other: ConfigModel,
    flag: Seq<char>,
    args: Seq<ArgumentModel>,
)
    requires
        takes_value(flag),
        without(one, flag) == without(other, flag),
    ensures
        ends_in_want(one, args) == ends_in_want(other, args),
        match (read_args(one, args), read_args(other, args)) {
            (Ok(one), Ok(other)) => without(one, flag) == without(other, flag),
            (Err(message), Err(same)) => message == same,
            _ => false,
        },
    decreases args.len(),
{
    if args.len() > 0 {
        let text = args[0].text;
        if stands_alone(text) {
            lemma_read_alike(with_switch(one, text), with_switch(other, text), flag, args.skip(1));
        } else if takes_value(text) && args.len() > 1 {
            if let Ok(next) = with_value(one, text, args[1]) {
                let same = with_value(other, text, args[1])->Ok_0;
                lemma_read_alike(next, same, flag, args.skip(2));
            }
        }
    }
}

/// A flag that is given twice keeps the later value, usable or not, whatever options stand between:
/// the earlier value, if it is usable, might as well not be there.
pub proof fn law_later_value_wins(
    config: ConfigModel,
    before: Seq<ArgumentModel>,
    flag: ArgumentModel,
    earlier: ArgumentModel,
    between: Seq<ArgumentModel>,
    later: ArgumentModel,
    after: Seq<ArgumentModel>,
)
    requires
        takes_value(flag.text),
        with_value(config, flag.text, earlier) is Ok,
        read_args(config, before) is Ok,
        !ends_in_want(read_args(config, before)->Ok_0, between),
    ensures
        read_args(
            config,
            before + (seq![flag, earlier] + (between + (seq![flag, later] + after))),
        ) == read_args(config, before + (between + (seq![flag, later] + after))),
{
    let first = seq![flag, earlier];
    let second = seq![flag, later];
    let end = second + after;
    let start = read_args(config, before)->Ok_0;
    let set = with_value(start, flag.text, earlier)->Ok_0;
    law_arguments_compose(config, before, first + (between + end));
    law_arguments_compose(config, before, between + end);
    lemma_option_is_read(start, first, between + end);
    lemma_read_alike(start, set, flag.text, between);
    if read_args(start, between) is Ok {
        law_arguments_compose(start, between, end);
        law_arguments_compose(set, between, end);
        lemma_option_is_read(read_args(start, between)->Ok_0, second, after);
        lemma_option_is_read(read_args(set, between)->Ok_0, second, after);
    } else {
        law_first_unusable_argument_decides(start, between, end);
        law_first_unusable_argument_decides(set, between, end);
    }
}

/// The private transaction is broadcast unless the operator refuses: a command line without
/// `--no-broadcast` keeps the broadcast on.
pub proof fn law_broadcast_unless_refused(config: ConfigModel, args: Seq<ArgumentModel>)
    requires
        read_args(config, args) is Ok,
        forall|i: int| 0 <= i < args.len() ==> #[trigger] args[i].text != "--no-broadcast"@,
    ensures
        read_args(config, args)->Ok_0.broadcast == config.broadcast,
    decreases args.len(),
{
    if args.len() > 0 {
        assert(args[0].text != "--no-broadcast"@);
        if stands_alone(args[0].text) {
            let rest = args.skip(1);
            assert forall|i: int| 0 <= i < rest.len() implies #[trigger] rest[i].text
                != "--no-broadcast"@ by {
                assert(rest[i] == args[i + 1]);
            }
            law_broadcast_unless_refused(with_switch(config, args[0].text), rest);
        } else {
            let rest = args.skip(2);
            assert forall|i: int| 0 <= i < rest.len() implies #[trigger] rest[i].text
                != "--no-broadcast"@ by {
                assert(rest[i] == args[i + 2]);
            }
            law_broadcast_unless_refused(with_value(config, args[0].text, args[1])->Ok_0, rest);
        }
    }
}

proof fn lemma_switches_stay(config: ConfigModel, args: Seq<ArgumentModel>)
    requires
        read_args(config, args) is Ok,
    ensures
        !config.broadcast ==> !read_args(config, args)->Ok_0.broadcast,
        config.help ==> read_args(config, args)->Ok_0.help,
    decreases args.len(),
{
    if args.len() > 0 {
        if stands_alone(args[0].text) {
            lemma_switches_stay(with_switch(config, args[0].text), args.skip(1));
        } else {
            lemma_switches_stay(
                with_value(config, args[0].text, args[1])->Ok_0,
                args.skip(2),
            );
        }
    }
}

/// A switch holds wherever it stands: after `--no-broadcast` nothing turns the broadcast on again,
/// and after `-h` or `--help` nothing takes the help back.
pub proof fn law_switches_hold(
    config: ConfigModel,
    before: Seq<ArgumentModel>,
    switch: ArgumentModel,
    after: Seq<ArgumentModel>,
)
    requires
        stands_alone(switch.text),
        read_args(config, before) is Ok,
        read_args(config, before + (seq![switch] + after)) is Ok,
    ensures
        switch.text == "--no-broadcast"@ ==> !read_args(
            config,
            before + (seq![switch] + after),
        )->Ok_0.broadcast,
        switch.text == "-h"@ || switch.text == "--help"@ ==> read_args(
            config,
            before + (seq![switch] + after),
        )->Ok_0.help,
{
    lemma_flags_differ();
    let rest = seq![switch] + after;
    law_arguments_compose(config, before, rest);
    assert(rest.skip(1) =~= after);
    lemma_switches_stay(with_switch(read_args(config, before)->Ok_0, switch.text), after);
}

/// An amount that is written in decimal, with or without a plus sign, is read back as itself.
pub proof fn law_written_amounts_are_read_back(sats: u64)
    ensures
        u64_reading(decimal(sats as nat)) == Some(sats),
        u64_reading(seq!['+'] + decimal(sats as nat)) == Some(sats),
{
    lemma_decimal_round_trip(sats as nat);
    assert(is_digit(decimal(sats as nat)[0]));
    let signed = seq!['+'] + decimal(sats as nat);
    assert(signed.skip(1) =~= decimal(sats as nat));
}

/// A text that is given to `--rpc-url`, `--rpc-user` or `--rpc-password` is kept as it is, and
/// nothing else changes.
pub proof fn law_texts_are_kept(config: ConfigModel, flag: ArgumentModel, value: ArgumentModel)
    ensures
        flag.text == "--rpc-url"@ ==> read_args(config, seq![flag, value]) == Ok::<
            ConfigModel,
            Seq<char>,
        >(ConfigModel { rpc_url: value.text, ..config }),
        flag.text == "--rpc-user"@ ==> read_args(config, seq![flag, value]) == Ok::<
            ConfigModel,
            Seq<char>,
        >(ConfigModel { rpc_user: value.text, ..config }),
        flag.text == "--rpc-password"@ ==> read_args(config, seq![flag, value]) == Ok::<
            ConfigModel,
            Seq<char>,
        >(ConfigModel { rpc_password: value.text, ..config }),
{
    lemma_flags_differ();
    if takes_value(flag.text) {
        lemma_one_setting(config, flag, value);
    }
}

/// Every amount that is given to a flag for amounts, small or large, is kept as it reads, and
/// nothing else changes.
pub proof fn law_amounts_are_kept(
    config: ConfigModel,
    flag: ArgumentModel,
    value: ArgumentModel,
    sats: u64,
)
    requires
        u64_reading(value.text) == Some(sats),
    ensures
        flag.text == "--channel-sats"@ ==> read_args(config, seq![flag, value]) == Ok::<
            ConfigModel,
            Seq<char>,
        >(ConfigModel { channel_sats: sats, ..config }),
        flag.text == "--initiator-input-sats"@ ==> read_args(config, seq![flag, value]) == Ok::<
            ConfigModel,
            Seq<char>,
        >(ConfigModel { initiator_input_sats: sats, ..config }),
        flag.text == "--counterparty-input-sats"@ ==> read_args(config, seq![flag, value]) == Ok::<
            ConfigModel,
            Seq<char>,
        >(ConfigModel { counterparty_input_sats: sats, ..config }),
{
    lemma_flags_differ();
    if takes_value(flag.text) {
        lemma_one_setting(config, flag, value);
    }
}

/// Every fee rate that is given to `--fee-rate` is kept as it reads, and nothing else changes.
pub proof fn law_fee_rates_are_kept(
    config: ConfigModel,
    flag: ArgumentModel,
    value: ArgumentModel,
    rate: FeeRate,
)
    requires
        flag.text == "--fee-rate"@,
        value.decimal == Ok::<FeeRate, Seq<char>>(rate),
    ensures
        read_args(config, seq![flag, value]) == Ok::<ConfigModel, Seq<char>>(
            ConfigModel { fee_rate_sat_vb: rate, ..config },
        ),
{
    lemma_flags_differ();
    lemma_one_setting(config, flag, value);
}

proof fn lemma_one_setting(config: ConfigModel, flag: ArgumentModel, value: ArgumentModel)
    requires
        takes_value(flag.text),
    ensures
        read_args(config, seq![flag, value]) == with_value(config, flag.text, value),
{
    lemma_flags_differ();
    let option = seq![flag, value];
    let none = Seq::<ArgumentModel>::empty();
    assert(option + none =~= option);
    lemma_option_is_read(config, option, none);
}

/// `-h` and `--help` ask for the help, `--no-broadcast` refuses the broadcast, and nothing else
/// changes.
pub proof fn law_switches_are_kept(config: ConfigModel, flag: ArgumentModel)
    ensures
        flag.text == "-h"@ || flag.text == "--help"@ ==> read_args(config, seq![flag]) == Ok::<
            ConfigModel,
            Seq<char>,
        >(ConfigModel { help: true, ..config }),
        flag.text == "--no-broadcast"@ ==> read_args(config, seq![flag]) == Ok::<
            ConfigModel,
            Seq<char>,
        >(ConfigModel { broadcast: false, ..config }),
{
    lemma_flags_differ();
    let option = seq![flag];
    let none = Seq::<ArgumentModel>::empty();
    assert(option + none =~= option);
    if stands_alone(flag.text) {
        lemma_option_is_read(config, option, none);
    }
}

/// An argument that is none of the ten flags is named to the operator, whatever follows it.
pub proof fn law_unknown_arguments_are_named(config: ConfigModel, args: Seq<ArgumentModel>)
    requires
        args.len() > 0,
        args[0].text != "-h"@,
        args[0].text != "--help"@,
        args[0].text != "--no-broadcast"@,
        args[0].text != "--rpc-url"@,
        args[0].text != "--rpc-user"@,
        args[0].text != "--rpc-password"@,
        args[0].text != "--channel-sats"@,
        args[0].text != "--initiator-input-sats"@,
        args[0].text != "--counterparty-input-sats"@,
        args[0].text != "--fee-rate"@,
    ensures
        read_args(config, args) == Err::<ConfigModel, Seq<char>>(
            "unknown argument: "@ + args[0].text,
        ),
{
}

/// A flag that lacks its value is named to the operator.
pub proof fn law_missing_values_are_named(config: ConfigModel, flag: ArgumentModel)
    requires
        flag.text == "--rpc-url"@ || flag.text == "--rpc-user"@ || flag.text == "--rpc-password"@
            || flag.text == "--channel-sats"@ || flag.text == "--initiator-input-sats"@ || flag.text
            == "--counterparty-input-sats"@ || flag.text == "--fee-rate"@,
    ensures
        read_args(config, seq![flag]) == Err::<ConfigModel, Seq<char>>(
            flag.text + " requires a value"@,
        ),
{
    lemma_flags_differ();
}

/// A value that does not read as the number that its flag asks for is quoted to the operator with
/// the reason, whatever follows it.
pub proof fn law_unreadable_numbers_are_quoted(
    config: ConfigModel,
    flag: ArgumentModel,
    value: ArgumentModel,
    rest: Seq<ArgumentModel>,
)
    ensures
        (flag.text == "--channel-sats"@ || flag.text == "--initiator-input-sats"@ || flag.text
            == "--counterparty-input-sats"@) && u64_reading(value.text) is None ==> read_args(
            config,
            seq![flag, value] + rest,
        ) == Err::<ConfigModel, Seq<char>>(
            "invalid "@ + "integer"@ + " '"@ + value.text + "': "@ + u64_fault(value.text),
        ),
        flag.text == "--fee-rate"@ ==> (value.decimal matches Err(reason) ==> read_args(
            config,
            seq![flag, value] + rest,
        ) == Err::<ConfigModel, Seq<char>>(
            "invalid "@ + "decimal"@ + " '"@ + value.text + "': "@ + reason,
        )),
{
    lemma_flags_differ();
    if takes_value(flag.text) {
        lemma_option_is_read(config, seq![flag, value], rest);
    }
}

/// Zeros in front of a number do not change how it reads.
pub proof fn law_leading_zeros_do_not_matter(digits: Seq<char>)
    requires
        digits.len() > 0,
        all_digits(digits),
    ensures
        u64_reading(seq!['0'] + digits) == u64_reading(digits),
{
    let zeroed = seq!['0'] + digits;
    lemma_leading_zero(digits);
    assert(is_digit(digits[0]));
    assert forall|i: int| 0 <= i < zeroed.len() implies is_digit(#[trigger] zeroed[i]) by {
        if i > 0 {
            assert(zeroed[i] == digits[i - 1]);
        }
    }
}

proof fn lemma_leading_zero(digits: Seq<char>)
    ensures
        digits_value(seq!['0'] + digits) == digits_value(digits),
    decreases digits.len(),
{
    let zeroed = seq!['0'] + digits;
    if digits.len() == 0 {
        reveal_with_fuel(digits_value, 2);
    } else {
        lemma_leading_zero(digits.drop_last());
        assert(zeroed.drop_last() =~= seq!['0'] + digits.drop_last());
    }
}

/// A plus sign in front of a number does not change how it reads.
pub proof fn law_plus_signs_do_not_matter(digits: Seq<char>)
    requires
        digits.len() > 0,
        all_digits(digits),
    ensures
        u64_reading(seq!['+'] + digits) == u64_reading(digits),
{
    assert(is_digit(digits[0]));
    assert((seq!['+'] + digits).skip(1) =~= digits);
}

/// Nothing but decimal digits behind at most one plus sign reads as an amount, and no number that
/// is too large does.
pub proof fn law_other_texts_are_no_amounts(text: Seq<char>, i: int, number: nat)
    ensures
        text.len() == 0 ==> u64_reading(text) is None,
        text == seq!['+'] ==> u64_reading(text) is None,
        0 <= i < text.len() && !is_digit(text[i]) && (i > 0 || text[0] != '+') ==> u64_reading(
            text,
        ) is None,
        number > u64::MAX ==> u64_reading(decimal(number)) is None,
{
    if 0 <= i < text.len() && !is_digit(text[i]) && (i > 0 || text[0] != '+') {
        if text[0] == '+' {
            assert(text.skip(1)[i - 1] == text[i]);
        }
    }
    lemma_decimal_round_trip(number);
    assert(is_digit(decimal(number)[0]));
}

/// The defaults: the node and the wallet of a regtest setup on this machine, and the amounts of the
/// comparison.
pub proof fn law_defaults()
    ensures
        ({
            let config = default_config();
            &&& config.rpc_url == "http://127.0.0.1:18443"@
            &&& config.rpc_user == "lpk"@
            &&& config.rpc_password == "lpk"@
            &&& config.channel_sats == 1_000_000
            &&& config.initiator_input_sats == 1_100_000
            &&& config.counterparty_input_sats == 200_000
            &&& config.fee_rate_sat_vb.bits == 0x4000_0000
            &&& config.broadcast
            &&& !config.help
        }),
{
}

/// The models hide nothing: each shows the fields of what it stands for.
pub proof fn law_models_show_every_field(config: Config, args: Seq<Argument>, i: int)
    ensures
        config@.rpc_url == config.rpc_url@,
        config@.rpc_user == config.rpc_user@,
        config@.rpc_password == config.rpc_password@,
        config@.channel_sats == config.channel_sats,
        config@.initiator_input_sats == config.initiator_input_sats,
        config@.counterparty_input_sats == config.counterparty_input_sats,
        config@.fee_rate_sat_vb == config.fee_rate_sat_vb,
        config@.broadcast == config.broadcast,
        config@.help == config.help,
        models(args).len() == args.len(),
        0 <= i < args.len() ==> models(args)[i].text == args[i].text@,
        0 <= i < args.len() ==> match args[i].decimal {
            Ok(rate) => models(args)[i].decimal == Ok::<FeeRate, Seq<char>>(rate),
            Err(reason) => models(args)[i].decimal == Err::<FeeRate, Seq<char>>(reason@),
        },
{
}

} // verus!
