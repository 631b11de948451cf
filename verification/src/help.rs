//! The help: every option that the command line accepts, with its default.

use crate::config::{
    default_config, law_no_arguments_keep_the_defaults, law_written_amounts_are_read_back,
    lemma_flags_differ, read_args, stands_alone, takes_value, u64_reading, with_value,
    ArgumentModel, ConfigModel, FeeRate,
};
use crate::text::{decimal, joined};
use vstd::prelude::*;
use vstd::string::*;

verus! {

/// The column, behind the indentation, at which the purpose of an option begins.
pub const PURPOSE_COLUMN: usize = 35;

/// An option as the help lists it.
pub struct ListedOption {
    /// The flags that name it.
    pub flags: Seq<Seq<char>>,
    /// What stands for its value, where it takes one.
    pub value: Option<Seq<char>>,
    pub purpose: Seq<char>,
    /// The value that holds where the option is not given.
    pub default: Option<Seq<char>>,
}

/// An option that takes a value.
pub open spec fn setting(
    flag: Seq<char>,
    value: Seq<char>,
    purpose: Seq<char>,
    default: Seq<char>,
) -> ListedOption {
    ListedOption { flags: seq![flag], value: Some(value), purpose, default: Some(default) }
}

/// An option that takes no value.
pub open spec fn switch(flags: Seq<Seq<char>>, purpose: Seq<char>) -> ListedOption {
    ListedOption { flags, value: None, purpose, default: None }
}

/// The options that the help lists.
pub open spec fn listed_options() -> Seq<ListedOption> {
    seq![
        setting(
            "--rpc-url"@,
            "<url>"@,
            "Bitcoin Core regtest RPC URL"@,
            "http://127.0.0.1:18443"@,
        ),
        setting("--rpc-user"@, "<user>"@, "RPC username"@, "lpk"@),
        setting("--rpc-password"@, "<password>"@, "RPC password"@, "lpk"@),
        setting("--channel-sats"@, "<sats>"@, "Channel capacity"@, "1000000"@),
        setting(
            "--initiator-input-sats"@,
            "<sats>"@,
            "Initiator funding UTXO value"@,
            "1100000"@,
        ),
        setting(
            "--counterparty-input-sats"@,
            "<sats>"@,
            "Counterparty privacy UTXO value"@,
            "200000"@,
        ),
        setting("--fee-rate"@, "<sat/vb>"@, "Funding fee rate"@, "2.0"@),
        switch(seq!["--no-broadcast"@], "Build and verify, but do not broadcast"@),
        switch(seq!["-h"@, "--help"@], "Show this help"@),
    ]
}

/// The flags of an option, with commas between them.
pub open spec fn flag_list(flags: Seq<Seq<char>>) -> Seq<char>
    decreases flags.len(),
{
    if flags.len() <= 1 {
        flags[0]
    } else {
        flag_list(flags.drop_last()) + ", "@ + flags.last()
    }
}

/// How an option is written.
pub open spec fn usage_of(option: ListedOption) -> Seq<char> {
    match option.value {
        Some(value) => flag_list(option.flags) + " "@ + value,
        None => flag_list(option.flags),
    }
}

/// A text with spaces behind it, up to a width.
pub open spec fn padded(text: Seq<char>, width: int) -> Seq<char> {
    text + Seq::new(
        if text.len() < width {
            (width - text.len()) as nat
        } else {
            0
        },
        |i: int| ' ',
    )
}

/// The note of a default.
pub open spec fn default_note(default: Option<Seq<char>>) -> Seq<char> {
    match default {
        Some(default) => " [default: "@ + default + "]"@,
        None => Seq::empty(),
    }
}

/// The line of an option.
pub open spec fn option_line(option: ListedOption) -> Seq<char> {
    "  "@ + padded(usage_of(option), PURPOSE_COLUMN as int) + option.purpose + default_note(
        option.default,
    ) + "\n"@
}

/// The lines of options.
pub open spec fn option_lines(options: Seq<ListedOption>) -> Seq<char>
    decreases options.len(),
{
    if options.len() == 0 {
        Seq::empty()
    } else {
        option_lines(options.drop_last()) + option_line(options.last())
    }
}

/// The help that the operator asks for with `--help`.
pub open spec fn help_of() -> Seq<char> {
    "\
Lightning Payjoin regtest opener

Usage:
  cargo run --features corepc --bin lpk-regtest-opener -- [options]

Options:
"@ + option_lines(listed_options()) + "\n"@
}

/// Appends spaces to a text, up to a width.
fn pad(text: &mut String, width: usize)
    ensures
        final(text)@ == padded(old(text)@, width as int),
{
    let ghost before = text@;
    proof {
        reveal_strlit(" ");
        assert(" "@ =~= seq![' ']);
    }
    let mut len: usize = text.as_str().unicode_len();
    assert(text@ =~= padded(before, len as int));
    while len < width
        invariant
            " "@ == seq![' '],
            before.len() <= len,
            len <= width || len == before.len(),
            text@ == padded(before, len as int),
        decreases width - len,
    {
        text.append(" ");
        len = len + 1;
        assert(text@ =~= padded(before, len as int));
    }
    assert(text@ =~= padded(before, width as int));
}

/// Writes the line of an option: how it is written, its purpose, and the note of its default.
fn write_option(text: &mut String, usage: String, purpose: &str, note: &str)
    ensures
        final(text)@ == old(text)@ + ("  "@ + padded(usage@, PURPOSE_COLUMN as int) + purpose@
            + note@ + "\n"@),
{
    let ghost before = text@;
    let ghost line = "  "@ + padded(usage@, PURPOSE_COLUMN as int) + purpose@ + note@ + "\n"@;
    let mut usage = usage;
    pad(&mut usage, PURPOSE_COLUMN);
    text.append("  ");
    text.append(usage.as_str());
    text.append(purpose);
    text.append(note);
    text.append("\n");
    assert(text@ =~= before + line);
}

/// Writes the line of an option that takes a value.
fn write_setting(text: &mut String, flag: &str, value: &str, purpose: &str, default: &str)
    ensures
        final(text)@ == old(text)@ + option_line(setting(flag@, value@, purpose@, default@)),
{
    let mut usage = joined(flag, " ");
    usage.append(value);
    let mut note = joined(" [default: ", default);
    note.append("]");
    write_option(text, usage, purpose, note.as_str());
}

/// The help that the operator asks for with `--help`.
pub fn help_text() -> (text: String)
    ensures
        text@ == help_of(),
{
    let mut text = "\
Lightning Payjoin regtest opener

Usage:
  cargo run --features corepc --bin lpk-regtest-opener -- [options]

Options:
".to_owned();
    let ghost heading = text@;
    write_setting(
        &mut text,
        "--rpc-url",
        "<url>",
        "Bitcoin Core regtest RPC URL",
        "http://127.0.0.1:18443",
    );
    write_setting(&mut text, "--rpc-user", "<user>", "RPC username", "lpk");
    write_setting(&mut text, "--rpc-password", "<password>", "RPC password", "lpk");
    write_setting(&mut text, "--channel-sats", "<sats>", "Channel capacity", "1000000");
    write_setting(
        &mut text,
        "--initiator-input-sats",
        "<sats>",
        "Initiator funding UTXO value",
        "1100000",
    );
    write_setting(
        &mut text,
        "--counterparty-input-sats",
        "<sats>",
        "Counterparty privacy UTXO value",
        "200000",
    );
    write_setting(&mut text, "--fee-rate", "<sat/vb>", "Funding fee rate", "2.0");
    write_option(
        &mut text,
        "--no-broadcast".to_owned(),
        "Build and verify, but do not broadcast",
        "",
    );
    let mut help = joined("-h", ", ");
    help.append("--help");
    write_option(&mut text, help, "Show this help", "");
    proof {
        reveal_strlit("");
        assert(""@ =~= Seq::<char>::empty());
        let options = listed_options();
        assert(flag_list(options[8].flags) == "-h"@ + ", "@ + "--help"@) by {
            reveal_with_fuel(flag_list, 2);
            assert(options[8].flags.drop_last() =~= seq!["-h"@]);
        }
        lemma_nine_lines(options);
        assert(text@ =~= heading + option_lines(options));
    }
    text.append("\n");
    text
}

proof fn lemma_nine_lines(options: Seq<ListedOption>)
    requires
        options.len() == 9,
    ensures
        option_lines(options) == option_line(options[0]) + option_line(options[1]) + option_line(
            options[2],
        ) + option_line(options[3]) + option_line(options[4]) + option_line(options[5])
            + option_line(options[6]) + option_line(options[7]) + option_line(options[8]),
{
    assert forall|n: int| 0 < n <= 9 implies #[trigger] option_lines(options.take(n))
        == option_lines(options.take(n - 1)) + option_line(options[n - 1]) by {
        assert(options.take(n).drop_last() =~= options.take(n - 1));
    }
    assert(options.take(9) =~= options);
    assert(option_lines(options.take(0)) =~= Seq::empty());
    assert(option_lines(options.take(1)) =~= option_line(options[0]));
    assert(option_lines(options.take(2)) =~= option_line(options[0]) + option_line(options[1]));
    assert(option_lines(options.take(8)) == option_lines(options.take(7)) + option_line(options[7]));
}

/// Whether the help lists a flag.
pub open spec fn is_listed(flag: Seq<char>) -> bool {
    exists|i: int|
        0 <= i < listed_options().len() && (#[trigger] listed_options()[i]).flags.contains(flag)
}

/// The help lists exactly the flags that the command line accepts: with a value and a default those
/// that take a value, without either those that stand alone.
pub proof fn law_help_lists_what_is_accepted()
    ensures
        forall|flag: Seq<char>| #[trigger]
            is_listed(flag) <==> takes_value(flag) || stands_alone(flag),
        forall|i: int, flag: Seq<char>|
            0 <= i < listed_options().len() && #[trigger] listed_options()[i].flags.contains(flag)
                ==> {
                &&& takes_value(flag) <==> listed_options()[i].value is Some
                &&& takes_value(flag) <==> listed_options()[i].default is Some
                &&& stands_alone(flag) <==> listed_options()[i].value is None
            },
{
    let options = listed_options();
    lemma_flags_differ();
    assert forall|flag: Seq<char>| takes_value(flag) || stands_alone(flag) implies #[trigger]
        is_listed(flag) by {
        assert(options[0].flags[0] == "--rpc-url"@);
        assert(options[1].flags[0] == "--rpc-user"@);
        assert(options[2].flags[0] == "--rpc-password"@);
        assert(options[3].flags[0] == "--channel-sats"@);
        assert(options[4].flags[0] == "--initiator-input-sats"@);
        assert(options[5].flags[0] == "--counterparty-input-sats"@);
        assert(options[6].flags[0] == "--fee-rate"@);
        assert(options[7].flags[0] == "--no-broadcast"@);
        assert(options[8].flags[0] == "-h"@ && options[8].flags[1] == "--help"@);
    }
}

proof fn lemma_shown_amounts()
    ensures
        u64_reading("1000000"@) == Some(1_000_000u64),
        u64_reading("1100000"@) == Some(1_100_000u64),
        u64_reading("200000"@) == Some(200_000u64),
{
    law_written_amounts_are_read_back(1_000_000);
    law_written_amounts_are_read_back(1_100_000);
    law_written_amounts_are_read_back(200_000);
    reveal_with_fuel(decimal, 8);
    reveal_strlit("1000000");
    reveal_strlit("1100000");
    reveal_strlit("200000");
    assert(decimal(1_000_000) =~= "1000000"@);
    assert(decimal(1_100_000) =~= "1100000"@);
    assert(decimal(200_000) =~= "200000"@);
}

/// Giving an option the default that the help shows for it changes nothing. The shown fee rate has
/// to read as the number two; how it reads is not part of the text.
pub proof fn law_shown_defaults_hold(i: int, flag: ArgumentModel, value: ArgumentModel)
    requires
        0 <= i < listed_options().len(),
        listed_options()[i].flags.contains(flag.text),
        listed_options()[i].default == Some(value.text),
        flag.text == "--fee-rate"@ ==> value.decimal == Ok::<FeeRate, Seq<char>>(
            FeeRate { bits: 0x4000_0000 },
        ),
    ensures
        read_args(default_config(), seq![flag, value]) == Ok::<ConfigModel, Seq<char>>(
            default_config(),
        ),
{
    law_help_lists_what_is_accepted();
    lemma_flags_differ();
    lemma_shown_amounts();
    let args = seq![flag, value];
    assert(args[0] == flag && args[1] == value);
    assert(args.skip(2) =~= Seq::empty());
    assert(flag.text == listed_options()[i].flags[0]);
    assert(takes_value(flag.text));
    assert(with_value(default_config(), flag.text, value) == Ok::<ConfigModel, Seq<char>>(
        default_config(),
    ));
    law_no_arguments_keep_the_defaults();
}

} // verus!
