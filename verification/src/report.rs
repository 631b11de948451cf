//! What the opener prints as it goes: the steps, the summaries of transactions, and the evidence.

use crate::script::{is_p2wpkh, is_p2wsh, is_v0_program};
use crate::text::{decimal, decimal_text};
use crate::transaction::{
    compute_txid, outpoint_digits, outpoint_text, serialize_hex, transaction_hex, txid_digits,
    txid_of, txid_text, Input, OutPoint, Output, Transaction,
};
use vstd::prelude::*;
use vstd::string::*;

verus! {

/// What the output of a transaction is called in a summary.
pub open spec fn kind_of(script: Seq<u8>, index: int) -> Seq<char> {
    if index == 0 && is_v0_program(script, 32) {
        "channel funding p2wsh"@
    } else if is_v0_program(script, 20) {
        "wallet p2wpkh change"@
    } else if is_v0_program(script, 32) {
        "p2wsh"@
    } else {
        "other script"@
    }
}

/// Names the kind of the output at `index` by its script.
pub fn output_kind(script: &Vec<u8>, index: usize) -> (kind: &'static str)
    ensures
        kind@ == kind_of(script@, index as int),
{
    if index == 0 && is_p2wsh(script.as_slice()) {
        "channel funding p2wsh"
    } else if is_p2wpkh(script.as_slice()) {
        "wallet p2wpkh change"
    } else if is_p2wsh(script.as_slice()) {
        "p2wsh"
    } else {
        "other script"
    }
}

/// What the input at `index` is called in a summary.
pub open spec fn role_of(roles: Seq<&str>, index: int) -> Seq<char> {
    if index < roles.len() {
        roles[index]@
    } else {
        "unknown input"@
    }
}

/// The line of one input.
pub open spec fn input_line(input: Input, roles: Seq<&str>, index: int) -> Seq<char> {
    "    ["@ + decimal(index as nat) + "] "@ + role_of(roles, index) + ": "@ + outpoint_digits(
        input.previous_output,
    ) + "\n"@
}

/// The lines of the first `count` inputs.
pub open spec fn input_lines(inputs: Seq<Input>, roles: Seq<&str>, count: nat) -> Seq<char>
    decreases count,
{
    if count == 0 {
        Seq::empty()
    } else {
        input_lines(inputs, roles, (count - 1) as nat) + input_line(
            inputs[count - 1],
            roles,
            count - 1,
        )
    }
}

/// The line of one output.
pub open spec fn output_line(output: Output, index: int) -> Seq<char> {
    "    ["@ + decimal(index as nat) + "] "@ + decimal(output.value_sats as nat) + " sats ("@
        + kind_of(output.script_pubkey@, index) + ")\n"@
}

/// The lines of the first `count` outputs.
pub open spec fn output_lines(outputs: Seq<Output>, count: nat) -> Seq<char>
    decreases count,
{
    if count == 0 {
        Seq::empty()
    } else {
        output_lines(outputs, (count - 1) as nat) + output_line(outputs[count - 1], count - 1)
    }
}

/// The summary of a transaction: its label, its identifier, and a line for each input and output.
pub open spec fn summary_of(label: Seq<char>, tx: Transaction, roles: Seq<&str>) -> Seq<char> {
    label + "\n"@ + "  txid: "@ + txid_digits(txid_of(tx@.without_witnesses())) + "\n"@
        + "  inputs: "@ + decimal(tx.inputs@.len()) + "\n"@ + input_lines(
        tx.inputs@,
        roles,
        tx.inputs@.len(),
    ) + "  outputs: "@ + decimal(tx.outputs@.len()) + "\n"@ + output_lines(
        tx.outputs@,
        tx.outputs@.len(),
    )
}

/// Writes the lines of all inputs.
fn write_inputs(text: &mut String, inputs: &Vec<Input>, roles: &Vec<&str>)
    ensures
        final(text)@ == old(text)@ + input_lines(inputs@, roles@, inputs@.len()),
{
    let ghost before = text@;
    let mut index: usize = 0;
    assert(text@ =~= before + input_lines(inputs@, roles@, 0));
    while index < inputs.len()
        invariant
            index <= inputs.len(),
            text@ == before + input_lines(inputs@, roles@, index as nat),
        decreases inputs.len() - index,
    {
        let ghost so_far = text@;
        let number = decimal_text(index as u128);
        let role = if index < roles.len() {
            roles[index]
        } else {
            "unknown input"
        };
        let outpoint = outpoint_text(&inputs[index].previous_output);
        text.append("    [");
        text.append(number.as_str());
        text.append("] ");
        text.append(role);
        text.append(": ");
        text.append(outpoint.as_str());
        text.append("\n");
        assert(text@ =~= so_far + input_line(inputs@[index as int], roles@, index as int));
        index = index + 1;
        assert(text@ =~= before + input_lines(inputs@, roles@, index as nat));
    }
}

/// Writes the lines of all outputs.
fn write_outputs(text: &mut String, outputs: &Vec<Output>)
    ensures
        final(text)@ == old(text)@ + output_lines(outputs@, outputs@.len()),
{
    let ghost before = text@;
    let mut index: usize = 0;
    assert(text@ =~= before + output_lines(outputs@, 0));
    while index < outputs.len()
        invariant
            index <= outputs.len(),
            text@ == before + output_lines(outputs@, index as nat),
        decreases outputs.len() - index,
    {
        let ghost so_far = text@;
        let number = decimal_text(index as u128);
        let value = decimal_text(outputs[index].value_sats as u128);
        text.append("    [");
        text.append(number.as_str());
        text.append("] ");
        text.append(value.as_str());
        text.append(" sats (");
        text.append(output_kind(&outputs[index].script_pubkey, index));
        text.append(")\n");
        assert(text@ =~= so_far + output_line(outputs@[index as int], index as int));
        index = index + 1;
        assert(text@ =~= before + output_lines(outputs@, index as nat));
    }
}

/// Summarises a transaction.
pub fn transaction_summary(label: &str, tx: &Transaction, input_roles: &Vec<&str>) -> (text: String)
    ensures
        text@ == summary_of(label@, *tx, input_roles@),
{
    let mut text = label.to_owned();
    text.append("\n");
    text.append("  txid: ");
    text.append(txid_text(&compute_txid(tx)).as_str());
    text.append("\n");
    text.append("  inputs: ");
    text.append(decimal_text(tx.inputs.len() as u128).as_str());
    text.append("\n");
    write_inputs(&mut text, &tx.inputs, input_roles);
    text.append("  outputs: ");
    text.append(decimal_text(tx.outputs.len() as u128).as_str());
    text.append("\n");
    write_outputs(&mut text, &tx.outputs);
    text
}

/// The evidence: both transactions side by side, and the two claims.
pub open spec fn evidence_of(normal: Transaction, private: Transaction, channel_sats: u64) -> Seq<
    char,
> {
    "Evidence\n"@ + "  normal open: "@ + decimal(normal.inputs@.len()) + " input, "@ + decimal(
        normal.outputs@.len(),
    ) + " outputs, channel output "@ + decimal(normal.outputs@[0].value_sats as nat) + " sats\n"@
        + "  private open: "@ + decimal(private.inputs@.len()) + " inputs, "@ + decimal(
        private.outputs@.len(),
    ) + " outputs, channel output "@ + decimal(private.outputs@[0].value_sats as nat) + " sats\n"@
        + "  expected channel capacity: "@ + decimal(channel_sats as nat) + " sats\n"@
        + "  privacy claim: the broadcast transaction has inputs from both peers\n"@
        + "  accounting claim: the counterparty privacy input does not receive channel balance\n"@
}

/// Writes the evidence.
pub fn privacy_proof(normal: &Transaction, private: &Transaction, channel_sats: u64) -> (text:
    String)
    requires
        normal.outputs@.len() > 0,
        private.outputs@.len() > 0,
    ensures
        text@ == evidence_of(*normal, *private, channel_sats),
{
    let mut text = "Evidence\n".to_owned();
    text.append("  normal open: ");
    text.append(decimal_text(normal.inputs.len() as u128).as_str());
    text.append(" input, ");
    text.append(decimal_text(normal.outputs.len() as u128).as_str());
    text.append(" outputs, channel output ");
    text.append(decimal_text(normal.outputs[0].value_sats as u128).as_str());
    text.append(" sats\n");
    text.append("  private open: ");
    text.append(decimal_text(private.inputs.len() as u128).as_str());
    text.append(" inputs, ");
    text.append(decimal_text(private.outputs.len() as u128).as_str());
    text.append(" outputs, channel output ");
    text.append(decimal_text(private.outputs[0].value_sats as u128).as_str());
    text.append(" sats\n");
    text.append("  expected channel capacity: ");
    text.append(decimal_text(channel_sats as u128).as_str());
    text.append(" sats\n");
    text.append("  privacy claim: the broadcast transaction has inputs from both peers\n");
    text.append(
        "  accounting claim: the counterparty privacy input does not receive channel balance\n",
    );
    text
}

/// A line that names a quantity.
pub open spec fn quantity_line(label: Seq<char>, number: nat, unit: Seq<char>) -> Seq<char> {
    label + decimal(number) + unit + "\n"@
}

/// Writes a line that names a quantity.
fn write_quantity(text: &mut String, label: &str, number: u128, unit: &str)
    ensures
        final(text)@ == old(text)@ + quantity_line(label@, number as nat, unit@),
{
    let ghost before = text@;
    text.append(label);
    text.append(decimal_text(number).as_str());
    text.append(unit);
    text.append("\n");
    assert(text@ =~= before + quantity_line(label@, number as nat, unit@));
}

/// A line that names a text.
pub open spec fn text_line(label: Seq<char>, value: Seq<char>) -> Seq<char> {
    label + value + "\n"@
}

/// Writes a line that names a text.
fn write_line(text: &mut String, label: &str, value: &str)
    ensures
        final(text)@ == old(text)@ + text_line(label@, value@),
{
    let ghost before = text@;
    text.append(label);
    text.append(value);
    text.append("\n");
    assert(text@ =~= before + text_line(label@, value@));
}

/// What is printed before anything is done.
pub open spec fn opening_of(rpc_url: Seq<char>, channel_sats: u64) -> Seq<char> {
    "Lightning Payjoin regtest opener\n"@ + text_line("  rpc: "@, rpc_url) + quantity_line(
        "  channel: "@,
        channel_sats as nat,
        " sats"@,
    ) + "  mode: normal control + privacy-input channel open\n\n"@
}

/// Writes what is printed before anything is done.
pub fn opening_text(rpc_url: &str, channel_sats: u64) -> (text: String)
    ensures
        text@ == opening_of(rpc_url@, channel_sats),
{
    let mut text = "Lightning Payjoin regtest opener\n".to_owned();
    write_line(&mut text, "  rpc: ", rpc_url);
    write_quantity(&mut text, "  channel: ", channel_sats as u128, " sats");
    text.append("  mode: normal control + privacy-input channel open\n\n");
    text
}

/// What is printed once the temporary wallet answers.
pub open spec fn preparing_of(wallet_name: Seq<char>, start_height: u64) -> Seq<char> {
    "1. Preparing regtest funds\n"@ + text_line("  wallet: "@, wallet_name) + quantity_line(
        "  starting height: "@,
        start_height as nat,
        ""@,
    )
}

/// Writes what is printed once the temporary wallet answers.
pub fn preparing_text(wallet_name: &str, start_height: u64) -> (text: String)
    ensures
        text@ == preparing_of(wallet_name@, start_height),
{
    let mut text = "1. Preparing regtest funds\n".to_owned();
    write_line(&mut text, "  wallet: ", wallet_name);
    write_quantity(&mut text, "  starting height: ", start_height as u128, "");
    text
}

/// What is printed once both peers are funded.
pub open spec fn funded_of(initiator: OutPoint, counterparty: OutPoint) -> Seq<char> {
    text_line("  initiator input: "@, outpoint_digits(initiator)) + text_line(
        "  counterparty privacy input: "@,
        outpoint_digits(counterparty),
    ) + "\n2. Building normal control transaction\n"@
}

/// Writes what is printed once both peers are funded.
pub fn funded_text(initiator: &OutPoint, counterparty: &OutPoint) -> (text: String)
    ensures
        text@ == funded_of(*initiator, *counterparty),
{
    let mut text = String::new();
    write_line(&mut text, "  initiator input: ", outpoint_text(initiator).as_str());
    write_line(&mut text, "  counterparty privacy input: ", outpoint_text(counterparty).as_str());
    text.append("\n2. Building normal control transaction\n");
    assert(text@ =~= funded_of(*initiator, *counterparty));
    text
}

/// What is printed of the normal control transaction, and of the session that follows it.
pub open spec fn normal_of(normal: Transaction, session: Seq<char>) -> Seq<char> {
    summary_of("Normal single-funder channel open"@, normal, seq!["initiator funding input"])
        + "  status: signed comparison transaction, not broadcast\n\n"@
        + "3. Coordinating privacy-input funding through async directory\n"@ + text_line(
        "  session: "@,
        session,
    )
}

/// Writes what is printed of the normal control transaction.
pub fn normal_text(normal: &Transaction, session: &str) -> (text: String)
    ensures
        text@ == normal_of(*normal, session@),
{
    let mut roles: Vec<&str> = Vec::new();
    roles.push("initiator funding input");
    assert(roles@ =~= seq!["initiator funding input"]);
    let mut text = transaction_summary("Normal single-funder channel open", normal, &roles);
    text.append("  status: signed comparison transaction, not broadcast\n\n");
    text.append("3. Coordinating privacy-input funding through async directory\n");
    write_line(&mut text, "  session: ", session);
    text
}

/// What is printed of a valid proposal.
pub open spec fn validation_of(
    contribution_sats: u64,
    added_inputs: u64,
    added_outputs: u64,
    added_fee_sats: u64,
) -> Seq<char> {
    quantity_line("  counterparty fee contribution: "@, contribution_sats as nat, " sats"@)
        + quantity_line("  added inputs: "@, added_inputs as nat, ""@) + quantity_line(
        "  added outputs: "@,
        added_outputs as nat,
        ""@,
    ) + quantity_line("  added fee: "@, added_fee_sats as nat, " sats"@)
}

/// Writes what is printed of a valid proposal.
pub fn validation_text(
    contribution_sats: u64,
    added_inputs: u64,
    added_outputs: u64,
    added_fee_sats: u64,
) -> (text: String)
    ensures
        text@ == validation_of(contribution_sats, added_inputs, added_outputs, added_fee_sats),
{
    let mut text = String::new();
    write_quantity(
        &mut text,
        "  counterparty fee contribution: ",
        contribution_sats as u128,
        " sats",
    );
    write_quantity(&mut text, "  added inputs: ", added_inputs as u128, "");
    write_quantity(&mut text, "  added outputs: ", added_outputs as u128, "");
    write_quantity(&mut text, "  added fee: ", added_fee_sats as u128, " sats");
    assert(text@ =~= validation_of(
        contribution_sats,
        added_inputs,
        added_outputs,
        added_fee_sats,
    ));
    text
}

/// What is printed of the private transaction.
pub open spec fn private_of(private: Transaction) -> Seq<char> {
    summary_of(
        "Private collaborative channel open"@,
        private,
        seq!["initiator funding input", "counterparty privacy input"],
    ) + "\n4. Verifying Lightning funding boundary\n"@
}

/// Writes what is printed of the private transaction.
pub fn private_text(private: &Transaction) -> (text: String)
    ensures
        text@ == private_of(*private),
{
    let mut roles: Vec<&str> = Vec::new();
    roles.push("initiator funding input");
    roles.push("counterparty privacy input");
    assert(roles@ =~= seq!["initiator funding input", "counterparty privacy input"]);
    let mut text = transaction_summary("Private collaborative channel open", private, &roles);
    text.append("\n4. Verifying Lightning funding boundary\n");
    text
}

/// What is printed of the channel that accepted the funding, and of the step that follows.
pub open spec fn channel_of(
    outpoint: OutPoint,
    initiator_sats: u64,
    counterparty_sats: u64,
    broadcast: bool,
) -> Seq<char> {
    text_line("  simulated channel accepted funding outpoint: "@, outpoint_digits(outpoint))
        + quantity_line("  initiator channel balance: "@, initiator_sats as nat, " sats"@)
        + quantity_line("  counterparty channel balance: "@, counterparty_sats as nat, " sats"@)
        + if broadcast {
        "\n5. Broadcasting private channel funding transaction\n"@
    } else {
        "\n5. Broadcast skipped\n\n"@
    }
}

/// Writes what is printed of the channel that accepted the funding.
pub fn channel_text(
    outpoint: &OutPoint,
    initiator_sats: u64,
    counterparty_sats: u64,
    broadcast: bool,
) -> (text: String)
    ensures
        text@ == channel_of(*outpoint, initiator_sats, counterparty_sats, broadcast),
{
    let mut text = String::new();
    write_line(
        &mut text,
        "  simulated channel accepted funding outpoint: ",
        outpoint_text(outpoint).as_str(),
    );
    write_quantity(&mut text, "  initiator channel balance: ", initiator_sats as u128, " sats");
    write_quantity(
        &mut text,
        "  counterparty channel balance: ",
        counterparty_sats as u128,
        " sats",
    );
    if broadcast {
        text.append("\n5. Broadcasting private channel funding transaction\n");
    } else {
        text.append("\n5. Broadcast skipped\n\n");
    }
    assert(text@ =~= channel_of(*outpoint, initiator_sats, counterparty_sats, broadcast));
    text
}

/// What is printed once the private transaction is mined.
pub open spec fn mined_of(txid: Seq<u8>, height: u64) -> Seq<char> {
    text_line("  broadcast txid: "@, txid_digits(txid)) + quantity_line(
        "  mined height: "@,
        height as nat,
        ""@,
    ) + "\n"@
}

/// Writes what is printed once the private transaction is mined.
pub fn mined_text(txid: &[u8; 32], height: u64) -> (text: String)
    ensures
        text@ == mined_of(txid@, height),
{
    let mut text = String::new();
    write_line(&mut text, "  broadcast txid: ", txid_text(txid).as_str());
    write_quantity(&mut text, "  mined height: ", height as u128, "");
    text.append("\n");
    assert(text@ =~= mined_of(txid@, height));
    text
}

/// What is printed last: the evidence, and the private transaction in hexadecimal.
pub open spec fn conclusion_of(normal: Transaction, private: Transaction, channel_sats: u64) -> Seq<
    char,
> {
    evidence_of(normal, private, channel_sats) + "\nPrivate raw transaction hex:\n"@
        + transaction_hex(private@) + "\n"@
}

/// Writes what is printed last.
pub fn conclusion_text(normal: &Transaction, private: &Transaction, channel_sats: u64) -> (text:
    String)
    requires
        normal.outputs@.len() > 0,
        private.outputs@.len() > 0,
        private@.fits(),
    ensures
        text@ == conclusion_of(*normal, *private, channel_sats),
{
    let mut text = privacy_proof(normal, private, channel_sats);
    text.append("\nPrivate raw transaction hex:\n");
    text.append(serialize_hex(private).as_str());
    text.append("\n");
    text
}

} // verus!
