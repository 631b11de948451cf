//! What is printed, line by line: which numbers and texts stand in which line.

use crate::report::{
    channel_of, conclusion_of, evidence_of, funded_of, input_lines, kind_of, mined_of, normal_of,
    opening_of, output_lines, preparing_of, private_of, summary_of, validation_of,
};
use crate::text::{decimal, lemma_decimal_round_trip};
use crate::transaction::{
    outpoint_digits, transaction_hex, txid_digits, txid_of, Input, OutPoint, Output, Transaction,
};
use vstd::prelude::*;

verus! {

/// Lines, each with its end.
pub open spec fn unlines(lines: Seq<Seq<char>>) -> Seq<char>
    decreases lines.len(),
{
    if lines.len() == 0 {
        Seq::empty()
    } else {
        unlines(lines.drop_last()) + lines.last() + "\n"@
    }
}

proof fn lemma_one_more_line(lines: Seq<Seq<char>>, line: Seq<char>)
    ensures
        unlines(lines.push(line)) == unlines(lines) + line + "\n"@,
{
    assert(lines.push(line).drop_last() =~= lines);
}

proof fn lemma_more_lines(first: Seq<Seq<char>>, second: Seq<Seq<char>>)
    ensures
        unlines(first + second) == unlines(first) + unlines(second),
    decreases second.len(),
{
    if second.len() == 0 {
        assert(first + second =~= first);
        assert(unlines(first) + unlines(second) =~= unlines(first));
    } else {
        lemma_more_lines(first, second.drop_last());
        assert((first + second).drop_last() =~= first + second.drop_last());
        assert(unlines(first + second) =~= unlines(first) + unlines(second));
    }
}

proof fn lemma_one_line(a: Seq<char>)
    ensures
        unlines(seq![a])
            == a + "\n"@,
{
    let none = Seq::<Seq<char>>::empty();
    assert(unlines(none) =~= Seq::empty());
    lemma_one_more_line(none, a);
    assert(seq![a] =~= none.push(a));
    assert(unlines(seq![a])
        =~= a + "\n"@);
}

proof fn lemma_two_lines(a: Seq<char>, b: Seq<char>)
    ensures
        unlines(seq![a, b])
            == a + "\n"@ + b + "\n"@,
{
    let none = Seq::<Seq<char>>::empty();
    assert(unlines(none) =~= Seq::empty());
    lemma_one_more_line(none, a);
    lemma_one_more_line(none.push(a), b);
    assert(seq![a, b] =~= none.push(a).push(b));
    assert(unlines(seq![a, b])
        =~= a + "\n"@ + b + "\n"@);
}

proof fn lemma_three_lines(a: Seq<char>, b: Seq<char>, c: Seq<char>)
    ensures
        unlines(seq![a, b, c])
            == a + "\n"@ + b + "\n"@ + c + "\n"@,
{
    let none = Seq::<Seq<char>>::empty();
    assert(unlines(none) =~= Seq::empty());
    lemma_one_more_line(none, a);
    lemma_one_more_line(none.push(a), b);
    lemma_one_more_line(none.push(a).push(b), c);
    assert(seq![a, b, c] =~= none.push(a).push(b).push(c));
    assert(unlines(seq![a, b, c])
        =~= a + "\n"@ + b + "\n"@ + c + "\n"@);
}

proof fn lemma_four_lines(a: Seq<char>, b: Seq<char>, c: Seq<char>, d: Seq<char>)
    ensures
        unlines(seq![a, b, c, d])
            == a + "\n"@ + b + "\n"@ + c + "\n"@ + d + "\n"@,
{
    let none = Seq::<Seq<char>>::empty();
    assert(unlines(none) =~= Seq::empty());
    lemma_one_more_line(none, a);
    lemma_one_more_line(none.push(a), b);
    lemma_one_more_line(none.push(a).push(b), c);
    lemma_one_more_line(none.push(a).push(b).push(c), d);
    assert(seq![a, b, c, d] =~= none.push(a).push(b).push(c).push(d));
    assert(unlines(seq![a, b, c, d])
        =~= a + "\n"@ + b + "\n"@ + c + "\n"@ + d + "\n"@);
}

proof fn lemma_five_lines(a: Seq<char>, b: Seq<char>, c: Seq<char>, d: Seq<char>, e: Seq<char>)
    ensures
        unlines(seq![a, b, c, d, e])
            == a + "\n"@ + b + "\n"@ + c + "\n"@ + d + "\n"@ + e + "\n"@,
{
    let none = Seq::<Seq<char>>::empty();
    assert(unlines(none) =~= Seq::empty());
    lemma_one_more_line(none, a);
    lemma_one_more_line(none.push(a), b);
    lemma_one_more_line(none.push(a).push(b), c);
    lemma_one_more_line(none.push(a).push(b).push(c), d);
    lemma_one_more_line(none.push(a).push(b).push(c).push(d), e);
    assert(seq![a, b, c, d, e] =~= none.push(a).push(b).push(c).push(d).push(e));
    assert(unlines(seq![a, b, c, d, e])
        =~= a + "\n"@ + b + "\n"@ + c + "\n"@ + d + "\n"@ + e + "\n"@);
}

proof fn lemma_six_lines(a: Seq<char>, b: Seq<char>, c: Seq<char>, d: Seq<char>, e: Seq<char>, f: Seq<char>)
    ensures
        unlines(seq![a, b, c, d, e, f])
            == a + "\n"@ + b + "\n"@ + c + "\n"@ + d + "\n"@ + e + "\n"@ + f + "\n"@,
{
    let none = Seq::<Seq<char>>::empty();
    assert(unlines(none) =~= Seq::empty());
    lemma_one_more_line(none, a);
    lemma_one_more_line(none.push(a), b);
    lemma_one_more_line(none.push(a).push(b), c);
    lemma_one_more_line(none.push(a).push(b).push(c), d);
    lemma_one_more_line(none.push(a).push(b).push(c).push(d), e);
    lemma_one_more_line(none.push(a).push(b).push(c).push(d).push(e), f);
    assert(seq![a, b, c, d, e, f] =~= none.push(a).push(b).push(c).push(d).push(e).push(f));
    assert(unlines(seq![a, b, c, d, e, f])
        =~= a + "\n"@ + b + "\n"@ + c + "\n"@ + d + "\n"@ + e + "\n"@ + f + "\n"@);
}

/// An opening begins with the URL of the node and the capacity of the channel.
pub proof fn law_opening_lines(rpc_url: Seq<char>, channel_sats: u64)
    ensures
        opening_of(rpc_url, channel_sats) == unlines(
            seq![
                "Lightning Payjoin regtest opener"@,
                "  rpc: "@ + rpc_url,
                "  channel: "@ + decimal(channel_sats as nat) + " sats"@,
                "  mode: normal control + privacy-input channel open"@,
                Seq::<char>::empty(),
            ],
        ),
{
    reveal_strlit("\n");
    reveal_strlit("Lightning Payjoin regtest opener\n");
    reveal_strlit("Lightning Payjoin regtest opener");
    reveal_strlit("  mode: normal control + privacy-input channel open\n\n");
    reveal_strlit("  mode: normal control + privacy-input channel open");
    assert("Lightning Payjoin regtest opener\n"@
        =~= "Lightning Payjoin regtest opener"@ + "\n"@);
    assert("  mode: normal control + privacy-input channel open\n\n"@
        =~= "  mode: normal control + privacy-input channel open"@ + "\n"@ + "\n"@);
    let line_0 = "Lightning Payjoin regtest opener"@;
    let line_1 = "  rpc: "@ + rpc_url;
    let line_2 = "  channel: "@ + decimal(channel_sats as nat) + " sats"@;
    let line_3 = "  mode: normal control + privacy-input channel open"@;
    let line_4 = Seq::<char>::empty();
    lemma_five_lines(line_0, line_1, line_2, line_3, line_4);
    assert(opening_of(rpc_url, channel_sats)
        =~= unlines(seq![line_0, line_1, line_2, line_3, line_4]));
}

/// The wallet is printed by its name, with the height that the node started from.
pub proof fn law_preparing_lines(wallet_name: Seq<char>, start_height: u64)
    ensures
        preparing_of(wallet_name, start_height) == unlines(
            seq![
                "1. Preparing regtest funds"@,
                "  wallet: "@ + wallet_name,
                "  starting height: "@ + decimal(start_height as nat),
            ],
        ),
{
    reveal_strlit("\n");
    reveal_strlit("1. Preparing regtest funds\n");
    reveal_strlit("1. Preparing regtest funds");
    assert("1. Preparing regtest funds\n"@
        =~= "1. Preparing regtest funds"@ + "\n"@);
    reveal_strlit("");
    assert(""@ =~= Seq::empty());
    let line_0 = "1. Preparing regtest funds"@;
    let line_1 = "  wallet: "@ + wallet_name;
    let line_2 = "  starting height: "@ + decimal(start_height as nat);
    lemma_three_lines(line_0, line_1, line_2);
    assert(preparing_of(wallet_name, start_height)
        =~= unlines(seq![line_0, line_1, line_2]));
}

/// Each peer's outpoint is printed as its own.
pub proof fn law_funded_lines(initiator: OutPoint, counterparty: OutPoint)
    ensures
        funded_of(initiator, counterparty) == unlines(
            seq![
                "  initiator input: "@ + outpoint_digits(initiator),
                "  counterparty privacy input: "@ + outpoint_digits(counterparty),
                Seq::<char>::empty(),
                "2. Building normal control transaction"@,
            ],
        ),
{
    reveal_strlit("\n");
    reveal_strlit("\n2. Building normal control transaction\n");
    reveal_strlit("2. Building normal control transaction");
    assert("\n2. Building normal control transaction\n"@
        =~= "\n"@ + "2. Building normal control transaction"@ + "\n"@);
    let line_0 = "  initiator input: "@ + outpoint_digits(initiator);
    let line_1 = "  counterparty privacy input: "@ + outpoint_digits(counterparty);
    let line_2 = Seq::<char>::empty();
    let line_3 = "2. Building normal control transaction"@;
    lemma_four_lines(line_0, line_1, line_2, line_3);
    assert(funded_of(initiator, counterparty)
        =~= unlines(seq![line_0, line_1, line_2, line_3]));
}

/// A valid proposal is printed with what the counterparty contributes and what it adds.
pub proof fn law_validation_lines(
    contribution_sats: u64,
    added_inputs: u64,
    added_outputs: u64,
    added_fee_sats: u64,
)
    ensures
        validation_of(contribution_sats, added_inputs, added_outputs, added_fee_sats) == unlines(
            seq![
                "  counterparty fee contribution: "@ + decimal(contribution_sats as nat)
                    + " sats"@,
                "  added inputs: "@ + decimal(added_inputs as nat),
                "  added outputs: "@ + decimal(added_outputs as nat),
                "  added fee: "@ + decimal(added_fee_sats as nat) + " sats"@,
            ],
        ),
{
    reveal_strlit("\n");
    reveal_strlit("");
    assert(""@ =~= Seq::empty());
    let line_0 = "  counterparty fee contribution: "@ + decimal(contribution_sats as nat)
                     + " sats"@;
    let line_1 = "  added inputs: "@ + decimal(added_inputs as nat);
    let line_2 = "  added outputs: "@ + decimal(added_outputs as nat);
    let line_3 = "  added fee: "@ + decimal(added_fee_sats as nat) + " sats"@;
    lemma_four_lines(line_0, line_1, line_2, line_3);
    assert(validation_of(contribution_sats, added_inputs, added_outputs, added_fee_sats)
        =~= unlines(seq![line_0, line_1, line_2, line_3]));
}

/// What was broadcast is printed by its identifier, with the height at which it was mined.
pub proof fn law_mined_lines(txid: Seq<u8>, height: u64)
    ensures
        mined_of(txid, height) == unlines(
            seq![
                "  broadcast txid: "@ + txid_digits(txid),
                "  mined height: "@ + decimal(height as nat),
                Seq::<char>::empty(),
            ],
        ),
{
    reveal_strlit("\n");
    reveal_strlit("");
    assert(""@ =~= Seq::empty());
    let line_0 = "  broadcast txid: "@ + txid_digits(txid);
    let line_1 = "  mined height: "@ + decimal(height as nat);
    let line_2 = Seq::<char>::empty();
    lemma_three_lines(line_0, line_1, line_2);
    assert(mined_of(txid, height)
        =~= unlines(seq![line_0, line_1, line_2]));
}

/// The channel is printed with its outpoint and the balance of each peer, before the broadcast.
pub proof fn law_channel_lines_with_broadcast(
    outpoint: OutPoint,
    initiator_sats: u64,
    counterparty_sats: u64,
)
    ensures
        channel_of(outpoint, initiator_sats, counterparty_sats, true) == unlines(
            seq![
                "  simulated channel accepted funding outpoint: "@ + outpoint_digits(outpoint),
                "  initiator channel balance: "@ + decimal(initiator_sats as nat) + " sats"@,
                "  counterparty channel balance: "@ + decimal(counterparty_sats as nat) + " sats"@,
                Seq::<char>::empty(),
                "5. Broadcasting private channel funding transaction"@,
            ],
        ),
{
    reveal_strlit("\n");
    reveal_strlit("\n5. Broadcasting private channel funding transaction\n");
    reveal_strlit("5. Broadcasting private channel funding transaction");
    assert("\n5. Broadcasting private channel funding transaction\n"@
        =~= "\n"@ + "5. Broadcasting private channel funding transaction"@ + "\n"@);
    let line_0 = "  simulated channel accepted funding outpoint: "@ + outpoint_digits(outpoint);
    let line_1 = "  initiator channel balance: "@ + decimal(initiator_sats as nat) + " sats"@;
    let line_2 = "  counterparty channel balance: "@ + decimal(counterparty_sats as nat)
                     + " sats"@;
    let line_3 = Seq::<char>::empty();
    let line_4 = "5. Broadcasting private channel funding transaction"@;
    lemma_five_lines(line_0, line_1, line_2, line_3, line_4);
    assert(channel_of(outpoint, initiator_sats, counterparty_sats, true)
        =~= unlines(seq![line_0, line_1, line_2, line_3, line_4]));
}

/// The channel is printed with its outpoint and the balance of each peer where the broadcast is
/// skipped.
pub proof fn law_channel_lines_without_broadcast(
    outpoint: OutPoint,
    initiator_sats: u64,
    counterparty_sats: u64,
)
    ensures
        channel_of(outpoint, initiator_sats, counterparty_sats, false) == unlines(
            seq![
                "  simulated channel accepted funding outpoint: "@ + outpoint_digits(outpoint),
                "  initiator channel balance: "@ + decimal(initiator_sats as nat) + " sats"@,
                "  counterparty channel balance: "@ + decimal(counterparty_sats as nat) + " sats"@,
                Seq::<char>::empty(),
                "5. Broadcast skipped"@,
                Seq::<char>::empty(),
            ],
        ),
{
    reveal_strlit("\n");
    reveal_strlit("\n5. Broadcast skipped\n\n");
    reveal_strlit("5. Broadcast skipped");
    assert("\n5. Broadcast skipped\n\n"@
        =~= "\n"@ + "5. Broadcast skipped"@ + "\n"@ + "\n"@);
    let line_0 = "  simulated channel accepted funding outpoint: "@ + outpoint_digits(outpoint);
    let line_1 = "  initiator channel balance: "@ + decimal(initiator_sats as nat) + " sats"@;
    let line_2 = "  counterparty channel balance: "@ + decimal(counterparty_sats as nat)
                     + " sats"@;
    let line_3 = Seq::<char>::empty();
    let line_4 = "5. Broadcast skipped"@;
    let line_5 = Seq::<char>::empty();
    lemma_six_lines(line_0, line_1, line_2, line_3, line_4, line_5);
    assert(channel_of(outpoint, initiator_sats, counterparty_sats, false)
        =~= unlines(seq![line_0, line_1, line_2, line_3, line_4, line_5]));
}

/// The evidence reports each transaction's own counts: the number in front of `input` is that of its
/// inputs, the number in front of `outputs` that of its outputs, and the amount that of its first
/// output.
pub proof fn law_evidence_lines(normal: Transaction, private: Transaction, channel_sats: u64)
    requires
        normal.outputs@.len() > 0,
        private.outputs@.len() > 0,
    ensures
        evidence_of(normal, private, channel_sats) == unlines(
            seq![
                "Evidence"@,
                "  normal open: "@ + decimal(normal.inputs@.len()) + " input, "@
                    + decimal(normal.outputs@.len()) + " outputs, channel output "@
                    + decimal(normal.outputs@[0].value_sats as nat) + " sats"@,
                "  private open: "@ + decimal(private.inputs@.len()) + " inputs, "@
                    + decimal(private.outputs@.len()) + " outputs, channel output "@
                    + decimal(private.outputs@[0].value_sats as nat) + " sats"@,
                "  expected channel capacity: "@ + decimal(channel_sats as nat) + " sats"@,
                "  privacy claim: the broadcast transaction has inputs from both peers"@,
                "  accounting claim: the counterparty privacy input does not receive channel balance"@,
            ],
        ),
{
    reveal_strlit("\n");
    reveal_strlit("Evidence\n");
    reveal_strlit("Evidence");
    reveal_strlit(" sats\n");
    reveal_strlit(" sats");
    reveal_strlit("  privacy claim: the broadcast transaction has inputs from both peers\n");
    reveal_strlit("  privacy claim: the broadcast transaction has inputs from both peers");
    reveal_strlit("  accounting claim: the counterparty privacy input does not receive channel balance\n");
    reveal_strlit("  accounting claim: the counterparty privacy input does not receive channel balance");
    assert("Evidence\n"@
        =~= "Evidence"@ + "\n"@);
    assert(" sats\n"@
        =~= " sats"@ + "\n"@);
    assert("  privacy claim: the broadcast transaction has inputs from both peers\n"@
        =~= "  privacy claim: the broadcast transaction has inputs from both peers"@ + "\n"@);
    assert("  accounting claim: the counterparty privacy input does not receive channel balance\n"@
        =~= "  accounting claim: the counterparty privacy input does not receive channel balance"@
                + "\n"@);
    let line_0 = "Evidence"@;
    let line_1 = "  normal open: "@ + decimal(normal.inputs@.len()) + " input, "@
                     + decimal(normal.outputs@.len()) + " outputs, channel output "@
                     + decimal(normal.outputs@[0].value_sats as nat) + " sats"@;
    let line_2 = "  private open: "@ + decimal(private.inputs@.len()) + " inputs, "@
                     + decimal(private.outputs@.len()) + " outputs, channel output "@
                     + decimal(private.outputs@[0].value_sats as nat) + " sats"@;
    let line_3 = "  expected channel capacity: "@ + decimal(channel_sats as nat) + " sats"@;
    let line_4 = "  privacy claim: the broadcast transaction has inputs from both peers"@;
    let line_5 = "  accounting claim: the counterparty privacy input does not receive channel balance"@;
    lemma_six_lines(line_0, line_1, line_2, line_3, line_4, line_5);
    assert(evidence_of(normal, private, channel_sats)
        =~= unlines(seq![line_0, line_1, line_2, line_3, line_4, line_5]));
}

/// The last thing that is printed, behind the evidence, is the private transaction in hexadecimal.
pub proof fn law_conclusion_lines(normal: Transaction, private: Transaction, channel_sats: u64)
    requires
        normal.outputs@.len() > 0,
        private.outputs@.len() > 0,
    ensures
        conclusion_of(normal, private, channel_sats) == evidence_of(normal, private, channel_sats) + unlines(
            seq![
                Seq::<char>::empty(),
                "Private raw transaction hex:"@,
                transaction_hex(private@),
            ],
        ),
{
    reveal_strlit("\n");
    reveal_strlit("\nPrivate raw transaction hex:\n");
    reveal_strlit("Private raw transaction hex:");
    assert("\nPrivate raw transaction hex:\n"@
        =~= "\n"@ + "Private raw transaction hex:"@ + "\n"@);
    let line_0 = Seq::<char>::empty();
    let line_1 = "Private raw transaction hex:"@;
    let line_2 = transaction_hex(private@);
    lemma_three_lines(line_0, line_1, line_2);
    assert(conclusion_of(normal, private, channel_sats)
        =~= evidence_of(normal, private, channel_sats) + unlines(seq![line_0, line_1, line_2]));
}

/// The control transaction is printed as signed and not broadcast, with the session that follows.
pub proof fn law_normal_lines(normal: Transaction, session: Seq<char>)
    ensures
        normal_of(normal, session) == summary_of(
            "Normal single-funder channel open"@,
            normal,
            seq!["initiator funding input"],
        ) + unlines(
            seq![
                "  status: signed comparison transaction, not broadcast"@,
                Seq::<char>::empty(),
                "3. Coordinating privacy-input funding through async directory"@,
                "  session: "@ + session,
            ],
        ),
{
    reveal_strlit("\n");
    reveal_strlit("  status: signed comparison transaction, not broadcast\n\n");
    reveal_strlit("  status: signed comparison transaction, not broadcast");
    reveal_strlit("3. Coordinating privacy-input funding through async directory\n");
    reveal_strlit("3. Coordinating privacy-input funding through async directory");
    assert("  status: signed comparison transaction, not broadcast\n\n"@
        =~= "  status: signed comparison transaction, not broadcast"@ + "\n"@ + "\n"@);
    assert("3. Coordinating privacy-input funding through async directory\n"@
        =~= "3. Coordinating privacy-input funding through async directory"@ + "\n"@);
    let line_0 = "  status: signed comparison transaction, not broadcast"@;
    let line_1 = Seq::<char>::empty();
    let line_2 = "3. Coordinating privacy-input funding through async directory"@;
    let line_3 = "  session: "@ + session;
    lemma_four_lines(line_0, line_1, line_2, line_3);
    assert(normal_of(normal, session)
        =~= summary_of(
            "Normal single-funder channel open"@,
            normal,
            seq!["initiator funding input"],
        ) + unlines(seq![line_0, line_1, line_2, line_3]));
}

/// The private transaction is printed with the inputs of both peers.
pub proof fn law_private_lines(private: Transaction)
    ensures
        private_of(private) == summary_of(
            "Private collaborative channel open"@,
            private,
            seq!["initiator funding input", "counterparty privacy input"],
        ) + unlines(
            seq![
                Seq::<char>::empty(),
                "4. Verifying Lightning funding boundary"@,
            ],
        ),
{
    reveal_strlit("\n");
    reveal_strlit("\n4. Verifying Lightning funding boundary\n");
    reveal_strlit("4. Verifying Lightning funding boundary");
    assert("\n4. Verifying Lightning funding boundary\n"@
        =~= "\n"@ + "4. Verifying Lightning funding boundary"@ + "\n"@);
    let line_0 = Seq::<char>::empty();
    let line_1 = "4. Verifying Lightning funding boundary"@;
    lemma_two_lines(line_0, line_1);
    assert(private_of(private)
        =~= summary_of(
            "Private collaborative channel open"@,
            private,
            seq!["initiator funding input", "counterparty privacy input"],
        ) + unlines(seq![line_0, line_1]));
}

/// The first `count` inputs: where each stands, its role, and the output that it spends.
pub open spec fn input_texts(inputs: Seq<Input>, roles: Seq<&str>, count: nat) -> Seq<Seq<char>> {
    Seq::new(
        count,
        |i: int|
            "    ["@ + decimal(i as nat) + "] "@ + (if i < roles.len() {
                roles[i]@
            } else {
                "unknown input"@
            }) + ": "@ + outpoint_digits(inputs[i].previous_output),
    )
}

/// The first `count` outputs: where each stands, its value, and its kind.
pub open spec fn output_texts(outputs: Seq<Output>, count: nat) -> Seq<Seq<char>> {
    Seq::new(
        count,
        |i: int|
            "    ["@ + decimal(i as nat) + "] "@ + decimal(outputs[i].value_sats as nat)
                + " sats ("@ + kind_of(outputs[i].script_pubkey@, i) + ")"@,
    )
}

proof fn lemma_input_texts(inputs: Seq<Input>, roles: Seq<&str>, count: nat)
    ensures
        input_lines(inputs, roles, count) == unlines(input_texts(inputs, roles, count)),
    decreases count,
{
    if count > 0 {
        let fewer = (count - 1) as nat;
        lemma_input_texts(inputs, roles, fewer);
        let texts = input_texts(inputs, roles, count);
        assert(texts.drop_last() =~= input_texts(inputs, roles, fewer));
        assert(input_lines(inputs, roles, count) =~= unlines(texts));
    }
}

proof fn lemma_output_texts(outputs: Seq<Output>, count: nat)
    ensures
        output_lines(outputs, count) == unlines(output_texts(outputs, count)),
    decreases count,
{
    reveal_strlit("\n");
    reveal_strlit(")");
    reveal_strlit(")\n");
    assert(")\n"@ =~= ")"@ + "\n"@);
    if count > 0 {
        let fewer = (count - 1) as nat;
        lemma_output_texts(outputs, fewer);
        let texts = output_texts(outputs, count);
        assert(texts.drop_last() =~= output_texts(outputs, fewer));
        assert(output_lines(outputs, count) =~= unlines(texts));
    }
}

/// The summary of a transaction: its label, its identifier, how many inputs it has and a line for
/// each, how many outputs it has and a line for each.
pub proof fn law_summary_lines(label: Seq<char>, tx: Transaction, roles: Seq<&str>)
    ensures
        summary_of(label, tx, roles) == unlines(
            seq![
                label,
                "  txid: "@ + txid_digits(txid_of(tx@.without_witnesses())),
                "  inputs: "@ + decimal(tx.inputs@.len()),
            ] + input_texts(tx.inputs@, roles, tx.inputs@.len()) + seq![
                "  outputs: "@ + decimal(tx.outputs@.len()),
            ] + output_texts(tx.outputs@, tx.outputs@.len()),
        ),
{
    let txid = "  txid: "@ + txid_digits(txid_of(tx@.without_witnesses()));
    let inputs = "  inputs: "@ + decimal(tx.inputs@.len());
    let outputs = "  outputs: "@ + decimal(tx.outputs@.len());
    let head = seq![label, txid, inputs];
    let ins = input_texts(tx.inputs@, roles, tx.inputs@.len());
    let outs = output_texts(tx.outputs@, tx.outputs@.len());
    lemma_three_lines(label, txid, inputs);
    lemma_one_line(outputs);
    lemma_input_texts(tx.inputs@, roles, tx.inputs@.len());
    lemma_output_texts(tx.outputs@, tx.outputs@.len());
    lemma_more_lines(head, ins);
    lemma_more_lines(head + ins, seq![outputs]);
    lemma_more_lines(head + ins + seq![outputs], outs);
    assert(summary_of(label, tx, roles) =~= unlines(head + ins + seq![outputs] + outs));
}

/// An output is called by its script: the witness program of thirty-two bytes is the channel's where
/// it comes first, the one of twenty bytes is change wherever it stands.
pub proof fn law_kinds_of_outputs(script: Seq<u8>, index: int)
    ensures
        script.len() == 34 && script[0] == 0 && script[1] == 32 ==> kind_of(script, index) == if index
            == 0 {
            "channel funding p2wsh"@
        } else {
            "p2wsh"@
        },
        script.len() == 22 && script[0] == 0 && script[1] == 20 ==> kind_of(script, index)
            == "wallet p2wpkh change"@,
        !(script.len() == 34 && script[0] == 0 && script[1] == 32) && !(script.len() == 22
            && script[0] == 0 && script[1] == 20) ==> kind_of(script, index) == "other script"@,
{
}

/// Two numbers in decimal are alike only where they are the same, so the counts and amounts can be
/// read off what is printed.
pub proof fn law_numbers_can_be_read_off(first: nat, second: nat)
    ensures
        decimal(first) == decimal(second) <==> first == second,
{
    lemma_decimal_round_trip(first);
    lemma_decimal_round_trip(second);
}

} // verus!
