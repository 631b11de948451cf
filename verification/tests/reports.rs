use regtest_opener::report::{
    channel_text, conclusion_text, funded_text, mined_text, normal_text, opening_text, output_kind,
    preparing_text, privacy_proof, private_text, transaction_summary, validation_text,
};
use regtest_opener::transaction::{Input, OutPoint, Output, Transaction};

fn bytes(hex: &str) -> Vec<u8> {
    <Vec<u8> as bitcoin::hex::FromHex>::from_hex(hex).unwrap()
}

fn p2wsh() -> Vec<u8> {
    let mut script = vec![0x00, 0x20];
    script.extend([7; 32]);
    script
}

fn p2wpkh() -> Vec<u8> {
    let mut script = vec![0x00, 0x14];
    script.extend([8; 20]);
    script
}

const COINBASE_SCRIPT: &str = "04ffff001d0104455468652054696d65732030332f4a616e2f323030392043686\
16e63656c6c6f72206f6e206272696e6b206f66207365636f6e64206261696c6f757420666f722062616e6b73";
const COINBASE_OUTPUT: &str = "4104678afdb0fe5548271967f1a67130b7105cd6a828e03909a67962e0ea1f61d\
eb649f6bc3f4cef38c4f35504e51ec112de5c384df7ba0b8d578a4c702b6bf11d5fac";

/// The first transaction of the main chain.
fn genesis() -> Transaction {
    Transaction {
        version: 1,
        lock_time: 0,
        inputs: vec![Input {
            previous_output: OutPoint { txid: [0; 32], vout: u32::MAX },
            script_sig: bytes(COINBASE_SCRIPT),
            sequence: u32::MAX,
            witness: vec![],
        }],
        outputs: vec![Output { value_sats: 5_000_000_000, script_pubkey: bytes(COINBASE_OUTPUT) }],
    }
}

fn input(first_byte: u8, vout: u32, witness: Vec<Vec<u8>>) -> Input {
    let mut txid = [0; 32];
    txid[0] = first_byte;
    Input {
        previous_output: OutPoint { txid, vout },
        script_sig: vec![],
        sequence: 0xffff_fffd,
        witness,
    }
}

fn segwit(witness: Vec<Vec<u8>>) -> Transaction {
    Transaction {
        version: 2,
        lock_time: 5,
        inputs: vec![input(1, 0, witness), input(2, 3, vec![])],
        outputs: vec![
            Output { value_sats: 1_000_000, script_pubkey: p2wsh() },
            Output { value_sats: 99_000, script_pubkey: p2wpkh() },
        ],
    }
}

fn line_of(text: &str, start: &str) -> String {
    text.lines().find(|line| line.starts_with(start)).unwrap().to_string()
}

#[test]
fn output_kinds_go_by_script_and_place() {
    assert_eq!(output_kind(&p2wsh(), 0), "channel funding p2wsh");
    assert_eq!(output_kind(&p2wsh(), 1), "p2wsh");
    assert_eq!(output_kind(&p2wpkh(), 0), "wallet p2wpkh change");
    assert_eq!(output_kind(&p2wpkh(), 1), "wallet p2wpkh change");
    assert_eq!(output_kind(&vec![], 0), "other script");
    let mut taproot = p2wsh();
    taproot[0] = 0x51;
    assert_eq!(output_kind(&taproot, 0), "other script");
    let mut longer = p2wpkh();
    longer.push(0);
    assert_eq!(output_kind(&longer, 0), "other script");
    let mut mislabelled = p2wsh();
    mislabelled[1] = 0x1f;
    assert_eq!(output_kind(&mislabelled, 0), "other script");
}

#[test]
fn a_summary_lists_inputs_and_outputs() {
    assert_eq!(
        transaction_summary("First", &genesis(), &vec![]),
        "First\n\
         \x20 txid: 4a5e1e4baab89f3a32518a88c31bc87f618f76673e2cc77ab2127b7afdeda33b\n\
         \x20 inputs: 1\n\
         \x20   [0] unknown input: 0000000000000000000000000000000000000000000000000000000000000000:4294967295\n\
         \x20 outputs: 1\n\
         \x20   [0] 5000000000 sats (other script)\n"
    );
}

#[test]
fn roles_go_by_place() {
    let text = transaction_summary("Two", &segwit(vec![]), &vec!["initiator funding input"]);
    let zeros = "00".repeat(31);
    assert!(text.contains(&format!("    [0] initiator funding input: {zeros}01:0\n")));
    assert!(text.contains(&format!("    [1] unknown input: {zeros}02:3\n")));
    assert!(text.contains("    [0] 1000000 sats (channel funding p2wsh)\n"));
    assert!(text.contains("    [1] 99000 sats (wallet p2wpkh change)\n"));
}

#[test]
fn witnesses_do_not_change_the_identifier() {
    let bare = transaction_summary("x", &segwit(vec![]), &vec![]);
    let signed = transaction_summary("x", &segwit(vec![vec![1, 2, 3], vec![]]), &vec![]);
    assert_eq!(bare, signed);
}

#[test]
fn the_conclusion_ends_with_the_private_transaction() {
    let private = segwit(vec![vec![1, 2, 3], vec![4]]);
    let text = conclusion_text(&genesis(), &private, 1_000_000);
    let hex = text.lines().last().unwrap();
    assert!(text.contains("\n\nPrivate raw transaction hex:\n"));
    assert!(text.ends_with(&format!("{hex}\n")));
    let decoded: bitcoin::Transaction = bitcoin::consensus::encode::deserialize_hex(hex).unwrap();
    assert_eq!(decoded.version.0, 2);
    assert_eq!(decoded.lock_time.to_consensus_u32(), 5);
    assert_eq!(decoded.input.len(), 2);
    assert_eq!(decoded.input[0].witness.to_vec(), vec![vec![1, 2, 3], vec![4]]);
    assert_eq!(decoded.input[1].previous_output.vout, 3);
    assert_eq!(decoded.input[1].sequence.0, 0xffff_fffd);
    assert_eq!(decoded.output[1].value.to_sat(), 99_000);
    let summary = transaction_summary("x", &private, &vec![]);
    assert_eq!(line_of(&summary, "  txid"), format!("  txid: {}", decoded.compute_txid()));
}

#[test]
fn the_first_transaction_has_its_known_bytes() {
    let text = conclusion_text(&genesis(), &genesis(), 1);
    let expected = format!(
        "01000000010000000000000000000000000000000000000000000000000000000000000000ffffffff4d\
{COINBASE_SCRIPT}ffffffff0100f2052a0100000043{COINBASE_OUTPUT}00000000"
    );
    assert_eq!(text.lines().last().unwrap(), expected);
}

#[test]
fn the_evidence_sets_both_openings_side_by_side() {
    assert_eq!(
        privacy_proof(&genesis(), &segwit(vec![]), 1_000_000),
        "Evidence\n\
         \x20 normal open: 1 input, 1 outputs, channel output 5000000000 sats\n\
         \x20 private open: 2 inputs, 2 outputs, channel output 1000000 sats\n\
         \x20 expected channel capacity: 1000000 sats\n\
         \x20 privacy claim: the broadcast transaction has inputs from both peers\n\
         \x20 accounting claim: the counterparty privacy input does not receive channel balance\n"
    );
}

#[test]
fn ordinary_witnesses_fit() {
    assert!(genesis().fits());
    assert!(segwit(vec![vec![3; 71], vec![], vec![4; 300], vec![5; 70_000]]).fits());
}

#[test]
fn the_steps_are_announced() {
    assert_eq!(
        opening_text("http://n", 7),
        "Lightning Payjoin regtest opener\n  rpc: http://n\n  channel: 7 sats\n  mode: normal control + privacy-input channel open\n\n"
    );
    assert_eq!(
        preparing_text("w", 12),
        "1. Preparing regtest funds\n  wallet: w\n  starting height: 12\n"
    );
    let zeros = "00".repeat(31);
    let outpoint = input(9, 4, vec![]).previous_output;
    assert_eq!(
        funded_text(&outpoint, &input(10, 0, vec![]).previous_output),
        format!(
            "  initiator input: {zeros}09:4\n  counterparty privacy input: {zeros}0a:0\n\n2. Building normal control transaction\n"
        )
    );
    assert_eq!(
        validation_text(11, 1, 2, 33),
        "  counterparty fee contribution: 11 sats\n  added inputs: 1\n  added outputs: 2\n  added fee: 33 sats\n"
    );
    let accepted = format!(
        "  simulated channel accepted funding outpoint: {zeros}09:4\n  initiator channel balance: 7 sats\n  counterparty channel balance: 0 sats\n\n"
    );
    assert_eq!(
        channel_text(&outpoint, 7, 0, true),
        format!("{accepted}5. Broadcasting private channel funding transaction\n")
    );
    assert_eq!(channel_text(&outpoint, 7, 0, false), format!("{accepted}5. Broadcast skipped\n\n"));
    let mut txid = [0; 32];
    txid[31] = 0xfe;
    assert_eq!(
        mined_text(&txid, 103),
        format!("  broadcast txid: fe{zeros}\n  mined height: 103\n\n")
    );
}

#[test]
fn the_control_transaction_is_marked_as_not_broadcast() {
    let text = normal_text(&segwit(vec![]), "session-1");
    let summary = transaction_summary(
        "Normal single-funder channel open",
        &segwit(vec![]),
        &vec!["initiator funding input"],
    );
    assert_eq!(
        text,
        format!(
            "{summary}  status: signed comparison transaction, not broadcast\n\n3. Coordinating privacy-input funding through async directory\n  session: session-1\n"
        )
    );
}

#[test]
fn the_private_transaction_names_both_inputs() {
    let text = private_text(&segwit(vec![]));
    assert!(text.starts_with("Private collaborative channel open\n"));
    assert!(text.contains("    [0] initiator funding input: "));
    assert!(text.contains("    [1] counterparty privacy input: "));
    assert!(text.ends_with(")\n\n4. Verifying Lightning funding boundary\n"));
}
