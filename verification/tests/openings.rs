use regtest_opener::config::{Config, FeeRate};
use regtest_opener::json::{Json, Member};
use regtest_opener::keys::{compressed_public_key, p2wpkh_address, private_key};
use regtest_opener::opener::{
    Action, CommitmentSafety, Event, FundingMode, FundingPlan, Opener, Opening,
};
use regtest_opener::report::{
    channel_text, funded_text, mined_text, normal_text, opening_text, preparing_text, private_text,
    validation_text,
};
use regtest_opener::transaction::{Input, OutPoint, Output, Transaction};

type Next = Action<String, FundingPlan>;

fn hex(bytes: &[u8]) -> String {
    bytes.iter().map(|byte| format!("{byte:02x}")).collect()
}

fn member(name: &str, value: Json) -> Member {
    Member { name: name.to_string(), value }
}

/// A wallet reply whose second output pays to the peer whose secret repeats `byte`.
fn reply_paying(byte: u8) -> Json {
    let script = p2wpkh_address(&private_key(byte).unwrap()).script_pubkey;
    let output = |n: u64, hex: String| {
        Json::Object(vec![
            member("n", Json::Number(Some(n))),
            member("scriptPubKey", Json::Object(vec![member("hex", Json::Text(hex))])),
        ])
    };
    let outputs = vec![output(0, "6a".to_string()), output(1, hex(&script))];
    Json::Object(vec![member(
        "decoded",
        Json::Object(vec![member("vout", Json::List(outputs))]),
    )])
}

fn transaction(inputs: u32) -> Transaction {
    let mut script = vec![0x00, 0x20];
    script.extend([5; 32]);
    Transaction {
        version: 2,
        lock_time: 0,
        inputs: (0..inputs)
            .map(|vout| Input {
                previous_output: OutPoint { txid: [6; 32], vout },
                script_sig: vec![],
                sequence: 0,
                witness: vec![],
            })
            .collect(),
        outputs: vec![Output { value_sats: 1_000_000, script_pubkey: script }],
    }
}

/// The answers of an opening in which everything goes well.
fn good_answers() -> Vec<Event> {
    vec![
        Event::Connected,
        Event::BlockCount { height: 7 },
        Event::WalletNamed { name: "lpk-opener-1".to_string() },
        Event::WalletCreated,
        Event::Connected,
        Event::AddressMade { address: "mining".to_string() },
        Event::Generated,
        Event::Sent { txid: [1; 32] },
        Event::Sent { txid: [2; 32] },
        Event::AddressMade { address: "confirming".to_string() },
        Event::Generated,
        Event::Fetched { document: reply_paying(1) },
        Event::Fetched { document: reply_paying(2) },
        Event::NormalBuilt { session: "s-1".to_string(), transaction: transaction(1) },
        Event::Proposed { contribution_sats: 300 },
        Event::Validated { added_inputs: 1, added_outputs: 0, added_fee_sats: 300 },
        Event::Finalized { transaction: transaction(2) },
        Event::ChannelAccepted {
            outpoint: OutPoint { txid: [3; 32], vout: 0 },
            initiator_sats: 1_000_000,
            counterparty_sats: 0,
        },
        Event::Connected,
        Event::Broadcast { txid: [4; 32] },
        Event::AddressMade { address: "block".to_string() },
        Event::Generated,
        Event::BlockCount { height: 110 },
    ]
}

/// Runs an opening over `answers` and returns it with all actions and all text.
fn run(config: Config, answers: Vec<Event>) -> (Opener, Vec<Next>, String) {
    let (mut opener, first) = Opener::start(config);
    let mut text = first.text;
    let mut actions = vec![first.action];
    for event in answers {
        let (next, instruction) = opener.step(event).unwrap();
        opener = next;
        text.push_str(&instruction.text);
        actions.push(instruction.action);
    }
    (opener, actions, text)
}

#[test]
fn a_good_opening_runs_its_full_course() {
    let (opener, actions, text) = run(Config::default(), good_answers());
    assert_eq!(actions.len(), 24);
    assert!(matches!(&actions[0], Action::Connect { url, user, password }
        if url == "http://127.0.0.1:18443" && user == "lpk" && password == "lpk"));
    assert!(matches!(&actions[1], Action::CountBlocks));
    assert!(matches!(&actions[2], Action::NameWallet));
    assert!(matches!(&actions[3], Action::CreateWallet { name } if name == "lpk-opener-1"));
    assert!(matches!(&actions[4], Action::ConnectWallet { url, .. }
        if url == "http://127.0.0.1:18443/wallet/lpk-opener-1"));
    assert!(matches!(&actions[5], Action::NewAddress));
    assert!(matches!(&actions[6], Action::Generate { blocks: 101, address } if address == "mining"));
    let initiator = p2wpkh_address(&private_key(1).unwrap());
    let counterparty = p2wpkh_address(&private_key(2).unwrap());
    assert!(matches!(&actions[7], Action::Send { address, sats: 1_100_000 }
        if *address == initiator.text));
    assert!(matches!(&actions[8], Action::Send { address, sats: 200_000 }
        if *address == counterparty.text));
    assert!(matches!(&actions[9], Action::NewAddress));
    assert!(
        matches!(&actions[10], Action::Generate { blocks: 1, address } if address == "confirming")
    );
    assert!(matches!(&actions[11], Action::FetchTransaction { txid } if *txid == [1; 32]));
    assert!(matches!(&actions[12], Action::FetchTransaction { txid } if *txid == [2; 32]));
    assert!(matches!(&actions[13], Action::BuildNormal { .. }));
    assert!(matches!(&actions[14], Action::Propose));
    assert!(matches!(&actions[15], Action::Validate));
    assert!(matches!(&actions[16], Action::Finalize));
    assert!(matches!(
        &actions[17],
        Action::HandOff {
            initiator_sats: 1_000_000,
            counterparty_sats: 0,
            mode: FundingMode::PrivacyInput,
            safety: CommitmentSafety::CommitmentsExchanged,
        }
    ));
    assert!(matches!(&actions[18], Action::ConnectBroadcaster { url, .. }
        if url == "http://127.0.0.1:18443"));
    assert!(matches!(&actions[19], Action::Broadcast { opening: Opening::Private }));
    assert!(matches!(&actions[20], Action::NewAddress));
    assert!(matches!(&actions[21], Action::Generate { blocks: 1, address } if address == "block"));
    assert!(matches!(&actions[22], Action::CountBlocks));
    assert!(matches!(&actions[23], Action::Conclude));
    for part in [
        "1. Preparing regtest funds\n  wallet: lpk-opener-1\n  starting height: 7\n",
        "  initiator input: 0101010101010101010101010101010101010101010101010101010101010101:1\n",
        "2. Building normal control transaction\nNormal single-funder channel open\n",
        "  session: s-1\n",
        "  counterparty fee contribution: 300 sats\n",
        "Private collaborative channel open\n",
        "  counterparty channel balance: 0 sats\n",
        "5. Broadcasting private channel funding transaction\n  broadcast txid: 0404",
        "  mined height: 110\n\n",
    ] {
        assert!(text.contains(part));
    }
    let conclusion = opener.conclusion().unwrap();
    assert!(conclusion.contains("  normal open: 1 input, "));
    assert!(conclusion.contains("  private open: 2 inputs, "));
    assert!(conclusion.contains("Private raw transaction hex:\n"));
}

#[test]
fn the_output_follows_the_answers() {
    let outpoint = |byte: u8, vout: u32| OutPoint { txid: [byte; 32], vout };
    let parts = [
        (0, opening_text("http://127.0.0.1:18443", 1_000_000)),
        (5, preparing_text("lpk-opener-1", 7)),
        (13, funded_text(&outpoint(1, 1), &outpoint(2, 1))),
        (14, normal_text(&transaction(1), "s-1")),
        (16, validation_text(300, 1, 0, 300)),
        (17, private_text(&transaction(2))),
        (18, channel_text(&outpoint(3, 0), 1_000_000, 0, true)),
        (23, mined_text(&[4; 32], 110)),
    ];
    for count in 0..=good_answers().len() {
        let mut answers = good_answers();
        answers.truncate(count);
        let mut expected = String::new();
        for (due, part) in &parts {
            if *due <= count {
                expected.push_str(part);
            }
        }
        let (_, _, text) = run(Config::default(), answers);
        assert_eq!(text, expected);
    }
}

#[test]
fn only_the_amounts_that_were_set_are_asked_for() {
    let config = Config {
        initiator_input_sats: 5,
        counterparty_input_sats: 6,
        ..Config::default()
    };
    let (_, actions, _) = run(config, good_answers());
    let mut blocks = vec![];
    let mut payments = vec![];
    for (place, action) in actions.iter().enumerate() {
        match action {
            Action::Generate { blocks: count, .. } => blocks.push((place, *count)),
            Action::Send { sats, .. } => payments.push((place, *sats)),
            _ => {}
        }
    }
    assert_eq!(blocks, [(6, 101), (10, 1), (21, 1)]);
    assert_eq!(payments, [(7, 5), (8, 6)]);
}

#[test]
fn the_plan_spends_what_both_peers_were_paid() {
    let mut answers = good_answers();
    answers.truncate(13);
    let (_, mut actions, _) = run(Config::default(), answers);
    let plan = match actions.pop() {
        Some(Action::BuildNormal { plan }) => plan,
        other => panic!("{other:?}"),
    };
    assert_eq!(plan.channel_value_sats, 1_000_000);
    assert_eq!(plan.mode, FundingMode::PrivacyInput);
    assert_eq!(plan.fee_rate_sat_vb, FeeRate { bits: 2.0f32.to_bits() });
    assert_eq!(plan.deadline_secs, 30);
    assert_eq!(plan.initiator_channel_key, compressed_public_key(&private_key(11).unwrap()));
    assert_eq!(plan.counterparty_channel_key, compressed_public_key(&private_key(12).unwrap()));
    for (funder, byte, txid, sats) in [
        (plan.initiator, 1, [1; 32], 1_100_000),
        (plan.counterparty, 2, [2; 32], 200_000),
    ] {
        let script = p2wpkh_address(&private_key(byte).unwrap()).script_pubkey;
        assert_eq!(funder.key.secret_bytes(), [byte; 32]);
        assert_eq!(funder.utxo.outpoint.txid, txid);
        assert_eq!(funder.utxo.outpoint.vout, 1);
        assert_eq!(funder.utxo.value_sats, sats);
        assert_eq!(funder.utxo.script_pubkey, script);
        assert!(funder.utxo.confirmed);
        assert_eq!(funder.change_script, script);
    }
}

#[test]
fn a_refused_broadcast_is_skipped() {
    let config = Config { broadcast: false, ..Config::default() };
    let mut answers = good_answers();
    answers.truncate(18);
    let (opener, actions, text) = run(config, answers);
    assert!(matches!(actions.last(), Some(Action::Conclude)));
    assert!(!actions.iter().any(|action| matches!(action, Action::Broadcast { .. })));
    assert!(text.ends_with("5. Broadcast skipped\n\n"));
    assert!(opener.conclusion().is_some());
}

#[test]
fn a_failure_ends_the_opening_at_any_point() {
    let count = good_answers().len();
    for point in 0..count {
        let mut answers = good_answers();
        answers.truncate(point);
        let (opener, _, _) = run(Config::default(), answers);
        assert!(opener.conclusion().is_none());
        let failed = Event::Failed { message: format!("broken at {point}") };
        let (opener, instruction) = opener.step(failed).unwrap();
        assert_eq!(instruction.text, "");
        assert!(matches!(instruction.action, Action::Fail { message }
            if message == format!("broken at {point}")));
        let opener = opener.step(Event::Connected).unwrap_err();
        assert!(opener.step(Event::Failed { message: String::new() }).is_err());
    }
}

#[test]
fn an_event_that_answers_nothing_is_refused() {
    let (opener, _) = Opener::start(Config::default());
    let opener = opener.step(Event::Generated).unwrap_err();
    let opener = opener.step(Event::BlockCount { height: 1 }).unwrap_err();
    let (_, instruction) = opener.step(Event::Connected).unwrap();
    assert!(matches!(instruction.action, Action::CountBlocks));
}

#[test]
fn nothing_follows_a_conclusion() {
    let (opener, _, _) = run(Config::default(), good_answers());
    let opener = opener.step(Event::Connected).unwrap_err();
    assert!(opener.step(Event::Failed { message: String::new() }).is_err());
}

#[test]
fn a_missing_payment_fails_the_opening() {
    for (place, byte) in [(11, 2), (12, 1)] {
        let mut answers = good_answers();
        answers.truncate(place);
        answers.push(Event::Fetched { document: reply_paying(byte) });
        let (_, mut actions, _) = run(Config::default(), answers);
        assert!(matches!(actions.pop(), Some(Action::Fail { message })
            if message == "funding output was not found in wallet transaction"));
    }
}

#[test]
fn an_unreadable_reply_fails_the_opening() {
    let mut answers = good_answers();
    answers.truncate(11);
    answers.push(Event::Fetched { document: Json::Null });
    let (_, mut actions, _) = run(Config::default(), answers);
    assert!(matches!(actions.pop(), Some(Action::Fail { message })
        if message == "wallet transaction response is missing decoded vouts"));
}

#[test]
fn the_help_ends_the_run() {
    let config = Config { help: true, ..Config::default() };
    let (opener, instruction) = Opener::start(config);
    assert!(instruction.text.starts_with("Lightning Payjoin regtest opener\n\nUsage:"));
    assert!(matches!(instruction.action, Action::Finish));
    assert!(opener.conclusion().is_none());
    assert!(opener.step(Event::Connected).is_err());
}

#[test]
fn a_transaction_without_outputs_has_no_conclusion() {
    let mut answers = good_answers();
    let mut empty = transaction(1);
    empty.outputs.clear();
    answers[13] = Event::NormalBuilt { session: "s-1".to_string(), transaction: empty };
    let (opener, _, _) = run(Config::default(), answers);
    assert!(opener.conclusion().is_none());
}
