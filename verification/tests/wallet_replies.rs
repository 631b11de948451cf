use regtest_opener::funding::{funded_utxo, funded_vout};
use regtest_opener::json::{Json, Member};
use regtest_opener::keys::Address;

fn text(value: &str) -> Json {
    Json::Text(value.to_string())
}

fn object(members: Vec<(&str, Json)>) -> Json {
    Json::Object(
        members
            .into_iter()
            .map(|(name, value)| Member { name: name.to_string(), value })
            .collect(),
    )
}

fn output(hex: Json, n: Json) -> Json {
    object(vec![("n", n), ("scriptPubKey", object(vec![("asm", text("")), ("hex", hex)]))])
}

fn reply(outputs: Vec<Json>) -> Json {
    object(vec![
        ("amount", Json::Number(None)),
        ("decoded", object(vec![("txid", text("00")), ("vout", Json::List(outputs))])),
    ])
}

fn address() -> Address {
    Address { text: "somewhere".to_string(), script_pubkey: vec![0x00, 0x14, 0xab, 0xcd] }
}

fn index(document: &Json) -> Result<u32, String> {
    funded_vout(document, &address()).map_err(|error| error.message)
}

const NOT_FOUND: &str = "funding output was not found in wallet transaction";
const NO_OUTPUTS: &str = "wallet transaction response is missing decoded vouts";

#[test]
fn the_paying_output_is_found() {
    let document = reply(vec![
        output(text("0014ffff"), Json::Number(Some(0))),
        output(text("0014abcd"), Json::Number(Some(1))),
    ]);
    assert_eq!(index(&document), Ok(1));
}

#[test]
fn hexadecimal_of_either_case_is_read() {
    assert_eq!(index(&reply(vec![output(text("0014ABcD"), Json::Number(Some(3)))])), Ok(3));
}

#[test]
fn the_first_paying_output_wins() {
    let document = reply(vec![
        output(text("0014abcd"), Json::Number(Some(5))),
        output(text("0014abcd"), Json::Number(Some(6))),
    ]);
    assert_eq!(index(&document), Ok(5));
}

#[test]
fn a_paying_output_without_an_index_is_passed_over() {
    let document = reply(vec![
        output(text("0014abcd"), Json::Number(None)),
        output(text("0014abcd"), text("1")),
        object(vec![("scriptPubKey", object(vec![("hex", text("0014abcd"))]))]),
        output(text("0014abcd"), Json::Number(Some(2))),
    ]);
    assert_eq!(index(&document), Ok(2));
}

#[test]
fn an_index_keeps_its_lower_half() {
    let document = reply(vec![output(text("0014abcd"), Json::Number(Some(0x1_0000_0007)))]);
    assert_eq!(index(&document), Ok(7));
}

#[test]
fn unreadable_scripts_pay_nobody() {
    for hex in ["", "0014abc", "0014abcg", "0014abcd00", "0014ab\u{e9}"] {
        let document = reply(vec![output(text(hex), Json::Number(Some(0)))]);
        assert_eq!(index(&document), Err(NOT_FOUND.to_string()));
    }
    let document = reply(vec![output(Json::Null, Json::Number(Some(0))), Json::Bool(true)]);
    assert_eq!(index(&document), Err(NOT_FOUND.to_string()));
}

#[test]
fn no_output_at_all_is_not_found() {
    assert_eq!(index(&reply(vec![])), Err(NOT_FOUND.to_string()));
}

#[test]
fn a_reply_without_outputs_is_rejected() {
    assert_eq!(index(&Json::Null), Err(NO_OUTPUTS.to_string()));
    assert_eq!(index(&object(vec![])), Err(NO_OUTPUTS.to_string()));
    assert_eq!(index(&object(vec![("decoded", Json::List(vec![]))])), Err(NO_OUTPUTS.to_string()));
    let document = object(vec![("decoded", object(vec![("vout", text("none"))]))]);
    assert_eq!(index(&document), Err(NO_OUTPUTS.to_string()));
}

#[test]
fn a_funded_output_carries_what_was_paid() {
    let document = reply(vec![output(text("0014abcd"), Json::Number(Some(1)))]);
    let utxo = funded_utxo(&document, [9; 32], &address(), 200_000).unwrap();
    assert_eq!(utxo.outpoint.txid, [9; 32]);
    assert_eq!(utxo.outpoint.vout, 1);
    assert_eq!(utxo.value_sats, 200_000);
    assert_eq!(utxo.script_pubkey, vec![0x00, 0x14, 0xab, 0xcd]);
    assert!(utxo.confirmed);
    let error = funded_utxo(&Json::Null, [9; 32], &address(), 200_000).unwrap_err();
    assert_eq!(error.message, NO_OUTPUTS);
}

#[test]
fn members_are_found_by_name() {
    let document = object(vec![("a", Json::Bool(true)), ("b", object(vec![("c", text("d"))]))]);
    assert!(matches!(document.get("a"), Some(Json::Bool(true))));
    assert!(document.get("c").is_none());
    assert!(matches!(document.get_nested("b", "c"), Some(Json::Text(value)) if value == "d"));
    assert!(document.get_nested("a", "c").is_none());
    assert!(Json::List(vec![]).get("0").is_none());
}
