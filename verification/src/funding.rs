//! Where the wallet put a peer's funds: the output of a wallet transaction that pays to an
//! address.

use crate::error::{input_error, InputError};
use crate::json::Json;
use crate::keys::{Address, AddressModel};
use crate::script::{from_hex, hex_bytes, is_hex, law_hex_is_read_back, same_bytes};
use crate::text::lower_hex;
use crate::transaction::OutPoint;
use vstd::prelude::*;

verus! {

/// An unspent output that a peer owns.
#[derive(Debug)]
pub struct Utxo {
    pub outpoint: OutPoint,
    pub value_sats: u64,
    pub script_pubkey: Vec<u8>,
    pub confirmed: bool,
}

/// An unspent output with its script as a sequence.
#[verifier::ext_equal]
pub struct UtxoModel {
    pub outpoint: OutPoint,
    pub value_sats: u64,
    pub script_pubkey: Seq<u8>,
    pub confirmed: bool,
}

impl View for Utxo {
    type V = UtxoModel;

    open spec fn view(&self) -> UtxoModel {
        UtxoModel {
            outpoint: self.outpoint,
            value_sats: self.value_sats,
            script_pubkey: self.script_pubkey@,
            confirmed: self.confirmed,
        }
    }
}

/// The outputs that a wallet transaction lists under `decoded` and `vout`.
pub open spec fn decoded_outputs(document: Json) -> Option<Seq<Json>> {
    match document.nested("decoded"@, "vout"@) {
        Some(Json::List(outputs)) => Some(outputs@),
        _ => None,
    }
}

/// Whether a listed output pays to `script`, by the hexadecimal text of its script.
pub open spec fn pays_to(output: Json, script: Seq<u8>) -> bool {
    match output.nested("scriptPubKey"@, "hex"@) {
        Some(Json::Text(hex)) => is_hex(hex@) && hex_bytes(hex@) == script,
        _ => false,
    }
}

/// The index that a listed output states, if it states one: the lower thirty-two bits of `n`.
pub open spec fn stated_index(output: Json) -> Option<u32> {
    match output.member("n"@) {
        Some(Json::Number(Some(n))) => Some((n % 0x1_0000_0000) as u32),
        _ => None,
    }
}

/// Whether a listed output pays to `script` and states its index.
pub open spec fn qualifies(output: Json, script: Seq<u8>) -> bool {
    pays_to(output, script) && stated_index(output) is Some
}

/// The index of the first listed output that pays to `script` and states its index.
pub open spec fn first_paying(outputs: Seq<Json>, script: Seq<u8>) -> Option<u32>
    decreases outputs.len(),
{
    if outputs.len() == 0 {
        None
    } else if qualifies(outputs[0], script) {
        stated_index(outputs[0])
    } else {
        first_paying(outputs.skip(1), script)
    }
}

/// The index of the output of a wallet transaction that funds `script`, or the sentence that
/// says why there is none.
pub open spec fn funded_index(document: Json, script: Seq<u8>) -> Result<u32, Seq<char>> {
    match decoded_outputs(document) {
        None => Err("wallet transaction response is missing decoded vouts"@),
        Some(outputs) => match first_paying(outputs, script) {
            None => Err("funding output was not found in wallet transaction"@),
            Some(index) => Ok(index),
        },
    }
}

/// Whether a listed output pays to `script`.
fn output_pays_to(output: &Json, script: &Vec<u8>) -> (yes: bool)
    ensures
        yes == pays_to(*output, script@),
{
    match output.get_nested("scriptPubKey", "hex") {
        Some(Json::Text(hex)) => match from_hex(hex.as_str()) {
            Some(bytes) => same_bytes(&bytes, script),
            None => false,
        },
        _ => false,
    }
}

/// The index that a listed output states.
fn output_index(output: &Json) -> (index: Option<u32>)
    ensures
        index == stated_index(*output),
{
    match output.get("n") {
        Some(Json::Number(Some(n))) => Some((*n % 0x1_0000_0000) as u32),
        _ => None,
    }
}

/// Finds the output of a wallet transaction that pays to an address.
pub fn funded_vout(transaction: &Json, address: &Address) -> (vout: Result<u32, InputError>)
    ensures
        match vout {
            Ok(index) => funded_index(*transaction, address@.script_pubkey) == Ok::<u32, Seq<char>>(
                index,
            ),
            Err(error) => funded_index(*transaction, address@.script_pubkey) == Err::<
                u32,
                Seq<char>,
            >(error@),
        },
{
    match transaction.get_nested("decoded", "vout") {
        Some(Json::List(outputs)) => {
            let mut i: usize = 0;
            assert(outputs@.skip(0) =~= outputs@);
            while i < outputs.len()
                invariant
                    i <= outputs.len(),
                    decoded_outputs(*transaction) == Some(outputs@),
                    first_paying(outputs@, address@.script_pubkey) == first_paying(
                        outputs@.skip(i as int),
                        address@.script_pubkey,
                    ),
                decreases outputs.len() - i,
            {
                if output_pays_to(&outputs[i], &address.script_pubkey) {
                    match output_index(&outputs[i]) {
                        Some(index) => {
                            return Ok(index);
                        },
                        None => {},
                    }
                }
                assert(outputs@.skip(i as int).skip(1) =~= outputs@.skip(i + 1));
                i = i + 1;
            }
            Err(input_error("funding output was not found in wallet transaction".to_owned()))
        },
        _ => Err(input_error("wallet transaction response is missing decoded vouts".to_owned())),
    }
}

/// The unspent output of `value_sats` that a wallet transaction made for an address, or the
/// sentence that says why there is none.
pub open spec fn funded_output(
    document: Json,
    txid: [u8; 32],
    address: AddressModel,
    value_sats: u64,
) -> Result<UtxoModel, Seq<char>> {
    match funded_index(document, address.script_pubkey) {
        Ok(vout) => Ok(
            UtxoModel {
                outpoint: OutPoint { txid, vout },
                value_sats,
                script_pubkey: address.script_pubkey,
                confirmed: true,
            },
        ),
        Err(message) => Err(message),
    }
}

/// Makes the confirmed unspent output with which a wallet transaction funded an address.
pub fn funded_utxo(
    transaction: &Json,
    txid: [u8; 32],
    address: &Address,
    value_sats: u64,
) -> (utxo: Result<Utxo, InputError>)
    ensures
        match utxo {
            Ok(utxo) => funded_output(*transaction, txid, address@, value_sats) == Ok::<
                UtxoModel,
                Seq<char>,
            >(utxo@),
            Err(error) => funded_output(*transaction, txid, address@, value_sats) == Err::<
                UtxoModel,
                Seq<char>,
            >(error@),
        },
{
    match funded_vout(transaction, address) {
        Ok(vout) => Ok(
            Utxo {
                outpoint: OutPoint { txid, vout },
                value_sats,
                script_pubkey: address.script_pubkey.clone(),
                confirmed: true,
            },
        ),
        Err(error) => Err(error),
    }
}

/// Whether the output at `i` is the first that qualifies.
pub open spec fn is_first_qualified(outputs: Seq<Json>, script: Seq<u8>, i: int) -> bool {
    &&& 0 <= i < outputs.len()
    &&& qualifies(outputs[i], script)
    &&& forall|j: int| 0 <= j < i ==> !qualifies(#[trigger] outputs[j], script)
}

proof fn lemma_first_paying(outputs: Seq<Json>, script: Seq<u8>)
    ensures
        match first_paying(outputs, script) {
            Some(index) => exists|i: int| #[trigger]
                is_first_qualified(outputs, script, i) && stated_index(outputs[i]) == Some(index),
            None => forall|j: int|
                0 <= j < outputs.len() ==> !qualifies(#[trigger] outputs[j], script),
        },
    decreases outputs.len(),
{
    if outputs.len() > 0 {
        if qualifies(outputs[0], script) {
            assert(is_first_qualified(outputs, script, 0));
        } else {
            let rest = outputs.skip(1);
            lemma_first_paying(rest, script);
            assert forall|j: int| 1 <= j < outputs.len() implies #[trigger] outputs[j] == rest[j
                - 1] by {}
            if let Some(index) = first_paying(rest, script) {
                let i = choose|i: int| #[trigger]
                    is_first_qualified(rest, script, i) && stated_index(rest[i]) == Some(index);
                assert(is_first_qualified(outputs, script, i + 1));
            }
        }
    }
}

/// The output that is found is the first that pays to the address and states its index, and the
/// index is the one that it states.
pub proof fn law_found_output_pays(document: Json, script: Seq<u8>)
    requires
        funded_index(document, script) is Ok,
    ensures
        decoded_outputs(document) is Some,
        exists|i: int| #[trigger]
            is_first_qualified(decoded_outputs(document)->0, script, i) && stated_index(
                decoded_outputs(document)->0[i],
            ) == Some(funded_index(document, script)->Ok_0),
{
    lemma_first_paying(decoded_outputs(document)->0, script);
}

/// No output is found only where none pays to the address and states its index.
pub proof fn law_missing_output_pays_nowhere(document: Json, script: Seq<u8>)
    requires
        decoded_outputs(document) is Some,
        funded_index(document, script) is Err,
    ensures
        forall|j: int|
            0 <= j < decoded_outputs(document)->0.len() ==> !qualifies(
                #[trigger] decoded_outputs(document)->0[j],
                script,
            ),
{
    lemma_first_paying(decoded_outputs(document)->0, script);
}

/// An output whose script is listed in lower-case hexadecimal pays to that script.
pub proof fn law_listed_script_is_recognised(output: Json, hex: String, script: Seq<u8>)
    requires
        output.nested("scriptPubKey"@, "hex"@) == Some(Json::Text(hex)),
        hex@ == lower_hex(script),
    ensures
        pays_to(output, script),
{
    law_hex_is_read_back(script);
}

/// An output whose member `n` is an unsigned integer states an index, zero among them: the integer
/// itself where it is below 2^32, else what is left of it in thirty-two bits. Any other `n`, or
/// none, states no index.
pub proof fn law_every_integer_states_an_index(output: Json, n: u64)
    ensures
        output.member("n"@) == Some(Json::Number(Some(n))) ==> {
            &&& n < 0x1_0000_0000 ==> stated_index(output) == Some(n as u32)
            &&& stated_index(output) matches Some(index) && (n - index) % 0x1_0000_0000 == 0
        },
        !(output.member("n"@) matches Some(Json::Number(Some(_)))) ==> stated_index(output) is None,
{
}

/// An output pays to a script exactly where its hexadecimal text writes that script, and so to no
/// other script.
pub proof fn law_outputs_pay_to_the_script_they_list(
    output: Json,
    field: Json,
    hex: String,
    script: Seq<u8>,
    other: Seq<u8>,
)
    ensures
        output.member("scriptPubKey"@) == Some(field) && field.member("hex"@) == Some(
            Json::Text(hex),
        ) ==> (pays_to(output, script) <==> is_hex(hex@) && hex_bytes(hex@) == script),
        output.member("scriptPubKey"@) is None ==> !pays_to(output, script),
        output.member("scriptPubKey"@) == Some(field) && !(field.member("hex"@) matches Some(
            Json::Text(_),
        )) ==> !pays_to(output, script),
        pays_to(output, script) && pays_to(output, other) ==> script == other,
{
}

/// The first listed output that pays to an address and states its index funds it, by that index:
/// the unspent output holds the value that was sent, pays to the address, and is confirmed.
pub proof fn law_first_payment_funds(
    document: Json,
    decoded: Json,
    outputs: Vec<Json>,
    i: int,
    n: u64,
    txid: [u8; 32],
    address: AddressModel,
    value_sats: u64,
)
    requires
        document.member("decoded"@) == Some(decoded),
        decoded.member("vout"@) == Some(Json::List(outputs)),
        0 <= i < outputs@.len(),
        pays_to(outputs@[i], address.script_pubkey),
        outputs@[i].member("n"@) == Some(Json::Number(Some(n))),
        forall|j: int|
            0 <= j < i ==> !pays_to(#[trigger] outputs@[j], address.script_pubkey) || !(
            outputs@[j].member("n"@) matches Some(Json::Number(Some(_)))),
    ensures
        n < 0x1_0000_0000 ==> funded_index(document, address.script_pubkey) == Ok::<u32, Seq<char>>(
            n as u32,
        ),
        funded_output(document, txid, address, value_sats) matches Ok(utxo) && {
            &&& utxo.outpoint.txid == txid
            &&& (n - utxo.outpoint.vout) % 0x1_0000_0000 == 0
            &&& utxo.value_sats == value_sats
            &&& utxo.script_pubkey == address.script_pubkey
            &&& utxo.confirmed
        },
{
    let script = address.script_pubkey;
    assert(qualifies(outputs@[i], script));
    lemma_first_paying(outputs@, script);
    let index = first_paying(outputs@, script)->0;
    let k = choose|k: int| #[trigger]
        is_first_qualified(outputs@, script, k) && stated_index(outputs@[k]) == Some(index);
    assert(k == i) by {
        if k < i {
            assert(!qualifies(outputs@[k], script));
        } else if i < k {
            assert(!qualifies(outputs@[i], script));
        }
    }
}

/// Where no outputs are listed, or none of them funds the address, the operator is told which of
/// the two it is.
pub proof fn law_missing_funds_are_named(
    document: Json,
    decoded: Json,
    outputs: Vec<Json>,
    txid: [u8; 32],
    address: AddressModel,
    value_sats: u64,
)
    ensures
        document.member("decoded"@) is None || (document.member("decoded"@) == Some(decoded) && !(
        decoded.member("vout"@) matches Some(Json::List(_)))) ==> funded_output(
            document,
            txid,
            address,
            value_sats,
        ) == Err::<UtxoModel, Seq<char>>("wallet transaction response is missing decoded vouts"@),
        document.member("decoded"@) == Some(decoded) && decoded.member("vout"@) == Some(
            Json::List(outputs),
        ) && (forall|j: int|
            0 <= j < outputs@.len() ==> !pays_to(#[trigger] outputs@[j], address.script_pubkey)
                || !(outputs@[j].member("n"@) matches Some(Json::Number(Some(_)))))
            ==> funded_output(document, txid, address, value_sats) == Err::<UtxoModel, Seq<char>>(
            "funding output was not found in wallet transaction"@,
        ),
{
    lemma_first_paying(outputs@, address.script_pubkey);
    if first_paying(outputs@, address.script_pubkey) is Some {
        let index = first_paying(outputs@, address.script_pubkey)->0;
        let k = choose|k: int| #[trigger]
            is_first_qualified(outputs@, address.script_pubkey, k) && stated_index(outputs@[k])
                == Some(index);
        assert(qualifies(outputs@[k], address.script_pubkey));
    }
}

/// The model hides nothing: it shows the fields of what it stands for.
pub proof fn law_model_shows_every_field(utxo: Utxo)
    ensures
        utxo@.outpoint == utxo.outpoint,
        utxo@.value_sats == utxo.value_sats,
        utxo@.script_pubkey == utxo.script_pubkey@,
        utxo@.confirmed == utxo.confirmed,
{
}

} // verus!
