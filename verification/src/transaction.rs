//! Bitcoin transactions as plain values.

use bitcoin::absolute::LockTime;
use bitcoin::consensus::encode;
use bitcoin::hashes;
use bitcoin::transaction::Version;
use bitcoin::{Amount, ScriptBuf, Sequence, TxIn, TxOut, Txid, Witness};
use crate::script::{hex_bytes, law_hex_is_read_back};
use crate::text::{decimal, lower_hex};
use vstd::prelude::*;

verus! {

/// The output of an earlier transaction, by that transaction's identifier and the index in it.
#[derive(Debug, Clone, Copy)]
pub struct OutPoint {
    pub txid: [u8; 32],
    pub vout: u32,
}

/// An input of a transaction.
#[derive(Debug)]
pub struct Input {
    pub previous_output: OutPoint,
    pub script_sig: Vec<u8>,
    pub sequence: u32,
    pub witness: Vec<Vec<u8>>,
}

/// An output of a transaction.
#[derive(Debug)]
pub struct Output {
    pub value_sats: u64,
    pub script_pubkey: Vec<u8>,
}

/// A transaction.
#[derive(Debug)]
pub struct Transaction {
    pub version: i32,
    pub lock_time: u32,
    pub inputs: Vec<Input>,
    pub outputs: Vec<Output>,
}

/// An input with its bytes as sequences.
#[verifier::ext_equal]
pub struct InputModel {
    pub previous_output: OutPoint,
    pub script_sig: Seq<u8>,
    pub sequence: u32,
    pub witness: Seq<Seq<u8>>,
}

/// An output with its script as a sequence.
#[verifier::ext_equal]
pub struct OutputModel {
    pub value_sats: u64,
    pub script_pubkey: Seq<u8>,
}

/// A transaction with its lists as sequences.
#[verifier::ext_equal]
pub struct TransactionModel {
    pub version: i32,
    pub lock_time: u32,
    pub inputs: Seq<InputModel>,
    pub outputs: Seq<OutputModel>,
}

impl View for Input {
    type V = InputModel;

    open spec fn view(&self) -> InputModel {
        InputModel {
            previous_output: self.previous_output,
            script_sig: self.script_sig@,
            sequence: self.sequence,
            witness: self.witness@.map_values(|item: Vec<u8>| item@),
        }
    }
}

impl View for Output {
    type V = OutputModel;

    open spec fn view(&self) -> OutputModel {
        OutputModel { value_sats: self.value_sats, script_pubkey: self.script_pubkey@ }
    }
}

impl View for Transaction {
    type V = TransactionModel;

    open spec fn view(&self) -> TransactionModel {
        TransactionModel {
            version: self.version,
            lock_time: self.lock_time,
            inputs: self.inputs@.map_values(|input: Input| input@),
            outputs: self.outputs@.map_values(|output: Output| output@),
        }
    }
}

impl TransactionModel {
    /// The transaction without the witnesses of its inputs.
    pub open spec fn without_witnesses(self) -> TransactionModel {
        TransactionModel {
            inputs: self.inputs.map_values(
                |input: InputModel| InputModel { witness: Seq::empty(), ..input },
            ),
            ..self
        }
    }
}

/// The identifier that `bitcoin::Transaction::compute_txid` gives a transaction without
/// witnesses.
pub uninterp spec fn txid_of(transaction: TransactionModel) -> Seq<u8>;

/// `bitcoin::Transaction::compute_txid`, for the transaction without its witnesses, which the
/// identifier leaves out.
///
/// Trusted: the identifier is a function of the transaction without its witnesses.
#[verifier::external_body]
pub(crate) fn compute_txid(transaction: &Transaction) -> (txid: [u8; 32])
    ensures
        txid@ == txid_of(transaction@.without_witnesses()),
{
    let input = transaction.inputs.iter().map(|input| TxIn {
        previous_output: bitcoin::OutPoint::new(hashes::Hash::from_byte_array(input.previous_output.txid), input.previous_output.vout),
        script_sig: ScriptBuf::from_bytes(input.script_sig.clone()),
        sequence: Sequence(input.sequence),
        witness: Witness::new(),
    }).collect();
    let output = transaction.outputs.iter().map(|output| TxOut {
        value: Amount::from_sat(output.value_sats),
        script_pubkey: ScriptBuf::from_bytes(output.script_pubkey.clone()),
    }).collect();
    let lock_time = LockTime::from_consensus(transaction.lock_time);
    let whole = bitcoin::Transaction { version: Version(transaction.version), lock_time, input, output };
    hashes::Hash::to_byte_array(whole.compute_txid())
}

/// How many bytes state a length in front of what has that length.
pub open spec fn prefix_size(len: nat) -> nat {
    if len < 0xfd {
        1
    } else if len <= 0xffff {
        3
    } else if len <= 0xffff_ffff {
        5
    } else {
        9
    }
}

/// How many bytes the first `count` items of a witness take, each behind its length.
pub open spec fn items_size(witness: Seq<Seq<u8>>, count: nat) -> nat
    decreases count,
{
    if count == 0 {
        0
    } else {
        items_size(witness, (count - 1) as nat) + prefix_size(witness[count - 1].len())
            + witness[count - 1].len()
    }
}

/// Whether thirty-two bits count the bytes in front of every item of a witness, which are most in
/// front of the last.
pub open spec fn witness_fits(witness: Seq<Seq<u8>>) -> bool {
    witness.len() == 0 || items_size(witness, (witness.len() - 1) as nat) < 0x1_0000_0000
}

impl TransactionModel {
    /// Whether every witness is small enough to be encoded.
    pub open spec fn fits(self) -> bool {
        forall|i: int| 0 <= i < self.inputs.len() ==> witness_fits(#[trigger] self.inputs[i].witness)
    }
}

proof fn lemma_items_size_grows(witness: Seq<Seq<u8>>, few: nat, many: nat)
    requires
        few <= many,
    ensures
        items_size(witness, few) <= items_size(witness, many),
    decreases many,
{
    if few < many {
        lemma_items_size_grows(witness, few, (many - 1) as nat);
    }
}

impl Input {
    /// Whether the witness is small enough to be encoded.
    fn fits(&self) -> (yes: bool)
        ensures
            yes == witness_fits(self@.witness),
    {
        let ghost witness = self@.witness;
        let mut size: u128 = 0;
        let mut count: usize = 0;
        while count < self.witness.len()
            invariant
                count <= self.witness.len(),
                witness == self@.witness,
                size == items_size(witness, count as nat),
                count > 0 ==> items_size(witness, (count - 1) as nat) < 0x1_0000_0000,
                size <= 0x1_0000_0000 + 9 + usize::MAX,
            decreases self.witness.len() - count,
        {
            if size >= 0x1_0000_0000 {
                proof {
                    lemma_items_size_grows(witness, count as nat, (witness.len() - 1) as nat);
                }
                return false;
            }
            let len: usize = self.witness[count].len();
            assert(len == witness[count as int].len());
            let prefix: u128 = if len < 0xfd {
                1
            } else if len <= 0xffff {
                3
            } else if len <= 0xffff_ffff {
                5
            } else {
                9
            };
            size = size + prefix + len as u128;
            count = count + 1;
        }
        true
    }
}

impl Transaction {
    /// Whether every witness is small enough to be encoded.
    pub fn fits(&self) -> (yes: bool)
        ensures
            yes == self@.fits(),
    {
        let mut i: usize = 0;
        while i < self.inputs.len()
            invariant
                i <= self.inputs.len(),
                forall|j: int| 0 <= j < i ==> witness_fits(#[trigger] self@.inputs[j].witness),
            decreases self.inputs.len() - i,
        {
            assert(self@.inputs[i as int] == self.inputs@[i as int]@);
            if !self.inputs[i].fits() {
                return false;
            }
            i = i + 1;
        }
        true
    }
}

/// The text of `bitcoin::consensus::encode::serialize_hex` for a transaction.
pub uninterp spec fn transaction_hex(transaction: TransactionModel) -> Seq<char>;

/// `bitcoin::consensus::encode::serialize_hex`, for a transaction whose witnesses
/// `bitcoin::Witness` can hold: it keeps where each item starts in thirty-two bits.
///
/// Trusted: the text is a function of the transaction.
#[verifier::external_body]
pub(crate) fn serialize_hex(transaction: &Transaction) -> (hex: String)
    requires
        transaction@.fits(),
    ensures
        hex@ == transaction_hex(transaction@),
{
    let input = transaction.inputs.iter().map(|input| TxIn {
        previous_output: bitcoin::OutPoint::new(hashes::Hash::from_byte_array(input.previous_output.txid), input.previous_output.vout),
        script_sig: ScriptBuf::from_bytes(input.script_sig.clone()),
        sequence: Sequence(input.sequence),
        witness: Witness::from_slice(&input.witness),
    }).collect();
    let output = transaction.outputs.iter().map(|output| TxOut {
        value: Amount::from_sat(output.value_sats),
        script_pubkey: ScriptBuf::from_bytes(output.script_pubkey.clone()),
    }).collect();
    let lock_time = LockTime::from_consensus(transaction.lock_time);
    encode::serialize_hex(&bitcoin::Transaction { version: Version(transaction.version), lock_time, input, output })
}

/// How a transaction identifier is written: its bytes from the last to the first, in
/// hexadecimal.
pub open spec fn txid_digits(txid: Seq<u8>) -> Seq<char> {
    lower_hex(txid.reverse())
}

/// The `Display` of `bitcoin::Txid`.
///
/// Trusted: an identifier is displayed as its bytes from the last to the first, in lower-case
/// hexadecimal.
#[verifier::external_body]
pub(crate) fn txid_text(txid: &[u8; 32]) -> (text: String)
    ensures
        text@ == txid_digits(txid@),
{
    <Txid as hashes::Hash>::from_byte_array(*txid).to_string()
}

/// How an outpoint is written.
pub open spec fn outpoint_digits(outpoint: OutPoint) -> Seq<char> {
    txid_digits(outpoint.txid@) + ":"@ + decimal(outpoint.vout as nat)
}

/// The `Display` of `bitcoin::OutPoint`.
///
/// Trusted: an outpoint is displayed as its transaction identifier, a colon, and the index in
/// decimal.
#[verifier::external_body]
pub(crate) fn outpoint_text(outpoint: &OutPoint) -> (text: String)
    ensures
        text@ == outpoint_digits(*outpoint),
{
    bitcoin::OutPoint::new(hashes::Hash::from_byte_array(outpoint.txid), outpoint.vout).to_string()
}

/// A transaction without its witnesses is the same in everything else.
pub proof fn law_only_witnesses_are_left_out(transaction: TransactionModel, i: int)
    ensures
        ({
            let rest = transaction.without_witnesses();
            &&& rest.version == transaction.version
            &&& rest.lock_time == transaction.lock_time
            &&& rest.outputs == transaction.outputs
            &&& rest.inputs.len() == transaction.inputs.len()
            &&& 0 <= i < transaction.inputs.len() ==> {
                &&& rest.inputs[i].previous_output == transaction.inputs[i].previous_output
                &&& rest.inputs[i].script_sig == transaction.inputs[i].script_sig
                &&& rest.inputs[i].sequence == transaction.inputs[i].sequence
                &&& rest.inputs[i].witness.len() == 0
            }
        }),
{
}

/// An identifier is written as its bytes in hexadecimal, the last byte first; an outpoint as that
/// identifier, a colon and the index.
pub proof fn law_identifiers_are_written_backwards(outpoint: OutPoint)
    ensures
        txid_digits(outpoint.txid@).len() == 64,
        hex_bytes(txid_digits(outpoint.txid@)).reverse() == outpoint.txid@,
        outpoint_digits(outpoint) == txid_digits(outpoint.txid@) + ":"@ + decimal(
            outpoint.vout as nat,
        ),
{
    law_hex_is_read_back(outpoint.txid@.reverse());
    assert(outpoint.txid@.reverse().reverse() =~= outpoint.txid@);
}

/// How many bytes the first `count` items of a witness hold.
pub open spec fn bytes_in(witness: Seq<Seq<u8>>, count: nat) -> nat
    decreases count,
{
    if count == 0 {
        0
    } else {
        bytes_in(witness, (count - 1) as nat) + witness[count - 1].len()
    }
}

proof fn lemma_size_is_close(witness: Seq<Seq<u8>>, count: nat)
    ensures
        bytes_in(witness, count) + count <= items_size(witness, count),
        items_size(witness, count) <= bytes_in(witness, count) + 9 * count,
    decreases count,
{
    if count > 0 {
        lemma_size_is_close(witness, (count - 1) as nat);
    }
}

/// A transaction can be encoded where each witness is far below four gigabytes in front of its last
/// item, however large that item is, and cannot where one is above.
pub proof fn law_all_but_vast_witnesses_fit(transaction: TransactionModel, i: int)
    ensures
        (forall|j: int|
            0 <= j < transaction.inputs.len() ==> {
                let witness = (#[trigger] transaction.inputs[j]).witness;
                witness.len() <= 1 || bytes_in(witness, (witness.len() - 1) as nat) + 9 * (
                witness.len() - 1) < 0x1_0000_0000
            }) ==> transaction.fits(),
        0 <= i < transaction.inputs.len() && transaction.inputs[i].witness.len() > 0 && bytes_in(
            transaction.inputs[i].witness,
            (transaction.inputs[i].witness.len() - 1) as nat,
        ) >= 0x1_0000_0000 ==> !transaction.fits(),
{
    assert forall|j: int| 0 <= j < transaction.inputs.len() implies {
        let witness = (#[trigger] transaction.inputs[j]).witness;
        witness.len() > 0 ==> {
            let front = (witness.len() - 1) as nat;
            &&& bytes_in(witness, front) + front <= items_size(witness, front)
            &&& items_size(witness, front) <= bytes_in(witness, front) + 9 * front
        }
    } by {
        let witness = transaction.inputs[j].witness;
        if witness.len() > 0 {
            lemma_size_is_close(witness, (witness.len() - 1) as nat);
        }
    }
}

/// The models hide nothing: each shows the fields of what it stands for.
pub proof fn law_models_show_every_field(transaction: Transaction, i: int, j: int)
    ensures
        transaction@.version == transaction.version,
        transaction@.lock_time == transaction.lock_time,
        transaction@.inputs.len() == transaction.inputs@.len(),
        transaction@.outputs.len() == transaction.outputs@.len(),
        0 <= i < transaction.inputs@.len() ==> ({
            let shown = transaction@.inputs[i];
            let input = transaction.inputs@[i];
            &&& shown.previous_output == input.previous_output
            &&& shown.script_sig == input.script_sig@
            &&& shown.sequence == input.sequence
            &&& shown.witness.len() == input.witness@.len()
            &&& 0 <= j < input.witness@.len() ==> shown.witness[j] == input.witness@[j]@
        }),
        0 <= i < transaction.outputs@.len() ==> ({
            let shown = transaction@.outputs[i];
            let output = transaction.outputs@[i];
            &&& shown.value_sats == output.value_sats
            &&& shown.script_pubkey == output.script_pubkey@
        }),
{
}

} // verus!
