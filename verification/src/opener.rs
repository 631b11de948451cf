//! The course of a channel opening, one outside action at a time.
//!
//! An [`Opener`] holds how far the opening has come. It asks for one [`Action`] at a time; whoever
//! performs the action answers with an [`Event`], and the opener says what to print and what to do
//! next.

use crate::config::{Config, ConfigModel, FeeRate};
use crate::funding::{funded_output, funded_utxo, Utxo, UtxoModel};
use crate::help::{help_of, help_text};
use crate::json::Json;
use crate::keys::{
    compressed_public_key, p2wpkh_address, private_key, public_key_of, regtest_address, repeated,
    Address, NetworkKind, PrivateKey, PrivateKeyModel,
};
use crate::report::{
    channel_of, channel_text, conclusion_of, conclusion_text, funded_of, funded_text, mined_of,
    mined_text, normal_of, normal_text, opening_of, opening_text, preparing_of, preparing_text,
    private_of, private_text, validation_of, validation_text,
};
use crate::transaction::{OutPoint, Transaction};
use crate::wallet::{wallet_url, wallet_url_of};
use vstd::prelude::*;

verus! {

/// The byte that the initiator's secret repeats.
pub const INITIATOR_SECRET: u8 = 1;

/// The byte that the counterparty's secret repeats.
pub const COUNTERPARTY_SECRET: u8 = 2;

/// The byte that the initiator's channel secret repeats.
pub const INITIATOR_CHANNEL_SECRET: u8 = 11;

/// The byte that the counterparty's channel secret repeats.
pub const COUNTERPARTY_CHANNEL_SECRET: u8 = 12;

/// How many blocks make the first mined coins spendable.
pub const MATURITY_BLOCKS: u64 = 101;

/// How many blocks confirm a transaction.
pub const CONFIRMATION_BLOCKS: u64 = 1;

/// How long the peers may take to agree, in seconds.
pub const DEADLINE_SECS: u64 = 30;

/// One of the two channel openings that are compared.
#[derive(Debug, Clone, Copy, PartialEq, Eq, Structural)]
pub enum Opening {
    /// The initiator funds alone.
    Normal,
    /// The counterparty adds an input.
    Private,
}

/// How the counterparty takes part in the funding.
#[derive(Debug, Clone, Copy, PartialEq, Eq, Structural)]
pub enum FundingMode {
    /// It adds an input for privacy alone, and no channel balance comes of it.
    PrivacyInput,
}

/// What the channel may rely on when the funding is handed to it.
#[derive(Debug, Clone, Copy, PartialEq, Eq, Structural)]
pub enum CommitmentSafety {
    /// The peers have exchanged their commitments.
    CommitmentsExchanged,
}

/// What one peer brings to the opening: the key, the output that it spends, and the script that
/// its change goes to.
#[derive(Debug)]
pub struct Funder {
    pub key: PrivateKey,
    pub utxo: Utxo,
    pub change_script: Vec<u8>,
}

/// What one peer brings, with its scripts as sequences.
#[verifier::ext_equal]
pub struct FunderModel {
    pub key: PrivateKeyModel,
    pub utxo: UtxoModel,
    pub change_script: Seq<u8>,
}

impl View for Funder {
    type V = FunderModel;

    open spec fn view(&self) -> FunderModel {
        FunderModel {
            key: self.key@,
            utxo: self.utxo@,
            change_script: self.change_script@,
        }
    }
}

/// What the peers are to agree on: the channel, its two public keys, and what each brings.
#[derive(Debug)]
pub struct FundingPlan {
    pub channel_value_sats: u64,
    pub mode: FundingMode,
    pub fee_rate_sat_vb: FeeRate,
    pub deadline_secs: u64,
    pub initiator_channel_key: [u8; 33],
    pub counterparty_channel_key: [u8; 33],
    pub initiator: Funder,
    pub counterparty: Funder,
}

/// What the peers are to agree on, with bytes as sequences.
#[verifier::ext_equal]
pub struct FundingPlanModel {
    pub channel_value_sats: u64,
    pub mode: FundingMode,
    pub fee_rate_sat_vb: FeeRate,
    pub deadline_secs: u64,
    pub initiator_channel_key: Seq<u8>,
    pub counterparty_channel_key: Seq<u8>,
    pub initiator: FunderModel,
    pub counterparty: FunderModel,
}

impl View for FundingPlan {
    type V = FundingPlanModel;

    open spec fn view(&self) -> FundingPlanModel {
        FundingPlanModel {
            channel_value_sats: self.channel_value_sats,
            mode: self.mode,
            fee_rate_sat_vb: self.fee_rate_sat_vb,
            deadline_secs: self.deadline_secs,
            initiator_channel_key: self.initiator_channel_key@,
            counterparty_channel_key: self.counterparty_channel_key@,
            initiator: self.initiator@,
            counterparty: self.counterparty@,
        }
    }
}

/// What is to be done next. `Text` and `Plan` are [`String`] and [`FundingPlan`], or their models.
#[derive(Debug)]
pub enum Action<Text, Plan> {
    /// Connect to the node.
    Connect { url: Text, user: Text, password: Text },
    /// Ask the node for its height.
    CountBlocks,
    /// Choose a name for the temporary wallet.
    NameWallet,
    /// Have the node create the wallet.
    CreateWallet { name: Text },
    /// Connect to the wallet.
    ConnectWallet { url: Text, user: Text, password: Text },
    /// Ask the wallet for a new address.
    NewAddress,
    /// Mine blocks that pay to an address of the wallet.
    Generate { blocks: u64, address: Text },
    /// Have the wallet pay to an address.
    Send { address: Text, sats: u64 },
    /// Ask the wallet for a transaction.
    FetchTransaction { txid: [u8; 32] },
    /// Build and sign the normal control transaction, and post it to the directory.
    BuildNormal { plan: Plan },
    /// Have the counterparty propose its input.
    Propose,
    /// Have the initiator validate the proposal.
    Validate,
    /// Sign and extract the private transaction.
    Finalize,
    /// Hand the private transaction to the channel, with the balances of the peers.
    HandOff {
        initiator_sats: u64,
        counterparty_sats: u64,
        mode: FundingMode,
        safety: CommitmentSafety,
    },
    /// Connect to the node that broadcasts.
    ConnectBroadcaster { url: Text, user: Text, password: Text },
    /// Broadcast a transaction.
    Broadcast { opening: Opening },
    /// Print the conclusion; nothing is left to do.
    Conclude,
    /// Nothing is left to do.
    Finish,
    /// Give up, for that reason.
    Fail { message: Text },
}

/// An action with its texts as sequences of characters.
pub type ActionModel = Action<Seq<char>, FundingPlanModel>;

impl View for Action<String, FundingPlan> {
    type V = ActionModel;

    open spec fn view(&self) -> ActionModel {
        match *self {
            Action::Connect { url, user, password } => Action::Connect {
                url: url@,
                user: user@,
                password: password@,
            },
            Action::CountBlocks => Action::CountBlocks,
            Action::NameWallet => Action::NameWallet,
            Action::CreateWallet { name } => Action::CreateWallet { name: name@ },
            Action::ConnectWallet { url, user, password } => Action::ConnectWallet {
                url: url@,
                user: user@,
                password: password@,
            },
            Action::NewAddress => Action::NewAddress,
            Action::Generate { blocks, address } => Action::Generate { blocks, address: address@ },
            Action::Send { address, sats } => Action::Send { address: address@, sats },
            Action::FetchTransaction { txid } => Action::FetchTransaction { txid },
            Action::BuildNormal { plan } => Action::BuildNormal { plan: plan@ },
            Action::Propose => Action::Propose,
            Action::Validate => Action::Validate,
            Action::Finalize => Action::Finalize,
            Action::HandOff { initiator_sats, counterparty_sats, mode, safety } => Action::HandOff {
                initiator_sats,
                counterparty_sats,
                mode,
                safety,
            },
            Action::ConnectBroadcaster { url, user, password } => Action::ConnectBroadcaster {
                url: url@,
                user: user@,
                password: password@,
            },
            Action::Broadcast { opening } => Action::Broadcast { opening },
            Action::Conclude => Action::Conclude,
            Action::Finish => Action::Finish,
            Action::Fail { message } => Action::Fail { message: message@ },
        }
    }
}

/// How an action went.
#[derive(Debug)]
pub enum Event {
    /// The action failed, for that reason.
    Failed { message: String },
    /// A connection stands.
    Connected,
    /// The height of the node.
    BlockCount { height: u64 },
    /// The name that was chosen for the wallet.
    WalletNamed { name: String },
    /// The wallet was created.
    WalletCreated,
    /// A new address of the wallet.
    AddressMade { address: String },
    /// The blocks were mined.
    Generated,
    /// The payment was sent in that transaction.
    Sent { txid: [u8; 32] },
    /// The transaction as the wallet describes it.
    Fetched { document: Json },
    /// The signed control transaction, and the session it was posted under.
    NormalBuilt { session: String, transaction: Transaction },
    /// The proposal, with what the counterparty adds to the fee.
    Proposed { contribution_sats: u64 },
    /// The proposal is valid, with what it adds.
    Validated { added_inputs: u64, added_outputs: u64, added_fee_sats: u64 },
    /// The private transaction.
    Finalized { transaction: Transaction },
    /// The channel accepted the funding.
    ChannelAccepted { outpoint: OutPoint, initiator_sats: u64, counterparty_sats: u64 },
    /// The transaction was broadcast.
    Broadcast { txid: [u8; 32] },
}

/// How far the opening has come: the action that is awaited, and what is still needed of what
/// came before. `Output` is [`Utxo`], or its model.
#[derive(Debug)]
pub enum Stage<Output> {
    Connecting,
    CountingBlocks,
    NamingWallet { start_height: u64 },
    CreatingWallet { start_height: u64, wallet_name: String },
    ConnectingWallet { start_height: u64, wallet_name: String },
    RequestingMiningAddress,
    Mining,
    FundingInitiator,
    FundingCounterparty { initiator_txid: [u8; 32] },
    RequestingConfirmationAddress { initiator_txid: [u8; 32], counterparty_txid: [u8; 32] },
    Confirming { initiator_txid: [u8; 32], counterparty_txid: [u8; 32] },
    FetchingInitiator { initiator_txid: [u8; 32], counterparty_txid: [u8; 32] },
    FetchingCounterparty { initiator: Output, counterparty_txid: [u8; 32] },
    BuildingNormal,
    Proposing { normal: Transaction },
    Validating { normal: Transaction, contribution_sats: u64 },
    Finalizing { normal: Transaction },
    HandingOff { normal: Transaction, private: Transaction },
    ConnectingBroadcaster { normal: Transaction, private: Transaction },
    Broadcasting { normal: Transaction, private: Transaction },
    RequestingBlockAddress { normal: Transaction, private: Transaction, txid: [u8; 32] },
    MiningBlock { normal: Transaction, private: Transaction, txid: [u8; 32] },
    CountingMined { normal: Transaction, private: Transaction, txid: [u8; 32] },
    Concluded { normal: Transaction, private: Transaction },
    Stopped,
}

/// A stage with scripts as sequences.
pub type StageModel = Stage<UtxoModel>;

impl View for Stage<Utxo> {
    type V = StageModel;

    open spec fn view(&self) -> StageModel {
        match *self {
            Stage::Connecting => Stage::Connecting,
            Stage::CountingBlocks => Stage::CountingBlocks,
            Stage::NamingWallet { start_height } => Stage::NamingWallet { start_height },
            Stage::CreatingWallet { start_height, wallet_name } => Stage::CreatingWallet {
                start_height,
                wallet_name,
            },
            Stage::ConnectingWallet { start_height, wallet_name } => Stage::ConnectingWallet {
                start_height,
                wallet_name,
            },
            Stage::RequestingMiningAddress => Stage::RequestingMiningAddress,
            Stage::Mining => Stage::Mining,
            Stage::FundingInitiator => Stage::FundingInitiator,
            Stage::FundingCounterparty { initiator_txid } => Stage::FundingCounterparty {
                initiator_txid,
            },
            Stage::RequestingConfirmationAddress {
                initiator_txid,
                counterparty_txid,
            } => Stage::RequestingConfirmationAddress { initiator_txid, counterparty_txid },
            Stage::Confirming { initiator_txid, counterparty_txid } => Stage::Confirming {
                initiator_txid,
                counterparty_txid,
            },
            Stage::FetchingInitiator {
                initiator_txid,
                counterparty_txid,
            } => Stage::FetchingInitiator { initiator_txid, counterparty_txid },
            Stage::FetchingCounterparty {
                initiator,
                counterparty_txid,
            } => Stage::FetchingCounterparty { initiator: initiator@, counterparty_txid },
            Stage::BuildingNormal => Stage::BuildingNormal,
            Stage::Proposing { normal } => Stage::Proposing { normal },
            Stage::Validating { normal, contribution_sats } => Stage::Validating {
                normal,
                contribution_sats,
            },
            Stage::Finalizing { normal } => Stage::Finalizing { normal },
            Stage::HandingOff { normal, private } => Stage::HandingOff { normal, private },
            Stage::ConnectingBroadcaster { normal, private } => Stage::ConnectingBroadcaster {
                normal,
                private,
            },
            Stage::Broadcasting { normal, private } => Stage::Broadcasting { normal, private },
            Stage::RequestingBlockAddress { normal, private, txid } => Stage::RequestingBlockAddress {
                normal,
                private,
                txid,
            },
            Stage::MiningBlock { normal, private, txid } => Stage::MiningBlock {
                normal,
                private,
                txid,
            },
            Stage::CountingMined { normal, private, txid } => Stage::CountingMined {
                normal,
                private,
                txid,
            },
            Stage::Concluded { normal, private } => Stage::Concluded { normal, private },
            Stage::Stopped => Stage::Stopped,
        }
    }
}

impl<Output> Stage<Output> {
    /// Whether nothing is awaited any more.
    pub open spec fn is_over(self) -> bool {
        self is Concluded || self is Stopped
    }
}

/// What an event leads to: the stage, what is printed, and what is to be done next.
#[verifier::ext_equal]
pub struct Turn {
    pub stage: StageModel,
    pub text: Seq<char>,
    pub action: ActionModel,
}

/// The test key whose secret repeats a byte.
pub open spec fn test_key(secret_byte: u8) -> PrivateKeyModel {
    PrivateKeyModel { secret: repeated(secret_byte), network: NetworkKind::Test }
}

/// What the peer whose secret repeats a byte brings to the opening.
pub open spec fn funder_of(secret_byte: u8, utxo: UtxoModel) -> FunderModel {
    FunderModel {
        key: test_key(secret_byte),
        utxo,
        change_script: regtest_address(repeated(secret_byte)).script_pubkey,
    }
}

/// What the peers are to agree on once both are funded.
pub open spec fn plan_of(
    config: ConfigModel,
    initiator: UtxoModel,
    counterparty: UtxoModel,
) -> FundingPlanModel {
    FundingPlanModel {
        channel_value_sats: config.channel_sats,
        mode: FundingMode::PrivacyInput,
        fee_rate_sat_vb: config.fee_rate_sat_vb,
        deadline_secs: DEADLINE_SECS,
        initiator_channel_key: public_key_of(repeated(INITIATOR_CHANNEL_SECRET)),
        counterparty_channel_key: public_key_of(repeated(COUNTERPARTY_CHANNEL_SECRET)),
        initiator: funder_of(INITIATOR_SECRET, initiator),
        counterparty: funder_of(COUNTERPARTY_SECRET, counterparty),
    }
}

/// The turn that gives up.
pub open spec fn failure(message: Seq<char>) -> Turn {
    Turn { stage: Stage::Stopped, text: Seq::empty(), action: Action::Fail { message } }
}

/// The turn before any event: the help if it was asked for, else the connection to the node.
pub open spec fn first_turn(config: ConfigModel) -> Turn {
    if config.help {
        Turn { stage: Stage::Stopped, text: help_of(), action: Action::Finish }
    } else {
        Turn {
            stage: Stage::Connecting,
            text: opening_of(config.rpc_url, config.channel_sats),
            action: Action::Connect {
                url: config.rpc_url,
                user: config.rpc_user,
                password: config.rpc_password,
            },
        }
    }
}

/// A turn that prints nothing.
pub open spec fn quietly(stage: StageModel, action: ActionModel) -> Turn {
    Turn { stage, text: Seq::empty(), action }
}

/// The turn that an event leads to while the regtest funds are prepared.
pub open spec fn preparing_turn(config: ConfigModel, stage: StageModel, event: Event) -> Option<Turn> {
    match (stage, event) {
        (Stage::Connecting, Event::Connected) => Some(
            quietly(Stage::CountingBlocks, Action::CountBlocks),
        ),
        (Stage::CountingBlocks, Event::BlockCount { height }) => Some(
            quietly(Stage::NamingWallet { start_height: height }, Action::NameWallet),
        ),
        (Stage::NamingWallet { start_height }, Event::WalletNamed { name }) => Some(
            quietly(
                Stage::CreatingWallet { start_height, wallet_name: name },
                Action::CreateWallet { name: name@ },
            ),
        ),
        (Stage::CreatingWallet { start_height, wallet_name }, Event::WalletCreated) => Some(
            quietly(
                Stage::ConnectingWallet { start_height, wallet_name },
                Action::ConnectWallet {
                    url: wallet_url_of(config.rpc_url, wallet_name@),
                    user: config.rpc_user,
                    password: config.rpc_password,
                },
            ),
        ),
        (Stage::ConnectingWallet { start_height, wallet_name }, Event::Connected) => Some(
            Turn {
                stage: Stage::RequestingMiningAddress,
                text: preparing_of(wallet_name@, start_height),
                action: Action::NewAddress,
            },
        ),
        (Stage::RequestingMiningAddress, Event::AddressMade { address }) => Some(
            quietly(
                Stage::Mining,
                Action::Generate { blocks: MATURITY_BLOCKS, address: address@ },
            ),
        ),
        (Stage::Mining, Event::Generated) => Some(
            quietly(
                Stage::FundingInitiator,
                Action::Send {
                    address: regtest_address(repeated(INITIATOR_SECRET)).text,
                    sats: config.initiator_input_sats,
                },
            ),
        ),
        (Stage::FundingInitiator, Event::Sent { txid }) => Some(
            quietly(
                Stage::FundingCounterparty { initiator_txid: txid },
                Action::Send {
                    address: regtest_address(repeated(COUNTERPARTY_SECRET)).text,
                    sats: config.counterparty_input_sats,
                },
            ),
        ),
        (Stage::FundingCounterparty { initiator_txid }, Event::Sent { txid }) => Some(
            quietly(
                Stage::RequestingConfirmationAddress { initiator_txid, counterparty_txid: txid },
                Action::NewAddress,
            ),
        ),
        (
            Stage::RequestingConfirmationAddress { initiator_txid, counterparty_txid },
            Event::AddressMade { address },
        ) => Some(
            quietly(
                Stage::Confirming { initiator_txid, counterparty_txid },
                Action::Generate { blocks: CONFIRMATION_BLOCKS, address: address@ },
            ),
        ),
        (Stage::Confirming { initiator_txid, counterparty_txid }, Event::Generated) => Some(
            quietly(
                Stage::FetchingInitiator { initiator_txid, counterparty_txid },
                Action::FetchTransaction { txid: initiator_txid },
            ),
        ),
        (
            Stage::FetchingInitiator { initiator_txid, counterparty_txid },
            Event::Fetched { document },
        ) => Some(
            match funded_output(
                document,
                initiator_txid,
                regtest_address(repeated(INITIATOR_SECRET)),
                config.initiator_input_sats,
            ) {
                Ok(initiator) => quietly(
                    Stage::FetchingCounterparty { initiator, counterparty_txid },
                    Action::FetchTransaction { txid: counterparty_txid },
                ),
                Err(message) => failure(message),
            },
        ),
        (
            Stage::FetchingCounterparty { initiator, counterparty_txid },
            Event::Fetched { document },
        ) => Some(
            match funded_output(
                document,
                counterparty_txid,
                regtest_address(repeated(COUNTERPARTY_SECRET)),
                config.counterparty_input_sats,
            ) {
                Ok(counterparty) => Turn {
                    stage: Stage::BuildingNormal,
                    text: funded_of(initiator.outpoint, counterparty.outpoint),
                    action: Action::BuildNormal { plan: plan_of(config, initiator, counterparty) },
                },
                Err(message) => failure(message),
            },
        ),
        _ => None,
    }
}

/// The turn that an event leads to from the control transaction to the channel's acceptance.
pub open spec fn opening_turn(config: ConfigModel, stage: StageModel, event: Event) -> Option<Turn> {
    match (stage, event) {
        (Stage::BuildingNormal, Event::NormalBuilt { session, transaction }) => Some(
            Turn {
                stage: Stage::Proposing { normal: transaction },
                text: normal_of(transaction, session@),
                action: Action::Propose,
            },
        ),
        (Stage::Proposing { normal }, Event::Proposed { contribution_sats }) => Some(
            quietly(Stage::Validating { normal, contribution_sats }, Action::Validate),
        ),
        (
            Stage::Validating { normal, contribution_sats },
            Event::Validated { added_inputs, added_outputs, added_fee_sats },
        ) => Some(
            Turn {
                stage: Stage::Finalizing { normal },
                text: validation_of(contribution_sats, added_inputs, added_outputs, added_fee_sats),
                action: Action::Finalize,
            },
        ),
        (Stage::Finalizing { normal }, Event::Finalized { transaction }) => Some(
            Turn {
                stage: Stage::HandingOff { normal, private: transaction },
                text: private_of(transaction),
                action: Action::HandOff {
                    initiator_sats: config.channel_sats,
                    counterparty_sats: 0,
                    mode: FundingMode::PrivacyInput,
                    safety: CommitmentSafety::CommitmentsExchanged,
                },
            },
        ),
        (
            Stage::HandingOff { normal, private },
            Event::ChannelAccepted { outpoint, initiator_sats, counterparty_sats },
        ) => Some(
            Turn {
                stage: if config.broadcast {
                    Stage::ConnectingBroadcaster { normal, private }
                } else {
                    Stage::Concluded { normal, private }
                },
                text: channel_of(outpoint, initiator_sats, counterparty_sats, config.broadcast),
                action: if config.broadcast {
                    Action::ConnectBroadcaster {
                        url: config.rpc_url,
                        user: config.rpc_user,
                        password: config.rpc_password,
                    }
                } else {
                    Action::Conclude
                },
            },
        ),
        _ => None,
    }
}

/// The turn that an event leads to while the private transaction is broadcast and mined.
pub open spec fn broadcasting_turn(stage: StageModel, event: Event) -> Option<Turn> {
    match (stage, event) {
        (Stage::ConnectingBroadcaster { normal, private }, Event::Connected) => Some(
            quietly(
                Stage::Broadcasting { normal, private },
                Action::Broadcast { opening: Opening::Private },
            ),
        ),
        (Stage::Broadcasting { normal, private }, Event::Broadcast { txid }) => Some(
            quietly(Stage::RequestingBlockAddress { normal, private, txid }, Action::NewAddress),
        ),
        (
            Stage::RequestingBlockAddress { normal, private, txid },
            Event::AddressMade { address },
        ) => Some(
            quietly(
                Stage::MiningBlock { normal, private, txid },
                Action::Generate { blocks: CONFIRMATION_BLOCKS, address: address@ },
            ),
        ),
        (Stage::MiningBlock { normal, private, txid }, Event::Generated) => Some(
            quietly(Stage::CountingMined { normal, private, txid }, Action::CountBlocks),
        ),
        (Stage::CountingMined { normal, private, txid }, Event::BlockCount { height }) => Some(
            Turn {
                stage: Stage::Concluded { normal, private },
                text: mined_of(txid@, height),
                action: Action::Conclude,
            },
        ),
        _ => None,
    }
}

/// The turn that an event leads to; none if the event does not answer the action that is awaited.
pub open spec fn next_turn(config: ConfigModel, stage: StageModel, event: Event) -> Option<Turn> {
    if stage.is_over() {
        None
    } else {
        match event {
            Event::Failed { message } => Some(failure(message@)),
            _ => match preparing_turn(config, stage, event) {
                Some(turn) => Some(turn),
                None => match opening_turn(config, stage, event) {
                    Some(turn) => Some(turn),
                    None => broadcasting_turn(stage, event),
                },
            },
        }
    }
}

/// What to print, and what to do next.
#[derive(Debug)]
pub struct Instruction {
    pub text: String,
    pub action: Action<String, FundingPlan>,
}

/// Whether a stage and an instruction are those of a turn.
pub open spec fn carries_out(stage: Stage<Utxo>, instruction: Instruction, turn: Turn) -> bool {
    stage@ == turn.stage && instruction.text@ == turn.text && instruction.action@ == turn.action
}

/// Whether a step took the turn that was due, or gave back the stage and the event where none was.
spec fn takes(
    step: Result<(Stage<Utxo>, Instruction), (Stage<Utxo>, Event)>,
    stage: Stage<Utxo>,
    event: Event,
    due: Option<Turn>,
) -> bool {
    match step {
        Ok((next, instruction)) => due matches Some(turn) && carries_out(next, instruction, turn),
        Err((same, unused)) => due is None && same == stage && unused == event,
    }
}

/// A peer: its key, and the address that it is funded at.
#[derive(Debug)]
struct Party {
    key: PrivateKey,
    address: Address,
}

impl Party {
    /// Whether this is the peer whose secret repeats a byte.
    spec fn repeats(self, secret_byte: u8) -> bool {
        self.key@ == test_key(secret_byte) && self.address@ == regtest_address(
            repeated(secret_byte),
        )
    }

    /// Makes the peer whose secret repeats a byte.
    fn new(secret_byte: u8) -> (party: Self)
        requires
            1 <= secret_byte <= 254,
        ensures
            party.repeats(secret_byte),
    {
        let key = private_key(secret_byte).unwrap();
        Party { address: p2wpkh_address(&key), key }
    }

    /// What the peer brings to the opening, with the output that funds it.
    fn funder(&self, utxo: Utxo) -> (funder: Funder)
        ensures
            forall|secret_byte: u8| self.repeats(secret_byte) ==> funder@ == #[trigger] funder_of(
                secret_byte,
                utxo@,
            ),
    {
        Funder { key: self.key, utxo, change_script: self.address.script_pubkey.clone() }
    }
}

/// An instruction that prints nothing.
fn quiet(action: Action<String, FundingPlan>) -> (instruction: Instruction)
    ensures
        instruction.text@ == Seq::<char>::empty(),
        instruction.action == action,
{
    Instruction { text: String::new(), action }
}

/// The public key of the channel secret that repeats a byte.
fn channel_key(secret_byte: u8) -> (key: [u8; 33])
    requires
        1 <= secret_byte <= 254,
    ensures
        key@ == public_key_of(repeated(secret_byte)),
{
    compressed_public_key(&private_key(secret_byte).unwrap())
}

/// Takes the turns by which the regtest funds are prepared.
fn prepare(
    config: &Config,
    initiator: &Party,
    counterparty: &Party,
    stage: Stage<Utxo>,
    event: Event,
) -> (step: Result<(Stage<Utxo>, Instruction), (Stage<Utxo>, Event)>)
    requires
        initiator.repeats(INITIATOR_SECRET),
        counterparty.repeats(COUNTERPARTY_SECRET),
    ensures
        takes(step, stage, event, preparing_turn(config@, stage@, event)),
{
    match (stage, event) {
        (Stage::Connecting, Event::Connected) => Ok(
            (Stage::CountingBlocks, quiet(Action::CountBlocks)),
        ),
        (Stage::CountingBlocks, Event::BlockCount { height }) => Ok(
            (Stage::NamingWallet { start_height: height }, quiet(Action::NameWallet)),
        ),
        (Stage::NamingWallet { start_height }, Event::WalletNamed { name }) => {
            let action = Action::CreateWallet { name: name.clone() };
            Ok((Stage::CreatingWallet { start_height, wallet_name: name }, quiet(action)))
        },
        (Stage::CreatingWallet { start_height, wallet_name }, Event::WalletCreated) => {
            let action = Action::ConnectWallet {
                url: wallet_url(config.rpc_url.as_str(), wallet_name.as_str()),
                user: config.rpc_user.clone(),
                password: config.rpc_password.clone(),
            };
            Ok((Stage::ConnectingWallet { start_height, wallet_name }, quiet(action)))
        },
        (Stage::ConnectingWallet { start_height, wallet_name }, Event::Connected) => {
            let text = preparing_text(wallet_name.as_str(), start_height);
            Ok((Stage::RequestingMiningAddress, Instruction { text, action: Action::NewAddress }))
        },
        (Stage::RequestingMiningAddress, Event::AddressMade { address }) => Ok(
            (Stage::Mining, quiet(Action::Generate { blocks: MATURITY_BLOCKS, address })),
        ),
        (Stage::Mining, Event::Generated) => {
            let action = Action::Send {
                address: initiator.address.text.clone(),
                sats: config.initiator_input_sats,
            };
            Ok((Stage::FundingInitiator, quiet(action)))
        },
        (Stage::FundingInitiator, Event::Sent { txid }) => {
            let action = Action::Send {
                address: counterparty.address.text.clone(),
                sats: config.counterparty_input_sats,
            };
            Ok((Stage::FundingCounterparty { initiator_txid: txid }, quiet(action)))
        },
        (Stage::FundingCounterparty { initiator_txid }, Event::Sent { txid }) => Ok(
            (
                Stage::RequestingConfirmationAddress { initiator_txid, counterparty_txid: txid },
                quiet(Action::NewAddress),
            ),
        ),
        (
            Stage::RequestingConfirmationAddress { initiator_txid, counterparty_txid },
            Event::AddressMade { address },
        ) => Ok(
            (
                Stage::Confirming { initiator_txid, counterparty_txid },
                quiet(Action::Generate { blocks: CONFIRMATION_BLOCKS, address }),
            ),
        ),
        (Stage::Confirming { initiator_txid, counterparty_txid }, Event::Generated) => Ok(
            (
                Stage::FetchingInitiator { initiator_txid, counterparty_txid },
                quiet(Action::FetchTransaction { txid: initiator_txid }),
            ),
        ),
        (
            Stage::FetchingInitiator { initiator_txid, counterparty_txid },
            Event::Fetched { document },
        ) => {
            match funded_utxo(
                &document,
                initiator_txid,
                &initiator.address,
                config.initiator_input_sats,
            ) {
                Ok(utxo) => Ok(
                    (
                        Stage::FetchingCounterparty { initiator: utxo, counterparty_txid },
                        quiet(Action::FetchTransaction { txid: counterparty_txid }),
                    ),
                ),
                Err(error) => Ok((Stage::Stopped, quiet(Action::Fail { message: error.message }))),
            }
        },
        (
            Stage::FetchingCounterparty { initiator: initiator_utxo, counterparty_txid },
            Event::Fetched { document },
        ) => {
            match funded_utxo(
                &document,
                counterparty_txid,
                &counterparty.address,
                config.counterparty_input_sats,
            ) {
                Ok(utxo) => {
                    let text = funded_text(&initiator_utxo.outpoint, &utxo.outpoint);
                    let plan = FundingPlan {
                        channel_value_sats: config.channel_sats,
                        mode: FundingMode::PrivacyInput,
                        fee_rate_sat_vb: config.fee_rate_sat_vb,
                        deadline_secs: DEADLINE_SECS,
                        initiator_channel_key: channel_key(INITIATOR_CHANNEL_SECRET),
                        counterparty_channel_key: channel_key(COUNTERPARTY_CHANNEL_SECRET),
                        initiator: initiator.funder(initiator_utxo),
                        counterparty: counterparty.funder(utxo),
                    };
                    assert(plan@ =~= plan_of(config@, initiator_utxo@, utxo@));
                    Ok(
                        (
                            Stage::BuildingNormal,
                            Instruction { text, action: Action::BuildNormal { plan } },
                        ),
                    )
                },
                Err(error) => Ok((Stage::Stopped, quiet(Action::Fail { message: error.message }))),
            }
        },
        (stage, event) => Err((stage, event)),
    }
}

/// Takes the turns from the control transaction to the channel's acceptance.
fn open_channel(config: &Config, stage: Stage<Utxo>, event: Event) -> (step: Result<
    (Stage<Utxo>, Instruction),
    (Stage<Utxo>, Event),
>)
    ensures
        takes(step, stage, event, opening_turn(config@, stage@, event)),
{
    match (stage, event) {
        (Stage::BuildingNormal, Event::NormalBuilt { session, transaction }) => {
            let text = normal_text(&transaction, session.as_str());
            Ok(
                (
                    Stage::Proposing { normal: transaction },
                    Instruction { text, action: Action::Propose },
                ),
            )
        },
        (Stage::Proposing { normal }, Event::Proposed { contribution_sats }) => Ok(
            (Stage::Validating { normal, contribution_sats }, quiet(Action::Validate)),
        ),
        (
            Stage::Validating { normal, contribution_sats },
            Event::Validated { added_inputs, added_outputs, added_fee_sats },
        ) => {
            let text = validation_text(
                contribution_sats,
                added_inputs,
                added_outputs,
                added_fee_sats,
            );
            Ok((Stage::Finalizing { normal }, Instruction { text, action: Action::Finalize }))
        },
        (Stage::Finalizing { normal }, Event::Finalized { transaction }) => {
            let text = private_text(&transaction);
            let action = Action::HandOff {
                initiator_sats: config.channel_sats,
                counterparty_sats: 0,
                mode: FundingMode::PrivacyInput,
                safety: CommitmentSafety::CommitmentsExchanged,
            };
            Ok(
                (
                    Stage::HandingOff { normal, private: transaction },
                    Instruction { text, action },
                ),
            )
        },
        (
            Stage::HandingOff { normal, private },
            Event::ChannelAccepted { outpoint, initiator_sats, counterparty_sats },
        ) => {
            let text = channel_text(
                &outpoint,
                initiator_sats,
                counterparty_sats,
                config.broadcast,
            );
            if config.broadcast {
                let action = Action::ConnectBroadcaster {
                    url: config.rpc_url.clone(),
                    user: config.rpc_user.clone(),
                    password: config.rpc_password.clone(),
                };
                Ok(
                    (
                        Stage::ConnectingBroadcaster { normal, private },
                        Instruction { text, action },
                    ),
                )
            } else {
                Ok(
                    (
                        Stage::Concluded { normal, private },
                        Instruction { text, action: Action::Conclude },
                    ),
                )
            }
        },
        (stage, event) => Err((stage, event)),
    }
}

/// Takes the turns by which the private transaction is broadcast and mined.
fn broadcast_and_mine(stage: Stage<Utxo>, event: Event) -> (step: Result<
    (Stage<Utxo>, Instruction),
    (Stage<Utxo>, Event),
>)
    ensures
        takes(step, stage, event, broadcasting_turn(stage@, event)),
{
    match (stage, event) {
        (Stage::ConnectingBroadcaster { normal, private }, Event::Connected) => Ok(
            (
                Stage::Broadcasting { normal, private },
                quiet(Action::Broadcast { opening: Opening::Private }),
            ),
        ),
        (Stage::Broadcasting { normal, private }, Event::Broadcast { txid }) => Ok(
            (
                Stage::RequestingBlockAddress { normal, private, txid },
                quiet(Action::NewAddress),
            ),
        ),
        (
            Stage::RequestingBlockAddress { normal, private, txid },
            Event::AddressMade { address },
        ) => Ok(
            (
                Stage::MiningBlock { normal, private, txid },
                quiet(Action::Generate { blocks: CONFIRMATION_BLOCKS, address }),
            ),
        ),
        (Stage::MiningBlock { normal, private, txid }, Event::Generated) => Ok(
            (Stage::CountingMined { normal, private, txid }, quiet(Action::CountBlocks)),
        ),
        (Stage::CountingMined { normal, private, txid }, Event::BlockCount { height }) => {
            let text = mined_text(&txid, height);
            Ok(
                (
                    Stage::Concluded { normal, private },
                    Instruction { text, action: Action::Conclude },
                ),
            )
        },
        (stage, event) => Err((stage, event)),
    }
}

/// A channel opening under way.
#[derive(Debug)]
pub struct Opener {
    config: Config,
    initiator: Party,
    counterparty: Party,
    stage: Stage<Utxo>,
}

impl Opener {
    #[verifier::type_invariant]
    spec fn peers_stand(self) -> bool {
        self.initiator.repeats(INITIATOR_SECRET) && self.counterparty.repeats(COUNTERPARTY_SECRET)
    }

    /// The configuration of the opening.
    pub closed spec fn config(self) -> ConfigModel {
        self.config@
    }

    /// How far the opening has come.
    pub closed spec fn stage(self) -> StageModel {
        self.stage@
    }

    /// Begins an opening.
    pub fn start(config: Config) -> (begun: (Opener, Instruction))
        ensures
            begun.0.config() == config@,
            begun.0.stage() == first_turn(config@).stage,
            begun.1.text@ == first_turn(config@).text,
            begun.1.action@ == first_turn(config@).action,
    {
        let initiator = Party::new(INITIATOR_SECRET);
        let counterparty = Party::new(COUNTERPARTY_SECRET);
        if config.help {
            let instruction = Instruction {
                text: help_text(),
                action: Action::Finish,
            };
            (Opener { config, initiator, counterparty, stage: Stage::Stopped }, instruction)
        } else {
            let instruction = Instruction {
                text: opening_text(config.rpc_url.as_str(), config.channel_sats),
                action: Action::Connect {
                    url: config.rpc_url.clone(),
                    user: config.rpc_user.clone(),
                    password: config.rpc_password.clone(),
                },
            };
            (Opener { config, initiator, counterparty, stage: Stage::Connecting }, instruction)
        }
    }

    /// Takes the turn that an event leads to. An event that does not answer the action that is
    /// awaited is refused, and the opening stays where it was.
    pub fn step(self, event: Event) -> (step: Result<(Opener, Instruction), Opener>)
        ensures
            match next_turn(self.config(), self.stage(), event) {
                Some(turn) => {
                    &&& step is Ok
                    &&& step->Ok_0.0.config() == self.config()
                    &&& step->Ok_0.0.stage() == turn.stage
                    &&& step->Ok_0.1.text@ == turn.text
                    &&& step->Ok_0.1.action@ == turn.action
                },
                None => {
                    &&& step is Err
                    &&& step->Err_0.config() == self.config()
                    &&& step->Err_0.stage() == self.stage()
                },
            },
    {
        proof {
            use_type_invariant(&self);
        }
        let Opener { config, initiator, counterparty, stage } = self;
        let over = match &stage {
            Stage::Concluded { .. } => true,
            Stage::Stopped => true,
            _ => false,
        };
        if over {
            return Err(Opener { config, initiator, counterparty, stage });
        }
        let event = match event {
            Event::Failed { message } => {
                let instruction = quiet(Action::Fail { message });
                return Ok(
                    (Opener { config, initiator, counterparty, stage: Stage::Stopped }, instruction),
                );
            },
            other => other,
        };
        let step = match prepare(&config, &initiator, &counterparty, stage, event) {
            Ok(taken) => Ok(taken),
            Err((stage, event)) => match open_channel(&config, stage, event) {
                Ok(taken) => Ok(taken),
                Err((stage, event)) => broadcast_and_mine(stage, event),
            },
        };
        match step {
            Ok((stage, instruction)) => Ok(
                (Opener { config, initiator, counterparty, stage }, instruction),
            ),
            Err((stage, _)) => Err(Opener { config, initiator, counterparty, stage }),
        }
    }

    /// What is printed last. There is nothing to print before the opening has concluded, nor where
    /// one of the transactions has no output or the private one holds a witness too large to encode.
    pub fn conclusion(&self) -> (text: Option<String>)
        ensures
            match self.stage() {
                Stage::Concluded { normal, private } => if normal.outputs@.len() > 0
                    && private.outputs@.len() > 0 && private@.fits() {
                    text is Some && text->0@ == conclusion_of(
                        normal,
                        private,
                        self.config().channel_sats,
                    )
                } else {
                    text is None
                },
                _ => text is None,
            },
    {
        match &self.stage {
            Stage::Concluded { normal, private } => {
                if normal.outputs.len() > 0 && private.outputs.len() > 0 && private.fits() {
                    Some(conclusion_text(normal, private, self.config.channel_sats))
                } else {
                    None
                }
            },
            _ => None,
        }
    }
}

/// The models hide nothing: the plan that is asked for shows each of its fields.
pub proof fn law_models_show_every_field(plan: FundingPlan)
    ensures
        plan@.channel_value_sats == plan.channel_value_sats,
        plan@.mode == plan.mode,
        plan@.fee_rate_sat_vb == plan.fee_rate_sat_vb,
        plan@.deadline_secs == plan.deadline_secs,
        plan@.initiator_channel_key == plan.initiator_channel_key@,
        plan@.counterparty_channel_key == plan.counterparty_channel_key@,
        plan@.initiator.key == plan.initiator.key@,
        plan@.initiator.utxo == plan.initiator.utxo@,
        plan@.initiator.change_script == plan.initiator.change_script@,
        plan@.counterparty.key == plan.counterparty.key@,
        plan@.counterparty.utxo == plan.counterparty.utxo@,
        plan@.counterparty.change_script == plan.counterparty.change_script@,
{
}

/// An action is the action that its model shows, with the same texts and numbers.
pub proof fn law_actions_are_what_they_show(action: Action<String, FundingPlan>)
    ensures
        match action {
            Action::Connect { url, user, password } => action@ == (ActionModel::Connect {
                url: url@,
                user: user@,
                password: password@,
            }),
            Action::CountBlocks => action@ is CountBlocks,
            Action::NameWallet => action@ is NameWallet,
            Action::CreateWallet { name } => action@ == (ActionModel::CreateWallet { name: name@ }),
            Action::ConnectWallet { url, user, password } => action@ == (
            ActionModel::ConnectWallet { url: url@, user: user@, password: password@ }),
            Action::NewAddress => action@ is NewAddress,
            Action::Generate { blocks, address } => action@ == (ActionModel::Generate {
                blocks,
                address: address@,
            }),
            Action::Send { address, sats } => action@ == (ActionModel::Send {
                address: address@,
                sats,
            }),
            Action::FetchTransaction { txid } => action@ == (ActionModel::FetchTransaction { txid }),
            Action::BuildNormal { plan } => action@ == (ActionModel::BuildNormal { plan: plan@ }),
            Action::Propose => action@ is Propose,
            Action::Validate => action@ is Validate,
            Action::Finalize => action@ is Finalize,
            Action::HandOff { initiator_sats, counterparty_sats, mode, safety } => action@ == (
            ActionModel::HandOff { initiator_sats, counterparty_sats, mode, safety }),
            Action::ConnectBroadcaster { url, user, password } => action@ == (
            ActionModel::ConnectBroadcaster { url: url@, user: user@, password: password@ }),
            Action::Broadcast { opening } => action@ == (ActionModel::Broadcast { opening }),
            Action::Conclude => action@ is Conclude,
            Action::Finish => action@ is Finish,
            Action::Fail { message } => action@ == (ActionModel::Fail { message: message@ }),
        },
{
}

} // verus!
