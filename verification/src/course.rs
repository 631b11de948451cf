//! What holds of every channel opening, whatever its actions are answered with.

use crate::config::ConfigModel;
use crate::funding::{funded_index, funded_output, UtxoModel};
use crate::help::help_of;
use crate::json::Json;
use crate::keys::{
    p2wpkh_text, public_key_hash, public_key_of, regtest_address, repeated, Network, NetworkKind,
};
use crate::opener::{
    failure, first_turn, next_turn, plan_of, Action, ActionModel, CommitmentSafety, Event,
    FundingMode, Opening, Stage, StageModel, Turn, CONFIRMATION_BLOCKS, COUNTERPARTY_SECRET,
    INITIATOR_SECRET, MATURITY_BLOCKS,
};
use crate::report::{
    channel_of, funded_of, mined_of, normal_of, opening_of, preparing_of, private_of,
    validation_of,
};
use crate::transaction::Transaction;
use crate::wallet::{
    is_base, law_every_url_has_a_base, law_wallets_answer_under_the_node, wallet_url_of,
    without_trailing_slashes,
};
use vstd::prelude::*;

verus! {

/// The turn that a series of events leads to; none if one of them does not answer the action that
/// is awaited when it comes.
pub open spec fn turn_after(config: ConfigModel, events: Seq<Event>) -> Option<Turn>
    decreases events.len(),
{
    if events.len() == 0 {
        Some(first_turn(config))
    } else {
        match turn_after(config, events.drop_last()) {
            Some(turn) => next_turn(config, turn.stage, events.last()),
            None => None,
        }
    }
}

/// The place of a stage in the course of an opening that does not fail.
pub open spec fn place(stage: StageModel) -> int {
    match stage {
        Stage::Connecting => 0,
        Stage::CountingBlocks => 1,
        Stage::NamingWallet { .. } => 2,
        Stage::CreatingWallet { .. } => 3,
        Stage::ConnectingWallet { .. } => 4,
        Stage::RequestingMiningAddress => 5,
        Stage::Mining => 6,
        Stage::FundingInitiator => 7,
        Stage::FundingCounterparty { .. } => 8,
        Stage::RequestingConfirmationAddress { .. } => 9,
        Stage::Confirming { .. } => 10,
        Stage::FetchingInitiator { .. } => 11,
        Stage::FetchingCounterparty { .. } => 12,
        Stage::BuildingNormal => 13,
        Stage::Proposing { .. } => 14,
        Stage::Validating { .. } => 15,
        Stage::Finalizing { .. } => 16,
        Stage::HandingOff { .. } => 17,
        Stage::ConnectingBroadcaster { .. } => 18,
        Stage::Broadcasting { .. } => 19,
        Stage::RequestingBlockAddress { .. } => 20,
        Stage::MiningBlock { .. } => 21,
        Stage::CountingMined { .. } => 22,
        Stage::Concluded { .. } => 23,
        Stage::Stopped => 24,
    }
}

/// Whether a stage waits for an action of that kind.
pub open spec fn awaits(stage: StageModel, action: ActionModel) -> bool {
    match stage {
        Stage::Connecting => action is Connect,
        Stage::CountingBlocks => action is CountBlocks,
        Stage::NamingWallet { .. } => action is NameWallet,
        Stage::CreatingWallet { .. } => action is CreateWallet,
        Stage::ConnectingWallet { .. } => action is ConnectWallet,
        Stage::RequestingMiningAddress => action is NewAddress,
        Stage::Mining => action is Generate,
        Stage::FundingInitiator => action is Send,
        Stage::FundingCounterparty { .. } => action is Send,
        Stage::RequestingConfirmationAddress { .. } => action is NewAddress,
        Stage::Confirming { .. } => action is Generate,
        Stage::FetchingInitiator { .. } => action is FetchTransaction,
        Stage::FetchingCounterparty { .. } => action is FetchTransaction,
        Stage::BuildingNormal => action is BuildNormal,
        Stage::Proposing { .. } => action is Propose,
        Stage::Validating { .. } => action is Validate,
        Stage::Finalizing { .. } => action is Finalize,
        Stage::HandingOff { .. } => action is HandOff,
        Stage::ConnectingBroadcaster { .. } => action is ConnectBroadcaster,
        Stage::Broadcasting { .. } => action is Broadcast,
        Stage::RequestingBlockAddress { .. } => action is NewAddress,
        Stage::MiningBlock { .. } => action is Generate,
        Stage::CountingMined { .. } => action is CountBlocks,
        Stage::Concluded { .. } => action is Conclude,
        Stage::Stopped => action is Finish || action is Fail,
    }
}

/// How many answers an opening that does not fail takes.
pub open spec fn full_length(config: ConfigModel) -> int {
    if config.broadcast {
        23
    } else {
        18
    }
}

/// The normal control transaction that a stage keeps.
pub open spec fn kept_normal(stage: StageModel) -> Option<Transaction> {
    match stage {
        Stage::Proposing { normal } => Some(normal),
        Stage::Validating { normal, .. } => Some(normal),
        Stage::Finalizing { normal } => Some(normal),
        Stage::HandingOff { normal, .. } => Some(normal),
        Stage::ConnectingBroadcaster { normal, .. } => Some(normal),
        Stage::Broadcasting { normal, .. } => Some(normal),
        Stage::RequestingBlockAddress { normal, .. } => Some(normal),
        Stage::MiningBlock { normal, .. } => Some(normal),
        Stage::CountingMined { normal, .. } => Some(normal),
        Stage::Concluded { normal, .. } => Some(normal),
        _ => None,
    }
}

/// The private transaction that a stage keeps.
pub open spec fn kept_private(stage: StageModel) -> Option<Transaction> {
    match stage {
        Stage::HandingOff { private, .. } => Some(private),
        Stage::ConnectingBroadcaster { private, .. } => Some(private),
        Stage::Broadcasting { private, .. } => Some(private),
        Stage::RequestingBlockAddress { private, .. } => Some(private),
        Stage::MiningBlock { private, .. } => Some(private),
        Stage::CountingMined { private, .. } => Some(private),
        Stage::Concluded { private, .. } => Some(private),
        _ => None,
    }
}

/// Whether the control transaction was built, as `normal`, in those events.
pub open spec fn built(events: Seq<Event>, normal: Transaction) -> bool {
    events.len() > 13 && (events[13] matches Event::NormalBuilt { transaction, .. } && transaction
        == normal)
}

/// Whether the private transaction was finalized, as `private`, in those events.
pub open spec fn finalized(events: Seq<Event>, private: Transaction) -> bool {
    events.len() > 16 && (events[16] matches Event::Finalized { transaction } && transaction
        == private)
}

/// Whether the channel accepted the funding in those events.
pub open spec fn accepted(events: Seq<Event>) -> bool {
    events.len() > 17 && events[17] is ChannelAccepted
}

/// Whether a transaction was broadcast, and a block mined on it, in those events.
pub open spec fn mined(events: Seq<Event>) -> bool {
    events.len() == 23 && events[19] is Broadcast && events[21] is Generated
}

/// Whether the wallet's payment at a place in the course went out in that transaction.
pub open spec fn sent(events: Seq<Event>, at: int, txid: [u8; 32]) -> bool {
    events.len() > at && (events[at] matches Event::Sent { txid: actual } && actual == txid)
}

/// Whether `utxo` is what the wallet reported, at a place in the course, of the payment that it
/// made at another to the peer whose secret repeats a byte.
pub open spec fn reported(
    events: Seq<Event>,
    sent_at: int,
    fetched_at: int,
    secret_byte: u8,
    sats: u64,
    utxo: UtxoModel,
) -> bool {
    &&& sent(events, sent_at, utxo.outpoint.txid)
    &&& events.len() > fetched_at
    &&& (events[fetched_at] matches Event::Fetched { document } && funded_output(
        document,
        utxo.outpoint.txid,
        regtest_address(repeated(secret_byte)),
        sats,
    ) == Ok::<UtxoModel, Seq<char>>(utxo))
}

/// Whether the payments that a stage keeps went out in those events.
spec fn keeps_payments(config: ConfigModel, events: Seq<Event>, turn: Turn) -> bool {
    &&& match turn.stage {
        Stage::FundingCounterparty { initiator_txid } => sent(events, 7, initiator_txid),
        Stage::RequestingConfirmationAddress { initiator_txid, counterparty_txid } => sent(
            events,
            7,
            initiator_txid,
        ) && sent(events, 8, counterparty_txid),
        Stage::Confirming { initiator_txid, counterparty_txid } => sent(events, 7, initiator_txid)
            && sent(events, 8, counterparty_txid),
        Stage::FetchingInitiator { initiator_txid, counterparty_txid } => sent(
            events,
            7,
            initiator_txid,
        ) && sent(events, 8, counterparty_txid),
        Stage::FetchingCounterparty { initiator, counterparty_txid } => reported(
            events,
            7,
            11,
            INITIATOR_SECRET,
            config.initiator_input_sats,
            initiator,
        ) && sent(events, 8, counterparty_txid),
        _ => true,
    }
    &&& (turn.action matches Action::BuildNormal { plan } ==> plan == plan_of(
        config,
        plan.initiator.utxo,
        plan.counterparty.utxo,
    ) && reported(
        events,
        7,
        11,
        INITIATOR_SECRET,
        config.initiator_input_sats,
        plan.initiator.utxo,
    ) && reported(
        events,
        8,
        12,
        COUNTERPARTY_SECRET,
        config.counterparty_input_sats,
        plan.counterparty.utxo,
    ))
}

/// The handoff to the channel: the whole capacity for the initiator, nothing for the counterparty.
pub open spec fn handoff_of(config: ConfigModel) -> ActionModel {
    Action::HandOff {
        initiator_sats: config.channel_sats,
        counterparty_sats: 0,
        mode: FundingMode::PrivacyInput,
        safety: CommitmentSafety::CommitmentsExchanged,
    }
}

/// What a stage that is reached by those events has behind it.
spec fn in_course(config: ConfigModel, events: Seq<Event>, turn: Turn) -> bool {
    let stage = turn.stage;
    &&& awaits(stage, turn.action)
    &&& events.len() <= full_length(config)
    &&& !stage.is_over() ==> place(stage) == events.len()
    &&& stage is Concluded ==> events.len() == full_length(config)
    &&& !(stage is Stopped) ==> !config.help
    &&& config.help ==> events.len() == 0
    &&& (kept_normal(stage) matches Some(normal) ==> built(events, normal))
    &&& (kept_private(stage) matches Some(private) ==> finalized(events, private))
    &&& 18 <= place(stage) <= 23 ==> accepted(events)
    &&& 18 <= place(stage) <= 22 ==> config.broadcast
    &&& 20 <= place(stage) <= 22 ==> events[19] is Broadcast
    &&& place(stage) == 22 ==> events[21] is Generated
    &&& stage is Concluded && config.broadcast ==> mined(events)
    &&& (turn.action is HandOff ==> turn.action == handoff_of(config))
    &&& (turn.action matches Action::Broadcast { opening } ==> opening == Opening::Private)
}

proof fn lemma_in_course(config: ConfigModel, events: Seq<Event>)
    requires
        turn_after(config, events) is Some,
    ensures
        in_course(config, events, turn_after(config, events)->0),
    decreases events.len(),
{
    if events.len() > 0 {
        let before = events.drop_last();
        lemma_in_course(config, before);
        assert(forall|i: int| 0 <= i < before.len() ==> before[i] == events[i]);
    }
}

proof fn lemma_keeps_payments(config: ConfigModel, events: Seq<Event>)
    requires
        turn_after(config, events) is Some,
    ensures
        keeps_payments(config, events, turn_after(config, events)->0),
    decreases events.len(),
{
    lemma_in_course(config, events);
    if events.len() > 0 {
        let before = events.drop_last();
        lemma_in_course(config, before);
        lemma_keeps_payments(config, before);
        assert(forall|i: int| 0 <= i < before.len() ==> before[i] == events[i]);
    }
}

/// Both peers bring what the wallet paid to them, each with its own key: the initiator the first
/// payment, the counterparty the second.
pub proof fn law_both_peers_spend_what_they_were_paid(config: ConfigModel, events: Seq<Event>)
    requires
        turn_after(config, events) is Some,
        turn_after(config, events)->0.action is BuildNormal,
    ensures
        turn_after(config, events)->0.action matches Action::BuildNormal { plan } && {
            &&& plan == plan_of(config, plan.initiator.utxo, plan.counterparty.utxo)
            &&& reported(
                events,
                7,
                11,
                INITIATOR_SECRET,
                config.initiator_input_sats,
                plan.initiator.utxo,
            )
            &&& reported(
                events,
                8,
                12,
                COUNTERPARTY_SECRET,
                config.counterparty_input_sats,
                plan.counterparty.utxo,
            )
            &&& plan.initiator.key != plan.counterparty.key
        },
{
    lemma_keeps_payments(config, events);
    assert(repeated(INITIATOR_SECRET)[0] != repeated(COUNTERPARTY_SECRET)[0]);
}

/// An opening does one thing after the other: the number of answers so far says which action is
/// awaited, and after the last answer of the full course it is concluded.
pub proof fn law_actions_come_in_order(config: ConfigModel, events: Seq<Event>)
    requires
        turn_after(config, events) is Some,
    ensures
        ({
            let turn = turn_after(config, events)->0;
            &&& awaits(turn.stage, turn.action)
            &&& !turn.stage.is_over() ==> place(turn.stage) == events.len()
            &&& turn.stage is Concluded ==> events.len() == full_length(config)
            &&& events.len() <= full_length(config)
        }),
{
    lemma_in_course(config, events);
}

/// Only the private transaction is ever broadcast, never the control transaction; and only where
/// the operator did not refuse it, once the transaction is finalized and the channel accepted it.
pub proof fn law_only_the_private_opening_is_broadcast(config: ConfigModel, events: Seq<Event>)
    requires
        turn_after(config, events) is Some,
        turn_after(config, events)->0.action is Broadcast,
    ensures
        turn_after(config, events)->0.action == (ActionModel::Broadcast { opening: Opening::Private }),
        config.broadcast,
        turn_after(config, events)->0.stage matches Stage::Broadcasting { normal, private } && built(
            events,
            normal,
        ) && finalized(events, private),
        accepted(events),
{
    lemma_in_course(config, events);
}

/// The counterparty's privacy input earns it no channel balance, whatever the input is worth: the
/// whole capacity is handed to the initiator, in privacy-input mode.
pub proof fn law_counterparty_gets_no_balance(config: ConfigModel, events: Seq<Event>)
    requires
        turn_after(config, events) is Some,
        turn_after(config, events)->0.action is HandOff,
    ensures
        turn_after(config, events)->0.action == (ActionModel::HandOff {
            initiator_sats: config.channel_sats,
            counterparty_sats: 0,
            mode: FundingMode::PrivacyInput,
            safety: CommitmentSafety::CommitmentsExchanged,
        }),
{
    lemma_in_course(config, events);
}

/// An opening that has concluded compares the transactions that were built and finalized; the
/// channel has accepted the private one, which has been broadcast and mined unless the operator
/// refused.
pub proof fn law_conclusion_compares_what_was_built(config: ConfigModel, events: Seq<Event>)
    requires
        turn_after(config, events) is Some,
        turn_after(config, events)->0.stage is Concluded,
    ensures
        turn_after(config, events)->0.stage matches Stage::Concluded { normal, private } && built(
            events,
            normal,
        ) && finalized(events, private),
        accepted(events),
        config.broadcast ==> mined(events),
{
    lemma_in_course(config, events);
}

/// Everything that is printed up to the last of a series of events.
pub open spec fn printed_after(config: ConfigModel, events: Seq<Event>) -> Seq<char>
    decreases events.len(),
{
    if events.len() == 0 {
        first_turn(config).text
    } else {
        printed_after(config, events.drop_last()) + turn_after(config, events)->0.text
    }
}

/// The output that the wallet reported for the initiator.
pub open spec fn initiator_funds(config: ConfigModel, events: Seq<Event>) -> UtxoModel {
    funded_output(
        events[11]->document,
        events[7]->Sent_txid,
        regtest_address(repeated(INITIATOR_SECRET)),
        config.initiator_input_sats,
    )->Ok_0
}

/// The output that the wallet reported for the counterparty.
pub open spec fn counterparty_funds(config: ConfigModel, events: Seq<Event>) -> UtxoModel {
    funded_output(
        events[12]->document,
        events[8]->Sent_txid,
        regtest_address(repeated(COUNTERPARTY_SECRET)),
        config.counterparty_input_sats,
    )->Ok_0
}

/// A text that is printed only once something has happened.
pub open spec fn once(happened: bool, text: Seq<char>) -> Seq<char> {
    if happened {
        text
    } else {
        Seq::empty()
    }
}

/// The whole output of an opening that has gone well for the first `count` answers.
pub open spec fn output_until(config: ConfigModel, events: Seq<Event>, count: int) -> Seq<char> {
    opening_of(config.rpc_url, config.channel_sats) + once(
        count > 4,
        preparing_of(events[2]->name@, events[1]->height),
    ) + once(
        count > 12,
        funded_of(
            initiator_funds(config, events).outpoint,
            counterparty_funds(config, events).outpoint,
        ),
    ) + once(count > 13, normal_of(events[13]->NormalBuilt_transaction, events[13]->session@))
        + once(
        count > 15,
        validation_of(
            events[14]->contribution_sats,
            events[15]->added_inputs,
            events[15]->added_outputs,
            events[15]->added_fee_sats,
        ),
    ) + once(count > 16, private_of(events[16]->Finalized_transaction)) + once(
        count > 17,
        channel_of(
            events[17]->outpoint,
            events[17]->initiator_sats,
            events[17]->counterparty_sats,
            config.broadcast,
        ),
    ) + once(count > 22, mined_of(events[19]->Broadcast_txid@, events[22]->height))
}

/// Whether the answers that a stage keeps for printing are those that were given.
spec fn keeps_answers(config: ConfigModel, events: Seq<Event>, stage: StageModel) -> bool {
    match stage {
        Stage::NamingWallet { start_height } => start_height == events[1]->height,
        Stage::CreatingWallet { start_height, wallet_name } => start_height == events[1]->height
            && wallet_name == events[2]->name,
        Stage::ConnectingWallet { start_height, wallet_name } => start_height == events[1]->height
            && wallet_name == events[2]->name,
        Stage::FundingCounterparty { initiator_txid } => initiator_txid == events[7]->Sent_txid,
        Stage::RequestingConfirmationAddress { initiator_txid, counterparty_txid } => initiator_txid
            == events[7]->Sent_txid && counterparty_txid == events[8]->Sent_txid,
        Stage::Confirming { initiator_txid, counterparty_txid } => initiator_txid
            == events[7]->Sent_txid && counterparty_txid == events[8]->Sent_txid,
        Stage::FetchingInitiator { initiator_txid, counterparty_txid } => initiator_txid
            == events[7]->Sent_txid && counterparty_txid == events[8]->Sent_txid,
        Stage::FetchingCounterparty { initiator, counterparty_txid } => initiator
            == initiator_funds(config, events) && counterparty_txid == events[8]->Sent_txid,
        Stage::Validating { contribution_sats, .. } => contribution_sats
            == events[14]->contribution_sats,
        Stage::RequestingBlockAddress { txid, .. } => txid == events[19]->Broadcast_txid,
        Stage::MiningBlock { txid, .. } => txid == events[19]->Broadcast_txid,
        Stage::CountingMined { txid, .. } => txid == events[19]->Broadcast_txid,
        _ => true,
    }
}

proof fn lemma_keeps_answers(config: ConfigModel, events: Seq<Event>)
    requires
        turn_after(config, events) is Some,
    ensures
        keeps_answers(config, events, turn_after(config, events)->0.stage),
    decreases events.len(),
{
    lemma_in_course(config, events);
    if events.len() > 0 {
        let before = events.drop_last();
        lemma_in_course(config, before);
        lemma_keeps_answers(config, before);
        assert(forall|i: int| 0 <= i < before.len() ==> before[i] == events[i]);
    }
}

/// The text that the answer at a place in the course is printed with.
spec fn text_at(config: ConfigModel, events: Seq<Event>, at: int) -> Seq<char> {
    if at == 4 {
        preparing_of(events[2]->name@, events[1]->height)
    } else if at == 12 {
        funded_of(
            initiator_funds(config, events).outpoint,
            counterparty_funds(config, events).outpoint,
        )
    } else if at == 13 {
        normal_of(events[13]->NormalBuilt_transaction, events[13]->session@)
    } else if at == 15 {
        validation_of(
            events[14]->contribution_sats,
            events[15]->added_inputs,
            events[15]->added_outputs,
            events[15]->added_fee_sats,
        )
    } else if at == 16 {
        private_of(events[16]->Finalized_transaction)
    } else if at == 17 {
        channel_of(
            events[17]->outpoint,
            events[17]->initiator_sats,
            events[17]->counterparty_sats,
            config.broadcast,
        )
    } else if at == 22 {
        mined_of(events[19]->Broadcast_txid@, events[22]->height)
    } else {
        Seq::empty()
    }
}

proof fn lemma_turn_prints(config: ConfigModel, events: Seq<Event>)
    requires
        turn_after(config, events) is Some,
        events.len() > 0,
    ensures
        turn_after(config, events)->0.text == if turn_after(config, events)->0.stage is Stopped {
            Seq::empty()
        } else {
            text_at(config, events, events.len() - 1)
        },
{
    let before = events.drop_last();
    lemma_in_course(config, before);
    lemma_keeps_answers(config, before);
    assert(forall|i: int| 0 <= i < before.len() ==> before[i] == events[i]);
}

proof fn lemma_output_grows(config: ConfigModel, events: Seq<Event>, count: int)
    requires
        0 <= count <= 22,
    ensures
        output_until(config, events, count + 1) == output_until(config, events, count) + text_at(
            config,
            events,
            count,
        ),
{
    assert(output_until(config, events, count + 1) =~= output_until(config, events, count)
        + text_at(config, events, count));
}

proof fn lemma_output_looks_back(
    config: ConfigModel,
    before: Seq<Event>,
    events: Seq<Event>,
    count: int,
)
    requires
        count <= before.len() <= events.len(),
        forall|i: int| 0 <= i < before.len() ==> before[i] == events[i],
    ensures
        output_until(config, before, count) == output_until(config, events, count),
{
}

/// What an opening has printed is set by the answers so far: the wallet and its height, the funded
/// outpoints, the control transaction and the session, the proposal, the private transaction, the
/// channel's balances, and what was broadcast and mined. The answer that ends an opening early adds
/// nothing.
pub proof fn law_output_follows_the_answers(config: ConfigModel, events: Seq<Event>)
    requires
        !config.help,
        turn_after(config, events) is Some,
    ensures
        printed_after(config, events) == output_until(
            config,
            events,
            if turn_after(config, events)->0.stage is Stopped {
                events.len() - 1
            } else {
                events.len() as int
            },
        ),
    decreases events.len(),
{
    if events.len() == 0 {
        assert(printed_after(config, events) =~= output_until(config, events, 0));
    } else {
        let before = events.drop_last();
        let last = before.len() as int;
        law_output_follows_the_answers(config, before);
        lemma_in_course(config, events);
        lemma_turn_prints(config, events);
        lemma_output_looks_back(config, before, events, last);
        lemma_output_grows(config, events, last);
        assert(printed_after(config, before) + Seq::empty() =~= printed_after(config, before));
    }
}

/// Whether an opening asked for an action when it had that many of the answers.
pub open spec fn asked(
    config: ConfigModel,
    events: Seq<Event>,
    count: int,
    action: ActionModel,
) -> bool {
    turn_after(config, events.take(count)) matches Some(turn) && turn.action == action
}

/// The blocks or the payment that an opening asks for when it has that many answers.
spec fn demand_at(config: ConfigModel, events: Seq<Event>, count: int) -> Option<ActionModel> {
    if count == 6 {
        Some(Action::Generate { blocks: MATURITY_BLOCKS, address: events[5]->address@ })
    } else if count == 7 {
        Some(
            Action::Send {
                address: regtest_address(repeated(INITIATOR_SECRET)).text,
                sats: config.initiator_input_sats,
            },
        )
    } else if count == 8 {
        Some(
            Action::Send {
                address: regtest_address(repeated(COUNTERPARTY_SECRET)).text,
                sats: config.counterparty_input_sats,
            },
        )
    } else if count == 10 {
        Some(Action::Generate { blocks: CONFIRMATION_BLOCKS, address: events[9]->address@ })
    } else if count == 21 {
        Some(Action::Generate { blocks: CONFIRMATION_BLOCKS, address: events[20]->address@ })
    } else {
        None
    }
}

/// Whether a turn asks for the blocks or the payment that are due at its place, and for none
/// elsewhere.
spec fn mines_or_pays(config: ConfigModel, events: Seq<Event>, turn: Turn) -> bool {
    match demand_at(config, events, place(turn.stage)) {
        Some(action) => turn.action == action,
        None => !(turn.action is Generate) && !(turn.action is Send),
    }
}

proof fn lemma_mines_or_pays(config: ConfigModel, events: Seq<Event>)
    requires
        turn_after(config, events) is Some,
    ensures
        mines_or_pays(config, events, turn_after(config, events)->0),
{
    if events.len() > 0 {
        lemma_in_course(config, events.drop_last());
    }
}

proof fn lemma_went_through(config: ConfigModel, events: Seq<Event>, count: int)
    requires
        turn_after(config, events) is Some,
        0 <= count < events.len(),
    ensures
        turn_after(config, events.take(count)) is Some,
        place(turn_after(config, events.take(count))->0.stage) == count,
    decreases events.len(),
{
    let before = events.drop_last();
    if count < before.len() {
        lemma_went_through(config, before, count);
        assert(before.take(count) =~= events.take(count));
    } else {
        assert(before =~= events.take(count));
        lemma_in_course(config, before);
    }
}

proof fn lemma_asked(config: ConfigModel, events: Seq<Event>, count: int)
    requires
        turn_after(config, events) is Some,
        turn_after(config, events)->0.stage is Concluded,
        0 <= count <= events.len(),
    ensures
        turn_after(config, events.take(count)) is Some,
        match demand_at(config, events, count) {
            Some(action) => count < events.len() ==> turn_after(
                config,
                events.take(count),
            )->0.action == action,
            None => {
                &&& !(turn_after(config, events.take(count))->0.action is Generate)
                &&& !(turn_after(config, events.take(count))->0.action is Send)
            },
        },
{
    let so_far = events.take(count);
    if count < events.len() {
        lemma_went_through(config, events, count);
    } else {
        assert(so_far =~= events);
    }
    lemma_mines_or_pays(config, so_far);
}

/// An opening that has concluded has mined the funds to maturity, paid each peer the amount that the
/// operator set, the initiator first, and confirmed the payments; and it has mined the private
/// transaction unless the operator refused the broadcast. It has asked for no other block or payment.
pub proof fn law_amounts_are_those_set(config: ConfigModel, events: Seq<Event>)
    requires
        turn_after(config, events) is Some,
        turn_after(config, events)->0.stage is Concluded,
    ensures
        asked(
            config,
            events,
            6,
            Action::Generate { blocks: MATURITY_BLOCKS, address: events[5]->address@ },
        ),
        asked(
            config,
            events,
            7,
            Action::Send {
                address: regtest_address(repeated(INITIATOR_SECRET)).text,
                sats: config.initiator_input_sats,
            },
        ),
        asked(
            config,
            events,
            8,
            Action::Send {
                address: regtest_address(repeated(COUNTERPARTY_SECRET)).text,
                sats: config.counterparty_input_sats,
            },
        ),
        asked(
            config,
            events,
            10,
            Action::Generate { blocks: CONFIRMATION_BLOCKS, address: events[9]->address@ },
        ),
        config.broadcast ==> asked(
            config,
            events,
            21,
            Action::Generate { blocks: CONFIRMATION_BLOCKS, address: events[20]->address@ },
        ),
        forall|count: int, action: ActionModel|
            0 <= count <= events.len() && #[trigger] asked(config, events, count, action) ==> {
                &&& action is Generate ==> count == 6 || count == 10 || count == 21
                &&& action is Send ==> count == 7 || count == 8
            },
{
    assert(events.len() == full_length(config)) by {
        lemma_in_course(config, events);
    }
    lemma_asked(config, events, 6);
    lemma_asked(config, events, 7);
    lemma_asked(config, events, 8);
    lemma_asked(config, events, 10);
    if config.broadcast {
        lemma_asked(config, events, 21);
    }
    assert forall|count: int, action: ActionModel|
        0 <= count <= events.len() && #[trigger] asked(config, events, count, action) implies {
        &&& action is Generate ==> count == 6 || count == 10 || count == 21
        &&& action is Send ==> count == 7 || count == 8
    } by {
        lemma_asked(config, events, count);
    }
}

/// An action that fails ends the opening with the reason that it failed for.
pub proof fn law_failure_is_reported(config: ConfigModel, events: Seq<Event>, message: String)
    requires
        turn_after(config, events) is Some,
        !turn_after(config, events)->0.stage.is_over(),
    ensures
        turn_after(config, events.push(Event::Failed { message })) == Some(failure(message@)),
        turn_after(config, events.push(Event::Failed { message })) matches Some(turn) && {
            &&& turn.stage is Stopped
            &&& turn.text.len() == 0
            &&& turn.action == (ActionModel::Fail { message: message@ })
        },
{
    assert(events.push(Event::Failed { message }).drop_last() =~= events);
}

/// Nothing is done any more once an opening has failed or concluded, or only the help was asked
/// for.
pub proof fn law_nothing_follows_the_end(config: ConfigModel, events: Seq<Event>, event: Event)
    requires
        turn_after(config, events) is Some,
        turn_after(config, events)->0.stage.is_over(),
    ensures
        turn_after(config, events.push(event)) is None,
{
    assert(events.push(event).drop_last() =~= events);
}

/// Asking for the help does nothing but print it.
pub proof fn law_help_only_prints(config: ConfigModel, events: Seq<Event>)
    requires
        config.help,
        turn_after(config, events) is Some,
    ensures
        events.len() == 0,
        turn_after(config, events)->0.text == help_of(),
        turn_after(config, events)->0.action is Finish,
{
    lemma_in_course(config, events);
}

/// Whether a series of events leads on, and not to an early end.
pub open spec fn goes_on(config: ConfigModel, events: Seq<Event>) -> bool {
    turn_after(config, events) matches Some(turn) && !(turn.stage is Stopped)
}

/// Whether a document lists the payment that a stage asks the wallet for, if it asks for one.
pub open spec fn lists_payment(config: ConfigModel, stage: StageModel, document: Json) -> bool {
    match stage {
        Stage::FetchingInitiator { initiator_txid, .. } => funded_output(
            document,
            initiator_txid,
            regtest_address(repeated(INITIATOR_SECRET)),
            config.initiator_input_sats,
        ) is Ok,
        Stage::FetchingCounterparty { counterparty_txid, .. } => funded_output(
            document,
            counterparty_txid,
            regtest_address(repeated(COUNTERPARTY_SECRET)),
            config.counterparty_input_sats,
        ) is Ok,
        _ => true,
    }
}

/// Every action that is awaited has an answer with which the opening goes on: where a transaction
/// is asked for, a document that lists the payment.
pub proof fn law_every_action_can_be_answered(
    config: ConfigModel,
    events: Seq<Event>,
    document: Json,
)
    requires
        turn_after(config, events) is Some,
        !turn_after(config, events)->0.stage.is_over(),
        lists_payment(config, turn_after(config, events)->0.stage, document),
    ensures
        exists|event: Event| #[trigger] goes_on(config, events.push(event)),
{
    let event = match turn_after(config, events)->0.stage {
        Stage::Connecting => Event::Connected,
        Stage::CountingBlocks => Event::BlockCount { height: 0 },
        Stage::NamingWallet { .. } => Event::WalletNamed { name: arbitrary() },
        Stage::CreatingWallet { .. } => Event::WalletCreated,
        Stage::ConnectingWallet { .. } => Event::Connected,
        Stage::RequestingMiningAddress => Event::AddressMade { address: arbitrary() },
        Stage::Mining => Event::Generated,
        Stage::FundingInitiator => Event::Sent { txid: arbitrary() },
        Stage::FundingCounterparty { .. } => Event::Sent { txid: arbitrary() },
        Stage::RequestingConfirmationAddress { .. } => Event::AddressMade { address: arbitrary() },
        Stage::Confirming { .. } => Event::Generated,
        Stage::FetchingInitiator { .. } => Event::Fetched { document },
        Stage::FetchingCounterparty { .. } => Event::Fetched { document },
        Stage::BuildingNormal => Event::NormalBuilt {
            session: arbitrary(),
            transaction: arbitrary(),
        },
        Stage::Proposing { .. } => Event::Proposed { contribution_sats: 0 },
        Stage::Validating { .. } => Event::Validated {
            added_inputs: 0,
            added_outputs: 0,
            added_fee_sats: 0,
        },
        Stage::Finalizing { .. } => Event::Finalized { transaction: arbitrary() },
        Stage::HandingOff { .. } => Event::ChannelAccepted {
            outpoint: arbitrary(),
            initiator_sats: 0,
            counterparty_sats: 0,
        },
        Stage::ConnectingBroadcaster { .. } => Event::Connected,
        Stage::Broadcasting { .. } => Event::Broadcast { txid: arbitrary() },
        Stage::RequestingBlockAddress { .. } => Event::AddressMade { address: arbitrary() },
        Stage::MiningBlock { .. } => Event::Generated,
        _ => Event::BlockCount { height: 0 },
    };
    assert(events.push(event).drop_last() =~= events);
    assert(goes_on(config, events.push(event)));
}

/// The script of the peer whose secret is one byte thirty-two times: version 0, a push of twenty
/// bytes, and the hash of its public key.
pub open spec fn peer_script(byte: u8) -> Seq<u8> {
    seq![0u8, 20u8] + public_key_hash(public_key_of(Seq::new(32, |i: int| byte)))
}

/// The peers are to agree on the channel that the operator asked for, at the operator's fee rate,
/// within thirty seconds, with the public keys of the two channel secrets; and each peer brings the
/// output that the wallet paid to it, with the key that spends it and the script that it was paid at.
pub proof fn law_plan_is_the_operators(config: ConfigModel, events: Seq<Event>)
    requires
        turn_after(config, events) is Some,
        turn_after(config, events)->0.action is BuildNormal,
    ensures
        turn_after(config, events)->0.action matches Action::BuildNormal { plan } && {
            &&& plan.channel_value_sats == config.channel_sats
            &&& plan.mode == FundingMode::PrivacyInput
            &&& plan.fee_rate_sat_vb == config.fee_rate_sat_vb
            &&& plan.deadline_secs == 30
            &&& plan.initiator_channel_key == public_key_of(Seq::new(32, |i: int| 11u8))
            &&& plan.counterparty_channel_key == public_key_of(Seq::new(32, |i: int| 12u8))
            &&& plan.initiator.key.secret == Seq::new(32, |i: int| 1u8)
            &&& plan.initiator.key.network == NetworkKind::Test
            &&& plan.initiator.utxo.outpoint.txid == events[7]->Sent_txid
            &&& funded_index(events[11]->document, peer_script(1)) == Ok::<u32, Seq<char>>(
                plan.initiator.utxo.outpoint.vout,
            )
            &&& plan.initiator.utxo.value_sats == config.initiator_input_sats
            &&& plan.initiator.utxo.script_pubkey == peer_script(1)
            &&& plan.initiator.utxo.confirmed
            &&& plan.initiator.change_script == peer_script(1)
            &&& plan.counterparty.key.secret == Seq::new(32, |i: int| 2u8)
            &&& plan.counterparty.key.network == NetworkKind::Test
            &&& plan.counterparty.utxo.outpoint.txid == events[8]->Sent_txid
            &&& funded_index(events[12]->document, peer_script(2)) == Ok::<u32, Seq<char>>(
                plan.counterparty.utxo.outpoint.vout,
            )
            &&& plan.counterparty.utxo.value_sats == config.counterparty_input_sats
            &&& plan.counterparty.utxo.script_pubkey == peer_script(2)
            &&& plan.counterparty.utxo.confirmed
            &&& plan.counterparty.change_script == peer_script(2)
        },
{
    lemma_keeps_payments(config, events);
    assert(repeated(1) =~= Seq::new(32, |i: int| 1u8));
    assert(repeated(2) =~= Seq::new(32, |i: int| 2u8));
    assert(repeated(11) =~= Seq::new(32, |i: int| 11u8));
    assert(repeated(12) =~= Seq::new(32, |i: int| 12u8));
}

/// Whether a turn connects as the operator set, and names the wallet as it was named.
spec fn connects(config: ConfigModel, events: Seq<Event>, turn: Turn) -> bool {
    match turn.action {
        Action::Connect { url, user, password } => url == config.rpc_url && user == config.rpc_user
            && password == config.rpc_password,
        Action::ConnectBroadcaster { url, user, password } => url == config.rpc_url && user
            == config.rpc_user && password == config.rpc_password,
        Action::ConnectWallet { url, user, password } => url == wallet_url_of(
            config.rpc_url,
            events[2]->name@,
        ) && user == config.rpc_user && password == config.rpc_password,
        Action::CreateWallet { name } => name == events[2]->name@,
        _ => true,
    }
}

proof fn lemma_connects(config: ConfigModel, events: Seq<Event>)
    requires
        turn_after(config, events) is Some,
    ensures
        connects(config, events, turn_after(config, events)->0),
{
    if events.len() > 0 {
        let before = events.drop_last();
        lemma_in_course(config, before);
        lemma_keeps_answers(config, before);
        assert(forall|i: int| 0 <= i < before.len() ==> before[i] == events[i]);
    }
}

/// Every connection is made with the operator's user and password, each in its place: to the node and
/// to the broadcaster at the operator's URL, to the wallet under it. The wallet is created and reached
/// by the name that was chosen for it.
pub proof fn law_connections_are_the_operators(config: ConfigModel, events: Seq<Event>)
    requires
        turn_after(config, events) is Some,
    ensures
        match turn_after(config, events)->0.action {
            Action::Connect { url, user, password } => {
                &&& url == config.rpc_url
                &&& user == config.rpc_user
                &&& password == config.rpc_password
            },
            Action::ConnectBroadcaster { url, user, password } => {
                &&& url == config.rpc_url
                &&& user == config.rpc_user
                &&& password == config.rpc_password
            },
            Action::ConnectWallet { url, user, password } => {
                &&& user == config.rpc_user
                &&& password == config.rpc_password
                &&& exists|base: Seq<char>| #[trigger]
                    is_base(base, config.rpc_url) && url == base + "/wallet/"@ + events[2]->name@
            },
            Action::CreateWallet { name } => name == events[2]->name@,
            _ => true,
        },
{
    lemma_connects(config, events);
    law_every_url_has_a_base(config.rpc_url);
    let base = without_trailing_slashes(config.rpc_url);
    if turn_after(config, events)->0.action is ConnectWallet {
        law_wallets_answer_under_the_node(config.rpc_url, base, events[2]->name@);
    }
}

/// The wallet is asked for the payment to the initiator first, then for the one to the counterparty.
pub proof fn law_payments_are_fetched_in_order(config: ConfigModel, events: Seq<Event>)
    requires
        turn_after(config, events) is Some,
    ensures
        turn_after(config, events)->0.action matches Action::FetchTransaction { txid } ==> ({
            ||| events.len() == 11 && txid == events[7]->Sent_txid
            ||| events.len() == 12 && txid == events[8]->Sent_txid
        }),
{
    lemma_in_course(config, events);
    if events.len() > 0 {
        let before = events.drop_last();
        lemma_in_course(config, before);
        lemma_keeps_answers(config, before);
        assert(forall|i: int| 0 <= i < before.len() ==> before[i] == events[i]);
    }
}

/// Whenever an opening asks for blocks it asks for a hundred and one at first, then for one, to the
/// address that the wallet gave last; and whenever it asks for a payment, it is the amount that the
/// operator set for the initiator, then for the counterparty, each to the peer's own address.
pub proof fn law_every_block_and_payment(config: ConfigModel, events: Seq<Event>)
    requires
        turn_after(config, events) is Some,
    ensures
        turn_after(config, events)->0.action matches Action::Generate { blocks, address } ==> ({
            ||| events.len() == 6 && blocks == 101 && address == events[5]->address@
            ||| events.len() == 10 && blocks == 1 && address == events[9]->address@
            ||| events.len() == 21 && blocks == 1 && address == events[20]->address@
        }),
        turn_after(config, events)->0.action matches Action::Send { address, sats } ==> ({
            ||| events.len() == 7 && sats == config.initiator_input_sats && address == p2wpkh_text(
                public_key_of(Seq::new(32, |i: int| 1u8)),
                Network::Regtest,
            )
            ||| events.len() == 8 && sats == config.counterparty_input_sats && address
                == p2wpkh_text(public_key_of(Seq::new(32, |i: int| 2u8)), Network::Regtest)
        }),
{
    lemma_in_course(config, events);
    lemma_mines_or_pays(config, events);
    assert(repeated(1) =~= Seq::new(32, |i: int| 1u8));
    assert(repeated(2) =~= Seq::new(32, |i: int| 2u8));
}

/// Whatever the operator set, an opening begins by connecting, unless only the help was asked for.
pub proof fn law_every_opening_begins(config: ConfigModel)
    ensures
        !config.help ==> goes_on(config, Seq::empty()) && turn_after(
            config,
            Seq::empty(),
        )->0.action is Connect,
        config.help ==> (turn_after(config, Seq::empty()) matches Some(turn) && turn.action is Finish),
{
}

/// Whether an event answers the action that is awaited after that many answers.
pub open spec fn answers(count: nat, event: Event) -> bool {
    match event {
        Event::Failed { .. } => true,
        Event::Connected => count == 0 || count == 4 || count == 18,
        Event::BlockCount { .. } => count == 1 || count == 22,
        Event::WalletNamed { .. } => count == 2,
        Event::WalletCreated => count == 3,
        Event::AddressMade { .. } => count == 5 || count == 9 || count == 20,
        Event::Generated => count == 6 || count == 10 || count == 21,
        Event::Sent { .. } => count == 7 || count == 8,
        Event::Fetched { .. } => count == 11 || count == 12,
        Event::NormalBuilt { .. } => count == 13,
        Event::Proposed { .. } => count == 14,
        Event::Validated { .. } => count == 15,
        Event::Finalized { .. } => count == 16,
        Event::ChannelAccepted { .. } => count == 17,
        Event::Broadcast { .. } => count == 19,
    }
}

/// An opening that awaits an answer takes every answer of the right kind, whatever it says, and no
/// other. It goes on with it, unless the answer is a failure or a wallet transaction that does not
/// list the payment; then it ends with the reason.
pub proof fn law_right_answers_lead_on(config: ConfigModel, events: Seq<Event>, event: Event)
    requires
        turn_after(config, events) is Some,
        !turn_after(config, events)->0.stage.is_over(),
    ensures
        turn_after(config, events.push(event)) is Some <==> answers(events.len(), event),
        answers(events.len(), event) ==> match event {
            Event::Failed { message } => turn_after(config, events.push(event))->0.action == (
            ActionModel::Fail { message: message@ }),
            Event::Fetched { document } => match funded_index(
                document,
                peer_script(
                    if events.len() == 11 {
                        1
                    } else {
                        2
                    },
                ),
            ) {
                Ok(_) => goes_on(config, events.push(event)),
                Err(message) => turn_after(config, events.push(event))->0.action == (
                ActionModel::Fail { message }),
            },
            _ => goes_on(config, events.push(event)),
        },
{
    lemma_in_course(config, events);
    assert(events.push(event).drop_last() =~= events);
    assert(repeated(1) =~= Seq::new(32, |i: int| 1u8));
    assert(repeated(2) =~= Seq::new(32, |i: int| 2u8));
}

/// After the last answer, and only then, an opening is concluded; without the broadcast the channel's
/// acceptance is the last.
pub proof fn law_openings_end_where_they_should(config: ConfigModel, events: Seq<Event>)
    requires
        goes_on(config, events),
    ensures
        config.broadcast ==> events.len() <= 23,
        !config.broadcast ==> events.len() <= 18,
        turn_after(config, events)->0.action is Conclude <==> events.len() == if config.broadcast {
            23nat
        } else {
            18nat
        },
{
    lemma_in_course(config, events);
}

} // verus!
