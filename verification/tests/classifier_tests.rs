//! Tests of the duty classifier: each row of the decision table on a
//! concrete envelope.

use safe_node::client_messaging::{Address, Cmd, DataCmdKind, Duty, ElderDuty, Message, MsgEnvelope,
    MsgSender, QueryKind};
use safe_node::msg_analysis::{InboundMsg, InboundMsgAnalysis, NodeDuties};
use safe_node::name::{Prefix, XorName};

fn name_of(b: u8) -> XorName {
    let mut bytes = [0u8; 32];
    bytes[0] = b;
    XorName(bytes)
}

fn elder_here() -> InboundMsgAnalysis {
    InboundMsgAnalysis::new(name_of(1), Prefix::empty(), NodeDuties::Elder)
}

fn adult_here() -> InboundMsgAnalysis {
    InboundMsgAnalysis::new(name_of(1), Prefix::empty(), NodeDuties::Adult)
}

fn envelope(message: Message, sender: MsgSender, dst: Address) -> MsgEnvelope {
    MsgEnvelope { message, origin: sender, proxies: Vec::new(), dst }
}

fn data_cmd() -> Message {
    Message::Cmd { cmd: Cmd::Data { cmd: DataCmdKind::Blob } }
}

#[test]
fn client_destined_messages_are_pushed_to_the_client() {
    let analysis = elder_here();
    let env = envelope(
        Message::QueryResponse,
        MsgSender::Section { address: name_of(2), duty: Duty::Elder(ElderDuty::Metadata) },
        Address::Client(name_of(3)),
    );
    assert!(matches!(analysis.evaluate(env), InboundMsg::SendToClient(_)));
}

#[test]
fn payment_elder_writes_accumulate_at_metadata() {
    let analysis = elder_here();
    let env = envelope(
        data_cmd(),
        MsgSender::Node { address: name_of(2), duty: Duty::Elder(ElderDuty::Payment) },
        Address::Section(name_of(3)),
    );
    assert!(matches!(analysis.evaluate(env), InboundMsg::Accumulate(_)));
}

#[test]
fn gateway_elder_data_messages_run_at_payment() {
    let analysis = elder_here();
    let env = envelope(
        data_cmd(),
        MsgSender::Node { address: name_of(2), duty: Duty::Elder(ElderDuty::Gateway) },
        Address::Section(name_of(3)),
    );
    assert!(matches!(analysis.evaluate(env), InboundMsg::RunAtPayment(_)));

    let query = envelope(
        Message::Query { query: QueryKind::Data },
        MsgSender::Node { address: name_of(2), duty: Duty::Elder(ElderDuty::Gateway) },
        Address::Section(name_of(3)),
    );
    assert!(matches!(analysis.evaluate(query), InboundMsg::RunAtPayment(_)));
}

#[test]
fn accumulated_payment_writes_run_at_metadata() {
    let analysis = elder_here();
    let env = envelope(
        data_cmd(),
        MsgSender::Section { address: name_of(2), duty: Duty::Elder(ElderDuty::Payment) },
        Address::Section(name_of(3)),
    );
    assert!(matches!(analysis.evaluate(env), InboundMsg::RunAtMetadata(_)));
}

#[test]
fn accumulated_metadata_chunk_writes_run_at_the_adult() {
    let analysis = adult_here();
    let env = envelope(
        data_cmd(),
        MsgSender::Section { address: name_of(2), duty: Duty::Elder(ElderDuty::Metadata) },
        Address::Section(name_of(3)),
    );
    assert!(matches!(analysis.evaluate(env), InboundMsg::RunAtAdult(_)));

    // Before accumulation, the same write from a single metadata elder
    // accumulates at the adult.
    let single = envelope(
        data_cmd(),
        MsgSender::Node { address: name_of(2), duty: Duty::Elder(ElderDuty::Metadata) },
        Address::Section(name_of(3)),
    );
    assert!(matches!(analysis.evaluate(single), InboundMsg::Accumulate(_)));
}

#[test]
fn gateway_transfers_run_at_transfers() {
    let analysis = elder_here();
    let env = envelope(
        Message::Cmd { cmd: Cmd::Transfer },
        MsgSender::Node { address: name_of(2), duty: Duty::Elder(ElderDuty::Gateway) },
        Address::Section(name_of(3)),
    );
    assert!(matches!(analysis.evaluate(env), InboundMsg::RunAtTransfers(_)));
}

#[test]
fn messages_for_other_sections_are_forwarded() {
    // A node serving prefix 1... sees a message for a 0... section.
    let one = Prefix::empty().pushed(true);
    let analysis = InboundMsgAnalysis::new(name_of(0x80), one, NodeDuties::Elder);
    let env = envelope(
        data_cmd(),
        MsgSender::Node { address: name_of(2), duty: Duty::Elder(ElderDuty::Gateway) },
        Address::Section(name_of(0x00)),
    );
    assert!(matches!(
        analysis.evaluate(env),
        InboundMsg::ForwardToNetwork(_)
    ));
}

#[test]
fn unclassifiable_messages_are_unknown() {
    let analysis = elder_here();
    // An event from a plain node matches no duty.
    let env = envelope(
        Message::Event,
        MsgSender::Node { address: name_of(2), duty: Duty::Node },
        Address::Section(name_of(3)),
    );
    assert!(matches!(analysis.evaluate(env), InboundMsg::Unknown));
}
