//! What the background tells the screens.

use vstd::prelude::*;

verus! {

#[derive(Debug, Clone)]
pub enum BridgeEvent<T = String> {
    NewMessage { peer_id: T, message_id: T, text: T, timestamp_ms: i64 },
    MessageDelivered { message_id: T },
    StreamStatus { connected: bool },
    StreamReconnecting { attempt: u32, delay_ms: u64 },
    Error(T),
    SessionReady { contact_id: T },
}

impl View for BridgeEvent<String> {
    type V = BridgeEvent<Seq<char>>;

    open spec fn view(&self) -> BridgeEvent<Seq<char>> {
        match self {
            BridgeEvent::NewMessage { peer_id, message_id, text, timestamp_ms } =>
                BridgeEvent::NewMessage {
                peer_id: peer_id@,
                message_id: message_id@,
                text: text@,
                timestamp_ms: *timestamp_ms,
            },
            BridgeEvent::MessageDelivered { message_id } => BridgeEvent::MessageDelivered {
                message_id: message_id@,
            },
            BridgeEvent::StreamStatus { connected } => BridgeEvent::StreamStatus {
                connected: *connected,
            },
            BridgeEvent::StreamReconnecting { attempt, delay_ms } =>
                BridgeEvent::StreamReconnecting { attempt: *attempt, delay_ms: *delay_ms },
            BridgeEvent::Error(m) => BridgeEvent::Error(m@),
            BridgeEvent::SessionReady { contact_id } => BridgeEvent::SessionReady {
                contact_id: contact_id@,
            },
        }
    }
}

} // verus!
