//! The vocabulary of the encryption core: what it is told and what it asks for.

use crate::envelope::opt_view;
use vstd::prelude::*;

verus! {

/// What the core is told.
#[derive(Debug, Clone)]
pub enum IncomingEvent<T = String, B = Vec<u8>> {
    MessageReceived {
        message_id: T,
        from: T,
        data: B,
        msg_num: u32,
        kem_ct: B,
        otpk_id: u32,
        is_control: bool,
        content_type: u8,
    },
    OutgoingMessage { contact_id: T, message_id: T, plaintext: B, content_type: u8 },
    ActiveChatChanged { contact_id: T, is_active: bool },
    SessionInitCompleted { contact_id: T, session_data: B },
    SessionLoaded { key: T, data: Option<B> },
    AckDbResult { message_id: T, is_processed: bool },
    AckReceived { message_id: T },
    KeyBundleFetched { user_id: T, bundle_json: T },
    TimerFired { timer_id: T },
    AppLaunched,
    NetworkReconnected,
}

pub type EventView = IncomingEvent<Seq<char>, Seq<u8>>;

/// What the core asks for.
#[derive(Debug, Clone)]
pub enum Action<T = String, B = Vec<u8>> {
    InitSession { contact_id: T, bundle_json: T },
    DecryptMessage,
    EncryptMessage,
    ApplyPQContribution,
    ArchiveSession,
    MessageDecrypted { contact_id: T, message_id: T, plaintext: B },
    CallSignalDecrypted,
    EndSessionSuppressed,
    MessageQueuedPendingInit,
    SessionHealNeeded { contact_id: T, role: T },
    HealSuppressed { contact_id: T, retry_after_ms: u64 },
    SaveSessionToSecureStore { key: T, data: B },
    LoadSessionFromSecureStore { key: T },
    PersistMessage { message_json: T },
    PersistAck { message_id: T, timestamp: u64 },
    PruneAckStore { cutoff_ts: u64 },
    MarkMessageDelivered { message_id: T },
    CheckAckInDb { message_id: T },
    FetchPublicKeyBundle { user_id: T },
    SendEncryptedMessage { to: T, payload: B, message_id: T, content_type: u8 },
    SendReceipt { message_id: T },
    SendEndSession { contact_id: T },
    SendHeartbeat { contact_id: T },
    NotifyNewMessage { chat_id: T, preview: T },
    NotifySessionCreated { contact_id: T },
    NotifyError { code: T, message: T },
    NotifyLinkedDevicesOfSessionReset,
    ScheduleTimer { timer_id: T, delay_ms: u64 },
    CancelTimer { timer_id: T },
    SessionTerminated { contact_id: T, archive_bytes: B },
}

pub type ActionView = Action<Seq<char>, Seq<u8>>;

impl View for IncomingEvent<String, Vec<u8>> {
    type V = EventView;

    open spec fn view(&self) -> EventView {
        match self {
            IncomingEvent::MessageReceived {
                message_id,
                from,
                data,
                msg_num,
                kem_ct,
                otpk_id,
                is_control,
                content_type,
            } => IncomingEvent::MessageReceived {
                message_id: message_id@,
                from: from@,
                data: data@,
                msg_num: *msg_num,
                kem_ct: kem_ct@,
                otpk_id: *otpk_id,
                is_control: *is_control,
                content_type: *content_type,
            },
            IncomingEvent::OutgoingMessage { contact_id, message_id, plaintext, content_type } =>
                IncomingEvent::OutgoingMessage {
                contact_id: contact_id@,
                message_id: message_id@,
                plaintext: plaintext@,
                content_type: *content_type,
            },
            IncomingEvent::ActiveChatChanged { contact_id, is_active } =>
                IncomingEvent::ActiveChatChanged {
                contact_id: contact_id@,
                is_active: *is_active,
            },
            IncomingEvent::SessionInitCompleted { contact_id, session_data } =>
                IncomingEvent::SessionInitCompleted {
                contact_id: contact_id@,
                session_data: session_data@,
            },
            IncomingEvent::SessionLoaded { key, data } => IncomingEvent::SessionLoaded {
                key: key@,
                data: opt_view(*data),
            },
            IncomingEvent::AckDbResult { message_id, is_processed } =>
                IncomingEvent::AckDbResult {
                message_id: message_id@,
                is_processed: *is_processed,
            },
            IncomingEvent::AckReceived { message_id } => IncomingEvent::AckReceived {
                message_id: message_id@,
            },
            IncomingEvent::KeyBundleFetched { user_id, bundle_json } =>
                IncomingEvent::KeyBundleFetched { user_id: user_id@, bundle_json: bundle_json@ },
            IncomingEvent::TimerFired { timer_id } => IncomingEvent::TimerFired {
                timer_id: timer_id@,
            },
            IncomingEvent::AppLaunched => IncomingEvent::AppLaunched,
            IncomingEvent::NetworkReconnected => IncomingEvent::NetworkReconnected,
        }
    }
}

impl View for Action<String, Vec<u8>> {
    type V = ActionView;

    open spec fn view(&self) -> ActionView {
        match self {
            Action::InitSession { contact_id, bundle_json } => Action::InitSession {
                contact_id: contact_id@,
                bundle_json: bundle_json@,
            },
            Action::DecryptMessage => Action::DecryptMessage,
            Action::EncryptMessage => Action::EncryptMessage,
            Action::ApplyPQContribution => Action::ApplyPQContribution,
            Action::ArchiveSession => Action::ArchiveSession,
            Action::MessageDecrypted { contact_id, message_id, plaintext } =>
                Action::MessageDecrypted {
                contact_id: contact_id@,
                message_id: message_id@,
                plaintext: plaintext@,
            },
            Action::CallSignalDecrypted => Action::CallSignalDecrypted,
            Action::EndSessionSuppressed => Action::EndSessionSuppressed,
            Action::MessageQueuedPendingInit => Action::MessageQueuedPendingInit,
            Action::SessionHealNeeded { contact_id, role } => Action::SessionHealNeeded {
                contact_id: contact_id@,
                role: role@,
            },
            Action::HealSuppressed { contact_id, retry_after_ms } => Action::HealSuppressed {
                contact_id: contact_id@,
                retry_after_ms: *retry_after_ms,
            },
            Action::SaveSessionToSecureStore { key, data } => Action::SaveSessionToSecureStore {
                key: key@,
                data: data@,
            },
            Action::LoadSessionFromSecureStore { key } => Action::LoadSessionFromSecureStore {
                key: key@,
            },
            Action::PersistMessage { message_json } => Action::PersistMessage {
                message_json: message_json@,
            },
            Action::PersistAck { message_id, timestamp } => Action::PersistAck {
                message_id: message_id@,
                timestamp: *timestamp,
            },
            Action::PruneAckStore { cutoff_ts } => Action::PruneAckStore { cutoff_ts: *cutoff_ts },
            Action::MarkMessageDelivered { message_id } => Action::MarkMessageDelivered {
                message_id: message_id@,
            },
            Action::CheckAckInDb { message_id } => Action::CheckAckInDb { message_id: message_id@ },
            Action::FetchPublicKeyBundle { user_id } => Action::FetchPublicKeyBundle {
                user_id: user_id@,
            },
            Action::SendEncryptedMessage { to, payload, message_id, content_type } =>
                Action::SendEncryptedMessage {
                to: to@,
                payload: payload@,
                message_id: message_id@,
                content_type: *content_type,
            },
            Action::SendReceipt { message_id } => Action::SendReceipt { message_id: message_id@ },
            Action::SendEndSession { contact_id } => Action::SendEndSession {
                contact_id: contact_id@,
            },
            Action::SendHeartbeat { contact_id } => Action::SendHeartbeat {
                contact_id: contact_id@,
            },
            Action::NotifyNewMessage { chat_id, preview } => Action::NotifyNewMessage {
                chat_id: chat_id@,
                preview: preview@,
            },
            Action::NotifySessionCreated { contact_id } => Action::NotifySessionCreated {
                contact_id: contact_id@,
            },
            Action::NotifyError { code, message } => Action::NotifyError {
                code: code@,
                message: message@,
            },
            Action::NotifyLinkedDevicesOfSessionReset => Action::NotifyLinkedDevicesOfSessionReset,
            Action::ScheduleTimer { timer_id, delay_ms } => Action::ScheduleTimer {
                timer_id: timer_id@,
                delay_ms: *delay_ms,
            },
            Action::CancelTimer { timer_id } => Action::CancelTimer { timer_id: timer_id@ },
            Action::SessionTerminated { contact_id, archive_bytes } => Action::SessionTerminated {
                contact_id: contact_id@,
                archive_bytes: archive_bytes@,
            },
        }
    }
}

} // verus!
