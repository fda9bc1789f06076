//! The wallet lifecycle: from the entry test to an unlocked wallet, by way of
//! creation on a first run, of unlocking on a later one, and of a channel
//! restore where one is pending.
//!
//! The lifecycle is a state machine. The caller performs each action that
//! the machine asks for and reports what came of it as the next event.

use vstd::prelude::*;
use crate::codec::base64_encodable;
use crate::readiness::{
    local_port_available, port_available, BindOutcome, REMOTE_POLL_SECONDS,
};
use crate::request::{
    body_view, init_body, init_wallet_request, macaroon_header, macaroon_header_text,
    restore_body, restore_request, texts, unlock_body, unlock_request, Field, FieldView,
};
use crate::text::{contains, contains_text};

pub mod laws;

verus! {

/// The number of random bytes in a wallet secret.
pub const SECRET_LEN: usize = 16;

/// Seconds to sleep before each unlock attempt.
pub const UNLOCK_DELAY_SECONDS: u64 = 5;

/// The port of the control interface that a restore waits for.
pub const CONTROL_PORT: u16 = 8080;

/// `emver::Version`, carried along as a value that is never looked into.
#[verifier::external_type_specification]
#[verifier::external_body]
pub struct ExVersion(emver::Version);

/// The record that a restore of the whole installation leaves behind. Its
/// presence marks a channel restore as pending; its content is not read.
#[derive(Debug)]
pub struct RestoreInfo {
    pub _app_version: emver::Version,
    pub _os_version: emver::Version,
}

/// Whether a channel restore is pending: it is exactly if the restore record
/// exists.
pub fn restore_pending(info: &Option<RestoreInfo>) -> (r: bool)
    ensures
        r == (*info is Some),
{
    info.is_some()
}

/// The seed phrase that the daemon generates.
#[derive(Debug, Clone, PartialEq, Eq)]
pub struct CipherSeedMnemonic {
    pub cipher_seed_mnemonic: Vec<String>,
}

/// What a JSON text holds under one key at its top level.
#[derive(Debug, Clone, PartialEq, Eq)]
pub enum JsonField {
    /// The text is not JSON.
    Malformed,
    /// The text is JSON, but not an object.
    NotObject,
    /// The object has no such key.
    Absent,
    /// The value under the key is this string.
    Text(String),
    /// The value under the key is not a string.
    Other,
}

/// A top-level field as a mathematical value.
pub enum JsonFieldView {
    Malformed,
    NotObject,
    Absent,
    Text(Seq<char>),
    Other,
}

impl View for JsonField {
    type V = JsonFieldView;

    open spec fn view(&self) -> JsonFieldView {
        match *self {
            JsonField::Malformed => JsonFieldView::Malformed,
            JsonField::NotObject => JsonFieldView::NotObject,
            JsonField::Absent => JsonFieldView::Absent,
            JsonField::Text(s) => JsonFieldView::Text(s@),
            JsonField::Other => JsonFieldView::Other,
        }
    }
}

/// What `serde_json` finds in `text` under `key`.
pub uninterp spec fn json_field_of(text: Seq<char>, key: Seq<char>) -> JsonFieldView;

/// Parses `text` with `serde_json::from_str` into a `serde_json::Value` and
/// looks `key` up in it with `Map::get`. Trusted: the outcome depends on the
/// text and the key alone.
#[verifier::external_body]
fn json_field(text: &str, key: &str) -> (r: JsonField)
    ensures
        r@ == json_field_of(text@, key@),
{
    match serde_json::from_str::<serde_json::Value>(text) {
        Err(_) => JsonField::Malformed,
        Ok(serde_json::Value::Object(map)) => match map.get(key) {
            None => JsonField::Absent,
            Some(serde_json::Value::String(s)) => JsonField::Text(s.clone()),
            Some(_) => JsonField::Other,
        },
        Ok(_) => JsonField::NotObject,
    }
}

/// Why an unlock attempt failed for good.
#[derive(Debug, Clone, PartialEq, Eq)]
pub enum UnlockFailure {
    /// The answer is not a JSON object.
    InvalidOutput,
    /// The answer's error field is not a string.
    InvalidErrorOutput,
    /// The daemon reported this error.
    Message(String),
}

/// Why the wallet did not reach the unlocked state.
#[derive(Debug, Clone, PartialEq, Eq)]
pub enum WalletError {
    /// The wallet could not be created. No secret was stored.
    CreateFailed,
    /// The wallet could not be unlocked.
    UnlockFailed(UnlockFailure),
    /// The channel backup could not be restored. The restore marker stays.
    RestoreFailed,
    /// Whether the control port is in use could not be determined.
    PortCheckFailed,
    /// A secret, backup or macaroon is too large to be encoded in memory.
    TooLarge,
    /// An event arrived that does not answer the pending action.
    UnexpectedEvent,
}

/// An unlock failure as a mathematical value.
pub enum UnlockFailureView {
    InvalidOutput,
    InvalidErrorOutput,
    Message(Seq<char>),
}

/// A wallet error as a mathematical value.
pub enum WalletErrorView {
    CreateFailed,
    UnlockFailed(UnlockFailureView),
    RestoreFailed,
    PortCheckFailed,
    TooLarge,
    UnexpectedEvent,
}

impl View for UnlockFailure {
    type V = UnlockFailureView;

    open spec fn view(&self) -> UnlockFailureView {
        match *self {
            UnlockFailure::InvalidOutput => UnlockFailureView::InvalidOutput,
            UnlockFailure::InvalidErrorOutput => UnlockFailureView::InvalidErrorOutput,
            UnlockFailure::Message(s) => UnlockFailureView::Message(s@),
        }
    }
}

impl View for WalletError {
    type V = WalletErrorView;

    open spec fn view(&self) -> WalletErrorView {
        match *self {
            WalletError::CreateFailed => WalletErrorView::CreateFailed,
            WalletError::UnlockFailed(f) => WalletErrorView::UnlockFailed(f@),
            WalletError::RestoreFailed => WalletErrorView::RestoreFailed,
            WalletError::PortCheckFailed => WalletErrorView::PortCheckFailed,
            WalletError::TooLarge => WalletErrorView::TooLarge,
            WalletError::UnexpectedEvent => WalletErrorView::UnexpectedEvent,
        }
    }
}

/// What an answer to an unlock request means.
#[derive(Debug, Clone, PartialEq, Eq)]
pub enum UnlockVerdict {
    /// The wallet is unlocked.
    Unlocked,
    /// The daemon is not ready yet: try again.
    Retry,
    /// The attempt failed and must not be repeated.
    Failed(UnlockFailure),
}

/// A verdict as a mathematical value.
pub enum UnlockVerdictView {
    Unlocked,
    Retry,
    Failed(UnlockFailureView),
}

impl View for UnlockVerdict {
    type V = UnlockVerdictView;

    open spec fn view(&self) -> UnlockVerdictView {
        match *self {
            UnlockVerdict::Unlocked => UnlockVerdictView::Unlocked,
            UnlockVerdict::Retry => UnlockVerdictView::Retry,
            UnlockVerdict::Failed(f) => UnlockVerdictView::Failed(f@),
        }
    }
}

/// The part of an error message by which the daemon says that it has not
/// finished starting.
pub open spec fn transient_marker() -> Seq<char> {
    "waiting to start"@
}

/// The verdict on the `error` field of an answer to an unlock request: no
/// such field means success; an error message that holds the transient
/// marker means retry; any other message is a failure that carries it; an
/// answer of any other form is a failure too.
pub open spec fn unlock_verdict(error: JsonFieldView) -> UnlockVerdictView {
    match error {
        JsonFieldView::Malformed => UnlockVerdictView::Failed(UnlockFailureView::InvalidOutput),
        JsonFieldView::NotObject => UnlockVerdictView::Failed(UnlockFailureView::InvalidOutput),
        JsonFieldView::Absent => UnlockVerdictView::Unlocked,
        JsonFieldView::Other => UnlockVerdictView::Failed(UnlockFailureView::InvalidErrorOutput),
        JsonFieldView::Text(message) => if contains_text(message, transient_marker()) {
            UnlockVerdictView::Retry
        } else {
            UnlockVerdictView::Failed(UnlockFailureView::Message(message))
        },
    }
}

/// The verdict on the text of an answer to an unlock request.
pub open spec fn reply_verdict(text: Seq<char>) -> UnlockVerdictView {
    unlock_verdict(json_field_of(text, "error"@))
}

/// Judges the `error` field of an answer to an unlock request.
pub fn classify_unlock_reply(error: JsonField) -> (r: UnlockVerdict)
    ensures
        r@ == unlock_verdict(error@),
{
    match error {
        JsonField::Malformed => UnlockVerdict::Failed(UnlockFailure::InvalidOutput),
        JsonField::NotObject => UnlockVerdict::Failed(UnlockFailure::InvalidOutput),
        JsonField::Absent => UnlockVerdict::Unlocked,
        JsonField::Other => UnlockVerdict::Failed(UnlockFailure::InvalidErrorOutput),
        JsonField::Text(message) => {
            if contains(message.as_str(), "waiting to start") {
                UnlockVerdict::Retry
            } else {
                UnlockVerdict::Failed(UnlockFailure::Message(message))
            }
        },
    }
}

/// Judges the text of an answer to an unlock request.
pub fn unlock_reply_verdict(text: &str) -> (r: UnlockVerdict)
    ensures
        r@ == reply_verdict(text@),
{
    classify_unlock_reply(json_field(text, "error"))
}

/// Where the creation of a wallet stands.
#[derive(Debug, Clone, PartialEq, Eq)]
pub enum CreateStage {
    /// Random bytes for the secret were asked for.
    AwaitingEntropy,
    /// A seed phrase was asked for.
    AwaitingSeed { secret: Vec<u8> },
    /// The daemon was asked to initialise the wallet.
    AwaitingInit { secret: Vec<u8> },
    /// The wallet exists; the secret is being written to its file.
    Persisting { secret: Vec<u8> },
}

/// Where the unlocking of a wallet stands, with the restore that may
/// surround it. `backup` is the channel backup to restore, if any.
#[derive(Debug, Clone, PartialEq, Eq)]
#[allow(inconsistent_fields)]
pub enum UnlockStage {
    /// The channel graph database is being removed.
    RemovingGraph { secret: Vec<u8>, backup: Vec<u8> },
    /// An unlock request is under way.
    Unlocking { secret: Vec<u8>, backup: Option<Vec<u8>> },
    /// The wallet is unlocked; the control port is being probed.
    AwaitingPort { backup: Vec<u8> },
    /// The macaroon is being read.
    ReadingMacaroon { backup: Vec<u8> },
    /// The restore request is under way.
    Restoring,
    /// The restore succeeded; the restore marker is being deleted.
    ClearingMarker,
}

/// The state of the wallet lifecycle.
#[derive(Debug, Clone, PartialEq, Eq)]
pub enum WalletState {
    /// Nothing is known yet: the entry test is pending.
    NoSecret,
    /// First run: a wallet is being created.
    Creating(CreateStage),
    /// Later run: the wallet is being unlocked, around a restore if one is
    /// pending.
    RestoringThenUnlocking(UnlockStage),
    /// The wallet is unlocked, and any restore is complete.
    Unlocked,
    /// The lifecycle ended with an error.
    Failed(WalletError),
}

/// What the caller reports to the machine.
#[derive(Debug, Clone, PartialEq, Eq)]
pub enum WalletEvent {
    /// The entry test: the content of the secret file if it exists, whether
    /// a restore is pending, and the channel backup if it exists.
    Probed { secret: Option<Vec<u8>>, restore_pending: bool, channel_backup: Option<Vec<u8>> },
    /// Random bytes from the system's entropy source.
    Entropy(Vec<u8>),
    /// The seed phrase the daemon generated, or `None` if it gave none.
    SeedGenerated(Option<CipherSeedMnemonic>),
    /// The request to initialise the wallet has ended.
    InitFinished { success: bool },
    /// The secret file has been written.
    SecretPersisted,
    /// The channel graph database is gone.
    GraphRemoved,
    /// The daemon's answer to an unlock request.
    UnlockReply(String),
    /// An attempt to listen on the control port has ended.
    PortProbed(BindOutcome),
    /// The content of the admin macaroon file.
    Macaroon(Vec<u8>),
    /// The restore request has ended.
    RestoreFinished { success: bool },
    /// The restore marker has been deleted.
    MarkerDeleted,
}

/// What the machine asks the caller to do next.
#[derive(Debug, Clone, PartialEq, Eq)]
pub enum WalletAction {
    /// Read `len` bytes from the system's entropy source.
    ReadEntropy { len: usize },
    /// Ask the daemon for a seed phrase.
    GenerateSeed,
    /// Ask the daemon to initialise the wallet, with this request body.
    InitWallet { body: Vec<Field> },
    /// Write these bytes to the secret file.
    PersistSecret { secret: Vec<u8> },
    /// Remove the channel graph database directory.
    RemoveGraphDb,
    /// Sleep, then send an unlock request with this body.
    Unlock { delay_seconds: u64, body: Vec<Field> },
    /// Sleep, then try to listen on the port.
    ProbePort { port: u16, delay_seconds: u64 },
    /// Read the admin macaroon file.
    ReadMacaroon,
    /// Send a restore request with this header and body.
    Restore { macaroon_header: String, body: Vec<Field> },
    /// Delete the restore marker.
    DeleteMarker,
    /// The wallet is unlocked: publish macaroons and certificate.
    Publish,
    /// The lifecycle failed: stop with the error of the state.
    Abort,
    /// The lifecycle has ended before: there is nothing to do.
    Halt,
}

/// An event as a mathematical value.
pub enum WalletEventView {
    Probed { secret: Option<Seq<u8>>, restore_pending: bool, channel_backup: Option<Seq<u8>> },
    Entropy(Seq<u8>),
    SeedGenerated(Option<Seq<Seq<char>>>),
    InitFinished { success: bool },
    SecretPersisted,
    GraphRemoved,
    UnlockReply(Seq<char>),
    PortProbed(BindOutcome),
    Macaroon(Seq<u8>),
    RestoreFinished { success: bool },
    MarkerDeleted,
}

/// A creation stage as a mathematical value.
pub enum CreateStageView {
    AwaitingEntropy,
    AwaitingSeed { secret: Seq<u8> },
    AwaitingInit { secret: Seq<u8> },
    Persisting { secret: Seq<u8> },
}

/// An unlock stage as a mathematical value.
#[allow(inconsistent_fields)]
pub enum UnlockStageView {
    RemovingGraph { secret: Seq<u8>, backup: Seq<u8> },
    Unlocking { secret: Seq<u8>, backup: Option<Seq<u8>> },
    AwaitingPort { backup: Seq<u8> },
    ReadingMacaroon { backup: Seq<u8> },
    Restoring,
    ClearingMarker,
}

/// A state as a mathematical value.
pub enum WalletStateView {
    NoSecret,
    Creating(CreateStageView),
    RestoringThenUnlocking(UnlockStageView),
    Unlocked,
    Failed(WalletErrorView),
}

/// An action as a mathematical value.
pub enum WalletActionView {
    ReadEntropy { len: usize },
    GenerateSeed,
    InitWallet { body: Seq<FieldView> },
    PersistSecret { secret: Seq<u8> },
    RemoveGraphDb,
    Unlock { delay_seconds: u64, body: Seq<FieldView> },
    ProbePort { port: u16, delay_seconds: u64 },
    ReadMacaroon,
    Restore { macaroon_header: Seq<char>, body: Seq<FieldView> },
    DeleteMarker,
    Publish,
    Abort,
    Halt,
}

/// The view of optional bytes.
pub open spec fn opt_bytes(bytes: Option<Vec<u8>>) -> Option<Seq<u8>> {
    match bytes {
        Some(b) => Some(b@),
        None => None,
    }
}

impl View for CipherSeedMnemonic {
    type V = Seq<Seq<char>>;

    open spec fn view(&self) -> Seq<Seq<char>> {
        texts(self.cipher_seed_mnemonic@)
    }
}

impl View for WalletEvent {
    type V = WalletEventView;

    open spec fn view(&self) -> WalletEventView {
        match *self {
            WalletEvent::Probed {
                secret,
                restore_pending,
                channel_backup,
            } => WalletEventView::Probed {
                secret: opt_bytes(secret),
                restore_pending,
                channel_backup: opt_bytes(channel_backup),
            },
            WalletEvent::Entropy(bytes) => WalletEventView::Entropy(bytes@),
            WalletEvent::SeedGenerated(seed) => WalletEventView::SeedGenerated(
                match seed {
                    Some(mnemonic) => Some(mnemonic@),
                    None => None,
                },
            ),
            WalletEvent::InitFinished { success } => WalletEventView::InitFinished { success },
            WalletEvent::SecretPersisted => WalletEventView::SecretPersisted,
            WalletEvent::GraphRemoved => WalletEventView::GraphRemoved,
            WalletEvent::UnlockReply(text) => WalletEventView::UnlockReply(text@),
            WalletEvent::PortProbed(bind) => WalletEventView::PortProbed(bind),
            WalletEvent::Macaroon(bytes) => WalletEventView::Macaroon(bytes@),
            WalletEvent::RestoreFinished {
                success,
            } => WalletEventView::RestoreFinished { success },
            WalletEvent::MarkerDeleted => WalletEventView::MarkerDeleted,
        }
    }
}

impl View for CreateStage {
    type V = CreateStageView;

    open spec fn view(&self) -> CreateStageView {
        match *self {
            CreateStage::AwaitingEntropy => CreateStageView::AwaitingEntropy,
            CreateStage::AwaitingSeed { secret } => CreateStageView::AwaitingSeed {
                secret: secret@,
            },
            CreateStage::AwaitingInit { secret } => CreateStageView::AwaitingInit {
                secret: secret@,
            },
            CreateStage::Persisting { secret } => CreateStageView::Persisting { secret: secret@ },
        }
    }
}

impl View for UnlockStage {
    type V = UnlockStageView;

    open spec fn view(&self) -> UnlockStageView {
        match *self {
            UnlockStage::RemovingGraph { secret, backup } => UnlockStageView::RemovingGraph {
                secret: secret@,
                backup: backup@,
            },
            UnlockStage::Unlocking { secret, backup } => UnlockStageView::Unlocking {
                secret: secret@,
                backup: opt_bytes(backup),
            },
            UnlockStage::AwaitingPort { backup } => UnlockStageView::AwaitingPort {
                backup: backup@,
            },
            UnlockStage::ReadingMacaroon { backup } => UnlockStageView::ReadingMacaroon {
                backup: backup@,
            },
            UnlockStage::Restoring => UnlockStageView::Restoring,
            UnlockStage::ClearingMarker => UnlockStageView::ClearingMarker,
        }
    }
}

impl View for WalletState {
    type V = WalletStateView;

    open spec fn view(&self) -> WalletStateView {
        match *self {
            WalletState::NoSecret => WalletStateView::NoSecret,
            WalletState::Creating(stage) => WalletStateView::Creating(stage@),
            WalletState::RestoringThenUnlocking(stage) => WalletStateView::RestoringThenUnlocking(
                stage@,
            ),
            WalletState::Unlocked => WalletStateView::Unlocked,
            WalletState::Failed(e) => WalletStateView::Failed(e@),
        }
    }
}

impl View for WalletAction {
    type V = WalletActionView;

    open spec fn view(&self) -> WalletActionView {
        match *self {
            WalletAction::ReadEntropy { len } => WalletActionView::ReadEntropy { len },
            WalletAction::GenerateSeed => WalletActionView::GenerateSeed,
            WalletAction::InitWallet { body } => WalletActionView::InitWallet {
                body: body_view(body@),
            },
            WalletAction::PersistSecret { secret } => WalletActionView::PersistSecret {
                secret: secret@,
            },
            WalletAction::RemoveGraphDb => WalletActionView::RemoveGraphDb,
            WalletAction::Unlock { delay_seconds, body } => WalletActionView::Unlock {
                delay_seconds,
                body: body_view(body@),
            },
            WalletAction::ProbePort { port, delay_seconds } => WalletActionView::ProbePort {
                port,
                delay_seconds,
            },
            WalletAction::ReadMacaroon => WalletActionView::ReadMacaroon,
            WalletAction::Restore { macaroon_header, body } => WalletActionView::Restore {
                macaroon_header: macaroon_header@,
                body: body_view(body@),
            },
            WalletAction::DeleteMarker => WalletActionView::DeleteMarker,
            WalletAction::Publish => WalletActionView::Publish,
            WalletAction::Abort => WalletActionView::Abort,
            WalletAction::Halt => WalletActionView::Halt,
        }
    }
}

/// The end in failure: the failed state and the order to stop.
pub open spec fn failure(error: WalletErrorView) -> (WalletStateView, WalletActionView) {
    (WalletStateView::Failed(error), WalletActionView::Abort)
}

/// The unlock request for `secret`, preceded by the usual sleep.
pub open spec fn unlock_action(secret: Seq<u8>, recovery_window: Option<usize>) -> WalletActionView {
    WalletActionView::Unlock {
        delay_seconds: UNLOCK_DELAY_SECONDS,
        body: unlock_body(secret, recovery_window),
    }
}

/// The unlocking stage with an unlock request, the first or the next. A
/// secret too large to be encoded ends the lifecycle instead.
pub open spec fn unlocking(
    secret: Seq<u8>,
    backup: Option<Seq<u8>>,
    recovery_window: Option<usize>,
) -> (WalletStateView, WalletActionView) {
    if base64_encodable(secret.len()) {
        (
            WalletStateView::RestoringThenUnlocking(UnlockStageView::Unlocking { secret, backup }),
            unlock_action(secret, recovery_window),
        )
    } else {
        failure(WalletErrorView::TooLarge)
    }
}

/// The entry test. Without a secret file the wallet is created. With one it
/// is unlocked; where a restore is pending and a channel backup exists, the
/// channel graph database is removed first.
pub open spec fn step_entry(
    secret: Option<Seq<u8>>,
    restore_pending: bool,
    channel_backup: Option<Seq<u8>>,
    recovery_window: Option<usize>,
) -> (WalletStateView, WalletActionView) {
    match secret {
        None => (
            WalletStateView::Creating(CreateStageView::AwaitingEntropy),
            WalletActionView::ReadEntropy { len: SECRET_LEN },
        ),
        Some(s) => if !base64_encodable(s.len()) {
            failure(WalletErrorView::TooLarge)
        } else if restore_pending && channel_backup is Some {
            let backup = channel_backup->Some_0;
            if !base64_encodable(backup.len()) {
                failure(WalletErrorView::TooLarge)
            } else {
                (
                    WalletStateView::RestoringThenUnlocking(
                        UnlockStageView::RemovingGraph { secret: s, backup },
                    ),
                    WalletActionView::RemoveGraphDb,
                )
            }
        } else {
            unlocking(s, None, recovery_window)
        },
    }
}

/// One step of wallet creation.
pub open spec fn step_create(stage: CreateStageView, event: WalletEventView) -> (
    WalletStateView,
    WalletActionView,
) {
    match (stage, event) {
        (CreateStageView::AwaitingEntropy, WalletEventView::Entropy(bytes)) => if bytes.len()
            == SECRET_LEN {
            (
                WalletStateView::Creating(CreateStageView::AwaitingSeed { secret: bytes }),
                WalletActionView::GenerateSeed,
            )
        } else {
            failure(WalletErrorView::CreateFailed)
        },
        (
            CreateStageView::AwaitingSeed { secret },
            WalletEventView::SeedGenerated(seed),
        ) => match seed {
            Some(mnemonic) => if base64_encodable(secret.len()) {
                (
                    WalletStateView::Creating(CreateStageView::AwaitingInit { secret }),
                    WalletActionView::InitWallet {
                        body: init_body(secret, mnemonic),
                    },
                )
            } else {
                failure(WalletErrorView::TooLarge)
            },
            None => failure(WalletErrorView::CreateFailed),
        },
        (
            CreateStageView::AwaitingInit { secret },
            WalletEventView::InitFinished { success },
        ) => if success {
            (
                WalletStateView::Creating(CreateStageView::Persisting { secret }),
                WalletActionView::PersistSecret { secret },
            )
        } else {
            failure(WalletErrorView::CreateFailed)
        },
        (CreateStageView::Persisting { secret }, WalletEventView::SecretPersisted) => (
            WalletStateView::Unlocked,
            WalletActionView::Publish,
        ),
        _ => failure(WalletErrorView::UnexpectedEvent),
    }
}

/// One step of unlocking and restoring.
pub open spec fn step_unlock(
    stage: UnlockStageView,
    event: WalletEventView,
    recovery_window: Option<usize>,
) -> (WalletStateView, WalletActionView) {
    match (stage, event) {
        (UnlockStageView::RemovingGraph { secret, backup }, WalletEventView::GraphRemoved) => unlocking(
            secret,
            Some(backup),
            recovery_window,
        ),
        (
            UnlockStageView::Unlocking { secret, backup },
            WalletEventView::UnlockReply(text),
        ) => match reply_verdict(text) {
            UnlockVerdictView::Retry => unlocking(secret, backup, recovery_window),
            UnlockVerdictView::Failed(f) => failure(WalletErrorView::UnlockFailed(f)),
            UnlockVerdictView::Unlocked => match backup {
                None => (WalletStateView::Unlocked, WalletActionView::Publish),
                Some(b) => (
                    WalletStateView::RestoringThenUnlocking(
                        UnlockStageView::AwaitingPort { backup: b },
                    ),
                    WalletActionView::ProbePort { port: CONTROL_PORT, delay_seconds: 0 },
                ),
            },
        },
        (
            UnlockStageView::AwaitingPort { backup },
            WalletEventView::PortProbed(bind),
        ) => match port_available(CONTROL_PORT, bind) {
            Ok(true) => (
                WalletStateView::RestoringThenUnlocking(UnlockStageView::AwaitingPort { backup }),
                WalletActionView::ProbePort {
                    port: CONTROL_PORT,
                    delay_seconds: REMOTE_POLL_SECONDS,
                },
            ),
            Ok(false) => (
                WalletStateView::RestoringThenUnlocking(
                    UnlockStageView::ReadingMacaroon { backup },
                ),
                WalletActionView::ReadMacaroon,
            ),
            Err(_) => failure(WalletErrorView::PortCheckFailed),
        },
        (
            UnlockStageView::ReadingMacaroon { backup },
            WalletEventView::Macaroon(macaroon),
        ) => if macaroon.len() * 2 < usize::MAX && base64_encodable(backup.len()) {
            (
                WalletStateView::RestoringThenUnlocking(UnlockStageView::Restoring),
                WalletActionView::Restore {
                    macaroon_header: macaroon_header_text(macaroon),
                    body: restore_body(backup),
                },
            )
        } else {
            failure(WalletErrorView::TooLarge)
        },
        (UnlockStageView::Restoring, WalletEventView::RestoreFinished { success }) => if success {
            (
                WalletStateView::RestoringThenUnlocking(UnlockStageView::ClearingMarker),
                WalletActionView::DeleteMarker,
            )
        } else {
            failure(WalletErrorView::RestoreFailed)
        },
        (UnlockStageView::ClearingMarker, WalletEventView::MarkerDeleted) => (
            WalletStateView::Unlocked,
            WalletActionView::Publish,
        ),
        _ => failure(WalletErrorView::UnexpectedEvent),
    }
}

/// One step of the lifecycle: the state after `event` and the action to
/// perform next. A state that ended the lifecycle stays as it is.
pub open spec fn wallet_step(
    state: WalletStateView,
    event: WalletEventView,
    recovery_window: Option<usize>,
) -> (WalletStateView, WalletActionView) {
    match state {
        WalletStateView::NoSecret => match event {
            WalletEventView::Probed { secret, restore_pending, channel_backup } => step_entry(
                secret,
                restore_pending,
                channel_backup,
                recovery_window,
            ),
            _ => failure(WalletErrorView::UnexpectedEvent),
        },
        WalletStateView::Creating(stage) => step_create(stage, event),
        WalletStateView::RestoringThenUnlocking(stage) => step_unlock(
            stage,
            event,
            recovery_window,
        ),
        WalletStateView::Unlocked => (WalletStateView::Unlocked, WalletActionView::Halt),
        WalletStateView::Failed(e) => (WalletStateView::Failed(e), WalletActionView::Halt),
    }
}

/// Ends the lifecycle in failure.
fn fail(error: WalletError) -> (r: (WalletState, WalletAction))
    ensures
        (r.0@, r.1@) == failure(error@),
{
    (WalletState::Failed(error), WalletAction::Abort)
}

/// Enters the unlocking stage with its first or next request.
fn start_unlock(secret: Vec<u8>, backup: Option<Vec<u8>>, recovery_window: Option<usize>) -> (r: (
    WalletState,
    WalletAction,
))
    ensures
        (r.0@, r.1@) == unlocking(secret@, opt_bytes(backup), recovery_window),
{
    match unlock_request(secret.as_slice(), recovery_window) {
        Some(body) => (
            WalletState::RestoringThenUnlocking(UnlockStage::Unlocking { secret, backup }),
            WalletAction::Unlock { delay_seconds: UNLOCK_DELAY_SECONDS, body },
        ),
        None => fail(WalletError::TooLarge),
    }
}

/// The entry test.
fn enter(
    secret: Option<Vec<u8>>,
    restore_pending: bool,
    channel_backup: Option<Vec<u8>>,
    recovery_window: Option<usize>,
) -> (r: (WalletState, WalletAction))
    ensures
        (r.0@, r.1@) == step_entry(
            opt_bytes(secret),
            restore_pending,
            opt_bytes(channel_backup),
            recovery_window,
        ),
{
    match secret {
        None => (
            WalletState::Creating(CreateStage::AwaitingEntropy),
            WalletAction::ReadEntropy { len: SECRET_LEN },
        ),
        Some(s) => {
            if !crate::codec::fits_base64(s.len()) {
                return fail(WalletError::TooLarge);
            }
            match channel_backup {
                Some(backup) if restore_pending => {
                    if !crate::codec::fits_base64(backup.len()) {
                        fail(WalletError::TooLarge)
                    } else {
                        (
                            WalletState::RestoringThenUnlocking(
                                UnlockStage::RemovingGraph { secret: s, backup },
                            ),
                            WalletAction::RemoveGraphDb,
                        )
                    }
                },
                _ => start_unlock(s, None, recovery_window),
            }
        },
    }
}

/// One step of wallet creation.
fn create(stage: CreateStage, event: WalletEvent) -> (r: (WalletState, WalletAction))
    ensures
        (r.0@, r.1@) == step_create(stage@, event@),
{
    match stage {
        CreateStage::AwaitingEntropy => match event {
            WalletEvent::Entropy(bytes) => {
                if bytes.len() == SECRET_LEN {
                    (
                        WalletState::Creating(CreateStage::AwaitingSeed { secret: bytes }),
                        WalletAction::GenerateSeed,
                    )
                } else {
                    fail(WalletError::CreateFailed)
                }
            },
            _ => fail(WalletError::UnexpectedEvent),
        },
        CreateStage::AwaitingSeed { secret } => match event {
            WalletEvent::SeedGenerated(seed) => match seed {
                Some(mnemonic) => match init_wallet_request(
                    secret.as_slice(),
                    mnemonic.cipher_seed_mnemonic,
                ) {
                    Some(body) => (
                        WalletState::Creating(CreateStage::AwaitingInit { secret }),
                        WalletAction::InitWallet { body },
                    ),
                    None => fail(WalletError::TooLarge),
                },
                None => fail(WalletError::CreateFailed),
            },
            _ => fail(WalletError::UnexpectedEvent),
        },
        CreateStage::AwaitingInit { secret } => match event {
            WalletEvent::InitFinished { success } => {
                if success {
                    let copy = secret.clone();
                    (
                        WalletState::Creating(CreateStage::Persisting { secret }),
                        WalletAction::PersistSecret { secret: copy },
                    )
                } else {
                    fail(WalletError::CreateFailed)
                }
            },
            _ => fail(WalletError::UnexpectedEvent),
        },
        CreateStage::Persisting { secret } => match event {
            WalletEvent::SecretPersisted => (WalletState::Unlocked, WalletAction::Publish),
            _ => fail(WalletError::UnexpectedEvent),
        },
    }
}

/// One step of unlocking and restoring.
fn unlock(stage: UnlockStage, event: WalletEvent, recovery_window: Option<usize>) -> (r: (
    WalletState,
    WalletAction,
))
    ensures
        (r.0@, r.1@) == step_unlock(stage@, event@, recovery_window),
{
    match stage {
        UnlockStage::RemovingGraph { secret, backup } => match event {
            WalletEvent::GraphRemoved => start_unlock(secret, Some(backup), recovery_window),
            _ => fail(WalletError::UnexpectedEvent),
        },
        UnlockStage::Unlocking { secret, backup } => match event {
            WalletEvent::UnlockReply(text) => match unlock_reply_verdict(text.as_str()) {
                UnlockVerdict::Retry => start_unlock(secret, backup, recovery_window),
                UnlockVerdict::Failed(f) => fail(WalletError::UnlockFailed(f)),
                UnlockVerdict::Unlocked => match backup {
                    None => (WalletState::Unlocked, WalletAction::Publish),
                    Some(b) => (
                        WalletState::RestoringThenUnlocking(
                            UnlockStage::AwaitingPort { backup: b },
                        ),
                        WalletAction::ProbePort { port: CONTROL_PORT, delay_seconds: 0 },
                    ),
                },
            },
            _ => fail(WalletError::UnexpectedEvent),
        },
        UnlockStage::AwaitingPort { backup } => match event {
            WalletEvent::PortProbed(bind) => match local_port_available(CONTROL_PORT, bind) {
                Ok(true) => (
                    WalletState::RestoringThenUnlocking(UnlockStage::AwaitingPort { backup }),
                    WalletAction::ProbePort {
                        port: CONTROL_PORT,
                        delay_seconds: REMOTE_POLL_SECONDS,
                    },
                ),
                Ok(false) => (
                    WalletState::RestoringThenUnlocking(UnlockStage::ReadingMacaroon { backup }),
                    WalletAction::ReadMacaroon,
                ),
                Err(_) => fail(WalletError::PortCheckFailed),
            },
            _ => fail(WalletError::UnexpectedEvent),
        },
        UnlockStage::ReadingMacaroon { backup } => match event {
            WalletEvent::Macaroon(macaroon) => match macaroon_header(macaroon.as_slice()) {
                Some(macaroon_header) => match restore_request(backup.as_slice()) {
                    Some(body) => (
                        WalletState::RestoringThenUnlocking(UnlockStage::Restoring),
                        WalletAction::Restore { macaroon_header, body },
                    ),
                    None => fail(WalletError::TooLarge),
                },
                None => fail(WalletError::TooLarge),
            },
            _ => fail(WalletError::UnexpectedEvent),
        },
        UnlockStage::Restoring => match event {
            WalletEvent::RestoreFinished { success } => {
                if success {
                    (
                        WalletState::RestoringThenUnlocking(UnlockStage::ClearingMarker),
                        WalletAction::DeleteMarker,
                    )
                } else {
                    fail(WalletError::RestoreFailed)
                }
            },
            _ => fail(WalletError::UnexpectedEvent),
        },
        UnlockStage::ClearingMarker => match event {
            WalletEvent::MarkerDeleted => (WalletState::Unlocked, WalletAction::Publish),
            _ => fail(WalletError::UnexpectedEvent),
        },
    }
}

/// Advances the lifecycle by one event. `recovery_window` is the configured
/// recovery window, which every unlock request carries if it is set.
pub fn step(state: WalletState, event: WalletEvent, recovery_window: Option<usize>) -> (r: (
    WalletState,
    WalletAction,
))
    ensures
        (r.0@, r.1@) == wallet_step(state@, event@, recovery_window),
{
    match state {
        WalletState::NoSecret => match event {
            WalletEvent::Probed { secret, restore_pending, channel_backup } => enter(
                secret,
                restore_pending,
                channel_backup,
                recovery_window,
            ),
            _ => fail(WalletError::UnexpectedEvent),
        },
        WalletState::Creating(stage) => create(stage, event),
        WalletState::RestoringThenUnlocking(stage) => unlock(stage, event, recovery_window),
        WalletState::Unlocked => (WalletState::Unlocked, WalletAction::Halt),
        WalletState::Failed(e) => (WalletState::Failed(e), WalletAction::Halt),
    }
}

/// The ending of the name of a macaroon file.
pub open spec fn macaroon_suffix() -> Seq<char> {
    ".macaroon"@
}

/// The file name has the extension `macaroon`: it ends with `.macaroon` and
/// has at least one character before that.
pub open spec fn is_macaroon_name(name: Seq<char>) -> bool {
    &&& name.len() > macaroon_suffix().len()
    &&& name.subrange(name.len() - macaroon_suffix().len(), name.len() as int)
        == macaroon_suffix()
}

/// Whether a file of the daemon's data directory is a macaroon, to be
/// published once the wallet is unlocked.
pub fn is_macaroon_file(name: &str) -> (r: bool)
    ensures
        r == is_macaroon_name(name@),
{
    let chars = crate::text::chars_of(name);
    let suffix = crate::text::chars_of(".macaroon");
    if chars.len() <= suffix.len() {
        return false;
    }
    let from: usize = chars.len() - suffix.len();
    let mut k: usize = 0;
    while k < suffix.len()
        invariant
            k <= suffix.len(),
            from + suffix.len() == chars.len(),
            chars@ == name@,
            suffix@ == macaroon_suffix(),
            forall|j: int| 0 <= j < k ==> chars@[from + j] == suffix@[j],
        decreases suffix.len() - k,
    {
        if chars[from + k] != suffix[k] {
            return false;
        }
        k += 1;
    }
    assert(name@.subrange(from as int, name@.len() as int) =~= macaroon_suffix());
    true
}

/// The path of the control interface that the request of an action goes
/// to, for the actions that are requests.
pub open spec fn endpoint_of(action: WalletActionView) -> Option<Seq<char>> {
    match action {
        WalletActionView::GenerateSeed => Some("v1/genseed"@),
        WalletActionView::InitWallet { .. } => Some("v1/initwallet"@),
        WalletActionView::Unlock { .. } => Some("v1/unlockwallet"@),
        WalletActionView::Restore { .. } => Some("v1/channels/backup/restore"@),
        _ => None,
    }
}

/// The view of an optional piece of text.
pub open spec fn opt_str(s: Option<&str>) -> Option<Seq<char>> {
    match s {
        Some(t) => Some(t@),
        None => None,
    }
}

impl WalletAction {
    /// The path of the control interface that this action's request goes to,
    /// or `None` if the action is no request.
    pub fn endpoint(&self) -> (r: Option<&'static str>)
        ensures
            opt_str(r) == endpoint_of(self@),
    {
        match self {
            WalletAction::GenerateSeed => Some("v1/genseed"),
            WalletAction::InitWallet { .. } => Some("v1/initwallet"),
            WalletAction::Unlock { .. } => Some("v1/unlockwallet"),
            WalletAction::Restore { .. } => Some("v1/channels/backup/restore"),
            _ => None,
        }
    }
}

/// What is reported of an unlock failure before the lifecycle stops: the
/// daemon's own message where it gave one.
pub open spec fn failure_detail(f: UnlockFailureView) -> Seq<char> {
    match f {
        UnlockFailureView::InvalidOutput => "Invalid output from wallet unlock attempt"@,
        UnlockFailureView::InvalidErrorOutput => "Invalid error output from wallet unlock attempt"@,
        UnlockFailureView::Message(message) => message,
    }
}

/// The message with which the lifecycle stops.
pub open spec fn wallet_message(e: WalletErrorView) -> Seq<char> {
    match e {
        WalletErrorView::CreateFailed => "Error creating wallet. Exiting."@,
        WalletErrorView::UnlockFailed(_) => "Error unlocking wallet. Exiting."@,
        WalletErrorView::RestoreFailed => "Error restoring wallet. Exiting."@,
        WalletErrorView::PortCheckFailed => "Couldn't determine port use for 8080"@,
        WalletErrorView::TooLarge => "Secret, backup or macaroon too large"@,
        WalletErrorView::UnexpectedEvent => "Unexpected wallet event"@,
    }
}

impl UnlockFailure {
    /// What to report of this failure.
    pub fn detail(&self) -> (r: String)
        ensures
            r@ == failure_detail(self@),
    {
        match self {
            UnlockFailure::InvalidOutput => String::from_str(
                "Invalid output from wallet unlock attempt",
            ),
            UnlockFailure::InvalidErrorOutput => String::from_str(
                "Invalid error output from wallet unlock attempt",
            ),
            UnlockFailure::Message(message) => message.clone(),
        }
    }
}

impl WalletError {
    /// The message to show for this error.
    pub fn message(&self) -> (r: String)
        ensures
            r@ == wallet_message(self@),
    {
        match self {
            WalletError::CreateFailed => String::from_str("Error creating wallet. Exiting."),
            WalletError::UnlockFailed(_) => String::from_str("Error unlocking wallet. Exiting."),
            WalletError::RestoreFailed => String::from_str("Error restoring wallet. Exiting."),
            WalletError::PortCheckFailed => String::from_str(
                "Couldn't determine port use for 8080",
            ),
            WalletError::TooLarge => String::from_str("Secret, backup or macaroon too large"),
            WalletError::UnexpectedEvent => String::from_str("Unexpected wallet event"),
        }
    }
}

} // verus!
