use configurator::readiness::BindOutcome;
use configurator::request::{Field, FieldValue};
use configurator::wallet::{
    classify_unlock_reply, is_macaroon_file, restore_pending, step, unlock_reply_verdict,
    CipherSeedMnemonic, CreateStage, JsonField, RestoreInfo, UnlockFailure, UnlockStage,
    UnlockVerdict, WalletAction, WalletError, WalletEvent, WalletState,
};

const SECRET: [u8; 16] = [7, 0, 1, 2, 3, 4, 5, 6, 7, 8, 9, 10, 11, 12, 13, 14];
const SECRET_B64: &str = "BwABAgMEBQYHCAkKCwwNDg==";

fn text_field(name: &str, value: &str) -> Field {
    Field { name: name.to_string(), value: FieldValue::Text(value.to_string()) }
}

fn unlock_action(recovery_window: Option<u64>) -> WalletAction {
    let mut body = vec![text_field("wallet_password", SECRET_B64)];
    if let Some(n) = recovery_window {
        body.push(Field { name: "recovery_window".to_string(), value: FieldValue::Number(n) });
    }
    WalletAction::Unlock { delay_seconds: 5, body }
}

fn probed(secret: Option<&[u8]>, restore_pending: bool, backup: Option<&[u8]>) -> WalletEvent {
    WalletEvent::Probed {
        secret: secret.map(|s| s.to_vec()),
        restore_pending,
        channel_backup: backup.map(|b| b.to_vec()),
    }
}

/// Feeds the events to the machine and returns the last state and all actions.
fn drive(events: Vec<WalletEvent>, recovery_window: Option<usize>) -> (WalletState, Vec<WalletAction>) {
    let mut state = WalletState::NoSecret;
    let mut actions = Vec::new();
    for event in events {
        let (next, action) = step(state, event, recovery_window);
        state = next;
        actions.push(action);
    }
    (state, actions)
}

fn reply(text: &str) -> WalletEvent {
    WalletEvent::UnlockReply(text.to_string())
}

#[test]
fn unlock_reply_without_error_means_unlocked() {
    assert_eq!(unlock_reply_verdict("{}"), UnlockVerdict::Unlocked);
    assert_eq!(unlock_reply_verdict("{\"ok\":true}"), UnlockVerdict::Unlocked);
}

#[test]
fn unlock_reply_with_transient_error_means_retry() {
    assert_eq!(
        unlock_reply_verdict("{\"error\":\"server is still in the process of starting: waiting to start, RPC services not available\"}"),
        UnlockVerdict::Retry
    );
    assert_eq!(unlock_reply_verdict("{\"error\":\"waiting to start\"}"), UnlockVerdict::Retry);
}

#[test]
fn unlock_reply_with_other_error_fails_with_its_message() {
    assert_eq!(
        unlock_reply_verdict("{\"error\":\"invalid passphrase for master public key\",\"code\":2}"),
        UnlockVerdict::Failed(UnlockFailure::Message(
            "invalid passphrase for master public key".to_string()
        ))
    );
    assert_eq!(
        unlock_reply_verdict("{\"error\":\"\"}"),
        UnlockVerdict::Failed(UnlockFailure::Message(String::new()))
    );
}

#[test]
fn unlock_reply_of_unexpected_form_fails() {
    assert_eq!(
        unlock_reply_verdict("[1,2]"),
        UnlockVerdict::Failed(UnlockFailure::InvalidOutput)
    );
    assert_eq!(
        unlock_reply_verdict("\"waiting to start\""),
        UnlockVerdict::Failed(UnlockFailure::InvalidOutput)
    );
    assert_eq!(
        unlock_reply_verdict("not json"),
        UnlockVerdict::Failed(UnlockFailure::InvalidOutput)
    );
    assert_eq!(unlock_reply_verdict(""), UnlockVerdict::Failed(UnlockFailure::InvalidOutput));
    assert_eq!(
        unlock_reply_verdict("{\"error\":{\"message\":\"waiting to start\"}}"),
        UnlockVerdict::Failed(UnlockFailure::InvalidErrorOutput)
    );
    assert_eq!(
        unlock_reply_verdict("{\"error\":null}"),
        UnlockVerdict::Failed(UnlockFailure::InvalidErrorOutput)
    );
}

#[test]
fn classify_unlock_reply_by_field() {
    assert_eq!(classify_unlock_reply(JsonField::Absent), UnlockVerdict::Unlocked);
    assert_eq!(
        classify_unlock_reply(JsonField::Text("xx waiting to start xx".to_string())),
        UnlockVerdict::Retry
    );
    assert_eq!(
        classify_unlock_reply(JsonField::Text("waiting to stop".to_string())),
        UnlockVerdict::Failed(UnlockFailure::Message("waiting to stop".to_string()))
    );
    assert_eq!(
        classify_unlock_reply(JsonField::Other),
        UnlockVerdict::Failed(UnlockFailure::InvalidErrorOutput)
    );
    assert_eq!(
        classify_unlock_reply(JsonField::NotObject),
        UnlockVerdict::Failed(UnlockFailure::InvalidOutput)
    );
    assert_eq!(
        classify_unlock_reply(JsonField::Malformed),
        UnlockVerdict::Failed(UnlockFailure::InvalidOutput)
    );
}

#[test]
fn fresh_environment_creates_wallet_and_stores_secret_once() {
    let words = vec!["absent".to_string(), "zebra".to_string()];
    let (state, actions) = drive(
        vec![
            probed(None, false, None),
            WalletEvent::Entropy(SECRET.to_vec()),
            WalletEvent::SeedGenerated(Some(CipherSeedMnemonic {
                cipher_seed_mnemonic: words.clone(),
            })),
            WalletEvent::InitFinished { success: true },
            WalletEvent::SecretPersisted,
        ],
        Some(2500),
    );
    assert_eq!(state, WalletState::Unlocked);
    assert_eq!(
        actions,
        vec![
            WalletAction::ReadEntropy { len: 16 },
            WalletAction::GenerateSeed,
            WalletAction::InitWallet {
                body: vec![
                    text_field("wallet_password", SECRET_B64),
                    Field {
                        name: "cipher_seed_mnemonic".to_string(),
                        value: FieldValue::List(words),
                    },
                ],
            },
            WalletAction::PersistSecret { secret: SECRET.to_vec() },
            WalletAction::Publish,
        ]
    );
    let stored = actions
        .iter()
        .filter(|a| matches!(a, WalletAction::PersistSecret { .. }))
        .count();
    assert_eq!(stored, 1);
}

#[test]
fn failed_creation_stores_no_secret() {
    let (state, actions) = drive(
        vec![
            probed(None, true, Some(b"backup")),
            WalletEvent::Entropy(SECRET.to_vec()),
            WalletEvent::SeedGenerated(Some(CipherSeedMnemonic { cipher_seed_mnemonic: vec![] })),
            WalletEvent::InitFinished { success: false },
        ],
        None,
    );
    assert_eq!(state, WalletState::Failed(WalletError::CreateFailed));
    assert_eq!(actions.last(), Some(&WalletAction::Abort));
    assert!(!actions.iter().any(|a| matches!(a, WalletAction::PersistSecret { .. })));
    assert!(!actions.iter().any(|a| matches!(a, WalletAction::RemoveGraphDb)));

    let (state, _) = drive(
        vec![
            probed(None, false, None),
            WalletEvent::Entropy(SECRET.to_vec()),
            WalletEvent::SeedGenerated(None),
        ],
        None,
    );
    assert_eq!(state, WalletState::Failed(WalletError::CreateFailed));

    let (state, _) = drive(
        vec![probed(None, false, None), WalletEvent::Entropy(vec![1, 2, 3])],
        None,
    );
    assert_eq!(state, WalletState::Failed(WalletError::CreateFailed));
}

#[test]
fn unlock_retries_exactly_twice_then_unlocks() {
    let (state, actions) = drive(
        vec![
            probed(Some(&SECRET), false, None),
            reply("{\"error\":\"server is waiting to start\"}"),
            reply("{\"error\":\"still waiting to start...\"}"),
            reply("{}"),
        ],
        None,
    );
    assert_eq!(state, WalletState::Unlocked);
    assert_eq!(
        actions,
        vec![unlock_action(None), unlock_action(None), unlock_action(None), WalletAction::Publish]
    );
}

#[test]
fn unlock_with_other_error_fails_without_retrying() {
    let (state, actions) = drive(
        vec![probed(Some(&SECRET), false, None), reply("{\"error\":\"wrong password\"}")],
        Some(10),
    );
    assert_eq!(
        state,
        WalletState::Failed(WalletError::UnlockFailed(UnlockFailure::Message(
            "wrong password".to_string()
        )))
    );
    assert_eq!(actions, vec![unlock_action(Some(10)), WalletAction::Abort]);
}

#[test]
fn pending_restore_removes_graph_before_restoring_and_clears_marker() {
    let (state, actions) = drive(
        vec![
            probed(Some(&SECRET), true, Some(&[1, 2, 3])),
            WalletEvent::GraphRemoved,
            reply("{\"error\":\"waiting to start\"}"),
            reply("{}"),
            WalletEvent::PortProbed(BindOutcome::Bound),
            WalletEvent::PortProbed(BindOutcome::AddrInUse),
            WalletEvent::Macaroon(vec![0xab, 0x01]),
            WalletEvent::RestoreFinished { success: true },
            WalletEvent::MarkerDeleted,
        ],
        None,
    );
    assert_eq!(state, WalletState::Unlocked);
    assert_eq!(
        actions,
        vec![
            WalletAction::RemoveGraphDb,
            unlock_action(None),
            unlock_action(None),
            WalletAction::ProbePort { port: 8080, delay_seconds: 0 },
            WalletAction::ProbePort { port: 8080, delay_seconds: 10 },
            WalletAction::ReadMacaroon,
            WalletAction::Restore {
                macaroon_header: "Grpc-Metadata-macaroon: AB01".to_string(),
                body: vec![text_field("multi_chan_backup", "AQID")],
            },
            WalletAction::DeleteMarker,
            WalletAction::Publish,
        ]
    );
    let removal = actions.iter().position(|a| matches!(a, WalletAction::RemoveGraphDb)).unwrap();
    let restore = actions.iter().position(|a| matches!(a, WalletAction::Restore { .. })).unwrap();
    assert!(removal < restore);
}

#[test]
fn failed_restore_leaves_the_marker() {
    let (state, actions) = drive(
        vec![
            probed(Some(&SECRET), true, Some(&[1, 2, 3])),
            WalletEvent::GraphRemoved,
            reply("{}"),
            WalletEvent::PortProbed(BindOutcome::AddrInUse),
            WalletEvent::Macaroon(vec![1]),
            WalletEvent::RestoreFinished { success: false },
            WalletEvent::MarkerDeleted,
        ],
        None,
    );
    assert_eq!(state, WalletState::Failed(WalletError::RestoreFailed));
    assert!(!actions.iter().any(|a| matches!(a, WalletAction::DeleteMarker)));
    assert_eq!(actions[5], WalletAction::Abort);
    assert_eq!(actions[6], WalletAction::Halt);
}

#[test]
fn restore_marker_without_backup_only_unlocks() {
    let (state, actions) =
        drive(vec![probed(Some(&SECRET), true, None), reply("{}")], None);
    assert_eq!(state, WalletState::Unlocked);
    assert_eq!(actions, vec![unlock_action(None), WalletAction::Publish]);
    let (state, actions) =
        drive(vec![probed(Some(&SECRET), false, Some(&[1])), reply("{}")], None);
    assert_eq!(state, WalletState::Unlocked);
    assert_eq!(actions, vec![unlock_action(None), WalletAction::Publish]);
}

#[test]
fn port_check_failure_is_fatal() {
    let (state, _) = drive(
        vec![
            probed(Some(&SECRET), true, Some(&[1])),
            WalletEvent::GraphRemoved,
            reply("{}"),
            WalletEvent::PortProbed(BindOutcome::OtherError),
        ],
        None,
    );
    assert_eq!(state, WalletState::Failed(WalletError::PortCheckFailed));
}

#[test]
fn event_that_answers_nothing_is_fatal() {
    let (state, action) = step(WalletState::NoSecret, WalletEvent::GraphRemoved, None);
    assert_eq!(state, WalletState::Failed(WalletError::UnexpectedEvent));
    assert_eq!(action, WalletAction::Abort);
    let (state, action) = step(
        WalletState::Creating(CreateStage::AwaitingEntropy),
        WalletEvent::SecretPersisted,
        None,
    );
    assert_eq!(state, WalletState::Failed(WalletError::UnexpectedEvent));
    assert_eq!(action, WalletAction::Abort);
    let (state, action) = step(
        WalletState::RestoringThenUnlocking(UnlockStage::Restoring),
        WalletEvent::MarkerDeleted,
        None,
    );
    assert_eq!(state, WalletState::Failed(WalletError::UnexpectedEvent));
    assert_eq!(action, WalletAction::Abort);
}

#[test]
fn ended_lifecycle_stays_as_it_is() {
    let (state, action) = step(WalletState::Unlocked, reply("{}"), None);
    assert_eq!((state, action), (WalletState::Unlocked, WalletAction::Halt));
    let failed = WalletState::Failed(WalletError::RestoreFailed);
    let (state, action) = step(failed.clone(), WalletEvent::MarkerDeleted, None);
    assert_eq!((state, action), (failed, WalletAction::Halt));
}

#[test]
fn macaroon_files_are_told_by_their_extension() {
    assert!(is_macaroon_file("admin.macaroon"));
    assert!(is_macaroon_file("a.b.macaroon"));
    assert!(is_macaroon_file("x.macaroon"));
    assert!(!is_macaroon_file(".macaroon"));
    assert!(!is_macaroon_file("macaroon"));
    assert!(!is_macaroon_file("admin.macaroons"));
    assert!(!is_macaroon_file("admin.macaroon.bak"));
    assert!(!is_macaroon_file("channel.backup"));
    assert!(!is_macaroon_file(""));
}

#[test]
fn restore_is_pending_exactly_if_the_record_exists() {
    assert!(!restore_pending(&None));
    let info = RestoreInfo {
        _app_version: "0.15.0.1".parse().unwrap(),
        _os_version: "0.3.1".parse().unwrap(),
    };
    assert!(restore_pending(&Some(info)));
}

#[test]
fn wallet_errors_have_their_messages() {
    assert_eq!(WalletError::CreateFailed.message(), "Error creating wallet. Exiting.");
    assert_eq!(WalletError::RestoreFailed.message(), "Error restoring wallet. Exiting.");
    let failure = UnlockFailure::Message("wrong password".to_string());
    assert_eq!(failure.detail(), "wrong password");
    assert_eq!(
        WalletError::UnlockFailed(failure).message(),
        "Error unlocking wallet. Exiting."
    );
    assert_eq!(
        UnlockFailure::InvalidOutput.detail(),
        "Invalid output from wallet unlock attempt"
    );
    assert_eq!(
        UnlockFailure::InvalidErrorOutput.detail(),
        "Invalid error output from wallet unlock attempt"
    );
    assert_eq!(WalletError::PortCheckFailed.message(), "Couldn't determine port use for 8080");
}

#[test]
fn requests_go_to_their_endpoints() {
    assert_eq!(WalletAction::GenerateSeed.endpoint(), Some("v1/genseed"));
    assert_eq!(WalletAction::InitWallet { body: vec![] }.endpoint(), Some("v1/initwallet"));
    assert_eq!(unlock_action(None).endpoint(), Some("v1/unlockwallet"));
    assert_eq!(
        WalletAction::Restore { macaroon_header: String::new(), body: vec![] }.endpoint(),
        Some("v1/channels/backup/restore")
    );
    assert_eq!(WalletAction::RemoveGraphDb.endpoint(), None);
    assert_eq!(WalletAction::Publish.endpoint(), None);
}
