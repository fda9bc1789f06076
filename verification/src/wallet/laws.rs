//! What holds of every run of the wallet lifecycle.

use vstd::prelude::*;
use crate::codec::base64_encodable;
use crate::request::init_body;
use crate::text::contains_text;
use crate::wallet::{
    failure, reply_verdict, transient_marker, unlock_action, unlock_verdict, wallet_step,
    CreateStageView, JsonFieldView, UnlockFailureView, UnlockStageView,
    UnlockVerdictView, WalletActionView, WalletErrorView, WalletEventView, WalletStateView,
    SECRET_LEN,
};

verus! {

/// The state that a sequence of events leads to, and the actions that the
/// machine asked for on the way, one for each event.
pub open spec fn run(
    state: WalletStateView,
    events: Seq<WalletEventView>,
    recovery_window: Option<usize>,
) -> (WalletStateView, Seq<WalletActionView>)
    decreases events.len(),
{
    if events.len() == 0 {
        (state, Seq::empty())
    } else {
        let (before, actions) = run(state, events.drop_last(), recovery_window);
        let (after, action) = wallet_step(before, events.last(), recovery_window);
        (after, actions.push(action))
    }
}

/// A run with one more event is the run so far and one more step.
pub proof fn lemma_run_push(
    state: WalletStateView,
    events: Seq<WalletEventView>,
    event: WalletEventView,
    recovery_window: Option<usize>,
)
    ensures
        run(state, events.push(event), recovery_window) == ({
            let (before, actions) = run(state, events, recovery_window);
            let (after, action) = wallet_step(before, event, recovery_window);
            (after, actions.push(action))
        }),
{
    assert(events.push(event).drop_last() =~= events);
}

/// A run asks for one action per event, and each action is the machine's
/// answer to its event in the state that the events before it led to.
pub proof fn lemma_run_actions(
    state: WalletStateView,
    events: Seq<WalletEventView>,
    recovery_window: Option<usize>,
)
    ensures
        run(state, events, recovery_window).1.len() == events.len(),
        forall|j: int|
            0 <= j < events.len() ==> #[trigger] run(state, events, recovery_window).1[j]
                == wallet_step(
                run(state, events.take(j), recovery_window).0,
                events[j],
                recovery_window,
            ).1,
    decreases events.len(),
{
    if events.len() > 0 {
        let shorter = events.drop_last();
        lemma_run_actions(state, shorter, recovery_window);
        assert forall|j: int| 0 <= j < events.len() implies #[trigger] run(
            state,
            events,
            recovery_window,
        ).1[j] == wallet_step(
            run(state, events.take(j), recovery_window).0,
            events[j],
            recovery_window,
        ).1 by {
            if j < events.len() - 1 {
                assert(shorter.take(j) =~= events.take(j));
                assert(shorter[j] == events[j]);
            } else {
                assert(events.take(j) =~= shorter);
            }
        }
    }
}

/// The lifecycle has ended: in success or in failure.
pub open spec fn ended(state: WalletStateView) -> bool {
    state is Unlocked || state is Failed
}

/// Once the lifecycle has ended, no event changes the state, and the machine
/// asks for nothing more.
pub proof fn lemma_ended_lifecycle_stays(
    state: WalletStateView,
    events: Seq<WalletEventView>,
    recovery_window: Option<usize>,
)
    requires
        ended(state),
    ensures
        run(state, events, recovery_window).0 == state,
        forall|j: int|
            0 <= j < events.len() ==> #[trigger] run(state, events, recovery_window).1[j]
                == WalletActionView::Halt,
    decreases events.len(),
{
    lemma_run_actions(state, events, recovery_window);
    if events.len() > 0 {
        lemma_ended_lifecycle_stays(state, events.drop_last(), recovery_window);
    }
}

/// On a first run (no secret file) on which the daemon generates a seed
/// phrase and initialises the wallet, the machine asks for the secret to be
/// written exactly once, with the very bytes drawn from the entropy source,
/// and ends unlocked.
pub proof fn lemma_first_run_stores_the_secret_once(
    restore_pending: bool,
    channel_backup: Option<Seq<u8>>,
    secret: Seq<u8>,
    mnemonic: Seq<Seq<char>>,
    recovery_window: Option<usize>,
)
    requires
        secret.len() == SECRET_LEN,
    ensures
        run(
            WalletStateView::NoSecret,
            seq![
                WalletEventView::Probed { secret: None, restore_pending, channel_backup },
                WalletEventView::Entropy(secret),
                WalletEventView::SeedGenerated(Some(mnemonic)),
                WalletEventView::InitFinished { success: true },
                WalletEventView::SecretPersisted,
            ],
            recovery_window,
        ) == (
            WalletStateView::Unlocked,
            seq![
                WalletActionView::ReadEntropy { len: SECRET_LEN },
                WalletActionView::GenerateSeed,
                WalletActionView::InitWallet {
                    body: init_body(secret, mnemonic),
                },
                WalletActionView::PersistSecret { secret },
                WalletActionView::Publish,
            ],
        ),
{
    let e0 = WalletEventView::Probed { secret: None, restore_pending, channel_backup };
    let e1 = WalletEventView::Entropy(secret);
    let e2 = WalletEventView::SeedGenerated(Some(mnemonic));
    let e3 = WalletEventView::InitFinished { success: true };
    let e4 = WalletEventView::SecretPersisted;
    let start = WalletStateView::NoSecret;
    let none = Seq::<WalletEventView>::empty();
    lemma_run_push(start, none, e0, recovery_window);
    lemma_run_push(start, seq![e0], e1, recovery_window);
    lemma_run_push(start, seq![e0, e1], e2, recovery_window);
    lemma_run_push(start, seq![e0, e1, e2], e3, recovery_window);
    lemma_run_push(start, seq![e0, e1, e2, e3], e4, recovery_window);
    assert(seq![e0].push(e1) =~= seq![e0, e1]);
    assert(seq![e0, e1].push(e2) =~= seq![e0, e1, e2]);
    assert(seq![e0, e1, e2].push(e3) =~= seq![e0, e1, e2, e3]);
    assert(seq![e0, e1, e2, e3].push(e4) =~= seq![e0, e1, e2, e3, e4]);
}

/// The machine asks for the secret to be written only in answer to a
/// successful initialisation of the wallet, and then with the secret that
/// the wallet was initialised with. A failed creation stores nothing.
pub proof fn lemma_secret_is_stored_only_after_creation(
    state: WalletStateView,
    event: WalletEventView,
    recovery_window: Option<usize>,
)
    ensures
        wallet_step(state, event, recovery_window).1 is PersistSecret ==> {
            &&& event == WalletEventView::InitFinished { success: true }
            &&& state matches WalletStateView::Creating(CreateStageView::AwaitingInit { secret })
            &&& wallet_step(state, event, recovery_window).1 == WalletActionView::PersistSecret {
                secret,
            }
        },
        state is Creating && event == (WalletEventView::InitFinished { success: false })
            ==> wallet_step(state, event, recovery_window).0 is Failed,
{
}

/// As long as the daemon answers that it has not finished starting, the
/// machine stays in the unlocking stage and repeats the unlock request, once
/// for each such answer.
pub proof fn lemma_transient_replies_are_retried(
    secret: Seq<u8>,
    backup: Option<Seq<u8>>,
    replies: Seq<Seq<char>>,
    recovery_window: Option<usize>,
)
    requires
        base64_encodable(secret.len()),
        forall|i: int| 0 <= i < replies.len() ==> reply_verdict(#[trigger] replies[i]) is Retry,
    ensures
        run(
            WalletStateView::RestoringThenUnlocking(UnlockStageView::Unlocking { secret, backup }),
            replies.map_values(|t: Seq<char>| WalletEventView::UnlockReply(t)),
            recovery_window,
        ) == (
            WalletStateView::RestoringThenUnlocking(UnlockStageView::Unlocking { secret, backup }),
            Seq::new(replies.len(), |i: int| unlock_action(secret, recovery_window)),
        ),
    decreases replies.len(),
{
    let state = WalletStateView::RestoringThenUnlocking(
        UnlockStageView::Unlocking { secret, backup },
    );
    let events = replies.map_values(|t: Seq<char>| WalletEventView::UnlockReply(t));
    if replies.len() > 0 {
        let shorter = replies.drop_last();
        lemma_transient_replies_are_retried(secret, backup, shorter, recovery_window);
        assert(events.drop_last() =~= shorter.map_values(|t: Seq<char>| WalletEventView::UnlockReply(t)));
    }
}

/// After any number of answers that the daemon has not finished starting, an
/// answer without an error ends the unlocking: with no restore pending the
/// wallet is unlocked, and the machine has repeated the request exactly once
/// per transient answer.
pub proof fn lemma_unlock_succeeds_after_retries(
    secret: Seq<u8>,
    replies: Seq<Seq<char>>,
    last: Seq<char>,
    recovery_window: Option<usize>,
)
    requires
        base64_encodable(secret.len()),
        forall|i: int| 0 <= i < replies.len() ==> reply_verdict(#[trigger] replies[i]) is Retry,
        reply_verdict(last) is Unlocked,
    ensures
        run(
            WalletStateView::RestoringThenUnlocking(
                UnlockStageView::Unlocking { secret, backup: None },
            ),
            replies.map_values(|t: Seq<char>| WalletEventView::UnlockReply(t)).push(
                WalletEventView::UnlockReply(last),
            ),
            recovery_window,
        ) == (
            WalletStateView::Unlocked,
            Seq::new(replies.len(), |i: int| unlock_action(secret, recovery_window)).push(
                WalletActionView::Publish,
            ),
        ),
{
    let state = WalletStateView::RestoringThenUnlocking(
        UnlockStageView::Unlocking { secret, backup: None },
    );
    lemma_transient_replies_are_retried(secret, None, replies, recovery_window);
    lemma_run_push(
        state,
        replies.map_values(|t: Seq<char>| WalletEventView::UnlockReply(t)),
        WalletEventView::UnlockReply(last),
        recovery_window,
    );
}

/// Any error of the daemon other than the transient one ends the lifecycle
/// at once, with that error: the request is not repeated.
pub proof fn lemma_other_errors_are_not_retried(
    secret: Seq<u8>,
    backup: Option<Seq<u8>>,
    reply: Seq<char>,
    recovery_window: Option<usize>,
)
    requires
        reply_verdict(reply) is Failed,
    ensures
        wallet_step(
            WalletStateView::RestoringThenUnlocking(UnlockStageView::Unlocking { secret, backup }),
            WalletEventView::UnlockReply(reply),
            recovery_window,
        ) == failure(WalletErrorView::UnlockFailed(reply_verdict(reply)->Failed_0)),
{
}

/// An error message of the daemon is transient exactly if it holds the
/// transient marker; any other message fails the unlock and is carried along.
pub proof fn lemma_error_text_verdict(message: Seq<char>)
    ensures
        unlock_verdict(JsonFieldView::Text(message)) == if contains_text(
            message,
            transient_marker(),
        ) {
            UnlockVerdictView::Retry
        } else {
            UnlockVerdictView::Failed(UnlockFailureView::Message(message))
        },
{
}

/// The state holds a channel backup that is still to be restored.
pub open spec fn holds_backup(state: WalletStateView) -> bool {
    match state {
        WalletStateView::RestoringThenUnlocking(stage) => match stage {
            UnlockStageView::RemovingGraph { .. } => true,
            UnlockStageView::Unlocking { backup, .. } => backup is Some,
            UnlockStageView::AwaitingPort { .. } => true,
            UnlockStageView::ReadingMacaroon { .. } => true,
            _ => false,
        },
        _ => false,
    }
}

/// Some action among `actions` is the removal of the channel graph database.
pub open spec fn graph_removed(actions: Seq<WalletActionView>) -> bool {
    exists|i: int| 0 <= i < actions.len() && #[trigger] actions[i] is RemoveGraphDb
}

/// Every restore request among `actions` comes after a removal of the
/// channel graph database.
pub open spec fn restores_follow_removal(actions: Seq<WalletActionView>) -> bool {
    forall|j: int|
        0 <= j < actions.len() && #[trigger] actions[j] is Restore ==> graph_removed(
            actions.take(j),
        )
}

/// The machine asks for a restore only while it holds a backup, and comes to
/// hold one only by asking for the removal of the channel graph database.
proof fn lemma_step_keeps_removal_first(
    state: WalletStateView,
    event: WalletEventView,
    recovery_window: Option<usize>,
)
    ensures
        wallet_step(state, event, recovery_window).1 is Restore ==> holds_backup(state),
        holds_backup(wallet_step(state, event, recovery_window).0) ==> holds_backup(state)
            || wallet_step(state, event, recovery_window).1 is RemoveGraphDb,
{
}

/// In a run from the start, a state that holds a backup has the removal of
/// the channel graph database behind it, and so has every restore request.
proof fn lemma_removal_first_invariant(events: Seq<WalletEventView>, recovery_window: Option<usize>)
    ensures
        holds_backup(run(WalletStateView::NoSecret, events, recovery_window).0) ==> graph_removed(
            run(WalletStateView::NoSecret, events, recovery_window).1,
        ),
        restores_follow_removal(run(WalletStateView::NoSecret, events, recovery_window).1),
    decreases events.len(),
{
    let start = WalletStateView::NoSecret;
    if events.len() > 0 {
        let shorter = events.drop_last();
        lemma_removal_first_invariant(shorter, recovery_window);
        let (before, past) = run(start, shorter, recovery_window);
        let (after, action) = wallet_step(before, events.last(), recovery_window);
        let actions = past.push(action);
        lemma_step_keeps_removal_first(before, events.last(), recovery_window);
        if holds_backup(after) {
            if holds_backup(before) {
                let i = choose|i: int| 0 <= i < past.len() && #[trigger] past[i] is RemoveGraphDb;
                assert(actions[i] is RemoveGraphDb);
            } else {
                assert(actions[past.len() as int] is RemoveGraphDb);
            }
        }
        assert forall|j: int| 0 <= j < actions.len() && #[trigger] actions[j] is Restore implies graph_removed(
            actions.take(j),
        ) by {
            if j < past.len() {
                assert(past[j] is Restore);
                assert(actions.take(j) =~= past.take(j));
            } else {
                assert(actions.take(j) =~= past);
            }
        }
    }
}

/// In every run from the start, whatever the events: where the machine asks
/// for a restore request, it has asked for the removal of the channel graph
/// database before.
pub proof fn lemma_graph_is_removed_before_restore(
    events: Seq<WalletEventView>,
    recovery_window: Option<usize>,
    j: int,
)
    requires
        0 <= j < events.len(),
        run(WalletStateView::NoSecret, events, recovery_window).1[j] is Restore,
    ensures
        exists|i: int|
            0 <= i < j && #[trigger] run(
                WalletStateView::NoSecret,
                events,
                recovery_window,
            ).1[i] is RemoveGraphDb,
{
    lemma_run_actions(WalletStateView::NoSecret, events, recovery_window);
    lemma_removal_first_invariant(events, recovery_window);
    let actions = run(WalletStateView::NoSecret, events, recovery_window).1;
    let before = actions.take(j);
    assert(graph_removed(before));
    let i = choose|i: int| 0 <= i < before.len() && #[trigger] before[i] is RemoveGraphDb;
    assert(actions[i] is RemoveGraphDb);
}

/// The machine asks for the restore marker to be deleted only in answer to a
/// restore request that succeeded; one that failed ends the lifecycle in
/// failure.
pub proof fn lemma_marker_is_deleted_only_after_restore(
    state: WalletStateView,
    event: WalletEventView,
    recovery_window: Option<usize>,
)
    ensures
        wallet_step(state, event, recovery_window).1 is DeleteMarker ==> {
            &&& state == WalletStateView::RestoringThenUnlocking(UnlockStageView::Restoring)
            &&& event == WalletEventView::RestoreFinished { success: true }
        },
        state == WalletStateView::RestoringThenUnlocking(UnlockStageView::Restoring) && event == (
        WalletEventView::RestoreFinished { success: false }) ==> wallet_step(
            state,
            event,
            recovery_window,
        ) == failure(WalletErrorView::RestoreFailed),
{
}

/// How far the lifecycle has come, as a number that no step lowers.
pub open spec fn progress(state: WalletStateView) -> nat {
    match state {
        WalletStateView::NoSecret => 0,
        WalletStateView::Creating(_) => 1,
        WalletStateView::RestoringThenUnlocking(stage) => match stage {
            UnlockStageView::RemovingGraph { .. } => 1,
            UnlockStageView::Unlocking { .. } => 2,
            UnlockStageView::AwaitingPort { .. } => 3,
            UnlockStageView::ReadingMacaroon { .. } => 4,
            UnlockStageView::Restoring => 5,
            UnlockStageView::ClearingMarker => 6,
        },
        WalletStateView::Unlocked => 7,
        WalletStateView::Failed(_) => 7,
    }
}

/// No step takes the lifecycle back, and the answer to a restore request
/// takes it forward.
pub proof fn lemma_step_makes_progress(
    state: WalletStateView,
    event: WalletEventView,
    recovery_window: Option<usize>,
)
    ensures
        progress(state) <= progress(wallet_step(state, event, recovery_window).0),
        state == WalletStateView::RestoringThenUnlocking(UnlockStageView::Restoring) ==> progress(
            state,
        ) < progress(wallet_step(state, event, recovery_window).0),
{
}

/// No run takes the lifecycle back.
pub proof fn lemma_run_makes_progress(
    state: WalletStateView,
    events: Seq<WalletEventView>,
    recovery_window: Option<usize>,
)
    ensures
        progress(state) <= progress(run(state, events, recovery_window).0),
    decreases events.len(),
{
    if events.len() > 0 {
        lemma_run_makes_progress(state, events.drop_last(), recovery_window);
        lemma_step_makes_progress(
            run(state, events.drop_last(), recovery_window).0,
            events.last(),
            recovery_window,
        );
    }
}

/// The state in which a run answers its event `j` is no further along than
/// the state in which it answers a later event `k`.
proof fn lemma_progress_is_monotone(
    state: WalletStateView,
    events: Seq<WalletEventView>,
    recovery_window: Option<usize>,
    j: int,
    k: int,
)
    requires
        0 <= j <= k <= events.len(),
    ensures
        progress(run(state, events.take(j), recovery_window).0) <= progress(
            run(state, events.take(k), recovery_window).0,
        ),
    decreases k - j,
{
    if j < k {
        lemma_progress_is_monotone(state, events, recovery_window, j, k - 1);
        assert(events.take(k).drop_last() =~= events.take(k - 1));
        lemma_step_makes_progress(
            run(state, events.take(k - 1), recovery_window).0,
            events.take(k).last(),
            recovery_window,
        );
    }
}

/// In a run in which a restore request fails, the machine never asks for the
/// restore marker to be deleted, neither before the failure nor after it:
/// the marker is still there when the run is over.
pub proof fn lemma_failed_restore_keeps_marker(
    state: WalletStateView,
    events: Seq<WalletEventView>,
    recovery_window: Option<usize>,
    k: int,
)
    requires
        0 <= k < events.len(),
        run(state, events.take(k), recovery_window).0 == WalletStateView::RestoringThenUnlocking(
            UnlockStageView::Restoring,
        ),
        events[k] == (WalletEventView::RestoreFinished { success: false }),
    ensures
        forall|j: int|
            0 <= j < events.len() ==> !(#[trigger] run(
                state,
                events,
                recovery_window,
            ).1[j] is DeleteMarker),
        run(state, events, recovery_window).0 == WalletStateView::Failed(
            WalletErrorView::RestoreFailed,
        ),
{
    lemma_run_actions(state, events, recovery_window);
    // The failure at `k` ends the lifecycle.
    assert(events.take(k + 1).drop_last() =~= events.take(k));
    assert forall|j: int| 0 <= j < events.len() implies !(#[trigger] run(
        state,
        events,
        recovery_window,
    ).1[j] is DeleteMarker) by {
        let at_j = run(state, events.take(j), recovery_window).0;
        lemma_marker_is_deleted_only_after_restore(at_j, events[j], recovery_window);
        if j < k {
            // A deletion at `j` would have left the restore behind before `k`.
            assert(events.take(j + 1).drop_last() =~= events.take(j));
            assert(events.take(j + 1).last() == events[j]);
            lemma_progress_is_monotone(state, events, recovery_window, j + 1, k);
        } else if j > k {
            // After the failure the lifecycle is past any restore.
            lemma_progress_is_monotone(state, events, recovery_window, k + 1, j);
        }
    }
    lemma_failed_stays_failed(state, events, recovery_window, k + 1);
}

/// Once a run has failed it ends in that failure.
proof fn lemma_failed_stays_failed(
    state: WalletStateView,
    events: Seq<WalletEventView>,
    recovery_window: Option<usize>,
    k: int,
)
    requires
        0 <= k <= events.len(),
        run(state, events.take(k), recovery_window).0 is Failed,
    ensures
        run(state, events, recovery_window).0 == run(state, events.take(k), recovery_window).0,
    decreases events.len() - k,
{
    if k < events.len() {
        assert(events.take(k + 1).drop_last() =~= events.take(k));
        lemma_failed_stays_failed(state, events, recovery_window, k + 1);
    } else {
        assert(events.take(k) =~= events);
    }
}

} // verus!
