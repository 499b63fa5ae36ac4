//! Decisions behind the dialogs: what a dialog reports when it closes, what
//! a reply does to the saved keys, and what closing the window does.
use vstd::prelude::*;

use crate::app_config::{CloseAction, Key};

verus! {

/// How a dialog was answered.
#[derive(Clone, Copy, PartialEq, Eq, Structural, Debug)]
pub enum DialogReply {
    Primary,
    Secondary,
    Closed,
}

/// What a dialog's answer is about.
#[derive(Clone, Copy, PartialEq, Eq, Structural, Debug)]
pub enum DialogAction {
    NoAction,
    ClearAllKeys,
    ClearSpecificKey,
    IgnoreSaveError,
    RetryUpdate,
    Exit,
    GracefulExit,
}

/// One frame of a dialog that was open (`was_open`): the window's own open
/// flag after drawing (`window_open`), and which buttons were clicked.
/// Gives whether the dialog stays open and the reply it reports.  A dialog
/// that was already closed reports `Closed` and stays closed.
pub open spec fn dialog_step_spec(was_open: bool, window_open: bool, primary_clicked: bool, secondary_clicked: bool) -> (bool, Option<DialogReply>) {
    if !was_open {
        (false, Some(DialogReply::Closed))
    } else {
        let reply = if secondary_clicked {
            Some(DialogReply::Secondary)
        } else if primary_clicked {
            Some(DialogReply::Primary)
        } else {
            None
        };
        let open = window_open && reply is None;
        if !open && reply is None {
            (open, Some(DialogReply::Closed))
        } else {
            (open, reply)
        }
    }
}

/// The decision made by one frame of a dialog box (see
/// [`dialog_step_spec`]); `secondary_clicked` is false when the dialog has no
/// second button.
pub fn dialog_step(was_open: bool, window_open: bool, primary_clicked: bool, secondary_clicked: bool) -> (res: (bool, Option<DialogReply>))
    ensures
        res == dialog_step_spec(was_open, window_open, primary_clicked, secondary_clicked),
{
    if !was_open {
        return (false, Some(DialogReply::Closed));
    }
    let mut reply: Option<DialogReply> = None;
    if primary_clicked {
        reply = Some(DialogReply::Primary);
    }
    if secondary_clicked {
        reply = Some(DialogReply::Secondary);
    }
    let mut open = window_open;
    if reply.is_some() {
        open = false;
    }
    if !open && reply.is_none() {
        return (open, Some(DialogReply::Closed));
    }
    (open, reply)
}

/// What the window must do after a dialog reply, beyond the settings.
#[derive(Clone, Copy, PartialEq, Eq, Structural, Debug)]
pub enum ReplyEffect {
    Nothing,
    /// Leave the program at once with a failure status.
    ExitProcess,
    /// Stop the VPN, remove the tray icon and close the window.
    GracefulExit,
}

/// The saved keys after a reply: all of them dropped, the one marked for
/// deletion dropped (when it still exists), or unchanged.
pub open spec fn keys_after_reply(keys: Seq<Key>, pending: Option<usize>, action: DialogAction, reply: DialogReply) -> Seq<Key> {
    if action == DialogAction::ClearAllKeys && reply == DialogReply::Secondary {
        Seq::empty()
    } else if action == DialogAction::ClearSpecificKey && reply == DialogReply::Secondary {
        match pending {
            Some(i) => if i < keys.len() {
                keys.remove(i as int)
            } else {
                keys
            },
            None => keys,
        }
    } else {
        keys
    }
}

/// The effect of a reply on the window.
pub open spec fn reply_effect_spec(action: DialogAction, reply: DialogReply) -> ReplyEffect {
    if action == DialogAction::Exit {
        ReplyEffect::ExitProcess
    } else if action == DialogAction::GracefulExit && reply == DialogReply::Primary {
        ReplyEffect::GracefulExit
    } else {
        ReplyEffect::Nothing
    }
}

/// Applies a dialog reply to the saved keys, the key marked for deletion
/// and the "ignore save errors" choice; gives what the window must do.
pub fn apply_dialog_reply(
    keys: &mut Vec<Key>,
    pending_delete: &mut Option<usize>,
    ignore_save_error: &mut bool,
    action: DialogAction,
    reply: DialogReply,
) -> (effect: ReplyEffect)
    ensures
        final(keys)@ == keys_after_reply(old(keys)@, *old(pending_delete), action, reply),
        *final(pending_delete) == if action == DialogAction::ClearSpecificKey {
            None
        } else {
            *old(pending_delete)
        },
        *final(ignore_save_error) == (*old(ignore_save_error) || (action == DialogAction::IgnoreSaveError
            && reply == DialogReply::Primary)),
        effect == reply_effect_spec(action, reply),
{
    let mut effect = ReplyEffect::Nothing;
    if action == DialogAction::ClearAllKeys && reply == DialogReply::Secondary {
        keys.clear();
    } else if action == DialogAction::ClearSpecificKey && reply == DialogReply::Secondary {
        if let Some(index) = pending_delete.take() {
            if index < keys.len() {
                keys.remove(index);
            }
        }
    } else if action == DialogAction::IgnoreSaveError && reply == DialogReply::Primary {
        *ignore_save_error = true;
    } else if action == DialogAction::Exit {
        effect = ReplyEffect::ExitProcess;
    } else if action == DialogAction::GracefulExit && reply == DialogReply::Primary {
        effect = ReplyEffect::GracefulExit;
    }
    if action == DialogAction::ClearSpecificKey {
        *pending_delete = None;
    }
    effect
}

/// What closing the window leads to.
#[derive(Clone, Copy, PartialEq, Eq, Structural, Debug)]
pub enum ExitStep {
    /// Cancel the close and ask the user what to do.
    AskUser,
    /// Cancel the close and hide the window to the tray.
    HideToTray,
    /// Cancel the close and ask for confirmation, since the VPN runs.
    ConfirmWhileVpnRuns,
    /// Remove the tray icon and close the window.
    Close,
}

/// What a close request does: the forced choice when there is one,
/// otherwise the configured one; leaving while the VPN runs needs
/// confirmation.
pub open spec fn exit_step_spec(configured: CloseAction, forced: Option<CloseAction>, vpn_running: bool) -> ExitStep {
    let action = match forced {
        Some(a) => a,
        None => configured,
    };
    match action {
        CloseAction::Ask => ExitStep::AskUser,
        CloseAction::MinimizeToTray => ExitStep::HideToTray,
        CloseAction::Exit => if vpn_running {
            ExitStep::ConfirmWhileVpnRuns
        } else {
            ExitStep::Close
        },
    }
}

/// What a close request does (see [`exit_step_spec`]).
pub fn exit_step(configured: CloseAction, forced: Option<CloseAction>, vpn_running: bool) -> (res: ExitStep)
    ensures
        res == exit_step_spec(configured, forced, vpn_running),
{
    let action = match forced {
        Some(a) => a,
        None => configured,
    };
    match action {
        CloseAction::Ask => ExitStep::AskUser,
        CloseAction::MinimizeToTray => ExitStep::HideToTray,
        CloseAction::Exit => if vpn_running {
            ExitStep::ConfirmWhileVpnRuns
        } else {
            ExitStep::Close
        },
    }
}

/// The configured close action and the "remember my choice" box after the
/// user picks `choice` in the close dialog.
pub fn remember_close_choice(configured: CloseAction, remember: bool, choice: CloseAction) -> (res: (CloseAction, bool))
    ensures
        remember ==> res == (choice, false),
        !remember ==> res == (configured, false),
{
    if remember {
        (choice, false)
    } else {
        (configured, remember)
    }
}

/// A dialog closes as soon as one of its buttons is clicked, and a closed
/// dialog keeps reporting that it was closed.
pub proof fn lemma_answered_dialog_closes(was_open: bool, window_open: bool, primary_clicked: bool, secondary_clicked: bool)
    ensures
        ({
            let (open, reply) = dialog_step_spec(was_open, window_open, primary_clicked, secondary_clicked);
            &&& (primary_clicked || secondary_clicked) ==> !open
            &&& !was_open ==> !open && reply == Some(DialogReply::Closed)
            &&& !open ==> reply is Some
        }),
{
}

/// Deleting the key marked for deletion ("Delete" in the confirmation)
/// drops exactly that key: the list gets one shorter, the keys before it
/// keep their places and the ones after it move up by one.  Any other
/// answer to the confirmation leaves the keys as they were, and clearing
/// all keys leaves none.
pub proof fn lemma_delete_drops_only_that_key(keys: Seq<Key>, i: usize, other: DialogReply)
    requires
        i < keys.len(),
        other != DialogReply::Secondary,
    ensures
        ({
            let r = keys_after_reply(keys, Some(i), DialogAction::ClearSpecificKey, DialogReply::Secondary);
            &&& r.len() == keys.len() - 1
            &&& forall|j: int| 0 <= j < i ==> r[j] == keys[j]
            &&& forall|j: int| i <= j < r.len() ==> r[j] == keys[j + 1]
        }),
        keys_after_reply(keys, Some(i), DialogAction::ClearSpecificKey, other) == keys,
        keys_after_reply(keys, Some(i), DialogAction::ClearAllKeys, DialogReply::Secondary).len() == 0,
{
}

/// Closing the window follows the choice in force, the forced one when
/// there is one and the configured one otherwise: the tray choice always
/// hides the window to the tray, whether the VPN runs or not; "ask" always
/// asks; the window only closes outright when no VPN runs.
pub proof fn lemma_close_follows_choice(configured: CloseAction, forced: Option<CloseAction>, vpn_running: bool)
    ensures
        ({
            let chosen = match forced {
                Some(a) => a,
                None => configured,
            };
            let step = exit_step_spec(configured, forced, vpn_running);
            &&& chosen == CloseAction::MinimizeToTray ==> step == ExitStep::HideToTray
            &&& chosen == CloseAction::Ask ==> step == ExitStep::AskUser
            &&& chosen == CloseAction::Exit ==> (step == ExitStep::Close || step == ExitStep::ConfirmWhileVpnRuns)
            &&& step == ExitStep::Close ==> !vpn_running && chosen == CloseAction::Exit
            &&& step == ExitStep::ConfirmWhileVpnRuns ==> vpn_running
        }),
{
}

} // verus!
