//! Web notifications of the page become desktop notifications; a click on
//! one brings the window back and tells the page which notification it was.

use vstd::prelude::*;
use crate::text::{
    decimal, digits_value, lemma_decimal_denotes, lemma_decimal_injective, lemma_decimal_nonempty,
    push_decimal, same_text,
};
use crate::window::{restore_from_tray, restore_actions, TrayTracker, WindowAction};

verus! {

/// Name of the script message handler through which the page posts its
/// notifications.
pub const MESSAGE_HANDLER: &'static str = "notify";

/// Application name shown with every desktop notification.
pub const NOTIFICATION_APP_NAME: &'static str = "WhatsApp";

/// Icon name of every desktop notification.
pub const NOTIFICATION_ICON: &'static str = "whatsapp-web-wrapper";

/// Sound played with every desktop notification (a name from the
/// freedesktop sound theme).
pub const NOTIFICATION_SOUND: &'static str = "message-new-instant";

/// Identifier of the action that opens the chat of a notification; it is also
/// the action that a click on the notification's body reports.
pub const OPEN_ACTION_ID: &'static str = "default";

/// Label of the action that opens the chat of a notification.
pub const OPEN_ACTION_LABEL: &'static str = "Open";

/// Text of the script that the page runs for a clicked notification, up to
/// the notification's number.
pub const CLICK_SCRIPT_HEAD: &'static str =
    "if (window.__triggerNotificationClick) window.__triggerNotificationClick(";

/// Text of that script after the notification's number.
pub const CLICK_SCRIPT_TAIL: &'static str = ");";

#[verifier::external_type_specification]
#[verifier::external_body]
pub struct ExJsonError(serde_json::Error);

/// A notification that the page posted.
#[derive(Debug, PartialEq, Eq)]
pub struct NotificationPayload {
    /// Number that the page gave the notification.
    pub id: u64,
    pub title: String,
    pub body: String,
}

/// The next step of reading a posted message as a notification.
#[derive(Debug)]
pub enum PayloadStep {
    /// The message is a notification.
    Ready(NotificationPayload),
    /// The message is a JSON string; its text is to be read as a
    /// notification in turn.
    Reparse(String),
    /// The message is neither.
    Invalid,
}

/// A desktop notification to show.
#[derive(Debug, PartialEq, Eq)]
pub struct DesktopNotification {
    pub app_name: String,
    pub summary: String,
    pub body: String,
    pub icon: String,
    /// Name of the sound to play when the notification appears.
    pub sound_name: String,
    /// The one action that the notification offers: (identifier, label).
    pub action_id: String,
    pub action_label: String,
}

/// What a click on a desktop notification does.
pub struct NotificationClick {
    /// Steps that bring the main window back from the tray.
    pub window_actions: Vec<WindowAction>,
    /// Script for the page to run.
    pub script: String,
}

/// The text of a JSON string literal: what `serde_json` reads from `text` as
/// a `String`, or `None` where it reports an error.
pub uninterp spec fn json_string_literal(text: Seq<char>) -> Option<Seq<char>>;

/// Reads `text` as a JSON string with `serde_json::from_str::<String>`.
///
/// The contract claims that the call is a function of the text alone, named
/// [`json_string_literal`]: the string it returns on success, and that it fails
/// exactly where the name gives `None`. What JSON text is accepted is left to
/// `serde_json` and not stated.
#[verifier::external_body]
fn parse_json_string(text: &str) -> (parsed: Result<String, serde_json::Error>)
    ensures
        match parsed {
            Ok(s) => json_string_literal(text@) == Some(s@),
            Err(_) => json_string_literal(text@) is None,
        },
{
    serde_json::from_str::<String>(text)
}

/// The script that tells the page that notification `id` was clicked.
pub open spec fn spec_click_script(id: u64) -> Seq<char> {
    CLICK_SCRIPT_HEAD@ + decimal(id as nat) + CLICK_SCRIPT_TAIL@
}

/// The next step of reading a posted message, from the result of reading it
/// directly as a notification and, where that failed, the result of reading
/// it as a JSON string: a direct notification wins; else a JSON string is read
/// again; else the message is invalid.
pub fn payload_step(direct: Option<NotificationPayload>, unquoted: Option<String>) -> (step:
    PayloadStep)
    ensures
        match direct {
            Some(p) => step == PayloadStep::Ready(p),
            None => match unquoted {
                Some(u) => step == PayloadStep::Reparse(u),
                None => step == PayloadStep::Invalid,
            },
        },
{
    match direct {
        Some(p) => PayloadStep::Ready(p),
        None => match unquoted {
            Some(u) => PayloadStep::Reparse(u),
            None => PayloadStep::Invalid,
        },
    }
}

/// Whether `step` is the next step of reading the posted message `raw`, given
/// the result `direct` of reading it directly as a notification: that
/// notification when there is one; else the text of `raw` as a JSON string,
/// to be read again; else invalid.
pub open spec fn spec_is_next_step(
    direct: Option<NotificationPayload>,
    raw: Seq<char>,
    step: PayloadStep,
) -> bool {
    match direct {
        Some(p) => step == PayloadStep::Ready(p),
        None => match json_string_literal(raw) {
            Some(u) => step matches PayloadStep::Reparse(s) && s@ == u,
            None => step == PayloadStep::Invalid,
        },
    }
}

/// The notification that a step shows, given the result `reread` of reading
/// the text of a `Reparse` step as a notification.
pub open spec fn spec_shown(step: PayloadStep, reread: Option<NotificationPayload>) -> Option<
    NotificationPayload,
> {
    match step {
        PayloadStep::Ready(p) => Some(p),
        PayloadStep::Reparse(_) => reread,
        PayloadStep::Invalid => None,
    }
}

/// The next step of reading the posted message `raw`, given the result of
/// reading it directly as a notification: where that failed, `raw` is read as
/// a JSON string.
pub fn next_payload_step(direct: Option<NotificationPayload>, raw: &str) -> (step: PayloadStep)
    ensures
        spec_is_next_step(direct, raw@, step),
        direct matches Some(p) ==> step == PayloadStep::Ready(p),
        direct is None && json_string_literal(raw@) is None ==> step == PayloadStep::Invalid,
        direct is None ==> (json_string_literal(raw@) matches Some(u) ==> (
        step matches PayloadStep::Reparse(s) && s@ == u)),
{
    match direct {
        Some(p) => PayloadStep::Ready(p),
        None => {
            let unquoted = match parse_json_string(raw) {
                Ok(s) => Some(s),
                Err(_) => None,
            };
            payload_step(None, unquoted)
        },
    }
}

/// The notification to show for a posted message, from its reading step and,
/// for a step that reads a text again, the result `reread` of that second
/// reading (ignored for other steps): the notification of a ready step; the
/// second reading's result; nothing for an invalid message.
pub fn posted_notification(step: PayloadStep, reread: Option<NotificationPayload>) -> (shown:
    Option<NotificationPayload>)
    ensures
        shown == spec_shown(step, reread),
        step matches PayloadStep::Ready(p) ==> shown == Some(p),
        step is Reparse ==> shown == reread,
        step is Invalid ==> shown is None,
{
    match step {
        PayloadStep::Ready(p) => Some(p),
        PayloadStep::Reparse(_) => reread,
        PayloadStep::Invalid => None,
    }
}

/// The two readings together show [`spec_posted_notification`]: when the
/// direct reading and the second reading are those of one reader `read`, the
/// notification that [`posted_notification`] returns after
/// [`next_payload_step`] is the one that `read` and the JSON string reading
/// call for.
pub proof fn lemma_steps_show_posted_notification(
    read: spec_fn(Seq<char>) -> Option<NotificationPayload>,
    raw: Seq<char>,
    step: PayloadStep,
    reread: Option<NotificationPayload>,
)
    requires
        spec_is_next_step(read(raw), raw, step),
        step matches PayloadStep::Reparse(text) ==> reread == read(text@),
    ensures
        spec_shown(step, reread) == spec_posted_notification(read, raw),
{
}

/// The desktop notification for a posted notification: its title and body,
/// under the application's name and icon, with the notification sound and
/// the one action that opens it.
pub fn desktop_notification(payload: &NotificationPayload) -> (n: DesktopNotification)
    ensures
        n.app_name@ == NOTIFICATION_APP_NAME@,
        n.summary@ == payload.title@,
        n.body@ == payload.body@,
        n.icon@ == NOTIFICATION_ICON@,
        n.sound_name@ == NOTIFICATION_SOUND@,
        n.action_id@ == OPEN_ACTION_ID@,
        n.action_label@ == OPEN_ACTION_LABEL@,
{
    DesktopNotification {
        app_name: String::from_str(NOTIFICATION_APP_NAME),
        summary: payload.title.clone(),
        body: payload.body.clone(),
        icon: String::from_str(NOTIFICATION_ICON),
        sound_name: String::from_str(NOTIFICATION_SOUND),
        action_id: String::from_str(OPEN_ACTION_ID),
        action_label: String::from_str(OPEN_ACTION_LABEL),
    }
}

/// The script that tells the page that notification `id` was clicked, so that
/// the page opens its chat.
pub fn click_script(id: u64) -> (script: String)
    ensures
        script@ == spec_click_script(id),
        script@ == CLICK_SCRIPT_HEAD@ + decimal(id as nat) + CLICK_SCRIPT_TAIL@,
{
    let mut script = String::from_str(CLICK_SCRIPT_HEAD);
    push_decimal(&mut script, id);
    script.append(CLICK_SCRIPT_TAIL);
    script
}

/// An action reported by the desktop notification for notification `id`: the
/// open action brings the main window back from the tray and has the page
/// open the notification's chat; any other action (such as the notification
/// being dismissed) does nothing.
pub fn on_notification_action(tracker: &mut TrayTracker, action: &str, id: u64) -> (click:
    Option<NotificationClick>)
    ensures
        action@ == OPEN_ACTION_ID@ ==> {
            &&& !final(tracker).hidden_in_tray
            &&& click matches Some(c) && c.window_actions@ == restore_actions()
                && c.script@ == spec_click_script(id)
                && c.script@ == CLICK_SCRIPT_HEAD@ + decimal(id as nat) + CLICK_SCRIPT_TAIL@
        },
        action@ != OPEN_ACTION_ID@ ==> {
            &&& *final(tracker) == *old(tracker)
            &&& click is None
        },
{
    if same_text(action, OPEN_ACTION_ID) {
        let window_actions = restore_from_tray(tracker);
        let script = click_script(id);
        Some(NotificationClick { window_actions, script })
    } else {
        None
    }
}

/// The notification that the bridge shows for the posted message `raw`, where
/// `read` is what reading a text directly as a notification gives: the
/// message itself when it reads as one; else, when the message is a JSON
/// string, the text of that string read as a notification (see
/// [`next_payload_step`]); else none.
pub open spec fn spec_posted_notification(
    read: spec_fn(Seq<char>) -> Option<NotificationPayload>,
    raw: Seq<char>,
) -> Option<NotificationPayload> {
    match read(raw) {
        Some(p) => Some(p),
        None => match json_string_literal(raw) {
            Some(text) => read(text),
            None => None,
        },
    }
}

/// Posting a notification wrapped in a JSON string shows the same
/// notification as posting it directly: when `quoted` is a JSON string whose
/// text is `message`, and `quoted` itself does not read as a notification (a
/// JSON string is no notification object), both posts show what `message`
/// reads as.
pub proof fn lemma_quoted_message_same_notification(
    read: spec_fn(Seq<char>) -> Option<NotificationPayload>,
    message: Seq<char>,
    quoted: Seq<char>,
)
    requires
        read(message) is Some,
        json_string_literal(quoted) == Some(message),
        read(quoted) is None,
    ensures
        spec_posted_notification(read, quoted) == spec_posted_notification(read, message),
        spec_posted_notification(read, message) == read(message),
        forall|step: PayloadStep, reread: Option<NotificationPayload>|
            #![trigger spec_shown(step, reread), spec_is_next_step(read(quoted), quoted, step)]
            spec_is_next_step(read(quoted), quoted, step) && (step matches PayloadStep::Reparse(
                text,
            ) ==> reread == read(text@)) ==> spec_shown(step, reread) == read(message),
{
}

/// The script for a clicked notification names that notification's own
/// number: the number written between the script's head and tail is `id`.
pub proof fn lemma_click_script_names_the_notification(id: u64)
    ensures
        ({
            let script = spec_click_script(id);
            let head = CLICK_SCRIPT_HEAD@;
            let tail = CLICK_SCRIPT_TAIL@;
            &&& script.len() > head.len() + tail.len()
            &&& script.subrange(0, head.len() as int) == head
            &&& script.subrange(script.len() - tail.len(), script.len() as int) == tail
            &&& digits_value(script.subrange(head.len() as int, script.len() - tail.len())) == id
        }),
{
    let script = spec_click_script(id);
    let head = CLICK_SCRIPT_HEAD@;
    let tail = CLICK_SCRIPT_TAIL@;
    let d = decimal(id as nat);
    lemma_decimal_denotes(id as nat);
    lemma_decimal_nonempty(id as nat);
    assert(script.subrange(0, head.len() as int) =~= head);
    assert(script.subrange(script.len() - tail.len(), script.len() as int) =~= tail);
    assert(script.subrange(head.len() as int, script.len() - tail.len()) =~= d);
}

/// A click on one notification never opens another: different notifications
/// get different scripts.
pub proof fn lemma_click_scripts_distinct(a: u64, b: u64)
    requires
        a != b,
    ensures
        spec_click_script(a) != spec_click_script(b),
{
    if spec_click_script(a) == spec_click_script(b) {
        let head = CLICK_SCRIPT_HEAD@;
        let tail = CLICK_SCRIPT_TAIL@;
        let sa = spec_click_script(a);
        let sb = spec_click_script(b);
        assert(sa.len() == sb.len());
        assert(decimal(a as nat).len() == decimal(b as nat).len());
        assert(decimal(a as nat) =~= sa.subrange(head.len() as int, (head.len() + decimal(a as nat).len()) as int));
        assert(decimal(b as nat) =~= sb.subrange(head.len() as int, (head.len() + decimal(b as nat).len()) as int));
        lemma_decimal_injective(a as nat, b as nat);
    }
}

} // verus!
