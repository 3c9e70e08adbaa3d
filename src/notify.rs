use vstd::prelude::*;
use vstd::string::*;

use crate::store::{str_equal, KeyValueStore};

verus! {

/// How notifications are shown.
pub struct NotificationSettings {
    pub enabled: bool,
    pub sound_enabled: bool,
    pub show_preview: bool,
    pub suppress_when_focused: bool,
    pub quiet_hours_enabled: bool,
    /// Start of quiet hours, `HH:MM`.
    pub quiet_hours_start: Option<String>,
    /// End of quiet hours, `HH:MM`.
    pub quiet_hours_end: Option<String>,
}

/// The settings used while none are stored.
pub open spec fn is_default_settings(s: NotificationSettings) -> bool {
    &&& s.enabled
    &&& s.sound_enabled
    &&& s.show_preview
    &&& s.suppress_when_focused
    &&& !s.quiet_hours_enabled
    &&& s.quiet_hours_start is None
    &&& s.quiet_hours_end is None
}

impl Default for NotificationSettings {
    fn default() -> (r: Self)
        ensures
            is_default_settings(r),
    {
        NotificationSettings {
            enabled: true,
            sound_enabled: true,
            show_preview: true,
            suppress_when_focused: true,
            quiet_hours_enabled: false,
            quiet_hours_start: None,
            quiet_hours_end: None,
        }
    }
}

/// The settings in force: those stored, or the defaults where none are.
pub fn load_notification_settings(stored: Option<NotificationSettings>) -> (r:
    NotificationSettings)
    ensures
        stored matches Some(s) ==> r == s,
        stored is None ==> is_default_settings(r),
{
    match stored {
        Some(s) => s,
        None => NotificationSettings::default(),
    }
}

/// A notification to show.
pub struct NotificationData {
    pub id: String,
    pub title: String,
    pub body: String,
    pub chat_id: Option<String>,
    pub sender_id: Option<String>,
    /// `message`, `contact_request` or `group_invite`.
    pub notification_type: String,
    pub timestamp: u64,
}

/// What is kept of a shown notification to route a click on it.
pub struct ActionData {
    pub notification_id: String,
    pub notification_type: String,
    pub chat_id: Option<String>,
    pub sender_id: Option<String>,
}

pub open spec fn opt_view(o: Option<String>) -> Option<Seq<char>> {
    match o {
        Some(s) => Some(s@),
        None => None,
    }
}

/// The action data kept for `d`.
pub open spec fn action_of(a: ActionData, d: NotificationData) -> bool {
    &&& a.notification_id@ == d.id@
    &&& a.notification_type@ == d.notification_type@
    &&& opt_view(a.chat_id) == opt_view(d.chat_id)
    &&& opt_view(a.sender_id) == opt_view(d.sender_id)
}

/// Lexical order of strings, by character code.
pub open spec fn lex_le(a: Seq<char>, b: Seq<char>) -> bool
    decreases a.len(),
{
    if a.len() == 0 {
        true
    } else if b.len() == 0 {
        false
    } else if a[0] != b[0] {
        (a[0] as u32) < (b[0] as u32)
    } else {
        lex_le(a.drop_first(), b.drop_first())
    }
}

/// Whether `a` comes no later than `b` in lexical order.
pub fn lex_less_eq(a: &str, b: &str) -> (r: bool)
    ensures
        r == lex_le(a@, b@),
{
    let n = a.unicode_len();
    let m = b.unicode_len();
    let mut i: usize = 0;
    assert(a@.subrange(0, n as int) =~= a@);
    assert(b@.subrange(0, m as int) =~= b@);
    while i < n && i < m
        invariant
            n == a@.len(),
            m == b@.len(),
            i <= n,
            i <= m,
            lex_le(a@, b@) == lex_le(a@.subrange(i as int, n as int), b@.subrange(i as int, m as int)),
        decreases n - i,
    {
        let c = a.get_char(i);
        let d = b.get_char(i);
        let ghost sa = a@.subrange(i as int, n as int);
        let ghost sb = b@.subrange(i as int, m as int);
        assert(sa[0] == c && sb[0] == d);
        if c != d {
            return (c as u32) < (d as u32);
        }
        assert(sa.drop_first() =~= a@.subrange(i + 1, n as int));
        assert(sb.drop_first() =~= b@.subrange(i + 1, m as int));
        i = i + 1;
    }
    i == n
}

/// Why a notification is not shown, or that it is.
#[derive(PartialEq, Eq, Structural, Clone, Copy, Debug)]
pub enum Gate {
    /// Notifications are switched off.
    Disabled,
    /// The primary window has focus and notifications are suppressed then.
    Focused,
    /// The time of day falls within quiet hours.
    QuietHours,
    /// The notification is shown.
    Show,
}

/// Quiet hours hold at `now`: both bounds are set and `start <= now <= end` lexically.
/// A range that wraps past midnight never holds.
pub open spec fn in_quiet_hours(s: NotificationSettings, now: Seq<char>) -> bool {
    &&& s.quiet_hours_enabled
    &&& s.quiet_hours_start is Some
    &&& s.quiet_hours_end is Some
    &&& lex_le(s.quiet_hours_start->0@, now)
    &&& lex_le(now, s.quiet_hours_end->0@)
}

pub open spec fn gate_of(s: NotificationSettings, main_focused: bool, now: Seq<char>) -> Gate {
    if !s.enabled {
        Gate::Disabled
    } else if s.suppress_when_focused && main_focused {
        Gate::Focused
    } else if in_quiet_hours(s, now) {
        Gate::QuietHours
    } else {
        Gate::Show
    }
}

/// Nothing is shown while notifications are off, while the primary window has focus and
/// suppresses them, or while the time of day lies within quiet hours, bounds included.
pub proof fn lemma_gate_holds_back(s: NotificationSettings, main_focused: bool, now: Seq<char>)
    ensures
        !s.enabled ==> gate_of(s, main_focused, now) != Gate::Show,
        s.suppress_when_focused && main_focused ==> gate_of(s, main_focused, now) != Gate::Show,
        in_quiet_hours(s, now) ==> gate_of(s, main_focused, now) != Gate::Show,
        s.enabled && !(s.suppress_when_focused && main_focused) && !in_quiet_hours(s, now)
            ==> gate_of(s, main_focused, now) == Gate::Show,
{
}

/// Decides whether a notification is shown at time of day `now`, checking in turn that
/// notifications are on, that the primary window does not suppress them, and quiet hours.
pub fn notification_gate(settings: &NotificationSettings, main_focused: bool, now: &str) -> (r:
    Gate)
    ensures
        r == gate_of(*settings, main_focused, now@),
{
    if !settings.enabled {
        return Gate::Disabled;
    }
    if settings.suppress_when_focused && main_focused {
        return Gate::Focused;
    }
    if settings.quiet_hours_enabled {
        match (&settings.quiet_hours_start, &settings.quiet_hours_end) {
            (Some(start), Some(end)) => {
                if lex_less_eq(start.as_str(), now) && lex_less_eq(now, end.as_str()) {
                    return Gate::QuietHours;
                }
            },
            _ => {},
        }
    }
    Gate::Show
}

pub open spec fn placeholder_body() -> Seq<char> {
    seq!['N', 'e', 'w', ' ', 'm', 'e', 's', 's', 'a', 'g', 'e']
}

pub open spec fn body_of(s: NotificationSettings, d: NotificationData) -> Seq<char> {
    if s.show_preview {
        d.body@
    } else {
        placeholder_body()
    }
}

/// The body shown: the message itself, or `New message` where previews are off.
pub fn notification_body(settings: &NotificationSettings, data: &NotificationData) -> (r: String)
    ensures
        r@ == body_of(*settings, *data),
{
    if settings.show_preview {
        data.body.clone()
    } else {
        proof {
            reveal_strlit("New message");
        }
        "New message".to_owned()
    }
}

fn clone_opt(o: &Option<String>) -> (r: Option<String>)
    ensures
        opt_view(r) == opt_view(*o),
{
    match o {
        Some(s) => Some(s.clone()),
        None => None,
    }
}

/// The action data kept for a notification.
pub fn action_data(data: &NotificationData) -> (r: ActionData)
    ensures
        action_of(r, *data),
{
    ActionData {
        notification_id: data.id.clone(),
        notification_type: data.notification_type.clone(),
        chat_id: clone_opt(&data.chat_id),
        sender_id: clone_opt(&data.sender_id),
    }
}

/// A notification as the host shows it.
pub struct ShownNotification {
    pub title: String,
    pub body: String,
}

/// Shows `data` unless `notification_gate` withholds it. When shown, its action data is stored
/// under its id for click routing; otherwise the store keeps its contents.
pub fn show_notification(
    store: &mut KeyValueStore<ActionData>,
    settings: &NotificationSettings,
    main_focused: bool,
    now: &str,
    data: &NotificationData,
) -> (r: Option<ShownNotification>)
    requires
        old(store).wf(),
    ensures
        final(store).wf(),
        r is Some <==> gate_of(*settings, main_focused, now@) == Gate::Show,
        r is None ==> final(store)@ == old(store)@,
        r matches Some(n) ==> {
            &&& n.title@ == data.title@
            &&& n.body@ == body_of(*settings, *data)
            &&& final(store)@.dom() == old(store)@.dom().insert(data.id@)
            &&& action_of(final(store)@[data.id@], *data)
            &&& forall|k: Seq<char>|
                k != data.id@ && #[trigger] old(store)@.contains_key(k) ==> final(store)@[k]
                    == old(store)@[k]
        },
{
    if notification_gate(settings, main_focused, now) != Gate::Show {
        return None;
    }
    let body = notification_body(settings, data);
    let action = action_data(data);
    store.set(data.id.clone(), action);
    Some(ShownNotification { title: data.title.clone(), body })
}

/// A local time of day as `HH:MM`, hour below 24 and minute below 60.
pub open spec fn is_time_of_day(t: Seq<char>) -> bool {
    &&& t.len() == 5
    &&& t[2] == ':'
    &&& ('0' <= t[0] <= '1' && '0' <= t[1] <= '9' || t[0] == '2' && '0' <= t[1] <= '3')
    &&& '0' <= t[3] <= '5'
    &&& '0' <= t[4] <= '9'
}

/// The local time of day.
/// Relies on chrono's `Local::now` and `format("%H:%M")`: hour and minute, each as two
/// zero-padded digits, joined by a colon.
#[verifier::external_body]
fn current_time_of_day() -> (r: String)
    ensures
        is_time_of_day(r@),
{
    chrono::Local::now().format("%H:%M").to_string()
}

/// Shows `data` as `show_notification` does, at the current local time of day. Whatever
/// the time, nothing is shown while notifications are off or suppressed by focus.
pub fn show_notification_now(
    store: &mut KeyValueStore<ActionData>,
    settings: &NotificationSettings,
    main_focused: bool,
    data: &NotificationData,
) -> (r: Option<ShownNotification>)
    requires
        old(store).wf(),
    ensures
        final(store).wf(),
        r is Some ==> settings.enabled && !(settings.suppress_when_focused && main_focused),
        r is None ==> final(store)@ == old(store)@,
        r matches Some(n) ==> {
            &&& n.title@ == data.title@
            &&& n.body@ == body_of(*settings, *data)
            &&& final(store)@.dom() == old(store)@.dom().insert(data.id@)
            &&& action_of(final(store)@[data.id@], *data)
            &&& forall|k: Seq<char>|
                k != data.id@ && #[trigger] old(store)@.contains_key(k) ==> final(store)@[k]
                    == old(store)@[k]
        },
        exists|t: Seq<char>|
            is_time_of_day(t) && (r is Some <==> gate_of(*settings, main_focused, t)
                == Gate::Show),
{
    let now = current_time_of_day();
    show_notification(store, settings, main_focused, now.as_str(), data)
}

/// The kinds of notification that a click is routed by.
#[derive(PartialEq, Eq, Structural, Clone, Copy, Debug)]
pub enum NotificationKind {
    Message,
    ContactRequest,
    GroupInvite,
    /// Any other tag.
    Unknown,
}

pub open spec fn kind_of(tag: Seq<char>) -> NotificationKind {
    if tag == seq!['m', 'e', 's', 's', 'a', 'g', 'e'] {
        NotificationKind::Message
    } else if tag == seq![
        'c',
        'o',
        'n',
        't',
        'a',
        'c',
        't',
        '_',
        'r',
        'e',
        'q',
        'u',
        'e',
        's',
        't',
    ] {
        NotificationKind::ContactRequest
    } else if tag == seq!['g', 'r', 'o', 'u', 'p', '_', 'i', 'n', 'v', 'i', 't', 'e'] {
        NotificationKind::GroupInvite
    } else {
        NotificationKind::Unknown
    }
}

/// The kind named by a notification type tag.
pub fn notification_kind(tag: &str) -> (r: NotificationKind)
    ensures
        r == kind_of(tag@),
{
    proof {
        reveal_strlit("message");
        reveal_strlit("contact_request");
        reveal_strlit("group_invite");
        assert("message"@ =~= seq!['m', 'e', 's', 's', 'a', 'g', 'e']);
        assert("contact_request"@ =~= seq![
            'c', 'o', 'n', 't', 'a', 'c', 't', '_', 'r', 'e', 'q', 'u', 'e', 's', 't',
        ]);
        assert("group_invite"@ =~= seq!['g', 'r', 'o', 'u', 'p', '_', 'i', 'n', 'v', 'i', 't', 'e']);
    }
    if str_equal(tag, "message") {
        NotificationKind::Message
    } else if str_equal(tag, "contact_request") {
        NotificationKind::ContactRequest
    } else if str_equal(tag, "group_invite") {
        NotificationKind::GroupInvite
    } else {
        NotificationKind::Unknown
    }
}

/// Where a click on a notification leads. Every route ends with the primary window
/// shown and focused.
pub enum ClickRoute {
    /// Open or focus the chat window for this chat.
    OpenChat { chat_id: String },
    /// Tell the interface to show contact requests.
    ContactRequests,
    /// Tell the interface to show group invites.
    GroupInvites,
    /// Only show the primary window.
    RestoreOnly,
}

/// `route` is where a click on a notification with action data `a` leads.
pub open spec fn routes_to(a: ActionData, route: ClickRoute) -> bool {
    match kind_of(a.notification_type@) {
        NotificationKind::Message => match a.chat_id {
            Some(c) => route matches ClickRoute::OpenChat { chat_id } && chat_id@ == c@,
            None => route is RestoreOnly,
        },
        NotificationKind::ContactRequest => route is ContactRequests,
        NotificationKind::GroupInvite => route is GroupInvites,
        NotificationKind::Unknown => route is RestoreOnly,
    }
}

/// Routes a click by the notification's type.
pub fn route_click(action: &ActionData) -> (r: ClickRoute)
    ensures
        routes_to(*action, r),
{
    match notification_kind(action.notification_type.as_str()) {
        NotificationKind::Message => match &action.chat_id {
            Some(c) => ClickRoute::OpenChat { chat_id: c.clone() },
            None => ClickRoute::RestoreOnly,
        },
        NotificationKind::ContactRequest => ClickRoute::ContactRequests,
        NotificationKind::GroupInvite => ClickRoute::GroupInvites,
        NotificationKind::Unknown => ClickRoute::RestoreOnly,
    }
}

pub open spec fn route_event(route: ClickRoute) -> Option<Seq<char>> {
    match route {
        ClickRoute::ContactRequests => Some(
            seq![
                's',
                'h',
                'o',
                'w',
                '-',
                'c',
                'o',
                'n',
                't',
                'a',
                'c',
                't',
                '-',
                'r',
                'e',
                'q',
                'u',
                'e',
                's',
                't',
                's',
            ],
        ),
        ClickRoute::GroupInvites => Some(
            seq![
                's',
                'h',
                'o',
                'w',
                '-',
                'g',
                'r',
                'o',
                'u',
                'p',
                '-',
                'i',
                'n',
                'v',
                'i',
                't',
                'e',
                's',
            ],
        ),
        _ => None,
    }
}

impl ClickRoute {
    /// The event sent to the interface for this route, if any.
    pub fn event_name(&self) -> (r: Option<String>)
        ensures
            opt_view(r) == route_event(*self),
    {
        proof {
            reveal_strlit("show-contact-requests");
            reveal_strlit("show-group-invites");
        }
        match self {
            ClickRoute::ContactRequests => Some("show-contact-requests".to_owned()),
            ClickRoute::GroupInvites => Some("show-group-invites".to_owned()),
            _ => None,
        }
    }
}

/// Handles a click on the notification `notification_id`: where action data is stored
/// for it, returns its route and deletes the record; otherwise does nothing.
pub fn handle_notification_click(store: &mut KeyValueStore<ActionData>, notification_id: &str) -> (r:
    Option<ClickRoute>)
    requires
        old(store).wf(),
    ensures
        final(store).wf(),
        r is Some <==> old(store)@.contains_key(notification_id@),
        r matches Some(route) ==> routes_to(old(store)@[notification_id@], route),
        final(store)@ == old(store)@.remove(notification_id@),
        !final(store)@.contains_key(notification_id@),
{
    let route = match store.get(notification_id) {
        Some(action) => Some(route_click(action)),
        None => None,
    };
    store.delete(notification_id);
    route
}

/// Forgets every stored notification.
pub fn clear_all_notifications(store: &mut KeyValueStore<ActionData>)
    ensures
        final(store).wf(),
        final(store)@ == Map::<Seq<char>, ActionData>::empty(),
{
    store.clear();
}

/// Whether the user lets the application show notifications.
#[derive(PartialEq, Eq, Structural, Clone, Copy, Debug)]
pub enum PermissionState {
    Granted,
    Denied,
    Prompt,
    PromptWithRationale,
}

pub open spec fn permission_text(p: PermissionState) -> Seq<char> {
    match p {
        PermissionState::Granted => seq!['g', 'r', 'a', 'n', 't', 'e', 'd'],
        PermissionState::Denied => seq!['d', 'e', 'n', 'i', 'e', 'd'],
        PermissionState::Prompt => seq!['p', 'r', 'o', 'm', 'p', 't'],
        PermissionState::PromptWithRationale => seq![
            'p',
            'r',
            'o',
            'm',
            'p',
            't',
            '-',
            'w',
            'i',
            't',
            'h',
            '-',
            'r',
            'a',
            't',
            'i',
            'o',
            'n',
            'a',
            'l',
            'e',
        ],
    }
}

/// The name under which a permission state is reported to the interface.
pub fn permission_name(p: PermissionState) -> (r: String)
    ensures
        r@ == permission_text(p),
{
    proof {
        reveal_strlit("granted");
        reveal_strlit("denied");
        reveal_strlit("prompt");
        reveal_strlit("prompt-with-rationale");
    }
    match p {
        PermissionState::Granted => "granted".to_owned(),
        PermissionState::Denied => "denied".to_owned(),
        PermissionState::Prompt => "prompt".to_owned(),
        PermissionState::PromptWithRationale => "prompt-with-rationale".to_owned(),
    }
}

} // verus!
