use vstd::prelude::*;

use crate::label::{
    chat_label,
    chat_route,
    chat_title,
    chat_window_label,
    chat_window_route,
    chat_window_title,
    main_label,
    main_window_label,
};
use crate::store::str_equal;

verus! {

/// Width of a new chat window.
pub const CHAT_WIDTH: u32 = 600;

/// Height of a new chat window.
pub const CHAT_HEIGHT: u32 = 500;

/// Smallest width a chat window may be resized to.
pub const CHAT_MIN_WIDTH: u32 = 400;

/// Smallest height a chat window may be resized to.
pub const CHAT_MIN_HEIGHT: u32 = 300;

/// An open host window: its label and whether it is shown.
pub struct HostWindow {
    pub label: String,
    pub visible: bool,
}

/// How a new chat window is to be built.
pub struct ChatWindowSpec {
    pub label: String,
    pub title: String,
    pub route: String,
    pub width: u32,
    pub height: u32,
    pub min_width: u32,
    pub min_height: u32,
    pub resizable: bool,
    pub centered: bool,
}

/// What the host does for a request to open a chat window.
pub enum ChatWindowAction {
    /// The window is open already: bring it to the front.
    Focus { label: String },
    /// Build a new window.
    Create { spec: ChatWindowSpec },
}

/// What the host does when a window asks to be closed.
#[derive(PartialEq, Eq, Structural, Clone, Copy, Debug)]
pub enum CloseDecision {
    /// Let the window close.
    Close,
    /// Hide the window and veto the close.
    HideInstead,
}

/// Labels of open windows, each with its visibility.
pub type WindowsView = Seq<(Seq<char>, bool)>;

pub open spec fn has_label(s: WindowsView, l: Seq<char>) -> bool {
    exists|i: int| 0 <= i < s.len() && s[i].0 == l
}

pub open spec fn is_visible(s: WindowsView, l: Seq<char>) -> bool {
    exists|i: int| 0 <= i < s.len() && s[i].0 == l && s[i].1
}

pub open spec fn distinct_labels(s: WindowsView) -> bool {
    forall|i: int, j: int| 0 <= i < j < s.len() ==> s[i].0 != s[j].0
}

/// The windows after a request to open the chat window for `id`.
pub open spec fn create_step(s: WindowsView, id: Seq<char>) -> WindowsView {
    if has_label(s, chat_label(id)) {
        s
    } else {
        s.push((chat_label(id), true))
    }
}

/// The decision for a close request on the window labelled `l`.
pub open spec fn close_decision_of(l: Seq<char>) -> CloseDecision {
    if l == main_label() {
        CloseDecision::HideInstead
    } else {
        CloseDecision::Close
    }
}

/// The primary window is hidden instead of closed; any other window closes.
pub fn close_decision(label: &str) -> (r: CloseDecision)
    ensures
        r == close_decision_of(label@),
{
    let main = main_window_label();
    if str_equal(label, main.as_str()) {
        CloseDecision::HideInstead
    } else {
        CloseDecision::Close
    }
}

proof fn lemma_absent_hidden(s: WindowsView, l: Seq<char>)
    ensures
        is_visible(s, l) ==> has_label(s, l),
{
    if is_visible(s, l) {
        let i = choose|i: int| 0 <= i < s.len() && s[i].0 == l && s[i].1;
        assert(s[i].0 == l);
    }
}

proof fn lemma_update(s: WindowsView, i: int, v: bool)
    requires
        distinct_labels(s),
        0 <= i < s.len(),
    ensures
        distinct_labels(s.update(i, (s[i].0, v))),
        has_label(s.update(i, (s[i].0, v)), s[i].0),
        is_visible(s.update(i, (s[i].0, v)), s[i].0) == v,
        forall|l: Seq<char>|
            #![trigger has_label(s.update(i, (s[i].0, v)), l)]
            has_label(s.update(i, (s[i].0, v)), l) == has_label(s, l),
        forall|l: Seq<char>|
            l != s[i].0 ==> #[trigger] is_visible(s.update(i, (s[i].0, v)), l) == is_visible(s, l),
{
    let t = s.update(i, (s[i].0, v));
    assert(t[i].0 == s[i].0);
    assert forall|l: Seq<char>| #[trigger] has_label(t, l) == has_label(s, l) by {
        if has_label(s, l) {
            let j = choose|j: int| 0 <= j < s.len() && s[j].0 == l;
            assert(t[j].0 == l);
        }
        if has_label(t, l) {
            let j = choose|j: int| 0 <= j < t.len() && t[j].0 == l;
            assert(s[j].0 == l);
        }
    }
    assert forall|l: Seq<char>| l != s[i].0 implies #[trigger] is_visible(t, l) == is_visible(s, l) by {
        if is_visible(s, l) {
            let j = choose|j: int| 0 <= j < s.len() && s[j].0 == l && s[j].1;
            assert(t[j] == s[j]);
        }
        if is_visible(t, l) {
            let j = choose|j: int| 0 <= j < t.len() && t[j].0 == l && t[j].1;
            assert(t[j] == s[j]);
        }
    }
    if v {
        assert(t[i].1);
    } else if is_visible(t, s[i].0) {
        let j = choose|j: int| 0 <= j < t.len() && t[j].0 == s[i].0 && t[j].1;
        assert(j == i);
    }
}

proof fn lemma_remove(s: WindowsView, i: int)
    requires
        distinct_labels(s),
        0 <= i < s.len(),
    ensures
        distinct_labels(s.remove(i)),
        !has_label(s.remove(i), s[i].0),
        forall|l: Seq<char>|
            l != s[i].0 ==> (#[trigger] has_label(s.remove(i), l) == has_label(s, l)
                && is_visible(s.remove(i), l) == is_visible(s, l)),
{
    let t = s.remove(i);
    assert(forall|j: int| 0 <= j < i ==> t[j] == s[j]);
    assert(forall|j: int| i <= j < t.len() ==> t[j] == s[j + 1]);
    if has_label(t, s[i].0) {
        let j = choose|j: int| 0 <= j < t.len() && t[j].0 == s[i].0;
        if j < i {
            assert(s[j].0 == s[i].0);
        } else {
            assert(s[j + 1].0 == s[i].0);
        }
    }
    assert forall|l: Seq<char>| l != s[i].0 implies (#[trigger] has_label(t, l) == has_label(s, l)
        && is_visible(t, l) == is_visible(s, l)) by {
        if has_label(s, l) {
            let j = choose|j: int| 0 <= j < s.len() && s[j].0 == l;
            if j < i {
                assert(t[j].0 == l);
            } else {
                assert(t[j - 1].0 == l);
            }
        }
        if is_visible(s, l) {
            let j = choose|j: int| 0 <= j < s.len() && s[j].0 == l && s[j].1;
            if j < i {
                assert(t[j] == s[j]);
            } else {
                assert(t[j - 1] == s[j]);
            }
        }
        if has_label(t, l) {
            let j = choose|j: int| 0 <= j < t.len() && t[j].0 == l;
            if j < i {
                assert(s[j].0 == l);
            } else {
                assert(s[j + 1].0 == l);
            }
        }
        if is_visible(t, l) {
            let j = choose|j: int| 0 <= j < t.len() && t[j].0 == l && t[j].1;
            if j < i {
                assert(s[j] == t[j]);
            } else {
                assert(s[j + 1] == t[j]);
            }
        }
    }
}

proof fn lemma_push(s: WindowsView, e: (Seq<char>, bool))
    requires
        distinct_labels(s),
        !has_label(s, e.0),
    ensures
        distinct_labels(s.push(e)),
        has_label(s.push(e), e.0),
        is_visible(s.push(e), e.0) == e.1,
        forall|l: Seq<char>|
            l != e.0 ==> (#[trigger] has_label(s.push(e), l) == has_label(s, l)
                && is_visible(s.push(e), l) == is_visible(s, l)),
{
    let t = s.push(e);
    assert(t[s.len() as int] == e);
    assert forall|j: int| 0 <= j < s.len() implies s[j].0 != e.0 by {
        if s[j].0 == e.0 {
            assert(has_label(s, e.0));
        }
    }
    if is_visible(t, e.0) {
        let j = choose|j: int| 0 <= j < t.len() && t[j].0 == e.0 && t[j].1;
        assert(j == s.len());
    }
    assert forall|l: Seq<char>| l != e.0 implies (#[trigger] has_label(t, l) == has_label(s, l)
        && is_visible(t, l) == is_visible(s, l)) by {
        if has_label(s, l) {
            let j = choose|j: int| 0 <= j < s.len() && s[j].0 == l;
            assert(t[j].0 == l);
        }
        if is_visible(s, l) {
            let j = choose|j: int| 0 <= j < s.len() && s[j].0 == l && s[j].1;
            assert(t[j] == s[j]);
        }
        if has_label(t, l) {
            let j = choose|j: int| 0 <= j < t.len() && t[j].0 == l;
            assert(s[j].0 == l);
        }
        if is_visible(t, l) {
            let j = choose|j: int| 0 <= j < t.len() && t[j].0 == l && t[j].1;
            assert(s[j] == t[j]);
        }
    }
}

/// The host's open windows.
pub struct WindowTable {
    windows: Vec<HostWindow>,
}

impl WindowTable {
    pub closed spec fn view(&self) -> WindowsView {
        self.windows@.map_values(|w: HostWindow| (w.label@, w.visible))
    }

    pub open spec fn wf(&self) -> bool {
        distinct_labels(self.view())
    }

    pub fn new() -> (r: Self)
        ensures
            r.wf(),
            r.view() == Seq::<(Seq<char>, bool)>::empty(),
    {
        let r = WindowTable { windows: Vec::new() };
        assert(r.view() =~= Seq::<(Seq<char>, bool)>::empty());
        r
    }

    fn position(&self, label: &str) -> (r: Option<usize>)
        ensures
            match r {
                Some(i) => i < self.view().len() && self.view()[i as int].0 == label@,
                None => !has_label(self.view(), label@),
            },
    {
        let mut i: usize = 0;
        while i < self.windows.len()
            invariant
                i <= self.windows@.len(),
                forall|j: int| 0 <= j < i ==> self.view()[j].0 != label@,
            decreases self.windows@.len() - i,
        {
            if str_equal(self.windows[i].label.as_str(), label) {
                return Some(i);
            }
            i = i + 1;
        }
        None
    }

    /// Whether a window labelled `label` is open.
    pub fn contains(&self, label: &str) -> (r: bool)
        ensures
            r == has_label(self.view(), label@),
    {
        self.position(label).is_some()
    }

    /// Records a window that the host reports, replacing an entry of the same label.
    pub fn insert(&mut self, label: String, visible: bool)
        requires
            old(self).wf(),
        ensures
            final(self).wf(),
            is_visible(final(self).view(), label@) == visible,
            has_label(final(self).view(), label@),
            forall|l: Seq<char>|
                l != label@ ==> (has_label(final(self).view(), l) == has_label(old(self).view(), l)
                    && is_visible(final(self).view(), l) == is_visible(old(self).view(), l)),
    {
        let ghost k = label@;
        match self.position(label.as_str()) {
            Some(i) => {
                self.windows.set(i, HostWindow { label, visible });
                assert(self.view() =~= old(self).view().update(i as int, (k, visible)));
                proof {
                    lemma_update(old(self).view(), i as int, visible);
                }
            },
            None => {
                self.windows.push(HostWindow { label, visible });
                assert(self.view() =~= old(self).view().push((k, visible)));
                proof {
                    lemma_push(old(self).view(), (k, visible));
                }
            },
        }
    }

    fn set_visible(&mut self, label: &str, visible: bool) -> (r: bool)
        requires
            old(self).wf(),
        ensures
            final(self).wf(),
            r == has_label(old(self).view(), label@),
            forall|l: Seq<char>|
                #![trigger has_label(final(self).view(), l)]
                has_label(final(self).view(), l) == has_label(old(self).view(), l),
            r ==> is_visible(final(self).view(), label@) == visible,
            !visible ==> !is_visible(final(self).view(), label@),
            forall|l: Seq<char>|
                l != label@ ==> #[trigger] is_visible(final(self).view(), l) == is_visible(
                    old(self).view(),
                    l,
                ),
    {
        match self.position(label) {
            Some(i) => {
                let name = self.windows[i].label.clone();
                self.windows.set(i, HostWindow { label: name, visible });
                assert(self.view() =~= old(self).view().update(i as int, (label@, visible)));
                proof {
                    lemma_update(old(self).view(), i as int, visible);
                }
                true
            },
            None => {
                assert(self.view() =~= old(self).view());
                proof {
                    lemma_absent_hidden(self.view(), label@);
                }
                false
            },
        }
    }

    /// Opens the chat window for `chat_id`, or focuses it where it is open already.
    pub fn create_chat_window(&mut self, chat_id: &str, contact_name: &str) -> (r:
        ChatWindowAction)
        requires
            old(self).wf(),
        ensures
            final(self).wf(),
            final(self).view() == create_step(old(self).view(), chat_id@),
            match r {
                ChatWindowAction::Focus { label } => has_label(old(self).view(), chat_label(chat_id@))
                    && label@ == chat_label(chat_id@),
                ChatWindowAction::Create { spec } => !has_label(
                    old(self).view(),
                    chat_label(chat_id@),
                ) && spec.label@ == chat_label(chat_id@) && spec.title@ == chat_title(
                    contact_name@,
                ) && spec.route@ == chat_route(chat_id@) && spec.width == CHAT_WIDTH && spec.height
                    == CHAT_HEIGHT && spec.min_width == CHAT_MIN_WIDTH && spec.min_height
                    == CHAT_MIN_HEIGHT && spec.resizable && spec.centered,
            },
    {
        let label = chat_window_label(chat_id);
        if self.contains(label.as_str()) {
            return ChatWindowAction::Focus { label };
        }
        let ghost k = label@;
        self.windows.push(HostWindow { label: label.clone(), visible: true });
        assert(self.view() =~= old(self).view().push((k, true)));
        proof {
            lemma_push(old(self).view(), (k, true));
        }
        ChatWindowAction::Create {
            spec: ChatWindowSpec {
                label,
                title: chat_window_title(contact_name),
                route: chat_window_route(chat_id),
                width: CHAT_WIDTH,
                height: CHAT_HEIGHT,
                min_width: CHAT_MIN_WIDTH,
                min_height: CHAT_MIN_HEIGHT,
                resizable: true,
                centered: true,
            },
        }
    }

    /// Closes the chat window for `chat_id` where one is open; returns its label then.
    pub fn close_chat_window(&mut self, chat_id: &str) -> (r: Option<String>)
        requires
            old(self).wf(),
        ensures
            final(self).wf(),
            r is Some <==> has_label(old(self).view(), chat_label(chat_id@)),
            r matches Some(l) ==> l@ == chat_label(chat_id@),
            !has_label(final(self).view(), chat_label(chat_id@)),
            forall|l: Seq<char>|
                l != chat_label(chat_id@) ==> (has_label(final(self).view(), l) == has_label(
                    old(self).view(),
                    l,
                ) && is_visible(final(self).view(), l) == is_visible(old(self).view(), l)),
    {
        let label = chat_window_label(chat_id);
        self.remove_label(label.as_str())
    }

    fn remove_label(&mut self, label: &str) -> (r: Option<String>)
        requires
            old(self).wf(),
        ensures
            final(self).wf(),
            r is Some <==> has_label(old(self).view(), label@),
            r matches Some(l) ==> l@ == label@,
            !has_label(final(self).view(), label@),
            forall|l: Seq<char>|
                l != label@ ==> (has_label(final(self).view(), l) == has_label(old(self).view(), l)
                    && is_visible(final(self).view(), l) == is_visible(old(self).view(), l)),
    {
        match self.position(label) {
            Some(i) => {
                let w = self.windows.remove(i);
                assert(self.view() =~= old(self).view().remove(i as int));
                proof {
                    lemma_remove(old(self).view(), i as int);
                }
                Some(w.label)
            },
            None => None,
        }
    }

    /// Handles a request to close the window labelled `label`: the primary window is
    /// hidden and stays open, any other window is closed.
    pub fn request_close(&mut self, label: &str) -> (r: CloseDecision)
        requires
            old(self).wf(),
        ensures
            final(self).wf(),
            r == close_decision_of(label@),
            label@ == main_label() ==> (forall|l: Seq<char>|
                #![trigger has_label(final(self).view(), l)]
                has_label(final(self).view(), l) == has_label(old(self).view(), l)) && !is_visible(
                final(self).view(),
                label@,
            ),
            label@ != main_label() ==> !has_label(final(self).view(), label@),
            forall|l: Seq<char>|
                l != label@ ==> (has_label(final(self).view(), l) == has_label(old(self).view(), l)
                    && is_visible(final(self).view(), l) == is_visible(old(self).view(), l)),
    {
        let d = close_decision(label);
        match d {
            CloseDecision::HideInstead => {
                self.set_visible(label, false);
            },
            CloseDecision::Close => {
                self.remove_label(label);
            },
        }
        d
    }

    /// Hides the window labelled `label`; returns whether it is open.
    pub fn minimize_to_tray(&mut self, label: &str) -> (r: bool)
        requires
            old(self).wf(),
        ensures
            final(self).wf(),
            r == has_label(old(self).view(), label@),
            forall|l: Seq<char>|
                #![trigger has_label(final(self).view(), l)]
                has_label(final(self).view(), l) == has_label(old(self).view(), l),
            !is_visible(final(self).view(), label@),
            forall|l: Seq<char>|
                l != label@ ==> #[trigger] is_visible(final(self).view(), l) == is_visible(
                    old(self).view(),
                    l,
                ),
    {
        self.set_visible(label, false)
    }

    /// Shows the primary window; returns whether it is open, in which case the host
    /// also gives it focus.
    pub fn restore_from_tray(&mut self) -> (r: bool)
        requires
            old(self).wf(),
        ensures
            final(self).wf(),
            r == has_label(old(self).view(), main_label()),
            forall|l: Seq<char>|
                #![trigger has_label(final(self).view(), l)]
                has_label(final(self).view(), l) == has_label(old(self).view(), l),
            r ==> is_visible(final(self).view(), main_label()),
            forall|l: Seq<char>|
                l != main_label() ==> #[trigger] is_visible(final(self).view(), l) == is_visible(
                    old(self).view(),
                    l,
                ),
    {
        let main = main_window_label();
        self.set_visible(main.as_str(), true)
    }
}

/// A second request for the same chat finds the window that the first one opened, so
/// it focuses that window and changes nothing.
pub proof fn lemma_create_twice_focuses(s: WindowsView, id: Seq<char>)
    ensures
        has_label(create_step(s, id), chat_label(id)),
        create_step(create_step(s, id), id) == create_step(s, id),
{
    if !has_label(s, chat_label(id)) {
        let t = s.push((chat_label(id), true));
        assert(t[s.len() as int].0 == chat_label(id));
    }
}

/// Requests to open and to close a chat derive the same label, so closing the chat that
/// was just opened leaves no window under that label, and the label is never the
/// primary window's.
pub proof fn lemma_create_close_agree(s: WindowsView, id: Seq<char>)
    ensures
        has_label(create_step(s, id), chat_label(id)),
        close_decision_of(chat_label(id)) == CloseDecision::Close,
{
    lemma_create_twice_focuses(s, id);
    crate::label::lemma_label_derivation(id);
}

} // verus!
