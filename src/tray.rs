use vstd::prelude::*;
use vstd::string::*;

use crate::label::push_char;

verus! {

pub open spec fn digit_char(d: nat) -> char {
    if d == 0 {
        '0'
    } else if d == 1 {
        '1'
    } else if d == 2 {
        '2'
    } else if d == 3 {
        '3'
    } else if d == 4 {
        '4'
    } else if d == 5 {
        '5'
    } else if d == 6 {
        '6'
    } else if d == 7 {
        '7'
    } else if d == 8 {
        '8'
    } else {
        '9'
    }
}

/// The decimal digits of `n`, without leading zeros.
pub open spec fn decimal(n: nat) -> Seq<char>
    decreases n,
{
    if n < 10 {
        seq![digit_char(n)]
    } else {
        decimal(n / 10).push(digit_char(n % 10))
    }
}

fn digit(d: u32) -> (r: char)
    requires
        d < 10,
    ensures
        r == digit_char(d as nat),
{
    if d == 0 {
        '0'
    } else if d == 1 {
        '1'
    } else if d == 2 {
        '2'
    } else if d == 3 {
        '3'
    } else if d == 4 {
        '4'
    } else if d == 5 {
        '5'
    } else if d == 6 {
        '6'
    } else if d == 7 {
        '7'
    } else if d == 8 {
        '8'
    } else {
        '9'
    }
}

fn push_decimal(s: &mut String, n: u32)
    ensures
        final(s)@ == old(s)@ + decimal(n as nat),
    decreases n,
{
    if n >= 10 {
        push_decimal(s, n / 10);
    }
    push_char(s, digit(n % 10));
    assert(decimal(n as nat) == if n < 10 {
        seq![digit_char(n as nat)]
    } else {
        decimal((n / 10) as nat).push(digit_char((n % 10) as nat))
    });
}

/// The decimal text of a count.
pub fn decimal_text(n: u32) -> (r: String)
    ensures
        r@ == decimal(n as nat),
{
    let mut r = String::new();
    push_decimal(&mut r, n);
    r
}

pub open spec fn app_name() -> Seq<char> {
    seq!['M', 'S', 'N', ' ', 'M', 'e', 's', 's', 'e', 'n', 'g', 'e', 'r']
}

/// The tray tooltip: the application's name, and the number of unread messages where
/// there are any.
pub open spec fn tooltip_text(count: nat) -> Seq<char> {
    if count > 0 {
        app_name() + seq![' ', '-', ' '] + decimal(count) + seq![
            ' ',
            'u',
            'n',
            'r',
            'e',
            'a',
            'd',
            ' ',
            'm',
            'e',
            's',
            's',
            'a',
            'g',
            'e',
            's',
        ]
    } else {
        app_name()
    }
}

/// The tray tooltip for `count` unread messages.
pub fn tray_tooltip(count: u32) -> (r: String)
    ensures
        r@ == tooltip_text(count as nat),
{
    proof {
        reveal_strlit("MSN Messenger");
        reveal_strlit(" - ");
        reveal_strlit(" unread messages");
        assert("MSN Messenger"@ =~= app_name());
        assert(" - "@ =~= seq![' ', '-', ' ']);
        assert(" unread messages"@ =~= seq![
            ' ', 'u', 'n', 'r', 'e', 'a', 'd', ' ', 'm', 'e', 's', 's', 'a', 'g', 'e', 's',
        ]);
    }
    let mut r = "MSN Messenger".to_owned();
    if count > 0 {
        r.append(" - ");
        let digits = decimal_text(count);
        r.append(digits.as_str());
        r.append(" unread messages");
    }
    r
}

/// The identifier of the application's one tray icon.
pub fn tray_id() -> (r: String)
    ensures
        r@ == "main-tray"@,
{
    "main-tray".to_owned()
}

/// An entry of the tray menu.
pub enum MenuEntry {
    Item { id: String, text: String },
    Separator,
}

pub open spec fn is_item(e: MenuEntry, id: Seq<char>, text: Seq<char>) -> bool {
    e matches MenuEntry::Item { id: i, text: t } && i@ == id && t@ == text
}

/// The tray menu: Show, a separator, Hide, a separator, Quit.
pub fn tray_menu() -> (r: Vec<MenuEntry>)
    ensures
        r@.len() == 5,
        is_item(r@[0], "show"@, "Show MSN Messenger"@),
        r@[1] is Separator,
        is_item(r@[2], "hide"@, "Hide to Tray"@),
        r@[3] is Separator,
        is_item(r@[4], "quit"@, "Quit"@),
{
    let mut r: Vec<MenuEntry> = Vec::new();
    r.push(MenuEntry::Item { id: "show".to_owned(), text: "Show MSN Messenger".to_owned() });
    r.push(MenuEntry::Separator);
    r.push(MenuEntry::Item { id: "hide".to_owned(), text: "Hide to Tray".to_owned() });
    r.push(MenuEntry::Separator);
    r.push(MenuEntry::Item { id: "quit".to_owned(), text: "Quit".to_owned() });
    r
}

#[derive(PartialEq, Eq, Structural, Clone, Copy, Debug)]
pub enum MouseButton {
    Left,
    Right,
    Middle,
}

#[derive(PartialEq, Eq, Structural, Clone, Copy, Debug)]
pub enum ButtonState {
    Up,
    Down,
}

/// A click on the tray icon shows the primary window when the left button is released.
pub fn tray_click_shows_main(button: MouseButton, state: ButtonState) -> (r: bool)
    ensures
        r == (button == MouseButton::Left && state == ButtonState::Up),
{
    button == MouseButton::Left && state == ButtonState::Up
}

} // verus!
