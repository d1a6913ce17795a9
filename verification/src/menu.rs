//! The menu before a match: a choice between opening one and joining one, and
//! the field for the address of the host to join.

use vstd::prelude::*;

verus! {

/// The two entries of the menu.
#[derive(Clone, Copy, Debug, PartialEq, Eq, Structural)]
pub enum Choice {
    Host,
    Connect,
}

/// What came of the keys that choose.
#[derive(Clone, Copy, Debug, PartialEq, Eq, Structural)]
pub enum Chosen {
    /// Nothing was entered.
    Nothing,
    /// A match is to be opened.
    OpenMatch,
    /// The address field has the keys; the rest of the frame is skipped.
    FocusField,
}

/// The keys that choose, as pressed in one frame.
#[derive(Clone, Copy, Debug, PartialEq, Eq, Structural)]
pub struct ChoiceKeys {
    pub down: bool,
    pub up: bool,
    pub enter: bool,
}

/// The keys that edit the address, as pressed in one frame.
#[derive(Clone, Copy, Debug, PartialEq, Eq, Structural)]
pub struct EditKeys {
    pub typed: Option<char>,
    pub backspace: bool,
    pub delete: bool,
    pub enter: bool,
    pub escape: bool,
}

/// The addresses that an edit submits: by a typed line end, and then by the
/// enter key.
#[derive(Debug, PartialEq, Eq)]
pub struct Submitted {
    pub by_line_end: Option<String>,
    pub by_enter: Option<String>,
}

/// `String::push`: the character comes after the others.
pub assume_specification[ String::push ](s: &mut String, c: char)
    ensures
        final(s)@ == old(s)@.push(c),
;

/// `String::pop`: takes the last character off, if there is one.
pub assume_specification[ String::pop ](s: &mut String) -> (r: Option<char>)
    ensures
        old(s)@.len() == 0 ==> r is None && final(s)@ == old(s)@,
        old(s)@.len() > 0 ==> r == Some(old(s)@.last()) && final(s)@ == old(s)@.drop_last(),
;

/// Whether a character is one of the control codes.
pub open spec fn is_control_code(c: char) -> bool {
    c as u32 <= 0x1f || 0x7f <= c as u32 <= 0x9f
}

/// Whether a character ends a line.
pub open spec fn is_line_end(c: char) -> bool {
    c == '\r' || c == '\n'
}

/// Whether the character is a control code.
pub fn control_code(c: char) -> (r: bool)
    ensures
        r == is_control_code(c),
{
    let code: u32 = c as u32;
    code <= 0x1f || (0x7f <= code && code <= 0x9f)
}

/// A text without its last character, if it has one.
pub open spec fn shortened(text: Seq<char>) -> Seq<char> {
    if text.len() == 0 {
        text
    } else {
        text.drop_last()
    }
}

/// All there is to know of the menu.
pub struct MenuView {
    pub choice: Choice,
    /// The text in the address field.
    pub text: Seq<char>,
    /// Whether the address field has the keys.
    pub active: bool,
    /// Whether it has them since the last enter, and nothing came since.
    pub fresh: bool,
}

/// An address as the sequence of its characters.
pub open spec fn spelled(address: Option<String>) -> Option<Seq<char>> {
    match address {
        Some(text) => Some(text@),
        None => None,
    }
}

impl MenuView {
    /// The menu as the program starts.
    pub open spec fn initial() -> MenuView {
        MenuView {
            choice: Choice::Host,
            text: "127.0.0.1:3456"@,
            active: false,
            fresh: false,
        }
    }

    /// The other entry of the menu.
    pub open spec fn other_choice(self) -> Choice {
        match self.choice {
            Choice::Host => Choice::Connect,
            Choice::Connect => Choice::Host,
        }
    }

    /// The menu after the keys that choose.
    pub open spec fn chosen(self, keys: ChoiceKeys) -> (MenuView, Chosen) {
        let moved = MenuView {
            choice: if keys.down != keys.up {
                self.other_choice()
            } else {
                self.choice
            },
            ..self
        };
        if !keys.enter {
            (moved, Chosen::Nothing)
        } else if moved.choice is Host {
            (moved, Chosen::OpenMatch)
        } else {
            (MenuView { active: true, fresh: true, ..moved }, Chosen::FocusField)
        }
    }

    /// The menu after a character was typed: one that is no control code is
    /// added to the text.
    pub open spec fn after_typing(self, typed: Option<char>) -> MenuView {
        match typed {
            Some(c) => MenuView {
                text: if is_control_code(c) {
                    self.text
                } else {
                    self.text.push(c)
                },
                fresh: false,
                ..self
            },
            None => self,
        }
    }

    /// The menu after the keys that erase, each of which takes a character.
    pub open spec fn after_erasing(self, backspace: bool, delete: bool) -> MenuView {
        let once = if backspace || delete {
            shortened(self.text)
        } else {
            self.text
        };
        MenuView {
            text: if backspace && delete {
                shortened(once)
            } else {
                once
            },
            fresh: self.fresh && !backspace && !delete,
            ..self
        }
    }

    /// The menu after typing and erasing, before the other keys.
    pub open spec fn written(self, keys: EditKeys) -> MenuView {
        self.after_typing(keys.typed).after_erasing(keys.backspace, keys.delete)
    }

    /// The menu after all keys that edit.
    pub open spec fn edited(self, keys: EditKeys) -> MenuView {
        let written = self.written(keys);
        MenuView {
            active: written.active && !keys.escape,
            fresh: written.fresh && !keys.escape,
            ..written
        }
    }

    /// Whether a typed line end submits the address.
    pub open spec fn line_end_submits(self, keys: EditKeys) -> bool {
        keys.typed is Some && is_line_end(keys.typed->0) && self.text.len() > 0
    }

    /// Whether the enter key submits the address: not the enter that gave the
    /// field the keys.
    pub open spec fn enter_submits(self, keys: EditKeys) -> bool {
        keys.enter && !self.written(keys).fresh && self.written(keys).text.len() > 0
    }

    /// The address that a typed line end submits.
    pub open spec fn line_end_address(self, keys: EditKeys) -> Option<Seq<char>> {
        if self.line_end_submits(keys) {
            Some(self.text)
        } else {
            None
        }
    }

    /// The address that the enter key submits.
    pub open spec fn enter_address(self, keys: EditKeys) -> Option<Seq<char>> {
        if self.enter_submits(keys) {
            Some(self.written(keys).text)
        } else {
            None
        }
    }

    /// What holds of every menu: the text has no control codes.
    pub open spec fn valid(self) -> bool {
        forall|i: int| 0 <= i < self.text.len() ==> !is_control_code(#[trigger] self.text[i])
    }
}

/// The menu.
#[derive(Debug)]
pub struct Menu {
    choice: Choice,
    text: String,
    active: bool,
    fresh: bool,
}

impl View for Menu {
    type V = MenuView;

    closed spec fn view(&self) -> MenuView {
        MenuView {
            choice: self.choice,
            text: self.text@,
            active: self.active,
            fresh: self.fresh,
        }
    }
}

impl Menu {
    /// The menu as the program starts.
    pub fn new() -> (r: Self)
        ensures
            r@ == MenuView::initial(),
            r@ == (MenuView {
                choice: Choice::Host,
                text: "127.0.0.1:3456"@,
                active: false,
                fresh: false,
            }),
            r@.valid(),
    {
        proof {
            reveal_strlit("127.0.0.1:3456");
        }
        Menu {
            choice: Choice::Host,
            text: "127.0.0.1:3456".to_owned(),
            active: false,
            fresh: false,
        }
    }

    pub fn choice(&self) -> (r: Choice)
        ensures
            r == self@.choice,
    {
        self.choice
    }

    pub fn text(&self) -> (r: &str)
        ensures
            r@ == self@.text,
    {
        self.text.as_str()
    }

    pub fn is_active(&self) -> (r: bool)
        ensures
            r == self@.active,
    {
        self.active
    }

    /// Whether the field has just been given the keys.
    pub fn is_fresh(&self) -> (r: bool)
        ensures
            r == self@.fresh,
    {
        self.fresh
    }

    fn toggle(&mut self)
        ensures
            final(self)@ == (MenuView { choice: old(self)@.other_choice(), ..old(self)@ }),
    {
        self.choice =
        match self.choice {
            Choice::Host => Choice::Connect,
            Choice::Connect => Choice::Host,
        };
    }

    /// Handles the keys that choose.
    pub fn navigate(&mut self, keys: ChoiceKeys) -> (r: Chosen)
        ensures
            (final(self)@, r) == old(self)@.chosen(keys),
    {
        if keys.down {
            self.toggle();
        }
        if keys.up {
            self.toggle();
        }
        if !keys.enter {
            Chosen::Nothing
        } else if self.choice == Choice::Host {
            Chosen::OpenMatch
        } else {
            self.active = true;
            self.fresh = true;
            Chosen::FocusField
        }
    }

    /// The text, unless it is empty.
    fn address(&self) -> (r: Option<String>)
        ensures
            r is Some == (self@.text.len() > 0),
            r is Some ==> r->0@ == self@.text,
    {
        if self.text.as_str().is_empty() {
            None
        } else {
            Some(self.text.clone())
        }
    }

    fn erase(&mut self)
        ensures
            final(self)@ == (MenuView {
                text: shortened(old(self)@.text),
                fresh: false,
                ..old(self)@
            }),
    {
        let _ = self.text.pop();
        self.fresh = false;
    }

    /// Handles the keys that edit the address, while the field has them, and
    /// says which addresses were submitted.
    pub fn edit(&mut self, keys: EditKeys) -> (r: Submitted)
        requires
            old(self)@.active,
        ensures
            final(self)@ == old(self)@.edited(keys),
            spelled(r.by_line_end) == old(self)@.line_end_address(keys),
            spelled(r.by_enter) == old(self)@.enter_address(keys),
            r.by_line_end is Some == old(self)@.line_end_submits(keys),
            r.by_line_end is Some ==> r.by_line_end->0@ == old(self)@.text,
            r.by_enter is Some == old(self)@.enter_submits(keys),
            r.by_enter is Some ==> r.by_enter->0@ == old(self)@.written(keys).text,
    {
        let mut by_line_end: Option<String> = None;
        let mut by_enter: Option<String> = None;
        if let Some(c) = keys.typed {
            if c == '\r' || c == '\n' {
                by_line_end = self.address();
            } else if !control_code(c) {
                self.text.push(c);
            }
            self.fresh = false;
        }
        if keys.backspace {
            self.erase();
        }
        if keys.delete {
            self.erase();
        }
        if keys.enter && !self.fresh {
            by_enter = self.address();
            self.fresh = false;
        }
        if keys.escape {
            self.active = false;
            self.fresh = false;
        }
        Submitted { by_line_end, by_enter }
    }
}

/// The keys that choose, and those that edit, keep the text free of control
/// codes.
pub proof fn menu_stays_valid(m: MenuView, choice: ChoiceKeys, keys: EditKeys)
    requires
        m.valid(),
    ensures
        m.chosen(choice).0.valid(),
        m.written(keys).valid(),
        m.edited(keys).valid(),
{
}

/// What is submitted is a text that is not empty and has no control codes.
pub proof fn submitted_addresses_are_printable(m: MenuView, keys: EditKeys)
    requires
        m.valid(),
    ensures
        m.line_end_submits(keys) ==> m.text.len() > 0 && m.valid(),
        m.enter_submits(keys) ==> m.written(keys).text.len() > 0 && m.written(keys).valid(),
{
    menu_stays_valid(m, ChoiceKeys { down: false, up: false, enter: false }, keys);
}

/// Going down and going up are the same step between two entries: two of
/// either, or one of each, lead back.
pub proof fn choosing_twice_leads_back(m: MenuView, down: bool)
    ensures
        ({
            let keys = ChoiceKeys { down, up: !down, enter: false };
            &&& m.chosen(keys).0.choice == m.other_choice()
            &&& m.chosen(keys).0.chosen(keys).0 == m
        }),
        m.chosen(ChoiceKeys { down: true, up: true, enter: false }).0 == m,
{
}

/// The enter that gives the field the keys submits nothing, nor does it when it
/// is still down in the next frame and nothing else has come.
pub proof fn focusing_does_not_submit(m: MenuView, choice: ChoiceKeys, enter: bool)
    requires
        m.chosen(choice).1 is FocusField,
    ensures
        ({
            let focused = m.chosen(choice).0;
            let keys = EditKeys {
                typed: None,
                backspace: false,
                delete: false,
                enter,
                escape: false,
            };
            &&& focused.active
            &&& focused.text == m.text
            &&& !focused.line_end_submits(keys)
            &&& !focused.enter_submits(keys)
            &&& focused.edited(keys) == focused
        }),
{
}

/// Erasing takes back what typing has added.
pub proof fn erasing_undoes_typing(m: MenuView, c: char)
    requires
        !is_control_code(c),
    ensures
        m.after_typing(Some(c)).text == m.text.push(c),
        m.after_typing(Some(c)).after_erasing(true, false).text == m.text,
        m.after_typing(Some(c)).after_erasing(false, true).text == m.text,
{
    assert(m.text.push(c).drop_last() =~= m.text);
}

/// The menu starts on hosting, with the address of this machine in a field that
/// has not got the keys.
pub proof fn menus_start_on_host()
    ensures
        MenuView::initial().choice == Choice::Host,
        MenuView::initial().text == "127.0.0.1:3456"@,
        !MenuView::initial().active,
        !MenuView::initial().fresh,
{
}

/// The control codes are the first 32 codes and those from 127 to 159, and the
/// line ends are two of them.
pub proof fn control_codes_are_two_blocks(c: char)
    ensures
        is_control_code(c) == ((c as u32) < 32 || 127 <= (c as u32) < 160),
        is_line_end(c) == (c as u32 == 13 || c as u32 == 10),
        is_line_end(c) ==> is_control_code(c),
{
}

/// One of the arrows, but not both, moves to the other entry; enter then opens a
/// match on the first, and gives the field the keys on the second; text and
/// field are otherwise let be.
pub proof fn arrows_move_and_enter_opens(m: MenuView, keys: ChoiceKeys)
    ensures
        ({
            let (n, chosen) = m.chosen(keys);
            &&& (n.choice == m.choice) == (keys.down == keys.up)
            &&& (chosen == Chosen::Nothing) == !keys.enter
            &&& (chosen == Chosen::OpenMatch) == (keys.enter && n.choice == Choice::Host)
            &&& (chosen == Chosen::FocusField) == (keys.enter && n.choice == Choice::Connect)
            &&& n.text == m.text
            &&& chosen == Chosen::FocusField ==> n.active && n.fresh
            &&& chosen != Chosen::FocusField ==> n.active == m.active && n.fresh == m.fresh
        }),
{
}

/// A frame's edit adds the character typed, if it is no control code, and then
/// takes off one character for each key that erases, as far as there are any.
pub proof fn edits_add_one_and_take_off(m: MenuView, keys: EditKeys)
    ensures
        ({
            let printable = keys.typed is Some && 32 <= (keys.typed->0 as u32) && !(127 <= (
            keys.typed->0 as u32) < 160);
            let grown = if printable {
                m.text.push(keys.typed->0)
            } else {
                m.text
            };
            let taken = (if keys.backspace {
                1int
            } else {
                0
            }) + (if keys.delete {
                1int
            } else {
                0
            });
            let kept = if grown.len() > taken {
                grown.len() - taken
            } else {
                0
            };
            &&& m.edited(keys).text == grown.take(kept)
            &&& m.edited(keys).choice == m.choice
            &&& m.edited(keys).active == (m.active && !keys.escape)
            &&& m.edited(keys).fresh == (m.fresh && keys.typed is None && !keys.backspace
                && !keys.delete && !keys.escape)
        }),
{
    let grown = m.after_typing(keys.typed).text;
    assert(grown.take(grown.len() as int) =~= grown);
    if grown.len() > 0 {
        assert(grown.take(grown.len() - 1) =~= grown.drop_last());
        if grown.len() > 1 {
            assert(grown.take(grown.len() - 2) =~= grown.drop_last().drop_last());
        }
    }
    assert(m.edited(keys).text =~= m.written(keys).text);
}

/// A typed carriage return or line feed submits the text the field had, if any;
/// nothing else is submitted that way.
pub proof fn line_ends_submit_the_text(m: MenuView, keys: EditKeys)
    ensures
        (keys.typed == Some('\r') || keys.typed == Some('\n')) && m.text.len() > 0
            ==> m.line_end_address(keys) == Some(m.text),
        !(keys.typed == Some('\r') || keys.typed == Some('\n')) || m.text.len() == 0
            ==> m.line_end_address(keys) is None,
{
}

/// The enter key submits the text as it is after the frame's other keys, if
/// there is any, once anything was typed or erased since the field got the
/// keys, in this frame or before; nothing else is submitted that way.
pub proof fn enter_submits_the_text(m: MenuView, keys: EditKeys)
    ensures
        ({
            let touched = !m.fresh || keys.typed is Some || keys.backspace || keys.delete;
            let text = m.edited(keys).text;
            &&& keys.enter && touched && text.len() > 0 ==> m.enter_address(keys) == Some(text)
            &&& !(keys.enter && touched && text.len() > 0) ==> m.enter_address(keys) is None
        }),
        keys.enter && !m.fresh && m.text.len() > 0 && keys.typed is None && !keys.backspace
            && !keys.delete ==> m.enter_address(keys) == Some(m.text),
{
}

/// What an edit does to the text, and what it submits, is the same whether the
/// field is left in that frame or not.
pub proof fn escape_only_leaves_the_field(m: MenuView, keys: EditKeys)
    ensures
        ({
            let staying = EditKeys { escape: false, ..keys };
            &&& m.edited(keys).text == m.edited(staying).text
            &&& m.line_end_address(keys) == m.line_end_address(staying)
            &&& m.enter_address(keys) == m.enter_address(staying)
            &&& m.edited(staying).active == m.active
            &&& keys.escape ==> !m.edited(keys).active && !m.edited(keys).fresh
        }),
{
}

/// Text typed frame by frame, without a control code among it, is in the field
/// as it was typed, and enter submits it.
pub proof fn typed_text_is_submitted(m: MenuView, c: char)
    requires
        !(c as u32 <= 31 || 127 <= c as u32 <= 159),
    ensures
        ({
            let none = EditKeys {
                typed: None,
                backspace: false,
                delete: false,
                enter: false,
                escape: false,
            };
            let n = m.edited(EditKeys { typed: Some(c), ..none });
            &&& n.text == m.text.push(c)
            &&& n.active == m.active
            &&& n.enter_address(EditKeys { enter: true, ..none }) == Some(m.text.push(c))
            &&& n.line_end_address(EditKeys { typed: Some('\r'), ..none }) == Some(m.text.push(c))
        }),
{
}

} // verus!
