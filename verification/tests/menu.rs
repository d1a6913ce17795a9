use air_hockey::menu::{control_code, Choice, ChoiceKeys, Chosen, EditKeys, Menu};

const NO_CHOICE: ChoiceKeys = ChoiceKeys { down: false, up: false, enter: false };
const NO_EDIT: EditKeys =
    EditKeys { typed: None, backspace: false, delete: false, enter: false, escape: false };

fn focused() -> Menu {
    let mut menu = Menu::new();
    let chosen = menu.navigate(ChoiceKeys { down: true, up: false, enter: true });
    assert_eq!(chosen, Chosen::FocusField);
    menu
}

fn typing(c: char) -> EditKeys {
    EditKeys { typed: Some(c), ..NO_EDIT }
}

#[test]
fn menu_starts_on_host() {
    let menu = Menu::new();
    assert_eq!(menu.choice(), Choice::Host);
    assert_eq!(menu.text(), "127.0.0.1:3456");
    assert!(!menu.is_active());
}

#[test]
fn down_and_up_go_round() {
    let mut menu = Menu::new();
    for down in [true, false] {
        let keys = ChoiceKeys { down, up: !down, enter: false };
        assert_eq!(menu.navigate(keys), Chosen::Nothing);
        assert_eq!(menu.choice(), Choice::Connect);
        assert_eq!(menu.navigate(keys), Chosen::Nothing);
        assert_eq!(menu.choice(), Choice::Host);
    }
    menu.navigate(ChoiceKeys { down: true, up: true, enter: false });
    assert_eq!(menu.choice(), Choice::Host);
    menu.navigate(NO_CHOICE);
    assert_eq!(menu.choice(), Choice::Host);
}

#[test]
fn enter_opens_a_match_or_the_field() {
    let mut menu = Menu::new();
    let enter = ChoiceKeys { enter: true, ..NO_CHOICE };
    assert_eq!(menu.navigate(enter), Chosen::OpenMatch);
    assert!(!menu.is_active());
    assert!(focused().is_active());
    assert_eq!(focused().choice(), Choice::Connect);
}

#[test]
fn the_enter_that_opens_the_field_does_not_submit() {
    let mut menu = focused();
    let out = menu.edit(EditKeys { enter: true, ..NO_EDIT });
    assert_eq!(out.by_enter, None);
    assert_eq!(out.by_line_end, None);
    assert_eq!(menu.text(), "127.0.0.1:3456");
    assert!(menu.is_fresh());
    menu.edit(typing('1'));
    assert!(!menu.is_fresh());
}

#[test]
fn a_typed_line_end_submits() {
    for c in ['\r', '\n'] {
        let out = focused().edit(typing(c));
        assert_eq!(out.by_line_end.as_deref(), Some("127.0.0.1:3456"));
        assert_eq!(out.by_enter, None);
    }
    let mut menu = focused();
    let out = menu.edit(EditKeys { typed: Some('\r'), enter: true, ..NO_EDIT });
    assert_eq!(out.by_line_end.as_deref(), Some("127.0.0.1:3456"));
    assert_eq!(out.by_enter.as_deref(), Some("127.0.0.1:3456"));
}

#[test]
fn enter_submits_what_was_written() {
    let mut menu = focused();
    let out = menu.edit(EditKeys { typed: Some('7'), enter: true, ..NO_EDIT });
    assert_eq!(out.by_enter.as_deref(), Some("127.0.0.1:34567"));
    assert_eq!(out.by_line_end, None);
}

#[test]
fn typing_and_erasing() {
    let mut menu = focused();
    menu.edit(typing('0'));
    assert_eq!(menu.text(), "127.0.0.1:34560");
    menu.edit(EditKeys { backspace: true, ..NO_EDIT });
    assert_eq!(menu.text(), "127.0.0.1:3456");
    menu.edit(EditKeys { delete: true, ..NO_EDIT });
    assert_eq!(menu.text(), "127.0.0.1:345");
    menu.edit(EditKeys { backspace: true, delete: true, ..NO_EDIT });
    assert_eq!(menu.text(), "127.0.0.1:3");
    menu.edit(typing('\u{7f}'));
    menu.edit(typing('\t'));
    assert_eq!(menu.text(), "127.0.0.1:3");
    menu.edit(typing('\u{e9}'));
    assert_eq!(menu.text(), "127.0.0.1:3\u{e9}");
}

#[test]
fn an_empty_field_submits_nothing() {
    let mut menu = focused();
    for _ in 0..20 {
        menu.edit(EditKeys { backspace: true, ..NO_EDIT });
    }
    assert_eq!(menu.text(), "");
    let out = menu.edit(EditKeys { typed: Some('\n'), enter: true, ..NO_EDIT });
    assert_eq!(out.by_line_end, None);
    assert_eq!(out.by_enter, None);
}

#[test]
fn escape_leaves_the_field() {
    let mut menu = focused();
    menu.edit(EditKeys { escape: true, ..NO_EDIT });
    assert!(!menu.is_active());
    assert_eq!(menu.text(), "127.0.0.1:3456");
}

#[test]
fn control_codes_are_those_of_unicode() {
    for n in 0..=0x10ffffu32 {
        if let Some(c) = char::from_u32(n) {
            assert_eq!(control_code(c), c.is_control(), "U+{n:04X}");
        }
    }
}
