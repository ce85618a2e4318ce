use lindqvist_ice::menu::menu_action;
use lindqvist_ice::menu::MenuAction;

#[test]
fn menu_zero_exits() {
    assert_eq!(menu_action(b"0"), MenuAction::Exit);
}

#[test]
fn menu_one_calculates() {
    assert_eq!(menu_action(b"1"), MenuAction::Calculate);
}

#[test]
fn menu_other_choices_are_invalid() {
    assert_eq!(menu_action(b"2"), MenuAction::Invalid);
    assert_eq!(menu_action(b""), MenuAction::Invalid);
    assert_eq!(menu_action(b"01"), MenuAction::Invalid);
    assert_eq!(menu_action(b"10"), MenuAction::Invalid);
    assert_eq!(menu_action(b"x"), MenuAction::Invalid);
}
