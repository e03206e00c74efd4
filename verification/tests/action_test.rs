use togen::action::contains_bytes;
use togen::action::DEVICE_KEYBOARD;
use togen::action::DEVICE_OTHER;
use togen::action::DEVICE_POINTER;
use togen::ToGen;

#[test]
fn action_meta_key_down() {
    assert_eq!(ToGen::new_action("KeyDown").get_meta(), 1);
}

#[test]
fn action_meta_mouse_click() {
    assert_eq!(ToGen::new_action("MouseClick").get_meta(), 2);
}

#[test]
fn action_meta_idle() {
    assert_eq!(ToGen::new_action("Idle").get_meta(), 0);
}

#[test]
fn scenario_action_key_a() {
    let input = "ACT:Key_A";
    let command = &input[4..];
    let t = ToGen::new_action(command);
    assert_eq!(t.get_header(), 0x05);
    assert_eq!(t.get_meta(), 1);
    assert_eq!(t.get_semantico(), 0x0450_9e41);
    assert_eq!(t.get_estructural(), 0x322c_e801);
    assert_eq!(t.get_exacto(), xxhash_rust::xxh3::xxh3_64(b"Key_A") >> 16);
}

#[test]
fn device_class_constants() {
    assert_eq!(DEVICE_KEYBOARD, 1);
    assert_eq!(DEVICE_POINTER, 2);
    assert_eq!(DEVICE_OTHER, 0);
}

#[test]
fn device_class_of_commands() {
    assert_eq!(ToGen::calculate_device_class("Key"), 1);
    assert_eq!(ToGen::calculate_device_class("PressKey"), 1);
    assert_eq!(ToGen::calculate_device_class("Click"), 2);
    assert_eq!(ToGen::calculate_device_class("MouseMove"), 2);
    assert_eq!(ToGen::calculate_device_class("Move_10_20"), 2);
    assert_eq!(ToGen::calculate_device_class(""), 0);
    assert_eq!(ToGen::calculate_device_class("Scroll"), 0);
}

#[test]
fn device_class_keyboard_wins_over_pointer() {
    assert_eq!(ToGen::calculate_device_class("ClickKey"), 1);
    assert_eq!(ToGen::calculate_device_class("KeyMove"), 1);
}

#[test]
fn device_class_is_case_sensitive_and_needs_the_whole_word() {
    assert_eq!(ToGen::calculate_device_class("key"), 0);
    assert_eq!(ToGen::calculate_device_class("KEY"), 0);
    assert_eq!(ToGen::calculate_device_class("Ke"), 0);
    assert_eq!(ToGen::calculate_device_class("K_e_y"), 0);
    assert_eq!(ToGen::calculate_device_class("click"), 0);
    assert_eq!(ToGen::calculate_device_class("Clic"), 0);
    assert_eq!(ToGen::calculate_device_class("Mov"), 0);
}

#[test]
fn action_of_the_empty_command() {
    let t = ToGen::new_action("");
    assert_eq!(t.get_header(), 0x05);
    assert_eq!(t.get_meta(), 0);
    assert_eq!(t.get_semantico(), 0);
    assert_eq!(t.get_estructural(), 0);
}

#[test]
fn contains_bytes_finds_runs() {
    assert!(contains_bytes(b"hello", b"ell"));
    assert!(contains_bytes(b"hello", b"hello"));
    assert!(contains_bytes(b"hello", b"h"));
    assert!(contains_bytes(b"hello", b"o"));
    assert!(contains_bytes(b"aab", b"ab"));
    assert!(!contains_bytes(b"hello", b"hex"));
    assert!(!contains_bytes(b"hello", b"hello!"));
    assert!(!contains_bytes(b"hello", b"lo "));
    assert!(!contains_bytes(b"", b"a"));
}

#[test]
fn contains_bytes_with_the_empty_needle() {
    assert!(contains_bytes(b"hello", b""));
    assert!(contains_bytes(b"", b""));
}

#[test]
fn contains_bytes_agrees_with_str_contains() {
    let hays = ["KeyDown", "MouseClick", "Idle", "xxKeyxx", "KeKeyy", "", "Móve", "AMoveB"];
    let needles = ["Key", "Click", "Move"];
    for hay in hays {
        for needle in needles {
            assert_eq!(contains_bytes(hay.as_bytes(), needle.as_bytes()), hay.contains(needle));
        }
    }
}
