use wowint::actions::{KeywordIntegerAction, XboxIntegerAction, XboxIntegerActionEnum};
use wowint::keys::WowWindowKeyInt;

#[test]
fn key_codes_match_platform_values() {
    assert_eq!(WowWindowKeyInt::Backspace.key_code(), 8);
    assert_eq!(WowWindowKeyInt::Enter.key_code(), 13);
    assert_eq!(WowWindowKeyInt::Numpad4.key_code(), 100);
    assert_eq!(WowWindowKeyInt::Numpad8.key_code(), 104);
    assert_eq!(WowWindowKeyInt::NumLock.key_code(), 144);
    assert_eq!(WowWindowKeyInt::PA1.key_code(), 253);
}

#[test]
fn key_names_match_symbols() {
    assert_eq!(WowWindowKeyInt::LeftArrow.key_name(), "LeftArrow");
    assert_eq!(WowWindowKeyInt::Enter.key_name(), "Enter");
    assert_eq!(WowWindowKeyInt::OEM102.key_name(), "OEM102");
    assert_eq!(WowWindowKeyInt::ScrollLock.key_name(), "ScrollLock");
}

#[test]
fn key_code_feeds_press_code_arithmetic() {
    let press = WowWindowKeyInt::Numpad4.key_code() as i32 + 1000;
    assert_eq!(press, KeywordIntegerAction::NUMPAD4);
}

#[test]
fn keyboard_action_constants() {
    assert_eq!(KeywordIntegerAction::BACKSPACE, 1008);
    assert_eq!(KeywordIntegerAction::LEFT_ARROW, 1037);
    assert_eq!(KeywordIntegerAction::NUMPAD8, 1104);
    assert_eq!(KeywordIntegerAction::NUM_LOCK, 1144);
    assert_eq!(KeywordIntegerAction::PA1, 1253);
}

#[test]
fn gamepad_action_constants() {
    assert_eq!(XboxIntegerAction::PRESS_A, 1300);
    assert_eq!(XboxIntegerAction::SET_LEFT_STICK_UP, 1331);
    assert_eq!(XboxIntegerAction::RELEASE_ALL, 1390);
    assert_eq!(XboxIntegerAction::RANDOM_INPUT, 1399);
}

#[test]
fn gamepad_enum_codes_match_constants() {
    assert_eq!(XboxIntegerActionEnum::PressA.action_code(), XboxIntegerAction::PRESS_A);
    assert_eq!(
        XboxIntegerActionEnum::SetLeftStickUp.action_code(),
        XboxIntegerAction::SET_LEFT_STICK_UP
    );
    assert_eq!(
        XboxIntegerActionEnum::ClearTimedCommand.action_code(),
        XboxIntegerAction::CLEAR_TIMED_COMMAND
    );
    assert_eq!(XboxIntegerActionEnum::SetRightTrigger025.action_code(), 1389);
}

#[test]
fn gamepad_codes_stay_in_their_band() {
    let actions = [
        XboxIntegerActionEnum::RandomInput,
        XboxIntegerActionEnum::ReleaseAll,
        XboxIntegerActionEnum::PressA,
        XboxIntegerActionEnum::PressXboxHomeButton,
        XboxIntegerActionEnum::SetLeftStickNeutral,
        XboxIntegerActionEnum::SetRightTrigger025,
    ];
    for action in actions {
        let code = action.action_code();
        assert!((1300..=1399).contains(&code));
    }
}
