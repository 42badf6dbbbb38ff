use ctru::applets::error::{Error as PopUpError, PopUp, WordWrap, ERROR_TEXT_LEN};
use ctru::applets::mii_selector::{
    launch_outcome, Index, LaunchError, MiiSelector, MiiSelectorReturn, MiiType, Options, SelectionResult,
};
use ctru::applets::swkbd::{
    button_from_result, decode_keyboard_text, shared_memory_layout, write_field, Button, ButtonConfig,
    CallbackResult, Error, Features, Filters, Kind, ParentalLock, PasswordMode, SoftwareKeyboard,
    SwkbdState, ValidInput, APPID_SOFTWARE_KEYBOARD, BUTTON_TEXT_LEN, CALLBACK_MSG_LEN, FILTER_CALLBACK, HINT_TEXT_LEN,
    LEARNING_DATA_SIZE, STATUS_DATA_SIZE, SWKBD_BANNED_INPUT, SWKBD_D0_CLICK, SWKBD_D1_CLICK0,
    SWKBD_D1_CLICK1, SWKBD_D2_CLICK1, SWKBD_HOMEPRESSED, SWKBD_OUTOFMEM, SWKBD_PARENTAL_FAIL,
    SWKBD_PARENTAL_OK,
};
use ctru::mii::MiiData;

fn blank_state() -> SwkbdState {
    SwkbdState {
        valid_input: 0,
        features: 0,
        password_mode: 0,
        numpad_left_key: 0,
        numpad_right_key: 0,
        filter_flags: 0,
        save_state_flags: 0,
        max_text_len: 10,
        dict_word_count: 0,
        max_digits: 0,
        button_text: vec![0xFFFF; 3 * BUTTON_TEXT_LEN],
        hint_text: vec![0xFFFF; HINT_TEXT_LEN],
        button_submits_text: vec![false; 4],
        initial_text_offset: -1,
        dict_offset: -1,
        initial_status_offset: -1,
        initial_learning_offset: -1,
        shared_memory_size: 0,
        result: -1,
        status_offset: -1,
        learning_offset: -1,
        text_offset: -1,
        text_length: 0,
        callback_result: 0,
        callback_msg: vec![0xFFFF; CALLBACK_MSG_LEN],
    }
}

#[test]
fn keyboard_results_to_buttons() {
    assert_eq!(button_from_result(SWKBD_D0_CLICK), Some(Button::Right));
    assert_eq!(button_from_result(SWKBD_D1_CLICK0), Some(Button::Left));
    assert_eq!(button_from_result(SWKBD_D1_CLICK1), Some(Button::Right));
    assert_eq!(button_from_result(SWKBD_D2_CLICK1), Some(Button::Middle));
    assert_eq!(button_from_result(SWKBD_HOMEPRESSED), None);
    let text: Vec<u16> = "hey".encode_utf16().collect();
    let (s, b) = SoftwareKeyboard::launch_outcome(SWKBD_D1_CLICK1, text).unwrap();
    assert_eq!((s.as_str(), b), ("hey", Button::Right));
    assert_eq!(SoftwareKeyboard::launch_outcome(SWKBD_OUTOFMEM, vec![]), Err(Error::OutOfMem));
    assert_eq!(SoftwareKeyboard::launch_outcome(SWKBD_BANNED_INPUT, vec![]), Err(Error::BannedInput));
    assert!(SoftwareKeyboard::is_known_result(SWKBD_D2_CLICK1));
    assert!(SoftwareKeyboard::is_known_result(SWKBD_HOMEPRESSED));
    assert!(!SoftwareKeyboard::is_known_result(-1));
    assert!(!SoftwareKeyboard::is_known_result(13));
}

#[test]
fn keyboard_errors() {
    assert_eq!(Error::from_result(3), Error::ButtonPressed);
    assert_eq!(Error::from_result(-2), Error::InvalidParameters);
    assert_eq!(i32::from(Error::PowerPressed), 12);
    assert_eq!(Error::HomePressed.to_display_string(), "home button pressed while software keyboard was running");
    assert_eq!(ParentalLock::launch_outcome(SWKBD_PARENTAL_OK), Ok(()));
    assert_eq!(ParentalLock::launch_outcome(SWKBD_PARENTAL_FAIL), Err(Error::ParentalFail));
}

#[test]
fn keyboard_text_decoding() {
    let units: Vec<u16> = "\u{1F496} ok".encode_utf16().collect();
    assert_eq!(decode_keyboard_text(units), "\u{1F496} ok");
    assert_eq!(decode_keyboard_text(vec![0x61, 0xD800]), "a\u{FFFD}");
}

#[test]
fn fields_truncate_with_nul() {
    let mut buf = vec![9u16; 6];
    write_field(&mut buf, 1, 4, &[1, 2, 3, 4, 5]);
    assert_eq!(buf, vec![9, 1, 2, 3, 0, 9]);
    let mut buf = vec![9u16; 6];
    write_field(&mut buf, 0, 6, &[7]);
    assert_eq!(buf, vec![7, 0, 9, 9, 9, 9]);
}

#[test]
fn keyboard_settings() {
    let mut kb = SoftwareKeyboard::from_state(blank_state());
    kb.set_hint_text(Some("Name"));
    assert_eq!(&kb.state().hint_text[..5], &[78, 97, 109, 101, 0]);
    kb.set_hint_text(None);
    assert_eq!(kb.state().hint_text[0], 0);
    kb.configure_button(Button::Middle, "A long button label", true);
    let mid = &kb.state().button_text[BUTTON_TEXT_LEN..2 * BUTTON_TEXT_LEN];
    let expected: Vec<u16> = "A long button la".encode_utf16().chain(std::iter::once(0)).collect();
    assert_eq!(mid, expected.as_slice());
    assert_eq!(kb.state().button_submits_text, vec![false, true, false, false]);
    kb.set_validation(ValidInput::NotBlank, Filters::from_bits_truncate(0xFF));
    assert_eq!((kb.state().valid_input, kb.state().filter_flags), (3, 0x1F));
    kb.set_max_text_len(20);
    assert_eq!((kb.state().max_text_len, kb.state().valid_input), (20, 4));
    kb.set_max_digits(3);
    assert_eq!(kb.state().max_digits, 3);
    assert_eq!(SoftwareKeyboard::numpad_keys(Some('-'), None), (45, 0));
    kb.set_numpad_keys(Some('.'), Some('-'));
    assert_eq!((kb.state().numpad_left_key, kb.state().numpad_right_key), (46, 45));
    kb.set_numpad_keys(None, None);
    assert_eq!((kb.state().numpad_left_key, kb.state().numpad_right_key), (0, 0));
    kb.set_features(Features::from_bits_truncate(0x8 | 0x20));
    assert_eq!(kb.state().features, 0x28);
    kb.set_password_mode(PasswordMode::Hide);
    assert_eq!(kb.state().password_mode, 1);
    assert_eq!(Features::from_bits_truncate(0xFFFF).bits(), 0x2FE);
    assert_eq!(u32::from(Kind::Numpad), 2);
    assert_eq!(i32::from(ButtonConfig::LeftMiddleRight), 3);
    assert_eq!(u32::from(PasswordMode::HideDelay), 2);
    assert_eq!(u32::from(CallbackResult::Close), 2);
}

#[test]
fn shared_memory_layouts() {
    let l = shared_memory_layout(10, 0, false, 0);
    assert_eq!((l.dict_off, l.status_off, l.learning_off, l.size), (24, 24, 24, 0x1000));
    assert_eq!((l.status_offset, l.learning_offset), (None, None));
    let l = shared_memory_layout(0xFFFF, 3, true, 3);
    let text = 2 * 0x10000;
    let dict = 166 * 3 + 2;
    assert_eq!(l.dict_off, text);
    assert_eq!(l.status_off, text + dict);
    assert_eq!(l.learning_off, text + dict + STATUS_DATA_SIZE);
    let after = text + dict + STATUS_DATA_SIZE + LEARNING_DATA_SIZE;
    assert_eq!(l.status_offset, Some(after));
    assert_eq!(l.learning_offset, Some(after + STATUS_DATA_SIZE));
    assert_eq!(l.size % 0x1000, 0);
    assert!(l.size >= after + STATUS_DATA_SIZE + LEARNING_DATA_SIZE);
}

#[test]
fn keyboard_launch_preparation() {
    let mut state = blank_state();
    state.save_state_flags = 1;
    state.initial_status_offset = 0;
    let mut kb = SoftwareKeyboard::from_state(state);
    kb.set_initial_text(Some(String::from("abcdefghijklmnop")));
    kb.set_filter_callback(true);
    let plan = kb.prepare_launch(true);
    assert!(plan.install_filter_callback);
    let expected: Vec<u16> = "abcdefghij".encode_utf16().chain(std::iter::once(0)).collect();
    assert_eq!(plan.initial_text, Some(expected));
    let s = kb.state();
    assert_eq!(s.initial_text_offset, 0);
    assert_eq!(s.dict_offset, 24);
    assert_eq!(s.initial_status_offset, 24);
    assert_eq!(s.status_offset, 24);
    assert_eq!(s.shared_memory_size, 0x1000);
    assert_eq!(s.filter_flags & FILTER_CALLBACK, FILTER_CALLBACK);
    kb.set_filter_callback(false);
    let plan = kb.prepare_launch(false);
    assert!(!plan.install_filter_callback);
    assert_eq!(kb.state().filter_flags & FILTER_CALLBACK, 0);
}

#[test]
fn filter_messages() {
    let mut state = blank_state();
    state.text_offset = 8;
    state.text_length = 2;
    let mut asked_with = String::new();
    let answered = SoftwareKeyboard::answer_message(
        &mut state,
        APPID_SOFTWARE_KEYBOARD,
        100,
        100,
        |offset, len| {
            assert_eq!((offset, len), (8, 2));
            vec![0x68, 0x69]
        },
        |text: String| {
            asked_with = text;
            (CallbackResult::Close, Some(String::from("No")))
        },
    );
    assert!(answered);
    assert_eq!(asked_with, "hi");
    assert_eq!(state.callback_result, 2);
    assert_eq!(&state.callback_msg[..3], &[78, 111, 0]);
    let before = state.clone();
    let mut called = false;
    let answered = SoftwareKeyboard::answer_message(&mut state, 0x406, 100, 100, |_, _| vec![], |_: String| {
        called = true;
        (CallbackResult::Accept, None)
    });
    assert!(!answered && !called);
    assert_eq!((state.callback_result, &state.callback_msg), (before.callback_result, &before.callback_msg));
    let answered = SoftwareKeyboard::answer_message(&mut state, APPID_SOFTWARE_KEYBOARD, 99, 100, |_, _| vec![], |_: String| {
        (CallbackResult::Accept, None)
    });
    assert!(!answered);
    assert_eq!(state.callback_result, 2);
    assert!(SoftwareKeyboard::asks_filter(APPID_SOFTWARE_KEYBOARD, 100, 100));
    assert!(!SoftwareKeyboard::asks_filter(APPID_SOFTWARE_KEYBOARD, 99, 100));
    assert!(!SoftwareKeyboard::asks_filter(0x406, 100, 100));
}

#[test]
fn filter_replies() {
    let mut state = blank_state();
    SoftwareKeyboard::filter_reply(&mut state, CallbackResult::Retry, Some("Try again"));
    assert_eq!(state.callback_result, 1);
    assert_eq!(&state.callback_msg[..10], &[84, 114, 121, 32, 97, 103, 97, 105, 110, 0]);
    SoftwareKeyboard::filter_reply(&mut state, CallbackResult::Accept, None);
    assert_eq!(state.callback_result, 0);
    assert_eq!(state.callback_msg[0], 84);
}

#[test]
fn popup_text_and_results() {
    let mut p = PopUp::new(WordWrap::Enabled);
    assert_eq!(p.word_wrap(), WordWrap::Enabled);
    assert!(p.write_text("Something went wrong").is_ok());
    let long: String = std::iter::repeat('x').take(ERROR_TEXT_LEN).collect();
    assert!(p.write_text(&long).is_err());
    assert_eq!(PopUp::launch_outcome(0), Ok(()));
    assert_eq!(PopUp::launch_outcome(1), Ok(()));
    assert_eq!(PopUp::launch_outcome(2), Err(PopUpError::NotSupported));
    assert_eq!(PopUp::launch_outcome(11), Err(PopUpError::ResetPressed));
    assert_eq!(PopUp::launch_outcome(99), Err(PopUpError::Unknown));
    assert_eq!(PopUpError::Unknown.to_display_string(), "an unknown error occurred");
    assert_eq!(u16::from(WordWrap::Enabled), 0x200);
}

fn blank_mii() -> MiiData {
    MiiData {
        mii_options: 0,
        mii_pos: 0,
        console_identity: 0,
        system_id: 0,
        mac: [0; 6],
        mii_details: 0,
        mii_name: [0; 10],
        height: 0,
        width: 0,
        face_style: 0,
        face_details: 0,
        hair_style: 0,
        hair_details: 0,
        eye_details: 0,
        eyebrow_details: 0,
        nose_details: 0,
        mouth_details: 0,
        mustache_details: 0,
        beard_details: 0,
        glasses_details: 0,
        mole_details: 0,
        author_name: [0; 10],
    }
}

#[test]
fn mii_selector_outcomes() {
    assert_eq!(MiiSelector::guest_mii_index(Index::All), 6);
    assert_eq!(MiiSelector::user_mii_index(Index::All), 100);
    assert_eq!(MiiSelector::user_mii_index(Index::from(7)), 7);
    let mut sel = MiiSelector::new();
    assert_eq!(sel.initial_index(), 0);
    sel.set_initial_index(3);
    assert_eq!(sel.initial_index(), 3);
    assert_eq!(Options::from_bits_truncate(0xFF).bits(), 0xF);
    let mut name = [0u16; 12];
    // The guest name is stored with its units in reverse order.
    name[11] = 'B' as u16;
    name[10] = 'o' as u16;
    name[9] = 'b' as u16;
    let ret = MiiSelectorReturn { no_mii_selected: 0, guest_mii_index: 2, mii: blank_mii(), guest_mii_name: name };
    let s = launch_outcome(ret, true).unwrap();
    match s.mii_type {
        MiiType::Guest { index, name } => {
            assert_eq!(index, 2);
            assert_eq!(name, "Bob\0\0\0\0\0\0\0\0\0");
        },
        MiiType::User => panic!("expected a guest"),
    }
    let user = MiiSelectorReturn { guest_mii_index: 0xFFFF_FFFF, ..ret };
    assert_eq!(SelectionResult::from(user).mii_type, MiiType::User);
    assert!(matches!(launch_outcome(ret, false), Err(LaunchError::InvalidChecksum)));
    let none = MiiSelectorReturn { no_mii_selected: 1, ..ret };
    assert!(matches!(launch_outcome(none, true), Err(LaunchError::NoMiiSelected)));
}
