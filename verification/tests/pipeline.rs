use keylog::event::{
    encode, DecodeError, InputEvent, EV_KEY, KEY_PRESS, KEY_RELEASE, KEY_REPEAT,
};
use keylog::keymap::KeyError;
use keylog::modifier::{ModifierState, KEY_LEFTSHIFT, KEY_RIGHTSHIFT};
use keylog::pipeline::{check_write, handle_chunk, handle_event, transcribe, Action, WriteError};

fn key(code: u16, value: i32) -> InputEvent {
    InputEvent { tv_sec: 1_700_000_000, tv_usec: 250_000, type_: EV_KEY, code, value }
}

fn press(code: u16) -> InputEvent {
    key(code, KEY_PRESS)
}

fn release(code: u16) -> InputEvent {
    key(code, KEY_RELEASE)
}

fn repeat(code: u16) -> InputEvent {
    key(code, KEY_REPEAT)
}

/// A log that takes at most `room` bytes of each write.
struct NarrowLog {
    room: usize,
    bytes: Vec<u8>,
}

impl NarrowLog {
    fn write(&mut self, bytes: &[u8]) -> Option<usize> {
        let taken = bytes.len().min(self.room);
        self.bytes.extend_from_slice(&bytes[..taken]);
        Some(taken)
    }
}

#[test]
fn letter_follows_the_shift_count() {
    let mut state = ModifierState::new();
    assert_eq!(handle_event(&mut state, &press(16)), Action::Append("q"));
    assert_eq!(state.shift_depth(), 0);

    let mut state = ModifierState::new();
    state.press(KEY_LEFTSHIFT);
    assert_eq!(handle_event(&mut state, &press(16)), Action::Append("Q"));
    assert_eq!(state.shift_depth(), 1);
}

#[test]
fn case_mapping_with_right_shift() {
    let mut state = ModifierState::new();
    handle_event(&mut state, &press(KEY_RIGHTSHIFT));
    assert_eq!(handle_event(&mut state, &press(16)), Action::Append("Q"));
    handle_event(&mut state, &release(KEY_RIGHTSHIFT));
    assert_eq!(handle_event(&mut state, &press(16)), Action::Append("q"));
}

#[test]
fn held_key_is_logged_once() {
    let mut state = ModifierState::new();
    let mut tokens = Vec::new();
    let events = [press(30), repeat(30), repeat(30), repeat(30), repeat(30), release(30)];
    for event in events {
        if let Action::Append(token) = handle_event(&mut state, &event) {
            tokens.push(token);
        }
    }
    assert_eq!(tokens, vec!["a"]);
}

#[test]
fn held_key_is_transcribed_once() {
    let mut state = ModifierState::new();
    let events = [press(30), repeat(30), repeat(30), repeat(30)];
    assert_eq!(transcribe(&mut state, &events), vec!["a"]);
    assert_eq!(state.shift_depth(), 0);
}

#[test]
fn repeat_event_is_idle_and_changes_nothing() {
    let mut state = ModifierState::new();
    assert_eq!(handle_event(&mut state, &repeat(30)), Action::Idle);
    assert_eq!(state.shift_depth(), 0);
    state.press(KEY_LEFTSHIFT);
    assert_eq!(handle_event(&mut state, &repeat(KEY_LEFTSHIFT)), Action::Idle);
    assert_eq!(handle_event(&mut state, &repeat(KEY_LEFTSHIFT)), Action::Idle);
    assert_eq!(state.shift_depth(), 1);
}

#[test]
fn held_shift_repeating_does_not_raise_the_count() {
    let mut state = ModifierState::new();
    let events = [
        press(KEY_LEFTSHIFT),
        repeat(KEY_LEFTSHIFT),
        repeat(KEY_LEFTSHIFT),
        press(16),
        release(16),
        release(KEY_LEFTSHIFT),
        press(16),
    ];
    assert_eq!(transcribe(&mut state, &events), vec!["<LSHIFT>", "Q", "q"]);
    assert_eq!(state.shift_depth(), 0);
}

#[test]
fn loop_goes_on_after_a_short_write() {
    let mut state = ModifierState::new();
    let mut log = NarrowLog { room: 3, bytes: Vec::new() };
    let mut short_writes = Vec::new();
    let mut handled = 0;
    let events = [press(16), release(16), press(28), release(28), press(17), release(17)];
    for event in events {
        let chunk = encode(&event);
        match handle_chunk(&mut state, &chunk) {
            Ok(Action::Append(token)) => {
                let written = log.write(token.as_bytes());
                match check_write(token.len(), written) {
                    Ok(()) => {}
                    Err(error) => {
                        if error.is_fatal() {
                            break;
                        }
                        short_writes.push(error);
                    }
                }
            }
            Ok(_) => {}
            Err(_) => break,
        }
        handled += 1;
    }
    assert_eq!(handled, 6);
    assert_eq!(short_writes, vec![WriteError::ShortWrite { written: 3, requested: 7 }]);
    assert_eq!(log.bytes, b"q<Enw".to_vec());
}

#[test]
fn short_write_is_not_fatal() {
    let outcome = check_write(7, Some(3));
    assert_eq!(outcome, Err(WriteError::ShortWrite { written: 3, requested: 7 }));
    assert!(!outcome.unwrap_err().is_fatal());
}

#[test]
fn write_of_nothing_is_short() {
    assert_eq!(check_write(1, Some(0)), Err(WriteError::ShortWrite { written: 0, requested: 1 }));
}

#[test]
fn whole_write_is_fine() {
    assert_eq!(check_write(1, Some(1)), Ok(()));
    assert_eq!(check_write(11, Some(11)), Ok(()));
    assert_eq!(check_write(0, Some(0)), Ok(()));
}

#[test]
fn any_other_count_than_the_requested_is_reported() {
    assert_eq!(check_write(2, Some(5)), Err(WriteError::ShortWrite { written: 5, requested: 2 }));
}

#[test]
fn refused_write_ends_the_loop() {
    let outcome = check_write(4, None);
    assert_eq!(outcome, Err(WriteError::StreamError));
    assert!(outcome.unwrap_err().is_fatal());
    assert_eq!(check_write(0, None), Err(WriteError::StreamError));
}

#[test]
fn shift_press_is_logged_from_the_shifted_table() {
    let mut state = ModifierState::new();
    assert_eq!(handle_event(&mut state, &press(KEY_LEFTSHIFT)), Action::Append("<LSHIFT>"));
    assert_eq!(state.shift_depth(), 1);
    assert_eq!(handle_event(&mut state, &press(KEY_RIGHTSHIFT)), Action::Append("<RSHIFT>"));
    assert_eq!(state.shift_depth(), 2);
}

#[test]
fn release_logs_nothing() {
    let mut state = ModifierState::new();
    assert_eq!(handle_event(&mut state, &release(16)), Action::Idle);
    state.press(KEY_LEFTSHIFT);
    assert_eq!(handle_event(&mut state, &release(KEY_LEFTSHIFT)), Action::Idle);
    assert_eq!(state.shift_depth(), 0);
}

#[test]
fn release_before_any_press_keeps_the_count_at_zero() {
    let mut state = ModifierState::new();
    assert_eq!(handle_event(&mut state, &release(KEY_LEFTSHIFT)), Action::Idle);
    assert_eq!(state.shift_depth(), 0);
    assert_eq!(handle_event(&mut state, &press(16)), Action::Append("q"));
}

#[test]
fn overlapping_shifts_through_events() {
    let mut state = ModifierState::new();
    let events = [
        press(KEY_LEFTSHIFT),
        press(KEY_RIGHTSHIFT),
        release(KEY_RIGHTSHIFT),
        press(2),
        release(2),
        release(KEY_LEFTSHIFT),
        press(2),
    ];
    assert_eq!(transcribe(&mut state, &events), vec!["<LSHIFT>", "<RSHIFT>", "!", "1"]);
    assert!(!state.shifted());
}

#[test]
fn out_of_range_press_is_reported_and_not_logged() {
    let mut state = ModifierState::new();
    assert_eq!(
        handle_event(&mut state, &press(123)),
        Action::Report(KeyError::OutOfBounds(123))
    );
    assert_eq!(
        handle_event(&mut state, &press(u16::MAX)),
        Action::Report(KeyError::OutOfBounds(65535))
    );
    assert_eq!(state.shift_depth(), 0);
    assert_eq!(handle_event(&mut state, &press(122)), Action::Append("<KPComma>"));
}

#[test]
fn out_of_range_release_and_repeat_are_idle() {
    let mut state = ModifierState::new();
    assert_eq!(handle_event(&mut state, &release(300)), Action::Idle);
    assert_eq!(handle_event(&mut state, &repeat(300)), Action::Idle);
}

#[test]
fn out_of_range_press_leaves_a_gap_in_the_transcript() {
    let mut state = ModifierState::new();
    let events = [press(30), press(200), press(48)];
    assert_eq!(transcribe(&mut state, &events), vec!["a", "b"]);
}

#[test]
fn unbound_key_logs_the_unknown_sentinel() {
    let mut state = ModifierState::new();
    assert_eq!(handle_event(&mut state, &press(0)), Action::Append("<KR>"));
    assert_eq!(handle_event(&mut state, &press(84)), Action::Append("<KR>"));
}

#[test]
fn events_of_other_classes_are_idle() {
    let mut state = ModifierState::new();
    state.press(KEY_LEFTSHIFT);
    for type_ in [0u16, 2, 3, 4, 17, 20, 0xffff] {
        for value in [KEY_RELEASE, KEY_PRESS, KEY_REPEAT] {
            let event = InputEvent { tv_sec: 0, tv_usec: 0, type_, code: KEY_LEFTSHIFT, value };
            assert_eq!(handle_event(&mut state, &event), Action::Idle);
            assert_eq!(state.shift_depth(), 1);
        }
    }
}

#[test]
fn key_events_of_unknown_value_are_idle() {
    let mut state = ModifierState::new();
    state.press(KEY_LEFTSHIFT);
    for value in [3, 4, -1, i32::MIN, i32::MAX] {
        assert_eq!(handle_event(&mut state, &key(KEY_LEFTSHIFT, value)), Action::Idle);
        assert_eq!(handle_event(&mut state, &key(16, value)), Action::Idle);
        assert_eq!(state.shift_depth(), 1);
    }
}

#[test]
fn timestamps_do_not_matter() {
    let mut state = ModifierState::new();
    let early = InputEvent { tv_sec: i64::MIN, tv_usec: -1, type_: EV_KEY, code: 16, value: 1 };
    let late = InputEvent { tv_sec: i64::MAX, tv_usec: 999_999, type_: EV_KEY, code: 16, value: 1 };
    assert_eq!(handle_event(&mut state, &early), Action::Append("q"));
    assert_eq!(handle_event(&mut state, &late), Action::Append("q"));
}

#[test]
fn chunk_of_one_record_is_handled() {
    let mut state = ModifierState::new();
    let chunk: [u8; 24] =
        [0, 0, 0, 0, 0, 0, 0, 0, 0, 0, 0, 0, 0, 0, 0, 0, 1, 0, 42, 0, 1, 0, 0, 0];
    assert_eq!(handle_chunk(&mut state, &chunk), Ok(Action::Append("<LSHIFT>")));
    assert_eq!(state.shift_depth(), 1);
    let chunk: [u8; 24] =
        [0, 0, 0, 0, 0, 0, 0, 0, 0, 0, 0, 0, 0, 0, 0, 0, 1, 0, 16, 0, 1, 0, 0, 0];
    assert_eq!(handle_chunk(&mut state, &chunk), Ok(Action::Append("Q")));
    let chunk: [u8; 24] =
        [0, 0, 0, 0, 0, 0, 0, 0, 0, 0, 0, 0, 0, 0, 0, 0, 1, 0, 42, 0, 0, 0, 0, 0];
    assert_eq!(handle_chunk(&mut state, &chunk), Ok(Action::Idle));
    assert_eq!(state.shift_depth(), 0);
}

#[test]
fn chunk_with_a_code_in_two_bytes() {
    let mut state = ModifierState::new();
    let chunk: [u8; 24] =
        [0, 0, 0, 0, 0, 0, 0, 0, 0, 0, 0, 0, 0, 0, 0, 0, 1, 0, 16, 1, 1, 0, 0, 0];
    assert_eq!(
        handle_chunk(&mut state, &chunk),
        Ok(Action::Report(KeyError::OutOfBounds(272)))
    );
}

#[test]
fn chunk_of_wrong_size_is_refused_and_changes_nothing() {
    let mut state = ModifierState::new();
    state.press(KEY_LEFTSHIFT);
    let chunk = encode(&press(KEY_RIGHTSHIFT));
    assert_eq!(
        handle_chunk(&mut state, &chunk[..23]),
        Err(DecodeError::SizeMismatch { expected: 24, actual: 23 })
    );
    assert_eq!(
        handle_chunk(&mut state, &[]),
        Err(DecodeError::SizeMismatch { expected: 24, actual: 0 })
    );
    let mut long = chunk.clone();
    long.push(0);
    assert_eq!(
        handle_chunk(&mut state, &long),
        Err(DecodeError::SizeMismatch { expected: 24, actual: 25 })
    );
    assert_eq!(state.shift_depth(), 1);
}

#[test]
fn transcribe_nothing() {
    let mut state = ModifierState::new();
    assert_eq!(transcribe(&mut state, &[]), Vec::<&str>::new());
    assert_eq!(state.shift_depth(), 0);
}

#[test]
fn transcribe_a_typed_line() {
    let mut state = ModifierState::new();
    let events = [
        press(KEY_LEFTSHIFT),
        press(35),
        release(35),
        release(KEY_LEFTSHIFT),
        press(23),
        release(23),
        press(KEY_RIGHTSHIFT),
        press(2),
        repeat(2),
        release(2),
        release(KEY_RIGHTSHIFT),
        press(28),
        release(28),
    ];
    let tokens = transcribe(&mut state, &events);
    assert_eq!(tokens, vec!["<LSHIFT>", "H", "i", "<RSHIFT>", "!", "<Enter>"]);
    assert_eq!(tokens.concat(), "<LSHIFT>Hi<RSHIFT>!<Enter>");
    assert_eq!(state.shift_depth(), 0);
}

#[test]
fn transcribe_goes_on_from_the_state_it_is_given() {
    let mut state = ModifierState::new();
    assert_eq!(transcribe(&mut state, &[press(KEY_LEFTSHIFT)]), vec!["<LSHIFT>"]);
    assert_eq!(state.shift_depth(), 1);
    assert_eq!(transcribe(&mut state, &[press(30), release(KEY_LEFTSHIFT)]), vec!["A"]);
    assert_eq!(state.shift_depth(), 0);
    assert_eq!(transcribe(&mut state, &[press(30)]), vec!["a"]);
}

#[test]
fn lost_release_leaves_shift_stuck() {
    let mut state = ModifierState::new();
    let events = [press(KEY_LEFTSHIFT), press(30), release(30), press(30)];
    assert_eq!(transcribe(&mut state, &events), vec!["<LSHIFT>", "A", "A"]);
    assert!(state.shifted());
}
