//! The X11 event-synthesis protocol, exercised against fake server states.

use keysim::key::Key;
use keysim::x11::codes::key_to_x11;
use keysim::x11::display::OpenDisplay;
use keysim::x11::simulator::Simulator;
use keysim::x11::wire::{
    KeyEvent, Request, BUTTON_PRESS, BUTTON_PRESS_MASK, BUTTON_RELEASE, BUTTON_RELEASE_MASK,
    KEY_PRESS, KEY_PRESS_MASK, KEY_RELEASE, KEY_RELEASE_MASK, SHIFT_MASK,
};
use keysim::x11::Error;
use keysim::Button;

fn xtest_display() -> OpenDisplay {
    OpenDisplay::new(true)
}

fn window_display(window: u64) -> OpenDisplay {
    let mut display = OpenDisplay::new(false);
    display.set_focus(window);
    display
}

fn expected_key_event(window: u64, keycode: u32, state: u32, press: bool) -> KeyEvent {
    KeyEvent {
        kind: if press { KEY_PRESS } else { KEY_RELEASE },
        serial: 0,
        send_event: true,
        window,
        root: 0,
        subwindow: 0,
        time: 0,
        x: 0,
        y: 0,
        x_root: 0,
        y_root: 0,
        state,
        keycode,
        same_screen: true,
        mask: if press { KEY_PRESS_MASK } else { KEY_RELEASE_MASK },
    }
}

#[test]
fn keystroke_is_press_then_release_then_one_flush() {
    let mut display = xtest_display();
    display.map_key(key_to_x11(Key::A), 38);
    let mut sim = Simulator::new(display);
    assert_eq!(sim.send_key(Key::A), Ok(()));
    assert_eq!(
        sim.display.requests().as_slice(),
        &[
            Request::FakeKey { keycode: 38, press: true, delay: 0 },
            Request::FakeKey { keycode: 38, press: false, delay: 0 },
            Request::Flush,
        ]
    );
}

#[test]
fn press_and_release_are_single_events() {
    let mut display = xtest_display();
    display.map_key(key_to_x11(Key::Enter), 36);
    let mut sim = Simulator::new(display);
    assert_eq!(sim.press_key(Key::Enter), Ok(()));
    assert_eq!(sim.release_key(Key::Enter), Ok(()));
    assert_eq!(
        sim.display.requests().as_slice(),
        &[
            Request::FakeKey { keycode: 36, press: true, delay: 0 },
            Request::Flush,
            Request::FakeKey { keycode: 36, press: false, delay: 0 },
            Request::Flush,
        ]
    );
}

#[test]
fn window_path_addresses_the_focused_window() {
    let mut display = window_display(0x5001);
    display.map_key(key_to_x11(Key::B), 56);
    let mut sim = Simulator::new(display);
    assert_eq!(sim.send_key(Key::B), Ok(()));
    assert_eq!(
        sim.display.requests().as_slice(),
        &[
            Request::SendKey(expected_key_event(0x5001, 56, 0, true)),
            Request::SendKey(expected_key_event(0x5001, 56, 0, false)),
            Request::Flush,
        ]
    );
}

#[test]
fn unmappable_key_emits_nothing() {
    let mut sim = Simulator::new(xtest_display());
    assert_eq!(sim.press_key(Key::A), Err(Error::UnsupportedKey(Key::A)));
    assert_eq!(sim.send_key(Key::F12), Err(Error::UnsupportedKey(Key::F12)));
    assert!(sim.display.requests().is_empty());
}

#[test]
fn focus_failure_is_unexpected_and_emits_nothing() {
    let mut display = OpenDisplay::new(false);
    display.map_key(key_to_x11(Key::A), 38);
    let mut sim = Simulator::new(display);
    assert_eq!(sim.press_key(Key::A), Err(Error::Unexpected));
    assert_eq!(sim.press_button(Button::Left), Err(Error::Unexpected));
    assert!(sim.display.requests().is_empty());
}

#[test]
fn button_click_is_press_then_release() {
    let mut sim = Simulator::new(xtest_display());
    assert_eq!(sim.send_button(Button::Right), Ok(()));
    assert_eq!(
        sim.display.requests().as_slice(),
        &[
            Request::FakeButton { button: 3, press: true, delay: 0 },
            Request::FakeButton { button: 3, press: false, delay: 0 },
            Request::Flush,
        ]
    );
}

#[test]
fn button_click_window_path() {
    let mut sim = Simulator::new(window_display(7));
    assert_eq!(sim.send_button(Button::Middle), Ok(()));
    let requests = sim.display.requests();
    assert_eq!(requests.len(), 3);
    match requests[0] {
        Request::SendButton(e) => {
            assert_eq!(e.kind, BUTTON_PRESS);
            assert_eq!(e.button, 2);
            assert_eq!(e.window, 7);
            assert!(e.send_event);
            assert_eq!(e.mask, BUTTON_PRESS_MASK);
        }
        _ => panic!("expected a window-targeted button event"),
    }
    match requests[1] {
        Request::SendButton(e) => {
            assert_eq!(e.kind, BUTTON_RELEASE);
            assert_eq!(e.mask, BUTTON_RELEASE_MASK);
        }
        _ => panic!("expected a window-targeted button event"),
    }
    assert_eq!(requests[2], Request::Flush);
}

#[test]
fn shifted_char_brackets_shift_on_the_extension_path() {
    let mut display = xtest_display();
    display.map_key(0x41, 10);
    display.map_key(0xffe1, 50);
    let mut sim = Simulator::new(display);
    assert_eq!(sim.send_char('A'), Ok(()));
    assert_eq!(
        sim.display.requests().as_slice(),
        &[
            Request::FakeKey { keycode: 50, press: true, delay: 0 },
            Request::FakeKey { keycode: 10, press: true, delay: 0 },
            Request::FakeKey { keycode: 10, press: false, delay: 0 },
            Request::FakeKey { keycode: 50, press: false, delay: 0 },
            Request::Flush,
        ]
    );
}

#[test]
fn unshifted_char_is_a_bare_pair() {
    let mut display = xtest_display();
    display.map_key(0x61, 38);
    let mut sim = Simulator::new(display);
    assert_eq!(sim.send_char('a'), Ok(()));
    assert_eq!(
        sim.display.requests().as_slice(),
        &[
            Request::FakeKey { keycode: 38, press: true, delay: 0 },
            Request::FakeKey { keycode: 38, press: false, delay: 0 },
            Request::Flush,
        ]
    );
}

#[test]
fn shifted_char_sets_the_modifier_on_the_window_path() {
    let mut display = window_display(0x42);
    display.map_key(0x41, 10);
    let mut sim = Simulator::new(display);
    assert_eq!(sim.send_char('A'), Ok(()));
    assert_eq!(
        sim.display.requests().as_slice(),
        &[
            Request::SendKey(expected_key_event(0x42, 10, SHIFT_MASK, true)),
            Request::SendKey(expected_key_event(0x42, 10, SHIFT_MASK, false)),
            Request::Flush,
        ]
    );
}

#[test]
fn unsupported_char_emits_nothing() {
    let mut sim = Simulator::new(xtest_display());
    assert_eq!(sim.send_char('é'), Err(Error::UnsupportedChar('é')));
    assert!(sim.display.requests().is_empty());
}

#[test]
fn string_is_typed_in_order_with_one_flush() {
    let mut display = xtest_display();
    display.map_key(0x61, 38);
    display.map_key(0x62, 56);
    let mut sim = Simulator::new(display);
    assert_eq!(sim.send_str("ab"), Ok(()));
    assert_eq!(
        sim.display.requests().as_slice(),
        &[
            Request::FakeKey { keycode: 38, press: true, delay: 0 },
            Request::FakeKey { keycode: 38, press: false, delay: 0 },
            Request::FakeKey { keycode: 56, press: true, delay: 0 },
            Request::FakeKey { keycode: 56, press: false, delay: 0 },
            Request::Flush,
        ]
    );
}

#[test]
fn first_unsupported_char_stops_the_string_and_keeps_the_prefix() {
    let mut display = xtest_display();
    display.map_key(0x61, 38);
    display.map_key(0x62, 56);
    let mut sim = Simulator::new(display);
    // 'é' has no table entry; 'b' after it must never be sent, and the
    // already-sent 'a' is not rolled back. The aborted action does not
    // flush.
    assert_eq!(sim.send_str("aéb"), Err(Error::UnsupportedChar('é')));
    assert_eq!(
        sim.display.requests().as_slice(),
        &[
            Request::FakeKey { keycode: 38, press: true, delay: 0 },
            Request::FakeKey { keycode: 38, press: false, delay: 0 },
        ]
    );
}

#[test]
fn send_chars_matches_send_str() {
    let mut display_a = xtest_display();
    display_a.map_key(0x68, 43);
    display_a.map_key(0x69, 31);
    let mut display_b = xtest_display();
    display_b.map_key(0x68, 43);
    display_b.map_key(0x69, 31);
    let mut by_chars = Simulator::new(display_a);
    let mut by_str = Simulator::new(display_b);
    assert_eq!(by_chars.send_chars(&vec!['h', 'i']), Ok(()));
    assert_eq!(by_str.send_str("hi"), Ok(()));
    assert_eq!(by_chars.display.requests(), by_str.display.requests());
}

#[test]
fn every_successful_action_flushes_exactly_once() {
    let mut display = xtest_display();
    display.map_key(key_to_x11(Key::A), 38);
    display.map_key(0x61, 38);
    let mut sim = Simulator::new(display);
    assert_eq!(sim.send_key(Key::A), Ok(()));
    assert_eq!(sim.press_button(Button::Left), Ok(()));
    assert_eq!(sim.send_str("aaa"), Ok(()));
    let requests = sim.display.requests();
    let flushes = requests.iter().filter(|r| matches!(r, Request::Flush)).count();
    assert_eq!(flushes, 3);
    // Each action's flush comes after its events: the log ends with one.
    assert_eq!(requests.last(), Some(&Request::Flush));
}

#[test]
fn window_path_string_reuses_one_focus_resolution() {
    let mut display = window_display(0x9);
    display.map_key(0x68, 43);
    display.map_key(0x69, 31);
    let mut sim = Simulator::new(display);
    assert_eq!(sim.send_str("hi"), Ok(()));
    assert_eq!(
        sim.display.requests().as_slice(),
        &[
            Request::SendKey(expected_key_event(0x9, 43, 0, true)),
            Request::SendKey(expected_key_event(0x9, 43, 0, false)),
            Request::SendKey(expected_key_event(0x9, 31, 0, true)),
            Request::SendKey(expected_key_event(0x9, 31, 0, false)),
            Request::Flush,
        ]
    );
}

#[test]
fn window_path_string_without_focus_sends_nothing() {
    let mut display = OpenDisplay::new(false);
    display.map_key(0x68, 43);
    let mut sim = Simulator::new(display);
    assert_eq!(sim.send_str("h"), Err(Error::Unexpected));
    assert!(sim.display.requests().is_empty());
}

#[test]
fn take_requests_drains_the_log() {
    let mut display = xtest_display();
    display.map_key(0x61, 38);
    let mut sim = Simulator::new(display);
    assert_eq!(sim.send_char('a'), Ok(()));
    let drained = sim.display.take_requests();
    assert_eq!(drained.len(), 3);
    assert!(sim.display.requests().is_empty());
    assert_eq!(sim.send_char('a'), Ok(()));
    assert_eq!(sim.display.requests().as_slice(), drained.as_slice());
}
