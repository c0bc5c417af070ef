//! The Windows batched-submission protocol, exercised against scripted
//! queue models.

use keysim::key::Key;
use keysim::windows::queue::{send_events, InputQueue};
use keysim::windows::records::{
    make_button_event, make_char_event, make_key_event, InputRecord, KEYEVENTF_KEYUP,
    KEYEVENTF_UNICODE, MOUSEEVENTF_LEFTDOWN, MOUSEEVENTF_LEFTUP, MOUSEEVENTF_XDOWN,
    MOUSEEVENTF_XUP,
};
use keysim::windows::simulator::Simulator;
use keysim::windows::Error;
use keysim::Button;

#[test]
fn partial_acceptance_advances_one_record_per_call() {
    // A sink that accepts at most one of N records per call: N records take
    // exactly N calls, each advancing by one, and the whole batch succeeds.
    let n = 5;
    let mut queue = InputQueue::new();
    for _ in 0..n {
        queue.push_cap(1);
    }
    let events: Vec<InputRecord> = (0..n).map(|i| make_key_event(0x41 + i as u16, true)).collect();
    assert_eq!(send_events(&mut queue, &events), Ok(()));
    // One cap was consumed per call: exactly n calls were made.
    assert!(queue.caps().is_empty());
    // Everything arrived, in order.
    assert_eq!(queue.accepted().as_slice(), events.as_slice());
}

#[test]
fn zero_acceptance_on_first_call_blocks_immediately() {
    let mut queue = InputQueue::new();
    queue.push_cap(0);
    queue.push_cap(9);
    let events = vec![make_key_event(0x41, true), make_key_event(0x41, false)];
    assert_eq!(send_events(&mut queue, &events), Err(Error::Blocked));
    // Exactly one call was made — no retry beyond the first — and nothing
    // was accepted.
    assert_eq!(queue.caps().as_slice(), &[9]);
    assert!(queue.accepted().is_empty());
}

#[test]
fn zero_acceptance_after_progress_keeps_the_prefix() {
    let mut queue = InputQueue::new();
    queue.push_cap(1);
    queue.push_cap(0);
    let events = vec![make_key_event(0x42, true), make_key_event(0x42, false)];
    assert_eq!(send_events(&mut queue, &events), Err(Error::Blocked));
    assert_eq!(queue.accepted().as_slice(), &events[..1]);
    assert!(queue.caps().is_empty());
}

#[test]
fn empty_batch_makes_no_call() {
    let mut queue = InputQueue::new();
    queue.push_cap(0);
    let events: Vec<InputRecord> = Vec::new();
    assert_eq!(send_events(&mut queue, &events), Ok(()));
    // The zero cap is still pending: the protocol never called the queue.
    assert_eq!(queue.caps().as_slice(), &[0]);
}

#[test]
fn keystroke_submits_press_then_release_in_one_array() {
    let mut sim = Simulator::new().unwrap();
    assert_eq!(sim.send_key(Key::A), Ok(()));
    assert_eq!(
        sim.queue.accepted().as_slice(),
        &[
            InputRecord::Key { vk: 0x41, scan: 0, flags: 0, time: 0, extra: 0 },
            InputRecord::Key { vk: 0x41, scan: 0, flags: KEYEVENTF_KEYUP, time: 0, extra: 0 },
        ]
    );
}

#[test]
fn keystroke_order_survives_partial_acceptance() {
    let mut sim = Simulator::new().unwrap();
    sim.queue.push_cap(1);
    sim.queue.push_cap(1);
    assert_eq!(sim.send_key(Key::B), Ok(()));
    assert_eq!(
        sim.queue.accepted().as_slice(),
        &[make_key_event(0x42, true), make_key_event(0x42, false)]
    );
}

#[test]
fn unmappable_key_submits_nothing() {
    let mut sim = Simulator::new().unwrap();
    sim.queue.push_cap(0);
    // NumpadEqual has no entry in the portable-to-native table. Were a
    // submission attempted, the zero cap would block it; the action must
    // fail before that point, leaving the cap untouched.
    assert_eq!(sim.press_key(Key::NumpadEqual), Err(Error::UnsupportedKey(Key::NumpadEqual)));
    assert!(sim.queue.accepted().is_empty());
    assert_eq!(sim.queue.caps().as_slice(), &[0]);
}

#[test]
fn blocked_key_reports_blocked() {
    let mut sim = Simulator::new().unwrap();
    sim.queue.push_cap(0);
    assert_eq!(sim.press_key(Key::A), Err(Error::Blocked));
    assert!(sim.queue.accepted().is_empty());
}

#[test]
fn char_is_a_unicode_pair() {
    let mut sim = Simulator::new().unwrap();
    assert_eq!(sim.send_char('é'), Ok(()));
    assert_eq!(
        sim.queue.accepted().as_slice(),
        &[
            InputRecord::Key { vk: 0, scan: 0xe9, flags: KEYEVENTF_UNICODE, time: 0, extra: 0 },
            InputRecord::Key {
                vk: 0,
                scan: 0xe9,
                flags: KEYEVENTF_UNICODE | KEYEVENTF_KEYUP,
                time: 0,
                extra: 0,
            },
        ]
    );
}

#[test]
fn char_outside_the_basic_plane_is_unsupported() {
    let mut sim = Simulator::new().unwrap();
    sim.queue.push_cap(0);
    // U+1F600 does not fit the record's UTF-16 scan field; the action must
    // fail before any submission is attempted.
    assert_eq!(sim.send_char('😀'), Err(Error::UnsupportedChar('😀')));
    assert!(sim.queue.accepted().is_empty());
    assert_eq!(sim.queue.caps().as_slice(), &[0]);
    assert_eq!(make_char_event('😀', true), None);
}

#[test]
fn string_stops_at_the_first_unsupported_char() {
    let mut sim = Simulator::new().unwrap();
    assert_eq!(sim.send_str("ab😀c"), Err(Error::UnsupportedChar('😀')));
    // 'a' and 'b' were already submitted and stay; 'c' never follows.
    assert_eq!(sim.queue.accepted().len(), 4);
    assert_eq!(
        sim.queue.accepted()[2],
        InputRecord::Key { vk: 0, scan: 0x62, flags: KEYEVENTF_UNICODE, time: 0, extra: 0 }
    );
}

#[test]
fn string_is_typed_in_order() {
    let mut sim = Simulator::new().unwrap();
    assert_eq!(sim.send_str("hi"), Ok(()));
    let scans: Vec<u16> = sim
        .queue
        .accepted()
        .iter()
        .map(|r| match r {
            InputRecord::Key { scan, .. } => *scan,
            _ => panic!("characters submit keyboard records"),
        })
        .collect();
    assert_eq!(scans, vec![0x68, 0x68, 0x69, 0x69]);
}

#[test]
fn button_records_carry_the_native_flags() {
    let mut sim = Simulator::new().unwrap();
    assert_eq!(sim.send_button(Button::Left), Ok(()));
    assert_eq!(
        sim.queue.accepted().as_slice(),
        &[
            InputRecord::Mouse {
                dx: 0,
                dy: 0,
                data: 0,
                flags: MOUSEEVENTF_LEFTDOWN,
                time: 0,
                extra: 0,
            },
            InputRecord::Mouse {
                dx: 0,
                dy: 0,
                data: 0,
                flags: MOUSEEVENTF_LEFTUP,
                time: 0,
                extra: 0,
            },
        ]
    );
}

#[test]
fn extra_button_carries_its_index() {
    assert_eq!(
        make_button_event(Button::Extra(3), true),
        InputRecord::Mouse { dx: 0, dy: 0, data: 3, flags: MOUSEEVENTF_XDOWN, time: 0, extra: 0 }
    );
    assert_eq!(
        make_button_event(Button::Extra(3), false),
        InputRecord::Mouse { dx: 0, dy: 0, data: 3, flags: MOUSEEVENTF_XUP, time: 0, extra: 0 }
    );
}

#[test]
fn take_accepted_drains_the_record_log() {
    let mut sim = Simulator::new().unwrap();
    assert_eq!(sim.press_button(Button::Right), Ok(()));
    let drained = sim.queue.take_accepted();
    assert_eq!(drained.len(), 1);
    assert!(sim.queue.accepted().is_empty());
}
