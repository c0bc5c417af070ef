//! The façade: backend selection, forwarding, and error wrapping.

use keysim::key::Key;
use keysim::linux;
use keysim::windows;
use keysim::x11;
use keysim::x11::codes::key_to_x11;
use keysim::x11::display::OpenDisplay;
use keysim::x11::wire::Request;
use keysim::{Backend, BackendError, Button, Error, Simulator};

fn linux_backend(display: OpenDisplay) -> Backend {
    Backend::Linux(linux::Simulator::new_x11(display))
}

fn x11_requests(sim: &Simulator) -> &Vec<Request> {
    match &sim.0 {
        Backend::Linux(linux::Simulator::X11(inner)) => inner.display.requests(),
        _ => panic!("this simulator owns the Linux backend"),
    }
}

#[test]
fn facade_forwards_to_the_linux_backend() {
    let mut display = OpenDisplay::new(true);
    display.map_key(key_to_x11(Key::Space), 65);
    let mut sim = Simulator::new(linux_backend(display));
    assert_eq!(sim.send_key(Key::Space), Ok(()));
    assert_eq!(
        x11_requests(&sim).as_slice(),
        &[
            Request::FakeKey { keycode: 65, press: true, delay: 0 },
            Request::FakeKey { keycode: 65, press: false, delay: 0 },
            Request::Flush,
        ]
    );
}

#[test]
fn facade_wraps_x11_errors() {
    let mut sim = Simulator::new(linux_backend(OpenDisplay::new(true)));
    assert_eq!(
        sim.press_key(Key::A),
        Err(Error(BackendError::Linux(linux::Error::X11(x11::Error::UnsupportedKey(Key::A)))))
    );
    assert_eq!(
        sim.send_char('✗'),
        Err(Error(BackendError::Linux(linux::Error::X11(x11::Error::UnsupportedChar('✗')))))
    );
}

#[test]
fn facade_forwards_to_the_windows_backend() {
    let mut sim = Simulator::new(Backend::Windows(windows::Simulator::new().unwrap()));
    assert_eq!(sim.send_button(Button::Left), Ok(()));
    match &sim.0 {
        Backend::Windows(inner) => assert_eq!(inner.queue.accepted().len(), 2),
        _ => panic!("this simulator owns the Windows backend"),
    }
}

#[test]
fn facade_wraps_windows_errors() {
    let mut sim = match windows::Simulator::new() {
        Ok(mut inner) => {
            inner.queue.push_cap(0);
            Simulator::new(Backend::Windows(inner))
        }
        Err(_) => panic!("the model backend always constructs"),
    };
    assert_eq!(
        sim.press_key(Key::A),
        Err(Error(BackendError::Windows(windows::Error::Blocked)))
    );
}

#[test]
fn errors_remain_usable_after_failure() {
    // A failure is not fatal to the simulator: the same instance keeps
    // working afterwards.
    let mut display = OpenDisplay::new(true);
    display.map_key(key_to_x11(Key::A), 38);
    let mut sim = Simulator::new(linux_backend(display));
    assert!(sim.press_key(Key::B).is_err());
    assert_eq!(sim.press_key(Key::A), Ok(()));
}

#[test]
fn linux_layer_dispatches_to_x11() {
    let mut display = OpenDisplay::new(true);
    display.map_key(0x61, 38);
    let mut sim = linux::Simulator::new_x11(display);
    assert_eq!(sim.send_str("a"), Ok(()));
    assert_eq!(
        sim.send_char('€'),
        Err(linux::Error::X11(x11::Error::UnsupportedChar('€')))
    );
    let linux::Simulator::X11(inner) = &sim;
    assert_eq!(inner.display.requests().len(), 3);
}

#[test]
fn messages_describe_the_failure() {
    let blocked = Error(BackendError::Windows(windows::Error::Blocked));
    assert_eq!(blocked.message(), "the inputs were blocked by another thread");
    let unmapped = Error(BackendError::Linux(linux::Error::X11(x11::Error::UnsupportedKey(
        Key::A,
    ))));
    assert_eq!(unmapped.message(), "the X server does not support this key");
    assert_eq!(
        x11::Error::OpenDisplay.message(),
        "failed to open a connection with the X server"
    );
    assert_eq!(
        x11::Error::Unexpected.message(),
        "the X server behaved in an unexpected way"
    );
    assert_eq!(
        windows::Error::UnsupportedChar('😀').message(),
        "this character is not supported"
    );
}
