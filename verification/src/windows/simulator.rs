//! The batched-submission protocol of the Windows backend.
//!
//! Every action resolves its inputs first — an unmappable key or an
//! unrepresentable character fails before anything is offered to the queue
//! — and then submits its records as one array, in press-before-release
//! order, through the retry loop of [`send_events`].

use vstd::prelude::*;
use vstd::string::StrSliceExecFns;

use crate::button::Button;
use crate::key::Key;
use super::codes::{key_to_vk, key_vk};
use super::error::Error;
use super::queue::{run_submit, send_events, InputQueue, QueueView};
use super::records::{
    button_record, key_record, make_button_event, make_char_event, make_key_event, InputRecord,
    KEYEVENTF_KEYUP, KEYEVENTF_UNICODE,
};

verus! {

/// The queue after one batch is pushed through the submission protocol,
/// paired with the protocol's outcome.
pub open spec fn submit_outcome(q: QueueView, batch: Seq<InputRecord>) -> (
    Result<(), Error>,
    QueueView,
) {
    let (ok, taken, steps) = run_submit(q.caps, batch.len());
    (
        if ok {
            Ok(())
        } else {
            Err(Error::Blocked)
        },
        QueueView { caps: q.caps.skip(steps as int), accepted: q.accepted + batch.take(
            taken as int,
        ) },
    )
}

/// The records of one virtual-key action: a press, a release, or both in
/// press-then-release order.
pub open spec fn key_batch(vk: u16, down: bool, up: bool) -> Seq<InputRecord> {
    if down && up {
        seq![key_record(vk, true), key_record(vk, false)]
    } else if down {
        seq![key_record(vk, true)]
    } else {
        seq![key_record(vk, false)]
    }
}

/// The records of one button action.
pub open spec fn button_batch(button: Button, down: bool, up: bool) -> Seq<InputRecord> {
    if down && up {
        seq![button_record(button, true), button_record(button, false)]
    } else if down {
        seq![button_record(button, true)]
    } else {
        seq![button_record(button, false)]
    }
}

/// The records of one character: a unicode press/release pair.
pub open spec fn char_batch(c: char) -> Seq<InputRecord> {
    seq![
        InputRecord::Key {
            vk: 0,
            scan: (c as u32) as u16,
            flags: KEYEVENTF_UNICODE,
            time: 0,
            extra: 0,
        },
        InputRecord::Key {
            vk: 0,
            scan: (c as u32) as u16,
            flags: KEYEVENTF_UNICODE | KEYEVENTF_KEYUP,
            time: 0,
            extra: 0,
        },
    ]
}

/// Outcome of one key action on the queue model.
pub open spec fn key_wire(q: QueueView, key: Key, down: bool, up: bool) -> (
    Result<(), Error>,
    QueueView,
) {
    match key_vk(key) {
        None => (Err(Error::UnsupportedKey(key)), q),
        Some(vk) => submit_outcome(q, key_batch(vk, down, up)),
    }
}

/// Outcome of one button action on the queue model. Every button has a
/// record, so only contention can make it fail.
pub open spec fn button_wire(q: QueueView, button: Button, down: bool, up: bool) -> (
    Result<(), Error>,
    QueueView,
) {
    submit_outcome(q, button_batch(button, down, up))
}

/// Outcome of one character action on the queue model: a character whose
/// code point does not fit the record's UTF-16 scan field fails before any
/// submission is attempted.
pub open spec fn char_wire(q: QueueView, c: char) -> (Result<(), Error>, QueueView) {
    if c as u32 <= 0xffff {
        submit_outcome(q, char_batch(c))
    } else {
        (Err(Error::UnsupportedChar(c)), q)
    }
}

/// Outcome of typing a character sequence: one submission per character, in
/// order; the first failure — unsupported character or blocked queue —
/// aborts the rest, and what was already accepted stays accepted.
pub open spec fn type_chars(q: QueueView, chars: Seq<char>) -> (Result<(), Error>, QueueView)
    decreases chars.len(),
{
    if chars.len() == 0 {
        (Ok(()), q)
    } else {
        let (res, q2) = char_wire(q, chars[0]);
        if res is Ok {
            type_chars(q2, chars.drop_first())
        } else {
            (res, q2)
        }
    }
}

/// The simulator on the Windows platform.
pub struct Simulator {
    /// The input queue the simulator submits to.
    pub queue: InputQueue,
}

impl Default for Simulator {
    /// An uncontended simulator, as [`Simulator::new`] constructs it.
    fn default() -> (s: Self)
        ensures
            s.queue@.caps.len() == 0,
            s.queue@.accepted.len() == 0,
    {
        Simulator { queue: InputQueue::new() }
    }
}

impl Simulator {
    /// Creates a new [`Simulator`] instance over an uncontended queue.
    pub fn new() -> (r: Result<Self, Error>)
        ensures
            r matches Ok(s) && s.queue@.caps.len() == 0 && s.queue@.accepted.len() == 0,
    {
        Ok(Simulator { queue: InputQueue::new() })
    }

    /// Simulates a key press event.
    pub fn press_key(&mut self, key: Key) -> (r: Result<(), Error>)
        ensures
            ({
                let (res, q) = key_wire(old(self).queue@, key, true, false);
                r == res && final(self).queue@ == q
            }),
    {
        self.key_action(key, true, false)
    }

    /// Simulates a key release event.
    pub fn release_key(&mut self, key: Key) -> (r: Result<(), Error>)
        ensures
            ({
                let (res, q) = key_wire(old(self).queue@, key, false, true);
                r == res && final(self).queue@ == q
            }),
    {
        self.key_action(key, false, true)
    }

    /// Simulates a keystroke: a press and a release submitted together as
    /// one array, in that order.
    pub fn send_key(&mut self, key: Key) -> (r: Result<(), Error>)
        ensures
            ({
                let (res, q) = key_wire(old(self).queue@, key, true, true);
                r == res && final(self).queue@ == q
            }),
    {
        self.key_action(key, true, true)
    }

    /// Resolves a key and submits its records as one array.
    fn key_action(&mut self, key: Key, down: bool, up: bool) -> (r: Result<(), Error>)
        requires
            down || up,
        ensures
            ({
                let (res, q) = key_wire(old(self).queue@, key, down, up);
                r == res && final(self).queue@ == q
            }),
    {
        let vk = match key_to_vk(key) {
            Some(vk) => vk,
            None => {
                return Err(Error::UnsupportedKey(key));
            },
        };
        let mut events: Vec<InputRecord> = Vec::new();
        if down {
            events.push(make_key_event(vk, true));
        }
        if up {
            events.push(make_key_event(vk, false));
        }
        proof {
            assert(events@ =~= key_batch(vk, down, up));
        }
        let r = send_events(&mut self.queue, &events);
        proof {
            let (res, q) = key_wire(old(self).queue@, key, down, up);
            assert(self.queue@ =~= q);
        }
        r
    }

    /// Simulates a button press event.
    pub fn press_button(&mut self, button: Button) -> (r: Result<(), Error>)
        ensures
            ({
                let (res, q) = button_wire(old(self).queue@, button, true, false);
                r == res && final(self).queue@ == q
            }),
    {
        self.button_action(button, true, false)
    }

    /// Simulates a button release event.
    pub fn release_button(&mut self, button: Button) -> (r: Result<(), Error>)
        ensures
            ({
                let (res, q) = button_wire(old(self).queue@, button, false, true);
                r == res && final(self).queue@ == q
            }),
    {
        self.button_action(button, false, true)
    }

    /// Simulates a button click: a press and a release submitted together
    /// as one array, in that order.
    pub fn send_button(&mut self, button: Button) -> (r: Result<(), Error>)
        ensures
            ({
                let (res, q) = button_wire(old(self).queue@, button, true, true);
                r == res && final(self).queue@ == q
            }),
    {
        self.button_action(button, true, true)
    }

    /// Builds a button's records and submits them as one array.
    fn button_action(&mut self, button: Button, down: bool, up: bool) -> (r: Result<(), Error>)
        requires
            down || up,
        ensures
            ({
                let (res, q) = button_wire(old(self).queue@, button, down, up);
                r == res && final(self).queue@ == q
            }),
    {
        let mut events: Vec<InputRecord> = Vec::new();
        if down {
            events.push(make_button_event(button, true));
        }
        if up {
            events.push(make_button_event(button, false));
        }
        proof {
            assert(events@ =~= button_batch(button, down, up));
        }
        let r = send_events(&mut self.queue, &events);
        proof {
            let (res, q) = button_wire(old(self).queue@, button, down, up);
            assert(self.queue@ =~= q);
        }
        r
    }

    /// Sends a specific unicode code-point as one press/release array.
    pub fn send_char(&mut self, c: char) -> (r: Result<(), Error>)
        ensures
            ({
                let (res, q) = char_wire(old(self).queue@, c);
                r == res && final(self).queue@ == q
            }),
    {
        let (press, release) = match (make_char_event(c, true), make_char_event(c, false)) {
            (Some(press), Some(release)) => (press, release),
            _ => {
                return Err(Error::UnsupportedChar(c));
            },
        };
        let mut events: Vec<InputRecord> = Vec::new();
        events.push(press);
        events.push(release);
        proof {
            assert(events@ =~= char_batch(c));
        }
        let r = send_events(&mut self.queue, &events);
        proof {
            let (res, q) = char_wire(old(self).queue@, c);
            assert(self.queue@ =~= q);
        }
        r
    }

    /// Sends a collection of characters, one press/release array per
    /// character, in order. The first failure aborts the rest; what was
    /// already accepted stays accepted.
    #[verifier::loop_isolation(false)]
    pub fn send_chars(&mut self, chars: &Vec<char>) -> (r: Result<(), Error>)
        ensures
            ({
                let (res, q) = type_chars(old(self).queue@, chars@);
                r == res && final(self).queue@ == q
            }),
    {
        let mut i: usize = 0;
        proof {
            assert(chars@.skip(0) =~= chars@);
        }
        while i < chars.len()
            invariant
                i <= chars@.len(),
                type_chars(old(self).queue@, chars@) == type_chars(
                    self.queue@,
                    chars@.skip(i as int),
                ),
            decreases chars@.len() - i,
        {
            proof {
                assert(chars@.skip(i as int).drop_first() =~= chars@.skip(i as int + 1));
                assert(chars@.skip(i as int)[0] == chars@[i as int]);
            }
            match self.send_char(chars[i]) {
                Ok(()) => {},
                Err(e) => {
                    return Err(e);
                },
            }
            i += 1;
        }
        proof {
            assert(chars@.skip(chars@.len() as int) =~= Seq::<char>::empty());
        }
        Ok(())
    }

    /// Types a string: its characters in encoding order, as one sequence.
    #[verifier::loop_isolation(false)]
    pub fn send_str(&mut self, s: &str) -> (r: Result<(), Error>)
        ensures
            ({
                let (res, q) = type_chars(old(self).queue@, s@);
                r == res && final(self).queue@ == q
            }),
    {
        let n = s.unicode_len();
        let mut chars: Vec<char> = Vec::new();
        let mut i: usize = 0;
        while i < n
            invariant
                i <= n,
                n == s@.len(),
                chars@ == s@.take(i as int),
            decreases n - i,
        {
            let c = s.get_char(i);
            chars.push(c);
            proof {
                assert(s@.take(i as int).push(s@[i as int]) =~= s@.take(i as int + 1));
            }
            i += 1;
        }
        proof {
            assert(s@.take(n as int) =~= s@);
        }
        self.send_chars(&chars)
    }
}

/// A keystroke submits exactly two records — the key's press, then its
/// release, never the other way around — and when the submission protocol
/// succeeds the queue has accepted exactly those two, in that order.
pub proof fn lemma_keystroke_press_then_release(q: QueueView, key: Key, vk: u16)
    requires
        key_vk(key) == Some(vk),
    ensures
        key_batch(vk, true, true) =~= seq![key_record(vk, true), key_record(vk, false)],
        ({
            let (res, q2) = key_wire(q, key, true, true);
            res is Ok ==> q2.accepted == q.accepted + seq![
                key_record(vk, true),
                key_record(vk, false),
            ]
        }),
{
    super::queue::lemma_run_submit_completes(q.caps, key_batch(vk, true, true).len());
    let (ok, taken, steps) = run_submit(q.caps, key_batch(vk, true, true).len());
    if ok {
        assert(key_batch(vk, true, true).take(taken as int) =~= key_batch(vk, true, true));
    }
}

/// A key with no entry in the portable-to-native table fails with
/// [`Error::UnsupportedKey`] before any submission is attempted: the queue
/// sees no call and accepts nothing.
pub proof fn lemma_unmappable_key_submits_nothing(
    q: QueueView,
    key: Key,
    down: bool,
    up: bool,
)
    requires
        key_vk(key) is None,
    ensures
        key_wire(q, key, down, up) == (Err::<(), Error>(Error::UnsupportedKey(key)), q),
{
}

} // verus!
