//! Decisions of the host-side pusher session.
//!
//! The session mirrors what the board prints to the terminal, watches the
//! serial line for the loader's trigger, and after a transfer forwards the
//! user's keystrokes to the board. Reading and writing the devices is left to
//! the caller: each step here takes the bytes that were read and returns the
//! bytes to write.
use vstd::prelude::*;

use crate::protocol::{count_of, count_triggers, TRIGGER_BYTE, TRIGGER_COUNT};

verus! {

/// The control byte (Ctrl-A) that arms the exit key.
pub const CTRL_CHARACTER: u8 = 1;

/// Carriage return.
pub const CARRIAGE_RETURN: u8 = 0x0d;

/// Line feed.
pub const NEWLINE: u8 = 0x0a;

/// The key that ends the session when typed after the control byte.
pub const EXIT_CHAR: u8 = 0x78;

/// Protocol state of a session. States are only ever left forward.
#[derive(Debug, Clone, Copy, PartialEq, Eq, Structural)]
pub enum SessionState {
    /// Waiting for the loader to announce itself.
    WaitingForLoader,
    /// Sending the image to the loader.
    SendingKernel,
    /// Terminal pass-through after the transfer.
    EchoMode,
}

/// The mutable state of a pusher session.
#[derive(Debug, Clone, Copy)]
pub struct Session {
    /// Current protocol state.
    pub state: SessionState,
    /// Trigger bytes seen so far while waiting for the loader.
    pub num_breaks: usize,
    /// Whether the control byte was the last byte typed.
    pub ctrl_pressed: bool,
}

/// What to do after a chunk arrived on the serial line.
pub struct SerialOutput {
    /// Bytes to write to the terminal, each followed by a flush.
    pub terminal: Vec<u8>,
    /// Whether the image transfer must start now.
    pub start_transfer: bool,
}

/// What to do after the user typed a chunk on the terminal.
pub struct StdinOutput {
    /// Whether terminal input is accepted in the current state; when it is
    /// not, the caller tells the user and discards the input.
    pub accepted: bool,
    /// Bytes to write to the serial line, each followed by a flush.
    pub to_serial: Vec<u8>,
    /// Whether the session ends.
    pub exit: bool,
}

/// Terminal rendering of serial bytes: a line feed becomes CR LF.
pub open spec fn mirror(s: Seq<u8>) -> Seq<u8>
    decreases s.len(),
{
    if s.len() == 0 {
        Seq::empty()
    } else {
        mirror(s.drop_last()) + if s.last() == NEWLINE {
            seq![CARRIAGE_RETURN, NEWLINE]
        } else {
            seq![s.last()]
        }
    }
}

/// Keystrokes in echo mode, from a control latch `ctrl`: the bytes forwarded
/// to the serial line, whether the session ended, and the latch afterwards.
/// Nothing after the exit key is looked at.
pub open spec fn echo(ctrl: bool, s: Seq<u8>) -> (Seq<u8>, bool, bool)
    decreases s.len(),
{
    if s.len() == 0 {
        (Seq::empty(), false, ctrl)
    } else {
        let prev = echo(ctrl, s.drop_last());
        let b = s.last();
        if prev.1 {
            prev
        } else if b == CARRIAGE_RETURN {
            (prev.0.push(NEWLINE), false, false)
        } else if b == CTRL_CHARACTER {
            (prev.0, false, true)
        } else if b == EXIT_CHAR && prev.2 {
            (prev.0, true, true)
        } else {
            (prev.0.push(b), false, false)
        }
    }
}

/// Whether a serial chunk completes the loader's trigger.
pub open spec fn triggers_transfer(s: Session, chunk: Seq<u8>) -> bool {
    s.state == SessionState::WaitingForLoader && s.num_breaks + count_of(chunk, TRIGGER_BYTE)
        == TRIGGER_COUNT
}

/// The session after a serial chunk.
pub open spec fn serial_next(s: Session, chunk: Seq<u8>) -> Session {
    if s.state != SessionState::WaitingForLoader {
        s
    } else if triggers_transfer(s, chunk) {
        Session { state: SessionState::SendingKernel, num_breaks: 0, ..s }
    } else {
        let total = s.num_breaks + count_of(chunk, TRIGGER_BYTE);
        Session {
            num_breaks: if total > usize::MAX {
                usize::MAX
            } else {
                total as usize
            },
            ..s
        }
    }
}

impl Session {
    /// A new session, waiting for the loader.
    pub fn new() -> (r: Session)
        ensures
            r.state == SessionState::WaitingForLoader,
            r.num_breaks == 0,
            !r.ctrl_pressed,
    {
        Session { state: SessionState::WaitingForLoader, num_breaks: 0, ctrl_pressed: false }
    }

    /// Handles a chunk read from the serial line: mirrors it to the terminal
    /// and, while waiting for the loader, counts trigger bytes across chunks.
    /// When the count reaches exactly the trigger length it is reset and the
    /// transfer starts.
    pub fn process_serial(&mut self, chunk: &[u8]) -> (r: SerialOutput)
        ensures
            r.terminal@ == mirror(chunk@),
            r.start_transfer == triggers_transfer(*old(self), chunk@),
            *final(self) == serial_next(*old(self), chunk@),
    {
        let mut terminal: Vec<u8> = Vec::new();
        let mut i: usize = 0;
        while i < chunk.len()
            invariant
                i <= chunk.len(),
                terminal@ == mirror(chunk@.take(i as int)),
            decreases chunk.len() - i,
        {
            assert(chunk@.take(i + 1).drop_last() =~= chunk@.take(i as int));
            if chunk[i] == NEWLINE {
                terminal.push(CARRIAGE_RETURN);
                terminal.push(NEWLINE);
            } else {
                terminal.push(chunk[i]);
            }
            i = i + 1;
        }
        assert(chunk@.take(i as int) =~= chunk@);
        let mut start_transfer = false;
        if self.state == SessionState::WaitingForLoader {
            let seen = count_triggers(chunk);
            let total = self.num_breaks.saturating_add(seen);
            if total == TRIGGER_COUNT {
                self.num_breaks = 0;
                self.state = SessionState::SendingKernel;
                start_transfer = true;
            } else {
                self.num_breaks = total;
            }
        }
        SerialOutput { terminal, start_transfer }
    }

    /// Handles a chunk typed on the terminal. Outside echo mode it is
    /// refused and nothing is forwarded. In echo mode a carriage return is
    /// sent as a line feed, the control byte arms the exit key without being
    /// sent, the exit key after it ends the session, and any other byte is
    /// sent as is; each byte other than the control byte disarms the latch.
    pub fn process_stdin(&mut self, input: &[u8]) -> (r: StdinOutput)
        ensures
            old(self).state != SessionState::EchoMode ==> {
                &&& !r.accepted
                &&& r.to_serial@.len() == 0
                &&& !r.exit
                &&& *final(self) == *old(self)
            },
            old(self).state == SessionState::EchoMode ==> {
                let e = echo(old(self).ctrl_pressed, input@);
                &&& r.accepted
                &&& r.to_serial@ == e.0
                &&& r.exit == e.1
                &&& final(self).ctrl_pressed == e.2
                &&& final(self).state == old(self).state
                &&& final(self).num_breaks == old(self).num_breaks
            },
    {
        let mut to_serial: Vec<u8> = Vec::new();
        if self.state != SessionState::EchoMode {
            return StdinOutput { accepted: false, to_serial, exit: false };
        }
        let ghost ctrl0 = self.ctrl_pressed;
        let mut exit = false;
        let mut i: usize = 0;
        while i < input.len()
            invariant
                i <= input.len(),
                self.state == old(self).state,
                self.num_breaks == old(self).num_breaks,
                ctrl0 == old(self).ctrl_pressed,
                echo(ctrl0, input@.take(i as int)) == (to_serial@, exit, self.ctrl_pressed),
            decreases input.len() - i,
        {
            assert(input@.take(i + 1).drop_last() =~= input@.take(i as int));
            let b = input[i];
            if exit {
            } else if b == CARRIAGE_RETURN {
                to_serial.push(NEWLINE);
                self.ctrl_pressed = false;
            } else if b == CTRL_CHARACTER {
                self.ctrl_pressed = true;
            } else if b == EXIT_CHAR && self.ctrl_pressed {
                exit = true;
            } else {
                to_serial.push(b);
                self.ctrl_pressed = false;
            }
            i = i + 1;
        }
        assert(input@.take(i as int) =~= input@);
        StdinOutput { accepted: true, to_serial, exit }
    }

    /// Ends the transfer: the session goes on in echo mode.
    pub fn finish_transfer(&mut self)
        requires
            old(self).state == SessionState::SendingKernel,
        ensures
            final(self).state == SessionState::EchoMode,
            final(self).num_breaks == old(self).num_breaks,
            final(self).ctrl_pressed == old(self).ctrl_pressed,
    {
        self.state = SessionState::EchoMode;
    }
}

/// Trigger bytes count across chunks: while the loader is awaited, a chunk
/// whose trigger bytes do not complete the trigger starts nothing, and the
/// next chunk starts the transfer exactly when the trigger bytes of both,
/// with those seen before, add up to the trigger length.
pub proof fn lemma_trigger_accumulates(s: Session, first: Seq<u8>, second: Seq<u8>)
    requires
        s.state == SessionState::WaitingForLoader,
        s.num_breaks + count_of(first, TRIGGER_BYTE) < TRIGGER_COUNT,
    ensures
        !triggers_transfer(s, first),
        serial_next(s, first).state == SessionState::WaitingForLoader,
        triggers_transfer(serial_next(s, first), second) <==> s.num_breaks + count_of(
            first,
            TRIGGER_BYTE,
        ) + count_of(second, TRIGGER_BYTE) == TRIGGER_COUNT,
{
}

/// In echo mode a carriage return is never sent to the board: no byte
/// forwarded to the serial line is a carriage return.
pub proof fn lemma_no_carriage_return_forwarded(ctrl: bool, s: Seq<u8>)
    ensures
        forall|i: int|
            0 <= i < echo(ctrl, s).0.len() ==> #[trigger] echo(ctrl, s).0[i] != CARRIAGE_RETURN,
    decreases s.len(),
{
    if s.len() > 0 {
        lemma_no_carriage_return_forwarded(ctrl, s.drop_last());
        let prev = echo(ctrl, s.drop_last()).0;
        assert forall|i: int| 0 <= i < echo(ctrl, s).0.len() implies #[trigger] echo(
            ctrl,
            s,
        ).0[i] != CARRIAGE_RETURN by {
            if i < prev.len() {
                assert(prev[i] != CARRIAGE_RETURN);
            }
        }
    }
}

/// The line feed that stands for a typed carriage return.
pub open spec fn translate_key(b: u8) -> u8 {
    if b == CARRIAGE_RETURN {
        NEWLINE
    } else {
        b
    }
}

/// Without the control byte the session never ends: every key, the exit key
/// included, is sent to the board, a carriage return as a line feed.
pub proof fn lemma_keys_without_control_are_forwarded(s: Seq<u8>)
    requires
        !s.contains(CTRL_CHARACTER),
    ensures
        !echo(false, s).1,
        !echo(false, s).2,
        echo(false, s).0 == s.map_values(|b: u8| translate_key(b)),
    decreases s.len(),
{
    if s.len() > 0 {
        assert(!s.drop_last().contains(CTRL_CHARACTER)) by {
            if s.drop_last().contains(CTRL_CHARACTER) {
                let j = choose|j: int| 0 <= j < s.drop_last().len() && s.drop_last()[j] == CTRL_CHARACTER;
                assert(s[j] == CTRL_CHARACTER);
            }
        }
        assert(s.last() != CTRL_CHARACTER) by {
            if s.last() == CTRL_CHARACTER {
                assert(s[s.len() - 1] == CTRL_CHARACTER);
            }
        }
        lemma_keys_without_control_are_forwarded(s.drop_last());
        assert(s.map_values(|b: u8| translate_key(b)) =~= s.drop_last().map_values(
            |b: u8| translate_key(b),
        ).push(translate_key(s.last())));
    }
}

/// The control byte followed by the exit key ends the session, whatever
/// came before in the same chunk, and nothing of the pair is sent.
pub proof fn lemma_control_then_exit_ends(ctrl: bool, before: Seq<u8>)
    requires
        !echo(ctrl, before).1,
    ensures
        echo(ctrl, before + seq![CTRL_CHARACTER, EXIT_CHAR]).1,
        echo(ctrl, before + seq![CTRL_CHARACTER, EXIT_CHAR]).0 == echo(ctrl, before).0,
{
    let s = before + seq![CTRL_CHARACTER, EXIT_CHAR];
    let armed = before.push(CTRL_CHARACTER);
    assert(s.drop_last() =~= armed);
    assert(armed.drop_last() =~= before);
    assert(echo(ctrl, armed) == (echo(ctrl, before).0, false, true));
}

/// The session after a sequence of serial chunks, one after the other.
pub open spec fn serial_run(s: Session, chunks: Seq<Seq<u8>>) -> Session
    decreases chunks.len(),
{
    if chunks.len() == 0 {
        s
    } else {
        serial_next(serial_run(s, chunks.drop_last()), chunks.last())
    }
}

/// Trigger bytes in a sequence of chunks, all together.
pub open spec fn triggers_in(chunks: Seq<Seq<u8>>) -> nat
    decreases chunks.len(),
{
    if chunks.len() == 0 {
        0
    } else {
        triggers_in(chunks.drop_last()) + count_of(chunks.last(), TRIGGER_BYTE)
    }
}

/// No transfer starts before the trigger is complete: over any sequence of
/// chunks whose trigger bytes, with those seen before, stay below the
/// trigger length, no chunk starts the transfer, the session keeps waiting,
/// and its count is the number of trigger bytes seen across all chunks.
pub proof fn lemma_no_transfer_before_trigger(s: Session, chunks: Seq<Seq<u8>>)
    requires
        s.state == SessionState::WaitingForLoader,
        s.num_breaks + triggers_in(chunks) < TRIGGER_COUNT,
    ensures
        serial_run(s, chunks).state == SessionState::WaitingForLoader,
        serial_run(s, chunks).num_breaks == s.num_breaks + triggers_in(chunks),
        forall|i: int|
            0 <= i < chunks.len() ==> !triggers_transfer(
                #[trigger] serial_run(s, chunks.take(i)),
                chunks[i],
            ),
    decreases chunks.len(),
{
    if chunks.len() > 0 {
        let prefix = chunks.drop_last();
        lemma_no_transfer_before_trigger(s, prefix);
        assert forall|i: int| 0 <= i < chunks.len() implies !triggers_transfer(
            #[trigger] serial_run(s, chunks.take(i)),
            chunks[i],
        ) by {
            if i < prefix.len() {
                assert(chunks.take(i) =~= prefix.take(i));
                assert(chunks[i] == prefix[i]);
            } else {
                assert(chunks.take(i) =~= prefix);
            }
        }
    }
}

} // verus!
