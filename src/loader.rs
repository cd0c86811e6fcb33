//! Board side of the image transfer, run once at boot after driver bring-up.
//!
//! The loader announces itself with the trigger, reads the size field,
//! acknowledges it and reads that many image bytes. Nothing is validated:
//! the board trusts the declared size. Placing the image at the load address
//! and jumping to it is left to the caller.
use vstd::prelude::*;

use crate::bsp::board_name;
use crate::console::All;
use crate::protocol::{
    board_receive, decode_size, le_value, lemma_size_round_trip, lemma_transfer_round_trip,
    size_le_bytes, transfer_wire, ACK_FIRST, ACK_SECOND, SIZE_FIELD_LEN, TRIGGER_BYTE,
};

verus! {

/// The board's receive state: every byte read from the host so far.
pub struct LoaderReceiver {
    size_field: [u8; 4],
    size_len: usize,
    image: Vec<u8>,
}

impl LoaderReceiver {
    /// Every byte received, in order.
    pub closed spec fn received(&self) -> Seq<u8> {
        self.size_field@.take(self.size_len as int) + self.image@
    }

    /// Consistency of the stored fields.
    pub closed spec fn wf(&self) -> bool {
        &&& self.size_len <= 4
        &&& self.size_len < 4 ==> self.image@.len() == 0
    }

    /// Whether the size field and exactly that many image bytes arrived.
    pub open spec fn complete(&self) -> bool {
        &&& self.received().len() >= 4
        &&& self.received().len() == 4 + le_value(self.received().take(4))
    }

    /// A receiver that has read nothing.
    pub fn new() -> (r: LoaderReceiver)
        ensures
            r.wf(),
            r.received().len() == 0,
    {
        let r = LoaderReceiver { size_field: [0u8; 4], size_len: 0, image: Vec::new() };
        assert(r.received() =~= Seq::<u8>::empty());
        r
    }

    /// Takes one byte read from the host. Returns whether the size field is
    /// now complete, which is when the acknowledgment is due.
    pub fn on_byte(&mut self, b: u8) -> (send_ack: bool)
        requires
            old(self).wf(),
        ensures
            final(self).wf(),
            final(self).received() == old(self).received().push(b),
            send_ack <==> final(self).received().len() == 4,
    {
        if self.size_len < SIZE_FIELD_LEN {
            self.size_field[self.size_len] = b;
            self.size_len = self.size_len + 1;
            assert(self.received() =~= old(self).received().push(b));
            self.size_len == SIZE_FIELD_LEN
        } else {
            self.image.push(b);
            assert(self.received() =~= old(self).received().push(b));
            false
        }
    }

    /// The image size announced by the host.
    pub fn size(&self) -> (r: u32)
        requires
            self.wf(),
            self.received().len() >= 4,
        ensures
            r as int == le_value(self.received().take(4)),
    {
        assert(self.size_field@ =~= self.received().take(4));
        decode_size(&self.size_field)
    }

    /// Number of image bytes received.
    pub fn image_len(&self) -> (r: usize)
        requires
            self.wf(),
        ensures
            r == if self.received().len() < 4 {
                0
            } else {
                self.received().len() - 4
            },
    {
        self.image.len()
    }

    /// The image: the bytes after the size field, as many as it announced.
    pub fn image(&self) -> (r: &Vec<u8>)
        requires
            self.wf(),
            self.complete(),
        ensures
            Some(r@) == board_receive(self.received()),
    {
        assert(self.received().subrange(4, self.received().len() as int) =~= self.image@);
        &self.image
    }
}

/// One console action of the loader.
#[derive(Debug, Clone, Copy, PartialEq, Eq, Structural)]
pub enum BoardAction {
    /// Wait until everything written has been sent.
    Flush,
    /// Drop received input not read yet.
    ClearRx,
    /// Write one byte.
    Send(u8),
    /// Read one byte.
    Read,
    /// Nothing is left to do.
    Done,
}

/// The loader's console action at position `pos`, for an announced image
/// size of `size`: flush, drop stale input, three trigger bytes, four reads
/// for the size field, `O`, `K`, then one read per image byte.
pub open spec fn script_action(pos: int, size: int) -> BoardAction {
    if pos == 0 {
        BoardAction::Flush
    } else if pos == 1 {
        BoardAction::ClearRx
    } else if pos < 5 {
        BoardAction::Send(TRIGGER_BYTE)
    } else if pos < 9 {
        BoardAction::Read
    } else if pos == 9 {
        BoardAction::Send(ACK_FIRST)
    } else if pos == 10 {
        BoardAction::Send(ACK_SECOND)
    } else if pos < 11 + size {
        BoardAction::Read
    } else {
        BoardAction::Done
    }
}

/// Reads among the first `pos` actions.
pub open spec fn reads_before(pos: int) -> int {
    if pos <= 5 {
        0
    } else if pos <= 9 {
        pos - 5
    } else if pos <= 11 {
        4
    } else {
        pos - 7
    }
}

/// The loader's sequence of console actions, with what it has read.
pub struct BootSequence {
    pos: u64,
    rx: LoaderReceiver,
}

impl BootSequence {
    /// Number of actions performed so far.
    pub closed spec fn position(&self) -> int {
        self.pos as int
    }

    /// The bytes read so far.
    pub closed spec fn receiver(&self) -> LoaderReceiver {
        self.rx
    }

    /// The size announced by the host, once its field was read.
    pub open spec fn announced(&self) -> int {
        if self.receiver().received().len() >= 4 {
            le_value(self.receiver().received().take(4))
        } else {
            0
        }
    }

    /// The sequence's invariant: every read action gave one received byte.
    pub open spec fn wf(&self) -> bool {
        &&& self.receiver().wf()
        &&& self.receiver().received().len() == reads_before(self.position())
        &&& 0 <= self.position() <= 11 + self.announced()
    }

    /// The sequence before its first action.
    pub fn new() -> (r: BootSequence)
        ensures
            r.wf(),
            r.position() == 0,
    {
        BootSequence { pos: 0, rx: LoaderReceiver::new() }
    }

    /// The action due now.
    pub fn next_action(&self) -> (r: BoardAction)
        requires
            self.wf(),
        ensures
            r == script_action(self.position(), self.announced()),
    {
        if self.pos == 0 {
            BoardAction::Flush
        } else if self.pos == 1 {
            BoardAction::ClearRx
        } else if self.pos < 5 {
            BoardAction::Send(TRIGGER_BYTE)
        } else if self.pos < 9 {
            BoardAction::Read
        } else if self.pos == 9 {
            BoardAction::Send(ACK_FIRST)
        } else if self.pos == 10 {
            BoardAction::Send(ACK_SECOND)
        } else {
            let size = self.rx.size();
            if self.pos < 11 + size as u64 {
                BoardAction::Read
            } else {
                BoardAction::Done
            }
        }
    }

    /// Records that the due action, which is neither a read nor the end,
    /// was performed.
    pub fn performed(&mut self)
        requires
            old(self).wf(),
            script_action(old(self).position(), old(self).announced()) != BoardAction::Read,
            script_action(old(self).position(), old(self).announced()) != BoardAction::Done,
        ensures
            final(self).wf(),
            final(self).position() == old(self).position() + 1,
            final(self).receiver() == old(self).receiver(),
    {
        self.pos = self.pos + 1;
    }

    /// Records the byte that the due read action gave.
    pub fn on_read(&mut self, b: u8)
        requires
            old(self).wf(),
            script_action(old(self).position(), old(self).announced()) == BoardAction::Read,
        ensures
            final(self).wf(),
            final(self).position() == old(self).position() + 1,
            final(self).receiver().received() == old(self).receiver().received().push(b),
    {
        let ghost before = self.rx.received();
        self.rx.on_byte(b);
        assert(before.len() >= 4 ==> self.rx.received().take(4) =~= before.take(4));
        self.pos = self.pos + 1;
    }

    /// The bytes read so far.
    pub fn received(&self) -> (r: &LoaderReceiver)
        ensures
            *r == self.receiver(),
    {
        &self.rx
    }
}

/// When the sequence is done, the size field and exactly the announced
/// number of image bytes have been read.
pub proof fn lemma_done_sequence_is_complete(m: BootSequence)
    requires
        m.wf(),
        script_action(m.position(), m.announced()) == BoardAction::Done,
    ensures
        m.position() == 11 + m.announced(),
        m.receiver().complete(),
{
}

/// Runs the board side of the protocol on `con`, performing each action of
/// the loader's sequence in turn until it is done: flush, drop stale input,
/// the trigger, four reads for the size, `O`,`K`, and one read per image
/// byte. Every byte read goes to the returned sequence, in order.
pub fn receive_kernel<C: All>(con: &C) -> (r: BootSequence)
    ensures
        r.wf(),
        script_action(r.position(), r.announced()) == BoardAction::Done,
        r.receiver().complete(),
{
    let mut m = BootSequence::new();
    let mut action = m.next_action();
    while action != BoardAction::Done
        invariant
            m.wf(),
            action == script_action(m.position(), m.announced()),
            m.announced() <= u32::MAX,
        decreases 11 + 0x1_0000_0000 - m.position(),
    {
        match action {
            BoardAction::Flush => {
                con.flush();
                m.performed();
            },
            BoardAction::ClearRx => {
                con.clear_rx();
                m.performed();
            },
            BoardAction::Send(b) => {
                con.write_char(b as char);
                m.performed();
            },
            BoardAction::Read => {
                m.on_read(con.read_char() as u8);
            },
            BoardAction::Done => {},
        }
        action = m.next_action();
    }
    proof {
        lemma_done_sequence_is_complete(m);
    }
    m
}

/// The loader's run: greets on the console, receives the image and reports
/// it is about to start it.
pub fn run_loader<C: All>(con: &C) -> (r: BootSequence)
    ensures
        r.wf(),
        script_action(r.position(), r.announced()) == BoardAction::Done,
        r.receiver().complete(),
{
    con.write_str("[Loader] Running on: ");
    con.write_str(board_name());
    con.write_str("\n\n[Loader] Requesting binary!\n");
    let r = receive_kernel(con);
    con.write_str("[Loader] Received kernel, executing now!\n");
    con.flush();
    r
}

/// A board that reads what the host sends for an image ends up with that
/// image: the size field is complete, exactly as many bytes follow, and they
/// are the image, in order and unchanged.
pub proof fn lemma_receiver_gets_sent_image(rx: LoaderReceiver, image: Seq<u8>)
    requires
        image.len() < u32::MAX,
        rx.received() == transfer_wire(image),
    ensures
        rx.complete(),
        board_receive(rx.received()) == Some(image),
{
    lemma_size_round_trip(image.len() as u32);
    lemma_transfer_round_trip(image);
    assert(rx.received().take(4) =~= size_le_bytes(image.len() as u32));
}

} // verus!
