//! Host side of one image transfer.
//!
//! The transfer hands out the four size bytes one per writable event, then
//! collects the two-byte reply, and after an exact `O`,`K` hands out the image
//! bytes in order. Any other reply fails the transfer and no image byte is
//! handed out after it.
use vstd::prelude::*;

use crate::protocol::{
    ack_bytes, board_receive, encode_size, is_ack, lemma_transfer_round_trip, size_le_bytes,
    transfer_wire, ACK_LEN, SIZE_FIELD_LEN,
};

verus! {

/// Progress of a transfer.
#[derive(Debug, Clone, Copy, PartialEq, Eq, Structural)]
pub enum TransferPhase {
    /// Size bytes remain to be sent.
    SendingSize,
    /// Waiting for the two reply bytes.
    AwaitingAck,
    /// The reply was `O`,`K`; image bytes remain to be sent.
    SendingImage,
    /// Everything was sent.
    Done,
    /// The reply was not `O`,`K`.
    Failed,
}

/// Why a transfer cannot go on.
#[derive(Debug, Clone, Copy, PartialEq, Eq, Structural)]
pub enum TransferError {
    /// The image is too large for the 32-bit size field.
    ImageTooLarge,
    /// The board answered something other than `O`,`K`.
    AckMismatch,
}

/// One image transfer, from the size field to the last image byte.
pub struct KernelTransfer {
    image: Vec<u8>,
    size_bytes: [u8; 4],
    phase: TransferPhase,
    size_sent: usize,
    image_sent: usize,
    reply: Vec<u8>,
}

impl KernelTransfer {
    /// The image being sent.
    pub closed spec fn image(&self) -> Seq<u8> {
        self.image@
    }

    /// Current phase.
    pub closed spec fn phase(&self) -> TransferPhase {
        self.phase
    }

    /// Every byte handed out for the serial line so far, in order.
    pub closed spec fn wire(&self) -> Seq<u8> {
        transfer_wire(self.image@).take(self.size_sent + self.image_sent)
    }

    /// The reply bytes collected so far.
    pub closed spec fn reply(&self) -> Seq<u8> {
        self.reply@
    }

    /// Consistency of the stored fields.
    pub closed spec fn fields_wf(&self) -> bool {
        &&& self.size_bytes@ == size_le_bytes(self.image@.len() as u32)
        &&& self.size_sent <= 4
        &&& self.image_sent <= self.image@.len()
        &&& self.image_sent > 0 ==> self.size_sent == 4
    }

    /// The transfer's invariant.
    pub open spec fn wf(&self) -> bool {
        &&& self.fields_wf()
        &&& self.image().len() < u32::MAX
        &&& self.wire().len() <= 4 + self.image().len()
        &&& self.wire() == transfer_wire(self.image()).take(self.wire().len() as int)
        &&& self.reply().len() <= 2
        &&& match self.phase() {
            TransferPhase::SendingSize => self.wire().len() < 4 && self.reply().len() == 0,
            TransferPhase::AwaitingAck => self.wire().len() == 4 && self.reply().len() < 2,
            TransferPhase::SendingImage => 4 <= self.wire().len() < 4 + self.image().len()
                && self.reply() == ack_bytes(),
            TransferPhase::Done => self.wire() == transfer_wire(self.image()) && self.reply()
                == ack_bytes(),
            TransferPhase::Failed => self.wire().len() == 4 && self.reply().len() == 2
                && self.reply() != ack_bytes(),
        }
    }

    /// Starts a transfer of `image`. Fails when its length does not stay
    /// below the largest 32-bit value.
    pub fn new(image: Vec<u8>) -> (r: Result<KernelTransfer, TransferError>)
        ensures
            image@.len() >= u32::MAX <==> r is Err,
            r is Err ==> r == Err::<KernelTransfer, TransferError>(TransferError::ImageTooLarge),
            r matches Ok(t) ==> {
                &&& t.wf()
                &&& t.image() == image@
                &&& t.phase() == TransferPhase::SendingSize
                &&& t.wire().len() == 0
            },
    {
        if image.len() >= 0xffff_ffff {
            return Err(TransferError::ImageTooLarge);
        }
        let size_bytes = encode_size(image.len() as u32);
        let t = KernelTransfer {
            image,
            size_bytes,
            phase: TransferPhase::SendingSize,
            size_sent: 0,
            image_sent: 0,
            reply: Vec::new(),
        };
        assert(t.reply@ =~= Seq::<u8>::empty());
        Ok(t)
    }

    /// Size of the image in bytes.
    pub fn size(&self) -> (r: u32)
        requires
            self.wf(),
        ensures
            r as int == self.image().len(),
    {
        self.image.len() as u32
    }

    /// Current phase.
    pub fn current_phase(&self) -> (r: TransferPhase)
        ensures
            r == self.phase(),
    {
        self.phase
    }

    /// Number of reply bytes still to be read.
    pub fn reply_needed(&self) -> (r: usize)
        requires
            self.wf(),
        ensures
            self.phase() == TransferPhase::AwaitingAck ==> r as int == 2 - self.reply().len(),
            self.phase() != TransferPhase::AwaitingAck ==> r == 0,
    {
        if self.phase == TransferPhase::AwaitingAck {
            ACK_LEN - self.reply.len()
        } else {
            0
        }
    }

    /// Called when the serial line is writable: the next size byte, if the
    /// size is still being sent.
    pub fn on_writable(&mut self) -> (r: Option<u8>)
        requires
            old(self).wf(),
        ensures
            final(self).wf(),
            final(self).image() == old(self).image(),
            final(self).reply() == old(self).reply(),
            old(self).phase() == TransferPhase::SendingSize ==> {
                &&& r is Some
                &&& final(self).wire() == old(self).wire().push(r.unwrap())
                &&& final(self).phase() == if final(self).wire().len() < 4 {
                    TransferPhase::SendingSize
                } else {
                    TransferPhase::AwaitingAck
                }
            },
            old(self).phase() != TransferPhase::SendingSize ==> {
                &&& r is None
                &&& final(self).wire() == old(self).wire()
                &&& final(self).phase() == old(self).phase()
            },
    {
        if self.phase != TransferPhase::SendingSize {
            return None;
        }
        let b = self.size_bytes[self.size_sent];
        proof {
            let w = transfer_wire(self.image@);
            assert(w.take(self.size_sent + 1) =~= w.take(self.size_sent as int).push(b));
        }
        self.size_sent = self.size_sent + 1;
        if self.size_sent == SIZE_FIELD_LEN {
            self.phase = TransferPhase::AwaitingAck;
        }
        Some(b)
    }

    /// Called with bytes read from the serial line while the reply is
    /// awaited. Takes as many as the reply still needs; once it has two, the
    /// transfer goes on to the image on an exact `O`,`K` and fails otherwise.
    pub fn on_reply(&mut self, data: &[u8]) -> (r: Result<TransferPhase, TransferError>)
        requires
            old(self).wf(),
        ensures
            final(self).wf(),
            final(self).image() == old(self).image(),
            final(self).wire() == old(self).wire(),
            old(self).phase() == TransferPhase::AwaitingAck ==> {
                let need = 2 - old(self).reply().len();
                let taken = if data@.len() < need {
                    data@
                } else {
                    data@.take(need)
                };
                let reply = old(self).reply() + taken;
                &&& final(self).reply() == reply
                &&& reply.len() < 2 ==> final(self).phase() == TransferPhase::AwaitingAck
                &&& reply.len() == 2 && reply == ack_bytes() ==> final(self).phase() == if old(
                    self,
                ).image().len() == 0 {
                    TransferPhase::Done
                } else {
                    TransferPhase::SendingImage
                }
                &&& reply.len() == 2 && reply != ack_bytes() ==> final(self).phase()
                    == TransferPhase::Failed
            },
            old(self).phase() != TransferPhase::AwaitingAck ==> {
                &&& final(self).reply() == old(self).reply()
                &&& final(self).phase() == old(self).phase()
            },
            r == if final(self).phase() == TransferPhase::Failed {
                Err::<TransferPhase, TransferError>(TransferError::AckMismatch)
            } else {
                Ok(final(self).phase())
            },
    {
        if self.phase == TransferPhase::AwaitingAck {
            let ghost old_reply = self.reply@;
            let need = ACK_LEN - self.reply.len();
            let take = if data.len() < need {
                data.len()
            } else {
                need
            };
            let mut i: usize = 0;
            while i < take
                invariant
                    i <= take,
                    take <= data.len(),
                    take <= need,
                    need == 2 - old_reply.len(),
                    self.reply@ == old_reply + data@.take(i as int),
                    self.image@ == old(self).image@,
                    self.size_bytes == old(self).size_bytes,
                    self.size_sent == old(self).size_sent,
                    self.image_sent == old(self).image_sent,
                    self.phase == old(self).phase,
                decreases take - i,
            {
                self.reply.push(data[i]);
                assert(data@.take(i + 1) =~= data@.take(i as int).push(data@[i as int]));
                i = i + 1;
            }
            assert(data@.len() < need ==> data@.take(take as int) =~= data@);
            if self.reply.len() == ACK_LEN {
                if is_ack(self.reply.as_slice()) {
                    if self.image.len() == 0 {
                        self.phase = TransferPhase::Done;
                        assert(transfer_wire(self.image@) =~= transfer_wire(self.image@).take(
                            4,
                        ));
                    } else {
                        self.phase = TransferPhase::SendingImage;
                    }
                } else {
                    self.phase = TransferPhase::Failed;
                }
            }
        }
        if self.phase == TransferPhase::Failed {
            Err(TransferError::AckMismatch)
        } else {
            Ok(self.phase)
        }
    }

    /// The next image byte, while the image is being sent.
    pub fn next_image_byte(&mut self) -> (r: Option<u8>)
        requires
            old(self).wf(),
        ensures
            final(self).wf(),
            final(self).image() == old(self).image(),
            final(self).reply() == old(self).reply(),
            old(self).phase() == TransferPhase::SendingImage ==> {
                &&& r == Some(old(self).image()[old(self).wire().len() - 4])
                &&& final(self).wire() == old(self).wire().push(r.unwrap())
                &&& final(self).phase() == if final(self).wire().len() == 4 + old(
                    self,
                ).image().len() {
                    TransferPhase::Done
                } else {
                    TransferPhase::SendingImage
                }
            },
            old(self).phase() != TransferPhase::SendingImage ==> {
                &&& r is None
                &&& final(self).wire() == old(self).wire()
                &&& final(self).phase() == old(self).phase()
            },
    {
        if self.phase != TransferPhase::SendingImage {
            return None;
        }
        let b = self.image[self.image_sent];
        proof {
            let w = transfer_wire(self.image@);
            let k = 4 + self.image_sent;
            assert(w.take(k + 1) =~= w.take(k).push(b));
        }
        self.image_sent = self.image_sent + 1;
        if self.image_sent == self.image.len() {
            self.phase = TransferPhase::Done;
            proof {
                let w = transfer_wire(self.image@);
                assert(w.take(4 + self.image_sent) =~= w);
            }
        }
        Some(b)
    }
}

/// A finished transfer put exactly the image on the wire behind its size
/// field: the board reads back the whole image, in order and unchanged.
pub proof fn lemma_done_transfer_delivers_image(t: KernelTransfer)
    requires
        t.wf(),
        t.phase() == TransferPhase::Done,
    ensures
        t.wire() == transfer_wire(t.image()),
        board_receive(t.wire()) == Some(t.image()),
{
    lemma_transfer_round_trip(t.image());
}

/// A rejected reply ends the transfer with only the size field sent: no
/// image byte goes out, then or later.
pub proof fn lemma_rejected_reply_sends_no_image(t: KernelTransfer)
    requires
        t.wf(),
        t.phase() == TransferPhase::Failed,
    ensures
        t.reply() != ack_bytes(),
        t.wire() == size_le_bytes(t.image().len() as u32),
{
    assert(transfer_wire(t.image()).take(4) =~= size_le_bytes(t.image().len() as u32));
}

} // verus!
