use matiaos::protocol::decode_size;
use matiaos::transfer::{KernelTransfer, TransferError, TransferPhase};

fn send_size(t: &mut KernelTransfer) -> Vec<u8> {
    let mut out = Vec::new();
    while let Some(b) = t.on_writable() {
        out.push(b);
    }
    out
}

#[test]
fn full_transfer_delivers_image() {
    let image: Vec<u8> = (0..300u32).map(|i| (i * 7 % 256) as u8).collect();
    let mut t = KernelTransfer::new(image.clone()).unwrap();
    assert_eq!(t.size(), 300);
    assert_eq!(t.current_phase(), TransferPhase::SendingSize);
    let size = send_size(&mut t);
    assert_eq!(size, vec![0x2c, 0x01, 0, 0]);
    assert_eq!(t.current_phase(), TransferPhase::AwaitingAck);
    assert_eq!(t.reply_needed(), 2);
    assert_eq!(t.on_reply(b"OK"), Ok(TransferPhase::SendingImage));
    let mut sent = Vec::new();
    while let Some(b) = t.next_image_byte() {
        sent.push(b);
    }
    assert_eq!(sent, image);
    assert_eq!(t.current_phase(), TransferPhase::Done);

    let mut wire = size.clone();
    wire.extend_from_slice(&sent);
    let n = decode_size(&[wire[0], wire[1], wire[2], wire[3]]) as usize;
    assert_eq!(&wire[4..4 + n], &image[..]);
}

#[test]
fn reply_split_over_reads() {
    let mut t = KernelTransfer::new(vec![9, 8, 7]).unwrap();
    send_size(&mut t);
    assert_eq!(t.on_reply(b"O"), Ok(TransferPhase::AwaitingAck));
    assert_eq!(t.reply_needed(), 1);
    assert_eq!(t.on_reply(b"K"), Ok(TransferPhase::SendingImage));
    assert_eq!(t.next_image_byte(), Some(9));
    assert_eq!(t.next_image_byte(), Some(8));
    assert_eq!(t.next_image_byte(), Some(7));
    assert_eq!(t.next_image_byte(), None);
}

#[test]
fn wrong_reply_fails_and_sends_nothing() {
    for reply in [&b"NO"[..], &b"ko"[..], &b"KO"[..], &[0u8, 0][..]] {
        let mut t = KernelTransfer::new(vec![1, 2, 3]).unwrap();
        send_size(&mut t);
        assert_eq!(t.on_reply(reply), Err(TransferError::AckMismatch));
        assert_eq!(t.current_phase(), TransferPhase::Failed);
        assert_eq!(t.next_image_byte(), None);
        assert_eq!(t.on_writable(), None);
    }
}

#[test]
fn excess_reply_bytes_are_not_taken() {
    let mut t = KernelTransfer::new(vec![5]).unwrap();
    send_size(&mut t);
    assert_eq!(t.on_reply(b"OKjunk"), Ok(TransferPhase::SendingImage));
    assert_eq!(t.next_image_byte(), Some(5));
    assert_eq!(t.current_phase(), TransferPhase::Done);
}

#[test]
fn empty_image_is_done_after_ack() {
    let mut t = KernelTransfer::new(Vec::new()).unwrap();
    assert_eq!(send_size(&mut t), vec![0, 0, 0, 0]);
    assert_eq!(t.on_reply(b"OK"), Ok(TransferPhase::Done));
    assert_eq!(t.next_image_byte(), None);
}

#[test]
fn reply_before_size_is_ignored() {
    let mut t = KernelTransfer::new(vec![1]).unwrap();
    assert_eq!(t.on_reply(b"OK"), Ok(TransferPhase::SendingSize));
    assert_eq!(t.reply_needed(), 0);
    assert_eq!(t.next_image_byte(), None);
}

#[test]
fn size_sent_one_byte_per_event() {
    let mut t = KernelTransfer::new(vec![0; 0x0102]).unwrap();
    assert_eq!(t.on_writable(), Some(0x02));
    assert_eq!(t.current_phase(), TransferPhase::SendingSize);
    assert_eq!(t.on_writable(), Some(0x01));
    assert_eq!(t.on_writable(), Some(0x00));
    assert_eq!(t.on_writable(), Some(0x00));
    assert_eq!(t.on_writable(), None);
    assert_eq!(t.current_phase(), TransferPhase::AwaitingAck);
}
