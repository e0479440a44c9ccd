use bytes::BytesMut;
use syncplay::packet::{Packet, PacketDecoder, ReadError, PROTOCOL_VERSION};

#[test]
fn protocol_version() {
    assert_eq!(PROTOCOL_VERSION, 69);
}

#[test]
fn cuts_frames() {
    let mut decoder = PacketDecoder::new(3);
    let mut src = BytesMut::from(&[1u8, 2, 3, 4, 5, 6, 7][..]);
    assert_eq!(&decoder.decode(&mut src).unwrap()[..], &[1, 2, 3]);
    assert_eq!(&decoder.decode(&mut src).unwrap()[..], &[4, 5, 6]);
    assert!(decoder.decode(&mut src).is_none());
    assert_eq!(&src[..], &[7]);
}

#[test]
fn pieces_do_not_matter() {
    let bytes: Vec<u8> = (0u8..20).collect();
    for cut in 0..=20 {
        let mut decoder = PacketDecoder::new(4);
        let mut src = BytesMut::new();
        let mut found: Vec<Vec<u8>> = Vec::new();
        for piece in [&bytes[..cut], &bytes[cut..]] {
            src.extend_from_slice(piece);
            while let Some(frame) = decoder.decode(&mut src) {
                found.push(frame.to_vec());
            }
        }
        assert_eq!(found.concat(), bytes);
        assert_eq!(found.len(), 5);
        assert!(src.is_empty());
    }
}

#[test]
fn datagrams_have_the_size_of_a_frame() {
    let decoder = PacketDecoder::new(2);
    assert_eq!(decoder.datagram(&[8, 9]), Some(&[8u8, 9][..]));
    assert_eq!(decoder.datagram(&[8]), None);
    assert_eq!(decoder.datagram(&[8, 9, 10]), None);
}

#[test]
fn reads_what_was_received() {
    let buffer = [1u8, 2, 3, 0xff];
    assert_eq!(Packet::read_from(&buffer, 3), Ok(&[1u8, 2, 3][..]));
    assert_eq!(Packet::read_from(&buffer, 4), Ok(&buffer[..]));
    assert_eq!(Packet::read_from(&buffer, 0), Err(ReadError::StreamClosed));
    assert_eq!(ReadError::StreamClosed.message(), "stream closed");
}
