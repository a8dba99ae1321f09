use bytes::BytesMut;

use snowflake_rs::generator::BasicIDGenerator;
use snowflake_rs::server::{i64_to_be_bytes, IDCodec, IDRequest, IDResponse, IDService, Reply};

#[test]
fn produce_request_on_fresh_generator_answers_zero() {
    let mut codec = IDCodec;
    let mut src = BytesMut::from(&[0x50u8][..]);
    let req = codec.decode(&mut src).unwrap();
    assert_eq!(req, IDRequest { request_code: 0x50 });
    assert_eq!(src.len(), 0);
    let service = IDService;
    assert!(matches!(service.call(req), Reply::Pending(_)));
    let mut g = BasicIDGenerator::new_at(7_000, 0, 7_000);
    let id = g.generate_at(7_000).unwrap();
    let mut dst = BytesMut::new();
    codec.encode(IDResponse { id }, &mut dst);
    assert_eq!(&dst[..], &[0u8; 8][..]);
}

#[test]
fn unrecognized_request_answers_minus_one() {
    let mut codec = IDCodec;
    let mut src = BytesMut::from(&[0x51u8][..]);
    let req = codec.decode(&mut src).unwrap();
    let service = IDService;
    match service.call(req) {
        Reply::Immediate(resp) => {
            assert_eq!(resp, IDResponse { id: -1 });
            let mut dst = BytesMut::new();
            codec.encode(resp, &mut dst);
            assert_eq!(&dst[..], &[0xffu8; 8][..]);
        }
        Reply::Pending(_) => panic!("rejected code must not wait"),
    }
}

#[test]
fn future_polls_the_generator() {
    let service = IDService;
    let mut g = BasicIDGenerator::new(0, 0);
    match service.call(IDRequest { request_code: 0x50 }) {
        Reply::Pending(mut f) => {
            let resp = f.poll(&mut g).unwrap();
            assert!(resp.id > 0);
        }
        Reply::Immediate(_) => panic!("produce code must reach the generator"),
    }
}

#[test]
fn decode_takes_one_byte_at_a_time() {
    let mut codec = IDCodec;
    let mut src = BytesMut::from(&[0x50u8, 0x51, 0x00][..]);
    assert_eq!(codec.decode(&mut src), Some(IDRequest { request_code: 0x50 }));
    assert_eq!(codec.decode(&mut src), Some(IDRequest { request_code: 0x51 }));
    assert_eq!(codec.decode(&mut src), Some(IDRequest { request_code: 0x00 }));
    assert_eq!(codec.decode(&mut src), None);
    assert_eq!(src.len(), 0);
}

#[test]
fn encode_appends_big_endian() {
    let mut codec = IDCodec;
    let mut dst = BytesMut::from(&[0xaau8][..]);
    codec.encode(IDResponse { id: 0x0102_0304_0506_0708 }, &mut dst);
    assert_eq!(&dst[..], &[0xaa, 1, 2, 3, 4, 5, 6, 7, 8][..]);
    codec.encode(IDResponse { id: -2 }, &mut dst);
    assert_eq!(dst.len(), 17);
    assert_eq!(&dst[9..], &[0xff, 0xff, 0xff, 0xff, 0xff, 0xff, 0xff, 0xfe][..]);
}

#[test]
fn be_bytes_of_values() {
    assert_eq!(i64_to_be_bytes(1), vec![0, 0, 0, 0, 0, 0, 0, 1]);
    assert_eq!(i64_to_be_bytes(i64::MIN), vec![0x80, 0, 0, 0, 0, 0, 0, 0]);
}
