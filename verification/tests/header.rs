use fabric_rpc_rs::fabricrpc_header::{ReplyHeader, RequestHeader};
use fabric_rpc_rs::varint::{read_varint, write_varint};

#[test]
fn header_test() {
    let mut req = RequestHeader::default();
    req.url = String::from("my url").into_bytes();

    let buf = req.encode();

    let req2 = RequestHeader::decode(&buf).unwrap();

    assert_eq!(req.url, req2.url);
}

#[test]
fn varint_roundtrip_edges() {
    let values = [0u64, 1, 127, 128, 300, 16383, 16384, u64::MAX - 1, u64::MAX];
    for v in values {
        let mut buf = Vec::new();
        write_varint(&mut buf, v);
        let (got, end) = read_varint(&buf, 0).unwrap();
        assert_eq!(got, v);
        assert_eq!(end, buf.len());
    }
}

#[test]
fn varint_exact_bytes() {
    let mut buf = Vec::new();
    write_varint(&mut buf, 300);
    assert_eq!(buf, vec![0xAC, 0x02]);
}

#[test]
fn varint_largest_value() {
    let mut buf = vec![0xFFu8; 9];
    buf.push(0x01);
    let (got, end) = read_varint(&buf, 0).unwrap();
    assert_eq!(got, u64::MAX);
    assert_eq!(end, 10);
}

#[test]
fn varint_refused_inputs() {
    // cut short
    assert!(read_varint(&vec![0x80], 0).is_none());
    // value beyond sixty-four bits
    let mut big = vec![0xFFu8; 9];
    big.push(0x02);
    assert!(read_varint(&big, 0).is_none());
    // longer than ten bytes, even when the value is small
    let mut long = vec![0x80u8; 10];
    long.push(0x00);
    assert!(read_varint(&long, 0).is_none());
}

#[test]
fn varint_non_canonical_within_ten_bytes() {
    // a zero-padded encoding inside the length cap still reads
    let buf = vec![0x80u8, 0x00];
    let (got, end) = read_varint(&buf, 0).unwrap();
    assert_eq!(got, 0);
    assert_eq!(end, 2);
}

#[test]
fn request_header_exact_bytes() {
    let req = RequestHeader { url: b"ab".to_vec() };
    assert_eq!(req.encode(), vec![0x0A, 0x02, b'a', b'b']);
}

#[test]
fn request_header_empty_url_stays_off_wire() {
    let req = RequestHeader { url: Vec::new() };
    let buf = req.encode();
    assert!(buf.is_empty());
    let back = RequestHeader::decode(&buf).unwrap();
    assert!(back.url.is_empty());
}

#[test]
fn request_header_skips_unknown_fields() {
    // field 3 varint, then field 1 bytes "xy", then field 2 four-byte value
    let buf = vec![0x18, 0x07, 0x0A, 0x02, b'x', b'y', 0x15, 1, 2, 3, 4];
    let h = RequestHeader::decode(&buf).unwrap();
    assert_eq!(h.url, b"xy".to_vec());
}

#[test]
fn request_header_last_value_wins() {
    let buf = vec![0x0A, 0x01, b'a', 0x0A, 0x01, b'b'];
    let h = RequestHeader::decode(&buf).unwrap();
    assert_eq!(h.url, b"b".to_vec());
}

#[test]
fn request_header_decode_errors() {
    // length runs past the end
    assert!(RequestHeader::decode(&vec![0x0A, 0x05, b'a']).is_err());
    // key varint cut short
    assert!(RequestHeader::decode(&vec![0x80]).is_err());
    // deprecated group wire type
    assert!(RequestHeader::decode(&vec![0x0B]).is_err());
}

#[test]
fn text_fields_must_be_utf8() {
    // a url that no text could have produced
    assert!(RequestHeader::decode(&vec![0x0A, 0x01, 0xFF]).is_err());
    // a lone continuation byte in a status message
    assert!(ReplyHeader::decode(&vec![0x12, 0x01, 0x80]).is_err());
    // an overlong two-byte encoding of an ASCII character
    assert!(RequestHeader::decode(&vec![0x0A, 0x02, 0xC0, 0xAF]).is_err());
    // well-formed multi-byte text reads back unchanged
    let url = String::from("/caf\u{e9}.Gr\u{fc}\u{df}er/\u{4f60}\u{597d}").into_bytes();
    let h = RequestHeader { url: url.clone() };
    assert_eq!(RequestHeader::decode(&h.encode()).unwrap().url, url);
}

#[test]
fn reply_header_roundtrip_values() {
    let h = ReplyHeader { status_code: 6, status_message: b"duplicate id".to_vec() };
    let buf = h.encode();
    let h2 = ReplyHeader::decode(&buf).unwrap();
    assert_eq!(h2.status_code, 6);
    assert_eq!(h2.status_message, b"duplicate id".to_vec());
}

#[test]
fn reply_header_exact_bytes() {
    let h = ReplyHeader { status_code: 12, status_message: b"no".to_vec() };
    assert_eq!(h.encode(), vec![0x08, 12, 0x12, 0x02, b'n', b'o']);
}

#[test]
fn reply_header_defaults_stay_off_wire() {
    let h = ReplyHeader { status_code: 0, status_message: Vec::new() };
    assert!(h.encode().is_empty());
    let h2 = ReplyHeader::decode(&Vec::new()).unwrap();
    assert_eq!(h2.status_code, 0);
    assert!(h2.status_message.is_empty());
}

#[test]
fn reply_header_negative_code_roundtrip() {
    let h = ReplyHeader { status_code: -7, status_message: b"odd".to_vec() };
    let h2 = ReplyHeader::decode(&h.encode()).unwrap();
    assert_eq!(h2.status_code, -7);
    assert_eq!(h2.status_message, b"odd".to_vec());
}
