use do_ssh::wire::decode_port;
use do_ssh::wire::encode_port;
use do_ssh::wire::HeaderError;
use do_ssh::wire::ALPN;
use do_ssh::wire::PORT_HEADER_LEN;

#[test]
fn header_is_two_bytes_big_endian() {
    assert_eq!(PORT_HEADER_LEN, 2);
    assert_eq!(encode_port(0), [0x00, 0x00]);
    assert_eq!(encode_port(22), [0x00, 0x16]);
    assert_eq!(encode_port(80), [0x00, 0x50]);
    assert_eq!(encode_port(256), [0x01, 0x00]);
    assert_eq!(encode_port(8080), [0x1f, 0x90]);
    assert_eq!(encode_port(65535), [0xff, 0xff]);
}

#[test]
fn header_matches_the_standard_big_endian_encoding() {
    for port in [0u16, 1, 22, 255, 256, 443, 8080, 9999, 32768, 65535] {
        assert_eq!(encode_port(port), port.to_be_bytes());
    }
}

#[test]
fn decode_reads_exactly_two_bytes() {
    assert_eq!(decode_port(&[0x00, 0x50]), Ok(80));
    assert_eq!(decode_port(&[0x1f, 0x90]), Ok(8080));
    assert_eq!(decode_port(&[0x00, 0x00]), Ok(0));
    assert_eq!(decode_port(&[0xff, 0xff]), Ok(65535));
    assert_eq!(decode_port(&[0x01, 0x00]), Ok(256));
}

#[test]
fn decode_of_an_empty_read_is_truncated() {
    assert_eq!(decode_port(&[]), Err(HeaderError::Truncated { received: 0 }));
}

#[test]
fn decode_of_one_byte_is_truncated() {
    assert_eq!(decode_port(&[0x1f]), Err(HeaderError::Truncated { received: 1 }));
    assert_eq!(decode_port(&[0x00]), Err(HeaderError::Truncated { received: 1 }));
}

#[test]
fn decode_refuses_more_than_the_header() {
    assert_eq!(decode_port(&[0x00, 0x50, 0x41]), Err(HeaderError::Overlong { received: 3 }));
    assert_eq!(decode_port(&[0u8; 64]), Err(HeaderError::Overlong { received: 64 }));
}

#[test]
fn every_port_survives_the_round_trip() {
    for port in 0..=u16::MAX {
        assert_eq!(decode_port(&encode_port(port)), Ok(port));
    }
}

#[test]
fn every_header_survives_the_round_trip() {
    for high in 0..=u8::MAX {
        for low in [0u8, 1, 22, 127, 128, 254, 255] {
            let port = decode_port(&[high, low]).unwrap();
            assert_eq!(encode_port(port), [high, low]);
        }
    }
}

#[test]
fn header_faults_are_worded() {
    assert_eq!(
        HeaderError::Truncated { received: 0 }.message(),
        "port header truncated: stream closed after 0 of 2 bytes"
    );
    assert_eq!(
        HeaderError::Truncated { received: 1 }.message(),
        "port header truncated: stream closed after 1 of 2 bytes"
    );
    assert_eq!(
        HeaderError::Overlong { received: 17 }.message(),
        "port header overlong: 17 bytes read for 2"
    );
}

#[test]
fn protocol_name_is_fixed() {
    assert_eq!(ALPN, "do-ssh");
    assert_eq!(ALPN.as_bytes(), b"do-ssh");
}
