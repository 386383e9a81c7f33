use rdpclient::bitmap::{decode_bitmap, BitmapEvent};
use rdpclient::errors::DecodeError;

fn event(width: u16, height: u16, bpp: u16, is_compress: bool, data: Vec<u8>) -> BitmapEvent {
    BitmapEvent {
        dest_left: 0,
        dest_top: 0,
        dest_right: width,
        dest_bottom: height,
        width,
        height,
        bpp,
        is_compress,
        data,
    }
}

/// A compressed 32-bit-deep payload: the plane header byte, then four
/// identical colour planes. Each plane spells its first row as four
/// raw colour bytes 1..4 and repeats that row three times, so every
/// pixel in column j decodes to four bytes of value j+1.
fn compressed_fixture() -> Vec<u8> {
    let mut data = vec![0x10];
    for _ in 0..4 {
        data.extend_from_slice(&[0x40, 1, 2, 3, 4, 0x04, 0x04, 0x04]);
    }
    data
}

fn expected_fixture_pixels() -> Vec<u8> {
    let mut pixels = Vec::new();
    for _ in 0..4 {
        for column in 0..4u8 {
            pixels.extend_from_slice(&[column + 1; 4]);
        }
    }
    pixels
}

#[test]
fn uncompressed_32bpp_passes_payload_through() {
    let payload: Vec<u8> = (0..64).collect();
    let r = decode_bitmap(event(4, 4, 32, false, payload.clone())).unwrap();
    assert_eq!(r.data, payload);
    assert_eq!((r.dest_left, r.dest_top, r.dest_right, r.dest_bottom), (0, 0, 4, 4));
}

#[test]
fn compressed_32bpp_decompresses() {
    let r = decode_bitmap(event(4, 4, 32, true, compressed_fixture())).unwrap();
    assert_ne!(r.data, compressed_fixture());
    assert_eq!(r.data.len(), 64);
    assert_eq!(r.data, expected_fixture_pixels());
}

#[test]
fn compressed_and_precomputed_payloads_agree() {
    let decompressed = decode_bitmap(event(4, 4, 32, true, compressed_fixture())).unwrap();
    let passthrough = decode_bitmap(event(4, 4, 32, false, decompressed.data.clone())).unwrap();
    assert_eq!(passthrough.data, decompressed.data);
}

#[test]
fn compressed_16bpp_decodes_to_32bit_pixels() {
    // An empty run-length stream leaves the whole buffer at colour
    // zero, which widens to opaque black pixels.
    let r = decode_bitmap(event(2, 2, 16, true, Vec::new())).unwrap();
    assert_eq!(r.data, vec![0, 0, 0, 0xff, 0, 0, 0, 0xff, 0, 0, 0, 0xff, 0, 0, 0, 0xff]);
}

#[test]
fn unsupported_depth_is_rejected() {
    let r = decode_bitmap(event(4, 4, 8, false, vec![0; 16]));
    assert_eq!(r.unwrap_err(), DecodeError::Unsupported);
}

#[test]
fn short_uncompressed_16bpp_is_malformed() {
    // Two by two pixels at 16 bits per pixel need 8 payload bytes.
    let r = decode_bitmap(event(2, 2, 16, false, vec![0; 4]));
    assert_eq!(r.unwrap_err(), DecodeError::Malformed);
}

#[test]
fn corrupt_compressed_payload_is_reported() {
    // A compressed 32-bit-deep stream must open with the 0x10 header.
    let r = decode_bitmap(event(4, 4, 32, true, vec![0x00, 0x01, 0x02]));
    assert_eq!(r.unwrap_err(), DecodeError::Corrupt);
}

#[test]
fn uncompressed_16bpp_widens_and_flips() {
    // Four pixels of colour zero, stored bottom-up at 16 bits per
    // pixel, decode to four opaque black 32-bit pixels.
    let r = decode_bitmap(event(2, 2, 16, false, vec![0; 8])).unwrap();
    assert_eq!(r.data, vec![0, 0, 0, 0xff, 0, 0, 0, 0xff, 0, 0, 0, 0xff, 0, 0, 0, 0xff]);
}

#[test]
fn overlong_run_is_malformed() {
    // A single code asking for a sixteen-pixel run inside a
    // one-pixel-wide plane row.
    let r = decode_bitmap(event(1, 1, 32, true, vec![0x10, 0x01]));
    assert_eq!(r.unwrap_err(), DecodeError::Malformed);
}

#[test]
fn zero_area_compressed_is_malformed() {
    let r = decode_bitmap(event(0, 0, 32, true, vec![0x10]));
    assert_eq!(r.unwrap_err(), DecodeError::Malformed);
    let r16 = decode_bitmap(event(0, 4, 16, true, vec![0x00]));
    assert_eq!(r16.unwrap_err(), DecodeError::Malformed);
}

#[test]
fn unknown_16bpp_opcode_is_malformed() {
    // The high nibble 0xA resolves to an opcode the decoder has no
    // arm for.
    let r = decode_bitmap(event(2, 2, 16, true, vec![0xa0, 0x00]));
    assert_eq!(r.unwrap_err(), DecodeError::Malformed);
}

#[test]
fn overflowing_two_colour_run_is_malformed() {
    // A two-colour run of 0xffff pairs would overflow the counter
    // that the run itself increments while it emits pixels.
    let r = decode_bitmap(event(4, 4, 16, true, vec![0xf8, 0xff, 0xff, 1, 0, 2, 0]));
    assert_eq!(r.unwrap_err(), DecodeError::Malformed);
}

#[test]
fn oversized_run_count_is_an_error_not_malformed() {
    // A fill run asking for more pixels than the buffer holds is
    // within the decoder's own error handling: it reports an error
    // rather than aborting, and that is surfaced as a corrupt payload.
    let r = decode_bitmap(event(2, 2, 16, true, vec![0xf0, 0xff, 0xff]));
    assert_eq!(r.unwrap_err(), DecodeError::Corrupt);
}

#[test]
fn mixed_16bpp_codes_decode() {
    // A foreground-mix run of eight pixels (one mask byte) followed by
    // a raw run of two colour words: the validator and the decoder
    // must agree on where each code starts.
    let data = vec![0x40, 0x07, 0xaa, 0xf4, 0x02, 0x00, 0x11, 0x22, 0x33, 0x44];
    let r = decode_bitmap(event(4, 4, 16, true, data)).unwrap();
    assert_eq!(r.data.len(), 64);
}
