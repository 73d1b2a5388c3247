use iron_oxide::handle::Handle;
use iron_oxide::runtime::Runtime;
use iron_oxide::text::{decode_text, encode_text};

fn round_trips(s: &str) {
    let bytes = encode_text(s);
    let back = decode_text(bytes).expect("the encoding of a host string is valid UTF-8");
    assert_eq!(back, s);
}

#[test]
fn round_trip_empty_string() {
    round_trips("");
}

#[test]
fn round_trip_ascii() {
    round_trips("newComputePipelineStateWithFunction:error:");
}

#[test]
fn round_trip_multibyte_code_points() {
    round_trips("héllo wörld");
    round_trips("日本語のシェーダ");
    round_trips("crab: \u{1F980}, snow: \u{2603}");
}

#[test]
fn encoding_is_the_utf8_bytes() {
    assert_eq!(encode_text("abc"), vec![0x61, 0x62, 0x63]);
    assert_eq!(encode_text("é"), vec![0xc3, 0xa9]);
    assert_eq!(encode_text(""), Vec::<u8>::new());
}

#[test]
fn invalid_utf8_is_rejected() {
    assert!(decode_text(vec![0xff, 0xfe]).is_none());
    // A continuation byte with no leading byte.
    assert!(decode_text(vec![0x80]).is_none());
    // A two-byte leading byte with nothing after it.
    assert!(decode_text(vec![0xc3]).is_none());
    // An overlong encoding of '/'.
    assert!(decode_text(vec![0xc0, 0xaf]).is_none());
}

#[test]
fn foreign_bytes_round_trip() {
    let bytes = vec![0x61, 0xc3, 0xa9, 0xe6, 0x97, 0xa5];
    let s = decode_text(bytes.clone()).expect("valid UTF-8 decodes");
    assert_eq!(encode_text(&s), bytes);
}

#[test]
fn string_object_round_trip_through_the_runtime() {
    let mut rt = Runtime::new();
    let h = rt.new_string_object("Grüße, GPU");
    let back = rt.read_string_object(&h).expect("the stored bytes are valid UTF-8");
    assert_eq!(back, "Grüße, GPU");
    assert_eq!(rt.retain_count(h.unwrap_reference()), 1);
}

#[test]
fn empty_string_object_reads_back_empty() {
    let mut rt = Runtime::new();
    let h = rt.new_string_object("");
    assert_eq!(rt.read_string_object(&h).unwrap(), "");
}

#[test]
fn distinct_string_objects_are_independent() {
    let mut rt = Runtime::new();
    let a = rt.new_string_object("first");
    let b = rt.new_string_object("second");
    assert_ne!(a.unwrap_reference(), b.unwrap_reference());
    assert_eq!(rt.read_string_object(&a).unwrap(), "first");
    assert_eq!(rt.read_string_object(&b).unwrap(), "second");
    let _keep: Handle = a;
}
