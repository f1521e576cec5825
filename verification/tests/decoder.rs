use base64::engine::general_purpose::STANDARD;
use base64::Engine;
use repo_exporter::github::decoder::{decode, interpret, strip_line_breaks, DecodeFailure};

#[test]
fn decodes_a_payload() {
    assert_eq!(decode("aGVsbG8gd29ybGQ="), Ok("hello world".to_string()));
    assert_eq!(decode(""), Ok(String::new()));
    assert_eq!(decode("Zm4gbWFpbigpIHt9Cg=="), Ok("fn main() {}\n".to_string()));
}

#[test]
fn line_breaks_inside_a_payload_do_not_count() {
    assert_eq!(decode("aGVsbG8g\nd29ybGQ=\n"), Ok("hello world".to_string()));
    assert_eq!(decode("\n\na\nG\nV\ns\nb\nG\n8\n=\n"), Ok("hello".to_string()));
    assert_eq!(strip_line_breaks("ab\ncd\n\n"), b"abcd".to_vec());
    assert_eq!(strip_line_breaks("\n"), Vec::<u8>::new());
    assert_eq!(strip_line_breaks("a\r\nb"), b"a\rb".to_vec());
    assert_eq!(strip_line_breaks("é\n語"), "é語".as_bytes().to_vec());
}

#[test]
fn a_payload_that_is_not_in_the_encoding_is_malformed() {
    assert_eq!(decode("not base64!"), Err(DecodeFailure::Malformed));
    assert_eq!(decode("aGVsbG8"), Err(DecodeFailure::Malformed));
    assert_eq!(decode("aGVsbG8=\r\n"), Err(DecodeFailure::Malformed));
    assert_eq!(decode("aGVs bG8="), Err(DecodeFailure::Malformed));
    assert_eq!(decode("é"), Err(DecodeFailure::Malformed));
}

#[test]
fn bytes_that_are_not_text_are_binary() {
    assert_eq!(decode(&STANDARD.encode([0xff, 0xfe, 0x00])), Err(DecodeFailure::NotText));
    assert_eq!(decode(&STANDARD.encode([0xc3])), Err(DecodeFailure::NotText));
    assert_eq!(decode(&STANDARD.encode([0xed, 0xa0, 0x80])), Err(DecodeFailure::NotText));
    assert_eq!(decode("/w=="), Err(DecodeFailure::NotText));
}

#[test]
fn encoding_then_decoding_restores_the_text() {
    let samples = [
        "",
        "a",
        "hello world",
        "line one\nline two\n",
        "tabs\tand\r\nreturns",
        "ünïcödé 日本語 🎉",
        "\u{0}\u{7f}\u{80}\u{7ff}\u{800}\u{ffff}\u{10000}\u{10ffff}",
    ];
    for sample in samples {
        assert_eq!(decode(&STANDARD.encode(sample)), Ok(sample.to_string()));
    }
    let mut long = String::new();
    for i in 0..5000 {
        long.push(char::from_u32(0x20 + (i % 0x5f)).unwrap());
    }
    assert_eq!(decode(&STANDARD.encode(&long)), Ok(long.clone()));
    let encoded = STANDARD.encode(&long);
    let mut wrapped = String::new();
    for (i, c) in encoded.chars().enumerate() {
        if i > 0 && i % 60 == 0 {
            wrapped.push('\n');
        }
        wrapped.push(c);
    }
    wrapped.push('\n');
    assert_eq!(decode(&wrapped), Ok(long));
}

#[test]
fn what_the_transport_decoder_hands_back_is_read_as_text() {
    assert_eq!(interpret(Ok(b"plain".to_vec())), Ok("plain".to_string()));
    assert_eq!(interpret(Ok(Vec::new())), Ok(String::new()));
    assert_eq!(interpret(Ok("日本語".as_bytes().to_vec())), Ok("日本語".to_string()));
    assert_eq!(interpret(Ok(vec![0x80])), Err(DecodeFailure::NotText));
    assert_eq!(interpret(Ok(vec![b'a', 0xff])), Err(DecodeFailure::NotText));
    assert_eq!(
        interpret(Err(base64::DecodeError::InvalidPadding)),
        Err(DecodeFailure::Malformed)
    );
    assert_eq!(
        interpret(Err(base64::DecodeError::InvalidByte(0, b'!'))),
        Err(DecodeFailure::Malformed)
    );
}
