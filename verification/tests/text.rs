use orc2::call::Reply;
use orc2::error::{Check, LLVMString, Phase};
use orc2::operation::{Operation, Step};
use orc2::text::to_c_str;

#[test]
fn empty_text_is_just_the_terminator() {
    assert_eq!(to_c_str("").as_bytes_with_nul(), &[0u8][..]);
}

#[test]
fn text_is_terminated() {
    assert_eq!(to_c_str("sum").as_bytes_with_nul(), b"sum\0");
}

#[test]
fn text_is_cut_at_its_first_null() {
    assert_eq!(to_c_str("ab\0cd\0").as_bytes_with_nul(), b"ab\0");
    assert_eq!(to_c_str("\0").as_bytes_with_nul(), b"\0");
}

#[test]
fn text_goes_out_as_utf8() {
    assert_eq!(to_c_str("é€\u{1F600}").as_bytes_with_nul(), "é€\u{1F600}\0".as_bytes());
}

fn message(bytes: &[u8]) -> LLVMString {
    let reply = Reply::Text { start: 0x70, bytes: bytes.to_vec() };
    let wait = Check { phase: Phase::Message };
    assert!(wait.check(&reply));
    match wait.resume(reply) {
        Step::Done(Err(message)) => message,
        other => panic!("{:?}", other),
    }
}

#[test]
fn messages_read_as_utf8() {
    assert_eq!(message("déjà défini".as_bytes()).to_string(), "déjà défini");
    assert_eq!(message(b"").to_string(), "");
}

#[test]
fn messages_that_are_not_utf8_read_with_replacements() {
    assert_eq!(message(&[b'a', 0xff, b'b']).to_string(), "a\u{FFFD}b");
}
