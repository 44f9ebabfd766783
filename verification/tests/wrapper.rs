use git_toy::error::{check, Error, WRAPPER_ERROR_CLASS, WRAPPER_ERROR_CODE};
use git_toy::lifecycle::{ensure_initialized, InitState};
use git_toy::repo::{Commit, Signature};
use git_toy::text::{contains_nul, decode_text, path_to_cstring, str_to_c_bytes, to_c_bytes};

#[test]
fn check_passes_zero_through() {
    let r = check(0, String::new(), 0);
    assert_eq!(r.unwrap(), 0);
}

#[test]
fn check_passes_positive_through() {
    let r = check(42, String::new(), 0);
    assert_eq!(r.unwrap(), 42);
}

#[test]
fn check_translates_failure() {
    let r = check(-3, String::from("reference 'HEAD' not found"), 4);
    let e = r.unwrap_err();
    assert_eq!(e.code, -3);
    assert_eq!(e.message, "reference 'HEAD' not found");
    assert_eq!(e.class, 4);
}

#[test]
fn error_from_message_uses_wrapper_code() {
    let e = Error::from_message(String::from("no such path"));
    assert_eq!(e.code, WRAPPER_ERROR_CODE);
    assert_eq!(e.class, WRAPPER_ERROR_CLASS);
    assert_eq!(e.to_text(), "no such path");
}

#[test]
fn contains_nul_finds_embedded_nul() {
    assert!(contains_nul(&[1u8, 0u8, 2u8]));
    assert!(contains_nul(&[0u8]));
    assert!(!contains_nul(&[1u8, 2u8, 3u8]));
    assert!(!contains_nul(&[]));
}

#[test]
fn to_c_bytes_appends_terminator() {
    let r = to_c_bytes(&[104u8, 105u8]).unwrap();
    assert_eq!(r, vec![104u8, 105u8, 0u8]);
}

#[test]
fn to_c_bytes_of_empty_is_one_nul() {
    let r = to_c_bytes(&[]).unwrap();
    assert_eq!(r, vec![0u8]);
}

#[test]
fn to_c_bytes_rejects_embedded_nul() {
    let e = to_c_bytes(&[104u8, 0u8, 105u8]).unwrap_err();
    assert_eq!(e.code, WRAPPER_ERROR_CODE);
    assert_eq!(e.class, WRAPPER_ERROR_CLASS);
    assert_eq!(e.message, "string holds an embedded null byte");
}

#[test]
fn path_to_cstring_round() {
    let path = b"/tmp/repo";
    let r = path_to_cstring(path).unwrap();
    let mut expected = path.to_vec();
    expected.push(0u8);
    assert_eq!(r, expected);
}

#[test]
fn path_to_cstring_rejects_embedded_nul() {
    assert!(path_to_cstring(b"/tmp\0/repo").is_err());
}

#[test]
fn str_to_c_bytes_terminates_name() {
    let r = str_to_c_bytes("HEAD").unwrap();
    assert_eq!(r, vec![b'H', b'E', b'A', b'D', 0u8]);
}

#[test]
fn str_to_c_bytes_rejects_embedded_nul_char() {
    let e = str_to_c_bytes("HE\0AD").unwrap_err();
    assert_eq!(e.code, WRAPPER_ERROR_CODE);
    assert_eq!(e.message, "string holds an embedded null byte");
}

#[test]
fn decode_text_decodes_valid_utf8() {
    let r = decode_text(&Some(b"Ada Lovelace".to_vec()));
    assert_eq!(r.unwrap(), "Ada Lovelace");
}

#[test]
fn decode_text_absent_pointer_is_none() {
    assert!(decode_text(&None).is_none());
}

#[test]
fn decode_text_invalid_utf8_is_none() {
    assert!(decode_text(&Some(vec![0xFFu8, 0xFEu8])).is_none());
}

#[test]
fn guard_fires_exactly_once() {
    let mut st = InitState::Fresh;
    let mut fired: usize = 0;
    let mut calls: usize = 0;
    while calls < 8 {
        let (next, fire) = ensure_initialized(st);
        st = next;
        if fire {
            fired += 1;
        }
        calls += 1;
    }
    assert_eq!(fired, 1);
    assert!(matches!(st, InitState::Ready));
}

#[test]
fn guard_first_call_fires() {
    let (st, fire) = ensure_initialized(InitState::Fresh);
    assert!(fire);
    assert!(matches!(st, InitState::Ready));
}

#[test]
fn guard_later_call_does_not_fire() {
    let (_, fire) = ensure_initialized(InitState::Ready);
    assert!(!fire);
}

#[test]
fn signature_exposes_name_and_email() {
    let sig = Signature::new(
        Some(b"Ada Lovelace".to_vec()),
        Some(b"ada@example.com".to_vec()),
    );
    assert_eq!(sig.name().unwrap(), "Ada Lovelace");
    assert_eq!(sig.email().unwrap(), "ada@example.com");
}

#[test]
fn signature_null_pointers_read_as_absent() {
    let sig = Signature::new(None, None);
    assert!(sig.name().is_none());
    assert!(sig.email().is_none());
}

#[test]
fn signature_invalid_utf8_reads_as_absent() {
    let sig = Signature::new(Some(vec![0xC0u8, 0x00u8]), Some(b"ok@example.com".to_vec()));
    assert!(sig.name().is_none());
    assert_eq!(sig.email().unwrap(), "ok@example.com");
}

#[test]
fn commit_exposes_author_and_message() {
    let author = Signature::new(Some(b"Ada".to_vec()), Some(b"ada@example.com".to_vec()));
    let commit = Commit::from_native(7, author, Some(b"Initial commit\n".to_vec()));
    assert_eq!(commit.author().name().unwrap(), "Ada");
    assert_eq!(commit.message().unwrap(), "Initial commit\n");
    assert_eq!(commit.release(), 7);
}

#[test]
fn commit_null_message_reads_as_absent() {
    let author = Signature::new(None, None);
    let commit = Commit::from_native(9, author, None);
    assert!(commit.message().is_none());
}
