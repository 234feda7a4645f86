use ffi_bytes::from_boxed_byte_slice_raw;
use ffi_bytes::into_boxed_byte_slice_raw;
use ffi_bytes::new_boxed_byte_slice_buffer_raw;
use ffi_bytes::string_from_boxed_byte_slice_raw;
use ffi_bytes::string_into_boxed_byte_slice_raw;

#[test]
fn zero_preservation_lengths_zero_to_eight() {
    for n in 0..=8usize {
        let h = new_boxed_byte_slice_buffer_raw(n);
        assert_eq!(h.len(), n);
        let b = from_boxed_byte_slice_raw(h);
        assert_eq!(b.len(), n);
        assert!(b.iter().all(|&x| x == 0));
    }
}

#[test]
fn allocate_four_zeroed_then_reclaim() {
    let h = new_boxed_byte_slice_buffer_raw(4);
    assert_eq!(h.len(), 4);
    for i in 0..4 {
        assert_eq!(h.byte_at(i), 0x00);
    }
    let b = from_boxed_byte_slice_raw(h);
    assert_eq!(b, vec![0u8; 4]);
}

#[test]
fn allocate_zero_returns_null_handle() {
    let h = new_boxed_byte_slice_buffer_raw(0);
    assert!(h.is_null());
    assert_eq!(h.len(), 0);
    let b = from_boxed_byte_slice_raw(h);
    assert!(b.is_empty());
}

#[test]
fn release_reclaim_identity_on_bytes() {
    let original: Vec<u8> = vec![1, 2, 3, 255, 0, 42];
    let h = into_boxed_byte_slice_raw(original.clone());
    assert_eq!(h.len(), original.len());
    assert!(!h.is_null());
    let b = from_boxed_byte_slice_raw(h);
    assert_eq!(b, original);
}

#[test]
fn empty_buffer_collapses_to_null_handle() {
    let h = into_boxed_byte_slice_raw(Vec::new());
    assert!(h.is_null());
    assert_eq!(h.len(), 0);
    let b = from_boxed_byte_slice_raw(h);
    assert!(b.is_empty());
}

#[test]
fn host_fills_allocated_buffer() {
    let mut h = new_boxed_byte_slice_buffer_raw(3);
    h.write_at(0, b'a');
    h.write_at(1, b'b');
    h.write_at(2, b'c');
    let b = from_boxed_byte_slice_raw(h);
    assert_eq!(b, b"abc".to_vec());
}

#[test]
fn release_text_hello() {
    let h = string_into_boxed_byte_slice_raw(String::from("hello"));
    assert_eq!(h.len(), 5);
    let expected = [0x68u8, 0x65, 0x6c, 0x6c, 0x6f];
    for (i, &x) in expected.iter().enumerate() {
        assert_eq!(h.byte_at(i), x);
    }
    let s = string_from_boxed_byte_slice_raw(h, false);
    assert_eq!(s, "hello");
}

#[test]
fn text_round_trip_multibyte() {
    let original = String::from("héllo ☃ 漢字");
    let h = string_into_boxed_byte_slice_raw(original.clone());
    assert_eq!(h.len(), original.len());
    let s = string_from_boxed_byte_slice_raw(h, false);
    assert_eq!(s, original);
}

#[test]
fn trim_removes_surrounding_ascii_whitespace() {
    let h = string_into_boxed_byte_slice_raw(String::from("  hi\n"));
    let s = string_from_boxed_byte_slice_raw(h, true);
    assert_eq!(s, "hi");
}

#[test]
fn no_trim_returns_text_verbatim() {
    let h = string_into_boxed_byte_slice_raw(String::from("  hi\n"));
    let s = string_from_boxed_byte_slice_raw(h, false);
    assert_eq!(s, "  hi\n");
}

#[test]
fn trim_removes_unicode_whitespace() {
    let h = string_into_boxed_byte_slice_raw(String::from("\u{a0}\u{2028}hi\u{a0}\t"));
    let s = string_from_boxed_byte_slice_raw(h, true);
    assert_eq!(s, "hi");
}

#[test]
fn trim_keeps_interior_whitespace() {
    let h = string_into_boxed_byte_slice_raw(String::from("hi there"));
    let s = string_from_boxed_byte_slice_raw(h, true);
    assert_eq!(s, "hi there");
}

#[test]
fn trim_of_all_whitespace_is_empty() {
    let h = string_into_boxed_byte_slice_raw(String::from(" \t\r\n"));
    let s = string_from_boxed_byte_slice_raw(h, true);
    assert_eq!(s, "");
}

#[test]
fn release_empty_text_returns_null_handle() {
    let h = string_into_boxed_byte_slice_raw(String::new());
    assert!(h.is_null());
    assert_eq!(h.len(), 0);
    let s = string_from_boxed_byte_slice_raw(h, true);
    assert_eq!(s, "");
}

#[test]
fn reclaim_null_handle_as_text_untrimmed() {
    let h = into_boxed_byte_slice_raw(Vec::new());
    let s = string_from_boxed_byte_slice_raw(h, false);
    assert_eq!(s, "");
}

#[test]
fn text_handle_matches_allocated_and_filled_buffer() {
    let text = String::from("hi");
    let released = string_into_boxed_byte_slice_raw(text);
    let mut filled = new_boxed_byte_slice_buffer_raw(2);
    filled.write_at(0, b'h');
    filled.write_at(1, b'i');
    let a = from_boxed_byte_slice_raw(released);
    let b = from_boxed_byte_slice_raw(filled);
    assert_eq!(a, b);
}
