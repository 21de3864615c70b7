use flash_algorithm::arrayify_string;

#[test]
fn short_name_is_followed_by_zeros() {
    let field: [u8; 128] = arrayify_string("abc");
    assert_eq!(field[0], b'a');
    assert_eq!(field[1], b'b');
    assert_eq!(field[2], b'c');
    assert_eq!(field[3..].len(), 125);
    assert!(field[3..].iter().all(|byte| *byte == 0));
}

#[test]
fn empty_name_gives_zeros_only() {
    let field: [u8; 128] = arrayify_string("");
    assert_eq!(field, [0u8; 128]);
}

#[test]
fn name_of_full_length_fills_the_field() {
    let name = "0123456789abcdef0123456789abcdef0123456789abcdef0123456789abcdef0123456789abcdef0123456789abcdef0123456789abcdef0123456789abcdef";
    assert_eq!(name.len(), 128);
    let field: [u8; 128] = arrayify_string(name);
    assert_eq!(&field[..], name.as_bytes());
}

#[test]
fn long_name_is_cut() {
    let name = "0123456789abcdef0123456789abcdef0123456789abcdef0123456789abcdef0123456789abcdef0123456789abcdef0123456789abcdef0123456789abcdefXYZ";
    assert_eq!(name.len(), 131);
    let field: [u8; 128] = arrayify_string(name);
    assert_eq!(&field[..], &name.as_bytes()[..128]);
    assert_eq!(field[127], b'f');
}

#[test]
fn name_is_copied_byte_by_byte() {
    let field: [u8; 8] = arrayify_string("n\u{e9}\u{20ac}");
    assert_eq!(field, [b'n', 0xc3, 0xa9, 0xe2, 0x82, 0xac, 0, 0]);
}

#[test]
fn cut_may_fall_inside_a_character() {
    let field: [u8; 2] = arrayify_string("\u{20ac}");
    assert_eq!(field, [0xe2, 0x82]);
}

#[test]
fn field_of_no_bytes() {
    let field: [u8; 0] = arrayify_string("abc");
    assert_eq!(field.len(), 0);
}

#[test]
fn field_of_other_length() {
    let field: [u8; 6] = arrayify_string("test");
    assert_eq!(field, [b't', b'e', b's', b't', 0, 0]);
}
