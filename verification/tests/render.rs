use mimic_host::render::{
    dump_4cols_reversed, dump_bytes_with_ascii, dump_hex_only, machine_code, push_hex_line,
    render_char, render_char_pretty,
};

#[test]
fn printable_bytes_render_as_themselves() {
    assert_eq!(render_char(b'A'), "A");
    assert_eq!(render_char(b' '), " ");
    assert_eq!(render_char(b'~'), "~");
    assert_eq!(render_char(b'\\'), "\\");
    assert_eq!(render_char_pretty(b'A'), "A");
    assert_eq!(render_char_pretty(b' '), " ");
    assert_eq!(render_char_pretty(b'~'), "~");
}

#[test]
fn control_bytes_render_as_escapes() {
    assert_eq!(render_char(b'\n'), "\\n");
    assert_eq!(render_char(b'\r'), "\\r");
    assert_eq!(render_char(b'\t'), "\\t");
    assert_eq!(render_char(0), "\\0");
}

#[test]
fn other_bytes_render_as_a_dot() {
    assert_eq!(render_char(0x01), ".");
    assert_eq!(render_char(0x08), ".");
    assert_eq!(render_char(0x1F), ".");
    assert_eq!(render_char(0x7F), ".");
    assert_eq!(render_char(0x80), ".");
    assert_eq!(render_char(0xFF), ".");
}

#[test]
fn pretty_rendering_escapes_or_spells_out_the_byte() {
    assert_eq!(render_char_pretty(0x00), "\\0");
    assert_eq!(render_char_pretty(0x08), "\\b");
    assert_eq!(render_char_pretty(0x09), "\\t");
    assert_eq!(render_char_pretty(0x0A), "\\n");
    assert_eq!(render_char_pretty(0x0C), "\\f");
    assert_eq!(render_char_pretty(0x0D), "\\x0D");
    assert_eq!(render_char_pretty(0x01), "\\x01");
    assert_eq!(render_char_pretty(0x1F), "\\x1F");
    assert_eq!(render_char_pretty(0x7F), "\\x7F");
    assert_eq!(render_char_pretty(0xFF), "\\xFF");
}

#[test]
fn a_hex_line_is_a_prefix_eight_digits_and_a_line_feed() {
    let mut s = String::new();
    push_hex_line(&mut s, 42);
    push_hex_line(&mut s, 0xDEAD_BEEF);
    assert_eq!(s, "0x0000002A\n0xDEADBEEF\n");
}

#[test]
fn machine_code_lists_one_word_per_line() {
    assert_eq!(machine_code(&vec![]), "");
    assert_eq!(machine_code(&vec![0x2402_002A]), "0x2402002A\n");
    assert_eq!(
        machine_code(&vec![0x2402_0001, 0x2404_002A, 0x0000_000C]),
        "0x24020001\n0x2404002A\n0x0000000C\n"
    );
}

#[test]
fn hex_dump_shows_whole_words() {
    assert_eq!(dump_hex_only(&vec![], 0x0040_0000), "");
    assert_eq!(dump_hex_only(&vec![0x2A, 0, 0, 0], 0x0040_0000), "0x0000002A\n");
    assert_eq!(
        dump_hex_only(&vec![0x78, 0x56, 0x34, 0x12, 0xEF, 0xBE, 0xAD, 0xDE], 0),
        "0x12345678\n0xDEADBEEF\n"
    );
}

#[test]
fn hex_dump_completes_a_short_last_word_with_zeros() {
    assert_eq!(dump_hex_only(&vec![1, 2, 3, 4, 5], 0x1001_0000), "0x04030201\n0x00000005\n");
    assert_eq!(dump_hex_only(&vec![0xAB], 0), "0x000000AB\n");
    assert_eq!(dump_hex_only(&vec![0xAB, 0xCD], 0), "0x0000CDAB\n");
    assert_eq!(dump_hex_only(&vec![0xAB, 0xCD, 0xEF], 0), "0x00EFCDAB\n");
}

#[test]
fn hex_dump_of_whole_words_is_their_listing() {
    let bytes: Vec<u8> = vec![0x2A, 0x00, 0x02, 0x24, 0x0C, 0x00, 0x00, 0x00];
    let words = mimic_host::words::bytes_to_words(bytes.clone());
    assert_eq!(dump_hex_only(&bytes, 0x0040_0000), machine_code(&words));
}

#[test]
fn byte_dump_shows_address_hex_and_characters() {
    let line = dump_bytes_with_ascii(&vec![b'h', b'i', 0], 0x1001_0000);
    let expected = format!(
        "0x10010000: 68 69 00 {} hi\\0{}\n",
        "   ".repeat(13),
        " ".repeat(13)
    );
    assert_eq!(line, expected);
}

#[test]
fn byte_dump_puts_sixteen_bytes_on_a_line() {
    let bytes: Vec<u8> = (0x41..0x52).collect();
    let dump = dump_bytes_with_ascii(&bytes, 0x1001_0000);
    let first = "0x10010000: 41 42 43 44 45 46 47 48 49 4A 4B 4C 4D 4E 4F 50  ABCDEFGHIJKLMNOP\n";
    let second = format!("0x10010010: 51 {} Q{}\n", "   ".repeat(15), " ".repeat(15));
    assert_eq!(dump, format!("{}{}", first, second));
    assert_eq!(dump_bytes_with_ascii(&vec![], 0x1001_0000), "");
}

#[test]
fn byte_dump_renders_unprintable_bytes() {
    let dump = dump_bytes_with_ascii(&vec![0x0A, 0x0D, 0x09, 0x7F, 0xFF], 0);
    let expected = format!(
        "0x00000000: 0A 0D 09 7F FF {} \\n\\r\\t..{}\n",
        "   ".repeat(11),
        " ".repeat(11)
    );
    assert_eq!(dump, expected);
}

#[test]
fn byte_dump_reaches_the_end_of_the_address_space() {
    let dump = dump_bytes_with_ascii(&vec![0x30; 16], 0xFFFF_FFF0);
    assert_eq!(
        dump,
        "0xFFFFFFF0: 30 30 30 30 30 30 30 30 30 30 30 30 30 30 30 30  0000000000000000\n"
    );
}

#[test]
fn byte_dump_addresses_wrap_around() {
    let dump = dump_bytes_with_ascii(&vec![0x31; 17], 0xFFFF_FFF0);
    let first = "0xFFFFFFF0: 31 31 31 31 31 31 31 31 31 31 31 31 31 31 31 31  1111111111111111\n";
    let second = format!("0x00000000: 31 {} 1{}\n", "   ".repeat(15), " ".repeat(15));
    assert_eq!(dump, format!("{}{}", first, second));
}

#[test]
fn four_column_dump_reverses_each_row() {
    assert_eq!(dump_4cols_reversed(&[]), "");
    assert_eq!(dump_4cols_reversed(&[b'h', b'i', 0, 0]), "\\0  \\0  i   h   \n");
    assert_eq!(dump_4cols_reversed(&[b'a', b'b', b'c', b'd']), "d   c   b   a   \n");
    assert_eq!(
        dump_4cols_reversed(&[1, 2, 3, 4, b'w', b'x', b'y', b'z']),
        "\\x04\\x03\\x02\\x01\nz   y   x   w   \n"
    );
}

#[test]
fn four_column_dump_leaves_missing_cells_blank() {
    assert_eq!(dump_4cols_reversed(&[5]), format!("\\x05{}\n", " ".repeat(12)));
    assert_eq!(dump_4cols_reversed(&[b'a', b'b']), format!("b   a   {}\n", " ".repeat(8)));
    assert_eq!(
        dump_4cols_reversed(&[b'a', b'b', b'c', b'd', b'e', 0x0A, 0x09]),
        format!("d   c   b   a   \n\\t  \\n  e   {}\n", " ".repeat(4))
    );
}

#[test]
fn every_row_of_the_four_column_dump_is_seventeen_characters() {
    let bytes: Vec<u8> = (0..=255u8).collect();
    for len in 0..bytes.len() {
        let dump = dump_4cols_reversed(&bytes[..len]);
        assert_eq!(dump.chars().count(), 17 * ((len + 3) / 4));
        assert!(dump.lines().all(|row| row.chars().count() == 16));
    }
}
