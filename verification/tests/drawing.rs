use chiprust_cli::termui::drawing::{
    build_mem_line, build_reg_text, get_opcode, get_px, get_screen, get_visual_double_byte,
    glyph_for, hex_digit,
};

#[test]
fn glyph_selection_is_exhaustive() {
    assert_eq!(glyph_for(false, false), ' ');
    assert_eq!(glyph_for(true, false), '\u{2580}');
    assert_eq!(glyph_for(false, true), '\u{2584}');
    assert_eq!(glyph_for(true, true), '\u{2588}');
}

#[test]
fn hex_digits_cover_all_sixteen_values() {
    let expected = [
        '0', '1', '2', '3', '4', '5', '6', '7', '8', '9', 'a', 'b', 'c', 'd', 'e', 'f',
    ];
    for n in 0..16u8 {
        assert_eq!(hex_digit(n), expected[n as usize]);
    }
}

#[test]
fn pixel_lookup_reads_high_bit_first() {
    let mut d = vec![0u128; 64];
    d[0] = 1u128 << 127;
    d[3] = 1u128 << 120;
    assert!(get_px(&d, 0, 0));
    assert!(!get_px(&d, 1, 0));
    assert!(get_px(&d, 7, 3));
    assert!(!get_px(&d, 6, 3));
}

#[test]
fn screen_rows_pack_two_scanlines_per_cell() {
    let mut d = vec![0u128; 64];
    // Pixel (0, 0) on only: the first cell of the first row is a top half.
    d[0] = 1u128 << 127;
    // Pixel (1, 3) on only: the second cell of row one is a bottom half.
    d[3] = 1u128 << 126;
    // Pixels (2, 4) and (2, 5) on: the third cell of row two is full.
    d[4] |= 1u128 << 125;
    d[5] |= 1u128 << 125;
    let rows = get_screen(&d);
    assert_eq!(rows.len(), 32);
    for row in &rows {
        assert_eq!(row.chars().count(), 128);
    }
    let row0: Vec<char> = rows[0].chars().collect();
    let row1: Vec<char> = rows[1].chars().collect();
    let row2: Vec<char> = rows[2].chars().collect();
    assert_eq!(row0[0], '\u{2580}');
    assert_eq!(row0[1], ' ');
    assert_eq!(row1[1], '\u{2584}');
    assert_eq!(row2[2], '\u{2588}');
}

#[test]
fn double_byte_fingerprint_pairs_low_over_high() {
    assert_eq!(get_visual_double_byte(0x0000), "        ");
    assert_eq!(get_visual_double_byte(0x00FF), "\u{2580}".repeat(8));
    assert_eq!(get_visual_double_byte(0xFF00), "\u{2584}".repeat(8));
    assert_eq!(get_visual_double_byte(0xFFFF), "\u{2588}".repeat(8));
    // 0xA2F0: tops from 0xF0, bottoms from 0xA2.
    assert_eq!(
        get_visual_double_byte(0xA2F0),
        "\u{2588}\u{2580}\u{2588}\u{2580}  \u{2584} "
    );
}

#[test]
fn opcode_is_big_endian_and_zero_out_of_range() {
    let mut mem = vec![0u8; 4096];
    mem[0x200] = 0xA2;
    mem[0x201] = 0xF0;
    assert_eq!(get_opcode(&mem, 0x200), 0xA2F0);
    assert_eq!(get_opcode(&mem, 0x201), 0xF000);
    assert_eq!(get_opcode(&mem, 4095), 0);
    assert_eq!(get_opcode(&mem, 40960), 0);
}

#[test]
fn memory_line_formats_current_and_plain_entries() {
    let fingerprint = get_visual_double_byte(0xA2F0);
    assert_eq!(
        build_mem_line(0x0200, 0xA2F0, true),
        format!(" $0200: a2f0; {}", fingerprint)
    );
    assert_eq!(
        build_mem_line(0x0200, 0xA2F0, false),
        format!(" 0200: a2f0;  {}", fingerprint)
    );
    // Both forms are equally wide, keeping the panel aligned.
    assert_eq!(
        build_mem_line(0, 0, true).chars().count(),
        build_mem_line(0, 0, false).chars().count()
    );
}

#[test]
fn register_text_is_fixed_width_hex() {
    assert_eq!(build_reg_text(0, 0x05), "  V0= 05");
    assert_eq!(build_reg_text(15, 0xFF), "  Vf= ff");
    assert_eq!(build_reg_text(10, 0x00), "  Va= 00");
}
