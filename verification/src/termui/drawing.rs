//! Text building blocks of the renderer: fixed-width hexadecimal fields
//! and the double-height pixel packing glyphs.

use vstd::prelude::*;
use vstd::string::StringExecFns;
use crate::machine::MachineSnapshot;
use crate::termui::{DrawCmd, Style, memory_window, register_rows, MIN_ROWS};

verus! {

/// True when `c` writes exactly the text `t` in style `st`.
pub open spec fn is_text(c: DrawCmd, st: Style, t: Seq<char>) -> bool {
    match c {
        DrawCmd::Text(s2, x) => s2 == st && x@ == t,
        _ => false,
    }
}

/// The lower-case hexadecimal digit for a value below 16.
pub open spec fn hex_digit_spec(n: int) -> char {
    if n == 0 { '0' }
    else if n == 1 { '1' }
    else if n == 2 { '2' }
    else if n == 3 { '3' }
    else if n == 4 { '4' }
    else if n == 5 { '5' }
    else if n == 6 { '6' }
    else if n == 7 { '7' }
    else if n == 8 { '8' }
    else if n == 9 { '9' }
    else if n == 10 { 'a' }
    else if n == 11 { 'b' }
    else if n == 12 { 'c' }
    else if n == 13 { 'd' }
    else if n == 14 { 'e' }
    else { 'f' }
}

/// Two-digit hexadecimal rendering of a byte.
pub open spec fn hex2_spec(v: int) -> Seq<char> {
    seq![hex_digit_spec(v / 16 % 16), hex_digit_spec(v % 16)]
}

/// Four-digit hexadecimal rendering of a 16-bit value.
pub open spec fn hex4_spec(v: int) -> Seq<char> {
    seq![
        hex_digit_spec(v / 4096 % 16),
        hex_digit_spec(v / 256 % 16),
        hex_digit_spec(v / 16 % 16),
        hex_digit_spec(v % 16),
    ]
}

pub fn hex_digit(n: u8) -> (r: char)
    requires
        n < 16,
    ensures
        r == hex_digit_spec(n as int),
{
    match n {
        0 => '0',
        1 => '1',
        2 => '2',
        3 => '3',
        4 => '4',
        5 => '5',
        6 => '6',
        7 => '7',
        8 => '8',
        9 => '9',
        10 => 'a',
        11 => 'b',
        12 => 'c',
        13 => 'd',
        14 => 'e',
        _ => 'f',
    }
}

/// The glyph of one character cell packing two vertically stacked pixels:
/// both off gives a space, top only the upper half block, bottom only the
/// lower half block, both on the full block.
pub open spec fn glyph_spec(top: bool, bottom: bool) -> char {
    if top {
        if bottom { '\u{2588}' } else { '\u{2580}' }
    } else {
        if bottom { '\u{2584}' } else { ' ' }
    }
}

/// Selects the packing glyph; exhaustive over the four pixel combinations.
pub fn glyph_for(top: bool, bottom: bool) -> (r: char)
    ensures
        r == glyph_spec(top, bottom),
        !top && !bottom ==> r == ' ',
        top && !bottom ==> r == '\u{2580}',
        !top && bottom ==> r == '\u{2584}',
        top && bottom ==> r == '\u{2588}',
{
    if top {
        if bottom { '\u{2588}' } else { '\u{2580}' }
    } else {
        if bottom { '\u{2584}' } else { ' ' }
    }
}

/// The state of the logical pixel at column `x` of scanline `y`: bit
/// `127 - x` of the row word.
pub open spec fn px_spec(d: Seq<u128>, x: int, y: int) -> bool {
    (d[y] >> ((127 - x) as u128)) & 1 == 1
}

/// Reads one logical pixel of the display buffer.
pub fn get_px(d: &Vec<u128>, x: usize, y: usize) -> (r: bool)
    requires
        d@.len() == 64,
        x < 128,
        y < 64,
    ensures
        r == px_spec(d@, x as int, y as int),
{
    (d[y] >> ((127 - x) as u32)) & 1 == 1
}

/// One rendered display row: 128 cells, each packing scanlines `2y` and
/// `2y + 1` of the display buffer.
pub open spec fn screen_row_spec(d: Seq<u128>, y: int) -> Seq<char> {
    Seq::new(128, |x: int| glyph_spec(px_spec(d, x, 2 * y), px_spec(d, x, 2 * y + 1)))
}

/// Renders the 64-scanline display buffer into 32 rows of packing glyphs.
pub fn get_screen(display: &Vec<u128>) -> (r: Vec<String>)
    requires
        display@.len() == 64,
    ensures
        r@.len() == 32,
        forall|y: int| 0 <= y < 32 ==> #[trigger] r@[y]@ == screen_row_spec(display@, y),
{
    let mut result: Vec<String> = Vec::new();
    for y in 0..32usize
        invariant
            display@.len() == 64,
            result@.len() == y,
            forall|j: int| 0 <= j < y ==> #[trigger] result@[j]@ == screen_row_spec(display@, j),
    {
        let mut row = String::new();
        for x in 0..128usize
            invariant
                display@.len() == 64,
                y < 32,
                row@.len() == x,
                forall|i: int| 0 <= i < x ==> row@[i] == screen_row_spec(display@, y as int)[i],
        {
            let top = get_px(display, x, 2 * y);
            let bottom = get_px(display, x, 2 * y + 1);
            push_char(&mut row, glyph_for(top, bottom));
        }
        assert(row@ =~= screen_row_spec(display@, y as int));
        result.push(row);
    }
    result
}

/// Whether bit `k` of a 16-bit value is set.
pub open spec fn bit16_spec(b: u16, k: int) -> bool {
    (b >> (k as u16)) & 1 == 1
}

/// The compact visual fingerprint of a 16-bit instruction word: eight
/// cells, cell `i` packing bit `7 - i` (top) over bit `15 - i` (bottom).
pub open spec fn dbyte_spec(b: u16) -> Seq<char> {
    Seq::new(8, |i: int| glyph_spec(bit16_spec(b, 7 - i), bit16_spec(b, 15 - i)))
}

/// Renders a 16-bit instruction word through the packing glyph scheme.
pub fn get_visual_double_byte(b: u16) -> (r: String)
    ensures
        r@ == dbyte_spec(b),
{
    let mut result = String::new();
    for i in 0..8u16
        invariant
            result@.len() == i,
            forall|j: int| 0 <= j < i ==> result@[j] == dbyte_spec(b)[j],
    {
        let upper = (b >> (7 - i)) & 1 == 1;
        let lower = (b >> (15 - i)) & 1 == 1;
        assert(upper == bit16_spec(b, 7 - i as int));
        assert(lower == bit16_spec(b, 15 - i as int));
        push_char(&mut result, glyph_for(upper, lower));
    }
    assert(result@ =~= dbyte_spec(b));
    result
}

/// The 16-bit instruction word at an address: the big-endian pair of the
/// bytes there, or zero where the pair does not fit in memory.
pub open spec fn opcode_spec(mem: Seq<u8>, addr: int) -> u16 {
    if 0 <= addr && addr + 1 < 4096 {
        (mem[addr] * 256 + mem[addr + 1]) as u16
    } else {
        0
    }
}

/// Reads the big-endian instruction word at `addr` of the memory image.
pub fn get_opcode(mem: &Vec<u8>, addr: usize) -> (r: u16)
    requires
        mem@.len() == 4096,
    ensures
        r == opcode_spec(mem@, addr as int),
{
    if addr < 4095 {
        let hi = mem[addr];
        let lo = mem[addr + 1];
        let r = (hi as u16) << 8 | lo as u16;
        assert(r == hi * 256 + lo) by (bit_vector)
            requires
                r == (hi as u16) << 8 | lo as u16,
        ;
        r
    } else {
        0
    }
}

/// One memory panel entry: the address, the instruction word there, and
/// the word's visual fingerprint; the highlighted (current) entry marks
/// the address with `$`, the others pad with a space instead to keep the
/// columns aligned.
pub open spec fn mem_line_spec(addr: u32, op: u16, current: bool) -> Seq<char> {
    (if current {
        seq![' ', '$']
    } else {
        seq![' ']
    }) + hex4_spec(addr as int % 0x10000) + seq![':', ' '] + hex4_spec(op as int) + (if current {
        seq![';', ' ']
    } else {
        seq![';', ' ', ' ']
    }) + dbyte_spec(op)
}

/// Builds the text of one memory panel entry.
pub fn build_mem_line(addr: u32, op: u16, current: bool) -> (r: String)
    ensures
        r@ == mem_line_spec(addr, op, current),
{
    let mut s = String::new();
    push_char(&mut s, ' ');
    if current {
        push_char(&mut s, '$');
    }
    push_hex4(&mut s, (addr % 0x10000) as u16);
    push_char(&mut s, ':');
    push_char(&mut s, ' ');
    push_hex4(&mut s, op);
    push_char(&mut s, ';');
    push_char(&mut s, ' ');
    if !current {
        push_char(&mut s, ' ');
    }
    let fingerprint = get_visual_double_byte(op);
    let r = s.concat(fingerprint.as_str());
    assert(r@ =~= mem_line_spec(addr, op, current));
    r
}

/// One register panel field for a general register: `  Vx= yy`.
pub open spec fn reg_text_spec(i: int, v: int) -> Seq<char> {
    seq![' ', ' ', 'V', hex_digit_spec(i)] + seq!['=', ' '] + hex2_spec(v)
}

/// The delay timer field: `  DT= yy`.
pub open spec fn dt_text_spec(v: int) -> Seq<char> {
    seq![' ', ' ', 'D', 'T', '=', ' '] + hex2_spec(v)
}

/// The sound timer field: `  ST= yy`.
pub open spec fn st_text_spec(v: int) -> Seq<char> {
    seq![' ', ' ', 'S', 'T', '=', ' '] + hex2_spec(v)
}

/// The index register field: `  I= yyyy`.
pub open spec fn i_text_spec(v: int) -> Seq<char> {
    seq![' ', ' ', 'I', '=', ' '] + hex4_spec(v)
}

/// Builds one general register field.
pub fn build_reg_text(i: u8, v: u8) -> (r: String)
    requires
        i < 16,
    ensures
        r@ == reg_text_spec(i as int, v as int),
{
    let mut s = String::new();
    push_char(&mut s, ' ');
    push_char(&mut s, ' ');
    push_char(&mut s, 'V');
    push_char(&mut s, hex_digit(i));
    push_char(&mut s, '=');
    push_char(&mut s, ' ');
    push_hex2(&mut s, v);
    assert(s@ =~= reg_text_spec(i as int, v as int));
    s
}

/// The label line's plan: the text in border style just inside the top
/// left corner.
#[verifier::opaque]
pub open spec fn is_label_cmds(s: Seq<DrawCmd>, label: Seq<char>) -> bool {
    &&& s.len() == 2
    &&& s[0] == DrawCmd::MoveTo(2, 0)
    &&& is_text(s[1], Style::Border, label)
}

/// Plans the label/status line.
pub fn draw_label(label: &str) -> (r: Vec<DrawCmd>)
    ensures
        r@.len() == 2,
        is_label_cmds(r@, label@),
{
    proof { reveal(is_label_cmds); }
    let mut cmds: Vec<DrawCmd> = Vec::new();
    cmds.push(DrawCmd::MoveTo(2, 0));
    cmds.push(DrawCmd::Text(Style::Border, String::from_str(label)));
    cmds
}

/// The display region's plan: 32 rows of packed glyphs, one below the
/// other just inside the frame.
#[verifier::opaque]
pub open spec fn is_screen_cmds(s: Seq<DrawCmd>, d: Seq<u128>) -> bool {
    &&& s.len() == 64
    &&& forall|y: int|
        0 <= y < 32 ==> {
            &&& #[trigger] s[2 * y] == DrawCmd::MoveTo(1, (y + 1) as u16)
            &&& is_text(s[2 * y + 1], Style::Screen, screen_row_spec(d, y))
        }
}

/// Plans the redraw of the display region.
pub fn draw_screen(display: &Vec<u128>) -> (r: Vec<DrawCmd>)
    requires
        display@.len() == 64,
    ensures
        r@.len() == 64,
        is_screen_cmds(r@, display@),
{
    proof { reveal(is_screen_cmds); }
    let rows = get_screen(display);
    let mut cmds: Vec<DrawCmd> = Vec::new();
    let mut y: usize = 0;
    while y < 32
        invariant
            rows@.len() == 32,
            forall|j: int| 0 <= j < 32 ==> #[trigger] rows@[j]@ == screen_row_spec(display@, j),
            y <= 32,
            cmds@.len() == 2 * y,
            forall|j: int|
                0 <= j < y ==> {
                    &&& #[trigger] cmds@[2 * j] == DrawCmd::MoveTo(1, (j + 1) as u16)
                    &&& is_text(cmds@[2 * j + 1], Style::Screen, screen_row_spec(display@, j))
                },
        decreases 32 - y,
    {
        cmds.push(DrawCmd::MoveTo(1, (y + 1) as u16));
        cmds.push(DrawCmd::Text(Style::Screen, rows[y].clone()));
        y = y + 1;
    }
    cmds
}

/// Index of the highlighted memory panel entry: the panel's center,
/// clamped when the program counter is too close to address zero.
pub open spec fn mem_highlight_spec(pc: u16, rows: u16) -> int {
    let center = (rows - 2) as int / 2;
    if pc >= center {
        center
    } else {
        pc as int
    }
}

/// Address shown by the first memory panel entry.
pub open spec fn mem_base_spec(pc: u16, rows: u16) -> int {
    pc - mem_highlight_spec(pc, rows)
}

/// The memory panel's plan: one entry per row inside the frame, centered
/// on the program counter; the highlighted entry shows the program
/// counter's address in the distinct style.
#[verifier::opaque]
pub open spec fn is_memory_cmds(s: Seq<DrawCmd>, pc: u16, mem: Seq<u8>, rows: u16) -> bool {
    let entries = (rows - 2) as int;
    let highlight = mem_highlight_spec(pc, rows);
    let base = mem_base_spec(pc, rows);
    &&& s.len() == 2 * entries
    &&& forall|j: int|
        0 <= j < entries ==> {
            &&& #[trigger] s[2 * j] == DrawCmd::MoveTo(130, (j + 1) as u16)
            &&& is_text(
                s[2 * j + 1],
                if j == highlight {
                    Style::MemoryCurrent
                } else {
                    Style::MemoryEntry
                },
                mem_line_spec(
                    (base + j) as u32,
                    opcode_spec(mem, base + j),
                    j == highlight,
                ),
            )
        }
}

/// Plans the memory/disassembly panel.
pub fn draw_memory(term_size: (u16, u16), chip: &MachineSnapshot) -> (r: Vec<DrawCmd>)
    requires
        term_size.1 >= 3,
        chip.wf(),
    ensures
        r@.len() == 2 * (term_size.1 - 2) as int,
        is_memory_cmds(r@, chip.pc, chip.mem@, term_size.1),
{
    proof { reveal(is_memory_cmds); }
    let window = memory_window(chip.pc, term_size.1);
    let mut cmds: Vec<DrawCmd> = Vec::new();
    let mut j: u16 = 0;
    while j < window.entries
        invariant
            chip.wf(),
            term_size.1 >= 3,
            window.entries == term_size.1 - 2,
            window.highlight == mem_highlight_spec(chip.pc, term_size.1),
            window.base == mem_base_spec(chip.pc, term_size.1),
            j <= window.entries,
            cmds@.len() == 2 * j,
            forall|jj: int|
                0 <= jj < j ==> {
                    &&& #[trigger] cmds@[2 * jj] == DrawCmd::MoveTo(130, (jj + 1) as u16)
                    &&& is_text(
                        cmds@[2 * jj + 1],
                        if jj == window.highlight as int {
                            Style::MemoryCurrent
                        } else {
                            Style::MemoryEntry
                        },
                        mem_line_spec(
                            (window.base + jj) as u32,
                            opcode_spec(chip.mem@, window.base + jj),
                            jj == window.highlight as int,
                        ),
                    )
                },
        decreases window.entries - j,
    {
        let addr: u32 = window.base as u32 + j as u32;
        let op = get_opcode(&chip.mem, addr as usize);
        let current = j == window.highlight;
        cmds.push(DrawCmd::MoveTo(130, j + 1));
        cmds.push(
            DrawCmd::Text(
                if current {
                    Style::MemoryCurrent
                } else {
                    Style::MemoryEntry
                },
                build_mem_line(addr, op, current),
            ),
        );
        j = j + 1;
    }
    cmds
}

/// The register panel's plan: the 16 general registers split over two
/// evenly spaced rows (first nine, remaining seven), followed by the
/// delay timer, the sound timer and the index register.
#[verifier::opaque]
pub open spec fn is_regs_cmds(s: Seq<DrawCmd>, chip: MachineSnapshot, rows: u16) -> bool {
    let available = (rows - 34) as int;
    let spacing = (available - 2) / 3;
    let middle = (available - 2) - 2 * spacing;
    let y1 = 34 + spacing;
    let y2 = y1 + middle;
    &&& s.len() == 21
    &&& s[0] == DrawCmd::MoveTo(1, y1 as u16)
    &&& forall|i: int|
        0 <= i < 9 ==> is_text(
            #[trigger] s[1 + i],
            Style::Register,
            reg_text_spec(i, chip.regs@[i] as int),
        )
    &&& s[10] == DrawCmd::MoveTo(1, y2 as u16)
    &&& forall|i: int|
        9 <= i < 16 ==> is_text(
            #[trigger] s[2 + i],
            Style::Register,
            reg_text_spec(i, chip.regs@[i] as int),
        )
    &&& is_text(s[18], Style::Register, dt_text_spec(chip.delay_timer as int))
    &&& is_text(s[19], Style::Register, st_text_spec(chip.sound_timer as int))
    &&& is_text(s[20], Style::Register, i_text_spec(chip.i as int))
}

/// Plans the register panel.
pub fn draw_regs(term_size: (u16, u16), chip: &MachineSnapshot) -> (r: Vec<DrawCmd>)
    requires
        term_size.1 >= MIN_ROWS,
        chip.wf(),
    ensures
        r@.len() == 21,
        is_regs_cmds(r@, *chip, term_size.1),
{
    proof { reveal(is_regs_cmds); }
    let (y1, y2) = register_rows(term_size.1);
    let mut cmds: Vec<DrawCmd> = Vec::new();
    cmds.push(DrawCmd::MoveTo(1, y1));
    let mut i: u8 = 0;
    while i < 9
        invariant
            chip.wf(),
            i <= 9,
            cmds@.len() == 1 + i,
            cmds@[0] == DrawCmd::MoveTo(1, y1),
            forall|k: int|
                0 <= k < i ==> is_text(
                    #[trigger] cmds@[1 + k],
                    Style::Register,
                    reg_text_spec(k, chip.regs@[k] as int),
                ),
        decreases 9 - i,
    {
        cmds.push(DrawCmd::Text(Style::Register, build_reg_text(i, chip.regs[i as usize])));
        i = i + 1;
    }
    cmds.push(DrawCmd::MoveTo(1, y2));
    let mut i: u8 = 9;
    while i < 16
        invariant
            chip.wf(),
            9 <= i <= 16,
            cmds@.len() == 2 + i,
            cmds@[0] == DrawCmd::MoveTo(1, y1),
            cmds@[10] == DrawCmd::MoveTo(1, y2),
            forall|k: int|
                0 <= k < 9 ==> is_text(
                    #[trigger] cmds@[1 + k],
                    Style::Register,
                    reg_text_spec(k, chip.regs@[k] as int),
                ),
            forall|k: int|
                9 <= k < i ==> is_text(
                    #[trigger] cmds@[2 + k],
                    Style::Register,
                    reg_text_spec(k, chip.regs@[k] as int),
                ),
        decreases 16 - i,
    {
        cmds.push(DrawCmd::Text(Style::Register, build_reg_text(i, chip.regs[i as usize])));
        i = i + 1;
    }
    let mut dt = String::new();
    push_char(&mut dt, ' ');
    push_char(&mut dt, ' ');
    push_char(&mut dt, 'D');
    push_char(&mut dt, 'T');
    push_char(&mut dt, '=');
    push_char(&mut dt, ' ');
    push_hex2(&mut dt, chip.delay_timer);
    assert(dt@ =~= dt_text_spec(chip.delay_timer as int));
    cmds.push(DrawCmd::Text(Style::Register, dt));
    let mut st = String::new();
    push_char(&mut st, ' ');
    push_char(&mut st, ' ');
    push_char(&mut st, 'S');
    push_char(&mut st, 'T');
    push_char(&mut st, '=');
    push_char(&mut st, ' ');
    push_hex2(&mut st, chip.sound_timer);
    assert(st@ =~= st_text_spec(chip.sound_timer as int));
    cmds.push(DrawCmd::Text(Style::Register, st));
    let mut ir = String::new();
    push_char(&mut ir, ' ');
    push_char(&mut ir, ' ');
    push_char(&mut ir, 'I');
    push_char(&mut ir, '=');
    push_char(&mut ir, ' ');
    push_hex4(&mut ir, chip.i);
    assert(ir@ =~= i_text_spec(chip.i as int));
    cmds.push(DrawCmd::Text(Style::Register, ir));
    cmds
}

/// A horizontal run of frame characters: a left cap, a repeated middle
/// character, and a right cap.
pub open spec fn hline_spec(l: char, m: char, r: char, len: int) -> Seq<char> {
    seq![l] + Seq::new((len - 2) as nat, |i: int| m) + seq![r]
}

/// Builds a horizontal run of frame characters.
pub fn build_hline(l: char, m: char, r: char, len: u16) -> (s: String)
    requires
        len >= 2,
    ensures
        s@ == hline_spec(l, m, r, len as int),
{
    let mut s = String::new();
    push_char(&mut s, l);
    let mut i: u16 = 0;
    while i < len - 2
        invariant
            len >= 2,
            i <= len - 2,
            s@.len() == 1 + i,
            s@[0] == l,
            forall|k: int| 1 <= k < 1 + i ==> s@[k] == m,
        decreases len - 2 - i,
    {
        push_char(&mut s, m);
        i = i + 1;
    }
    push_char(&mut s, r);
    assert(s@ =~= hline_spec(l, m, r, len as int));
    s
}

/// The main frame's plan: a top border, the two side columns, and a
/// bottom border around the whole terminal.
#[verifier::opaque]
pub open spec fn is_main_frame_cmds(s: Seq<DrawCmd>, w: u16, h: u16) -> bool {
    let n = 4 + 4 * (h - 2) as int;
    &&& s.len() == n
    &&& s[0] == DrawCmd::MoveTo(0, 0)
    &&& is_text(s[1], Style::Border, hline_spec('\u{250c}', '\u{2500}', '\u{2510}', w as int))
    &&& forall|i: int|
        0 <= i < (h - 2) as int ==> {
            &&& #[trigger] s[2 + 4 * i] == DrawCmd::MoveTo(0, (i + 1) as u16)
            &&& is_text(s[3 + 4 * i], Style::Border, seq!['\u{2502}'])
            &&& s[4 + 4 * i] == DrawCmd::MoveTo((w - 1) as u16, (i + 1) as u16)
            &&& is_text(s[5 + 4 * i], Style::Border, seq!['\u{2502}'])
        }
    &&& s[n - 2] == DrawCmd::MoveTo(0, (h - 1) as u16)
    &&& is_text(s[n - 1], Style::Border, hline_spec('\u{2514}', '\u{2500}', '\u{2518}', w as int))
}

/// Plans the main frame around the whole terminal.
pub fn draw_main_frame(term_size: (u16, u16)) -> (r: Vec<DrawCmd>)
    requires
        term_size.0 >= 2,
        term_size.1 >= 2,
    ensures
        r@.len() == 4 + 4 * (term_size.1 - 2) as int,
        is_main_frame_cmds(r@, term_size.0, term_size.1),
{
    proof { reveal(is_main_frame_cmds); }
    let (w, h) = term_size;
    let mut cmds: Vec<DrawCmd> = Vec::new();
    cmds.push(DrawCmd::MoveTo(0, 0));
    cmds.push(DrawCmd::Text(Style::Border, build_hline('\u{250c}', '\u{2500}', '\u{2510}', w)));
    let mut i: u16 = 0;
    while i < h - 2
        invariant
            w >= 2,
            h >= 2,
            i <= h - 2,
            cmds@.len() == 2 + 4 * i,
            cmds@[0] == DrawCmd::MoveTo(0, 0),
            is_text(cmds@[1], Style::Border, hline_spec('\u{250c}', '\u{2500}', '\u{2510}', w as int)),
            forall|k: int|
                0 <= k < i ==> {
                    &&& #[trigger] cmds@[2 + 4 * k] == DrawCmd::MoveTo(0, (k + 1) as u16)
                    &&& is_text(cmds@[3 + 4 * k], Style::Border, seq!['\u{2502}'])
                    &&& cmds@[4 + 4 * k] == DrawCmd::MoveTo((w - 1) as u16, (k + 1) as u16)
                    &&& is_text(cmds@[5 + 4 * k], Style::Border, seq!['\u{2502}'])
                },
        decreases h - 2 - i,
    {
        let mut bar1 = String::new();
        push_char(&mut bar1, '\u{2502}');
        let mut bar2 = String::new();
        push_char(&mut bar2, '\u{2502}');
        cmds.push(DrawCmd::MoveTo(0, i + 1));
        cmds.push(DrawCmd::Text(Style::Border, bar1));
        cmds.push(DrawCmd::MoveTo(w - 1, i + 1));
        cmds.push(DrawCmd::Text(Style::Border, bar2));
        i = i + 1;
    }
    cmds.push(DrawCmd::MoveTo(0, h - 1));
    cmds.push(DrawCmd::Text(Style::Border, build_hline('\u{2514}', '\u{2500}', '\u{2518}', w)));
    cmds
}

/// A vertical panel divider's plan: a top connector, a run of double
/// bars, and a bottom connector, all in one column.
#[verifier::opaque]
pub open spec fn is_vert_delim_cmds(
    s: Seq<DrawCmd>,
    term_size: (u16, u16),
    x: u16,
    y: u16,
    length: u16,
) -> bool {
    let n = 2 * (length as int);
    &&& s.len() == n
    &&& s[0] == DrawCmd::MoveTo(x, y)
    &&& is_text(s[1], Style::Border, seq![if y == 0 { '\u{2565}' } else { '\u{2566}' }])
    &&& forall|i: int|
        0 <= i < (length - 2) as int ==> {
            &&& #[trigger] s[2 + 2 * i] == DrawCmd::MoveTo(x, (y + 1 + i) as u16)
            &&& is_text(s[3 + 2 * i], Style::Border, seq!['\u{2551}'])
        }
    &&& s[n - 2] == DrawCmd::MoveTo(x, (y + length - 1) as u16)
    &&& is_text(
        s[n - 1],
        Style::Border,
        seq![if length == term_size.1 { '\u{2568}' } else { '\u{2569}' }],
    )
}

/// Plans a vertical panel divider.
pub fn draw_vertical_delimiter(term_size: (u16, u16), x: u16, y: u16, length: u16) -> (r: Vec<
    DrawCmd,
>)
    requires
        length >= 2,
        y + length <= term_size.1,
    ensures
        r@.len() == 2 * (length as int),
        is_vert_delim_cmds(r@, term_size, x, y, length),
{
    proof { reveal(is_vert_delim_cmds); }
    let mut cmds: Vec<DrawCmd> = Vec::new();
    let mut start = String::new();
    push_char(&mut start, if y == 0 { '\u{2565}' } else { '\u{2566}' });
    cmds.push(DrawCmd::MoveTo(x, y));
    cmds.push(DrawCmd::Text(Style::Border, start));
    let mut i: u16 = 0;
    while i < length - 2
        invariant
            length >= 2,
            y + length <= term_size.1,
            i <= length - 2,
            cmds@.len() == 2 + 2 * i,
            cmds@[0] == DrawCmd::MoveTo(x, y),
            is_text(cmds@[1], Style::Border, seq![if y == 0 { '\u{2565}' } else { '\u{2566}' }]),
            forall|k: int|
                0 <= k < i ==> {
                    &&& #[trigger] cmds@[2 + 2 * k] == DrawCmd::MoveTo(x, (y + 1 + k) as u16)
                    &&& is_text(cmds@[3 + 2 * k], Style::Border, seq!['\u{2551}'])
                },
        decreases length - 2 - i,
    {
        let mut bar = String::new();
        push_char(&mut bar, '\u{2551}');
        cmds.push(DrawCmd::MoveTo(x, y + 1 + i));
        cmds.push(DrawCmd::Text(Style::Border, bar));
        i = i + 1;
    }
    let mut end = String::new();
    push_char(&mut end, if length == term_size.1 { '\u{2568}' } else { '\u{2569}' });
    cmds.push(DrawCmd::MoveTo(x, y + length - 1));
    cmds.push(DrawCmd::Text(Style::Border, end));
    cmds
}

/// A horizontal panel divider's plan: one run of double bars with the
/// connectors fitting its ends.
#[verifier::opaque]
pub open spec fn is_horiz_delim_cmds(
    s: Seq<DrawCmd>,
    term_size: (u16, u16),
    x: u16,
    y: u16,
    length: u16,
) -> bool {
    &&& s.len() == 2
    &&& s[0] == DrawCmd::MoveTo(x, y)
    &&& is_text(
        s[1],
        Style::Border,
        hline_spec(
            if x == 0 { '\u{255e}' } else { '\u{2560}' },
            '\u{2550}',
            if length == term_size.0 { '\u{2561}' } else { '\u{2563}' },
            length as int,
        ),
    )
}

/// Plans a horizontal panel divider.
pub fn draw_horizontal_delimiter(term_size: (u16, u16), x: u16, y: u16, length: u16) -> (r: Vec<
    DrawCmd,
>)
    requires
        length >= 2,
    ensures
        r@.len() == 2,
        is_horiz_delim_cmds(r@, term_size, x, y, length),
{
    proof { reveal(is_horiz_delim_cmds); }
    let mut cmds: Vec<DrawCmd> = Vec::new();
    cmds.push(DrawCmd::MoveTo(x, y));
    cmds.push(
        DrawCmd::Text(
            Style::Border,
            build_hline(
                if x == 0 { '\u{255e}' } else { '\u{2560}' },
                '\u{2550}',
                if length == term_size.0 { '\u{2561}' } else { '\u{2563}' },
                length,
            ),
        ),
    );
    cmds
}

/// The static frame's plan: the main frame, the memory panel's vertical
/// divider, and the register panel's horizontal divider.
#[verifier::opaque]
pub open spec fn is_frame_cmds(s: Seq<DrawCmd>, term_size: (u16, u16)) -> bool {
    let w = term_size.0;
    let h = term_size.1;
    let a = 4 + 4 * (h - 2) as int;
    let b = 2 * (h as int);
    &&& s.len() == a + b + 2
    &&& is_main_frame_cmds(s.subrange(0, a), w, h)
    &&& is_vert_delim_cmds(s.subrange(a, a + b), term_size, 129, 0, h)
    &&& is_horiz_delim_cmds(s.subrange(a + b, a + b + 2), term_size, 0, 33, 130)
}

/// Plans the whole static frame: main frame plus the two panel dividers.
pub fn draw_frame(term_size: (u16, u16)) -> (r: Vec<DrawCmd>)
    requires
        term_size.0 >= 143,
        term_size.1 >= MIN_ROWS,
    ensures
        r@.len() == crate::termui::frame_cmds_len(term_size.1),
        is_frame_cmds(r@, term_size),
{
    proof { reveal(is_frame_cmds); }
    let mut cmds = draw_main_frame(term_size);
    let mut vd = draw_vertical_delimiter(term_size, 129, 0, term_size.1);
    let mut hd = draw_horizontal_delimiter(term_size, 0, 33, 130);
    let ghost a = cmds@.len() as int;
    let ghost b = vd@.len() as int;
    let ghost main_part = cmds@;
    let ghost vert_part = vd@;
    let ghost horiz_part = hd@;
    cmds.append(&mut vd);
    cmds.append(&mut hd);
    proof {
        assert(cmds@.subrange(0, a) =~= main_part);
        assert(cmds@.subrange(a, a + b) =~= vert_part);
        assert(cmds@.subrange(a + b, a + b + 2) =~= horiz_part);
    }
    cmds
}

/// Appends one character to a string.
///
/// Relies on `String::push` of std: the pushed character becomes the last
/// of the string and nothing else changes.
#[verifier::external_body]
pub fn push_char(s: &mut String, c: char)
    ensures
        final(s)@ == old(s)@ + seq![c],
{
    s.push(c)
}

/// Appends the two hexadecimal digits of a byte.
pub fn push_hex2(s: &mut String, v: u8)
    ensures
        final(s)@ == old(s)@ + hex2_spec(v as int),
{
    push_char(s, hex_digit(v / 16));
    push_char(s, hex_digit(v % 16));
    assert(final(s)@ =~= old(s)@ + hex2_spec(v as int));
}

/// Appends the four hexadecimal digits of a 16-bit value.
pub fn push_hex4(s: &mut String, v: u16)
    ensures
        final(s)@ == old(s)@ + hex4_spec(v as int),
{
    push_char(s, hex_digit((v / 4096 % 16) as u8));
    push_char(s, hex_digit((v / 256 % 16) as u8));
    push_char(s, hex_digit((v / 16 % 16) as u8));
    push_char(s, hex_digit((v % 16) as u8));
    assert(final(s)@ =~= old(s)@ + hex4_spec(v as int));
}

} // verus!
