use chiprust_cli::machine::MachineSnapshot;
use chiprust_cli::termui::{fits_minimum, memory_window, register_rows, DrawCmd, Style, TermUI};

const WARNING: &str = "Too small terminal size. Try lowering font size (Try Ctrl+-)";

fn snapshot_with(pc: u16) -> MachineSnapshot {
    let mut mem = vec![0u8; 4096];
    mem[pc as usize] = 0xA2;
    mem[pc as usize + 1] = 0xF0;
    MachineSnapshot {
        pc,
        regs: vec![0u8; 16],
        i: 0x0123,
        delay_timer: 2,
        sound_timer: 3,
        mem,
    }
}

#[test]
fn minimum_size_is_143_by_36() {
    assert!(fits_minimum((143, 36)));
    assert!(fits_minimum((200, 50)));
    assert!(!fits_minimum((142, 36)));
    assert!(!fits_minimum((143, 35)));
    assert!(!fits_minimum((0, 0)));
}

#[test]
fn memory_window_centers_on_the_program_counter() {
    let w = memory_window(0x200, 36);
    assert_eq!(w.entries, 34);
    assert_eq!(w.center, 17);
    assert_eq!(w.highlight, 17);
    assert_eq!(w.base + w.highlight, 0x200);
    // Center index is floor(visible_rows / 2) for odd counts too.
    let w = memory_window(0x200, 37);
    assert_eq!(w.entries, 35);
    assert_eq!(w.center, 17);
    assert_eq!(w.base + w.highlight, 0x200);
}

#[test]
fn memory_window_clamps_near_address_zero() {
    let w = memory_window(5, 36);
    assert_eq!(w.base, 0);
    assert_eq!(w.highlight, 5);
    assert_eq!(w.base + w.highlight, 5);
    let w = memory_window(0, 36);
    assert_eq!(w.base, 0);
    assert_eq!(w.highlight, 0);
}

#[test]
fn register_rows_spread_over_the_panel_height() {
    assert_eq!(register_rows(36), (34, 34));
    // height 40: 6 rows available, spacing 1, middle 2.
    assert_eq!(register_rows(40), (35, 37));
}

#[test]
fn undersized_terminal_draws_only_the_warning() {
    let mut ui = TermUI::new();
    let snap = snapshot_with(0x200);
    let cmds = ui.draw("label", &snap, None, (80, 24));
    assert_eq!(cmds.len(), 3);
    assert_eq!(cmds[0], DrawCmd::Clear);
    assert_eq!(cmds[1], DrawCmd::MoveTo(0, 0));
    assert_eq!(cmds[2], DrawCmd::Text(Style::Warning, WARNING.to_string()));
    // Same undersized terminal again: no clear, still only the warning.
    let cmds = ui.draw("label", &snap, None, (80, 24));
    assert_eq!(cmds.len(), 2);
    assert_eq!(cmds[0], DrawCmd::MoveTo(0, 0));
    assert_eq!(cmds[1], DrawCmd::Text(Style::Warning, WARNING.to_string()));
}

#[test]
fn full_draw_plans_frame_screen_label_memory_registers() {
    let mut ui = TermUI::new();
    let snap = snapshot_with(0x200);
    let display = vec![0u128; 64];
    let cmds = ui.draw("rates", &snap, Some(&display), (143, 36));
    // Resized: clear + frame, then 32 display rows, label, 34 memory
    // entries, and the register panel.
    let frame_len = (4 + 4 * 34) + 2 * 36 + 2;
    let fl = 1 + frame_len;
    assert_eq!(cmds.len(), fl + 64 + 2 + 68 + 21);
    assert_eq!(cmds[0], DrawCmd::Clear);
    assert_eq!(cmds[1], DrawCmd::MoveTo(0, 0));
    match &cmds[2] {
        DrawCmd::Text(style, top) => {
            assert_eq!(*style, Style::Border);
            assert_eq!(top.chars().count(), 143);
            assert!(top.starts_with('\u{250c}'));
            assert!(top.ends_with('\u{2510}'));
        }
        other => panic!("expected the top border, got {:?}", other),
    }
    // The label line comes right after the display region.
    assert_eq!(cmds[fl + 64], DrawCmd::MoveTo(2, 0));
    assert_eq!(
        cmds[fl + 64 + 1],
        DrawCmd::Text(Style::Border, "rates".to_string())
    );
    // The highlighted memory entry shows the program counter's address.
    let mem_start = fl + 64 + 2;
    let highlight = 17usize;
    assert_eq!(
        cmds[mem_start + 2 * highlight],
        DrawCmd::MoveTo(130, highlight as u16 + 1)
    );
    match &cmds[mem_start + 2 * highlight + 1] {
        DrawCmd::Text(style, line) => {
            assert_eq!(*style, Style::MemoryCurrent);
            assert!(line.starts_with(" $0200: a2f0; "));
        }
        other => panic!("expected the highlighted entry, got {:?}", other),
    }
    // Every other memory entry uses the plain style.
    for j in 0..34usize {
        if j != highlight {
            match &cmds[mem_start + 2 * j + 1] {
                DrawCmd::Text(style, _) => assert_eq!(*style, Style::MemoryEntry),
                other => panic!("expected a memory entry, got {:?}", other),
            }
        }
    }
    // The register panel closes the plan: V0..V8 row, V9..Vf row, then
    // the timers and the index register.
    let regs_start = mem_start + 68;
    assert_eq!(cmds[regs_start], DrawCmd::MoveTo(1, 34));
    assert_eq!(
        cmds[regs_start + 1],
        DrawCmd::Text(Style::Register, "  V0= 00".to_string())
    );
    assert_eq!(cmds[regs_start + 10], DrawCmd::MoveTo(1, 34));
    assert_eq!(
        cmds[regs_start + 18],
        DrawCmd::Text(Style::Register, "  DT= 02".to_string())
    );
    assert_eq!(
        cmds[regs_start + 19],
        DrawCmd::Text(Style::Register, "  ST= 03".to_string())
    );
    assert_eq!(
        cmds[regs_start + 20],
        DrawCmd::Text(Style::Register, "  I= 0123".to_string())
    );
}

#[test]
fn unchanged_size_skips_frame_and_missing_display_skips_screen() {
    let mut ui = TermUI::new();
    let snap = snapshot_with(0x200);
    let display = vec![0u128; 64];
    let first = ui.draw("x", &snap, Some(&display), (143, 36));
    let second = ui.draw("x", &snap, None, (143, 36));
    // No clear, no frame, no screen rows: label + memory + registers.
    assert_eq!(second.len(), 2 + 68 + 21);
    assert_eq!(second[0], DrawCmd::MoveTo(2, 0));
    assert!(first.len() > second.len());
}
