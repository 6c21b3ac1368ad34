//! The terminal renderer.
//!
//! The renderer never writes to a device. Each call produces a plan: a
//! sequence of [`DrawCmd`] values that a thin shell executes against the
//! real terminal in one batch per frame.

pub mod drawing;

use vstd::prelude::*;
use vstd::string::StringExecFns;
use crate::machine::MachineSnapshot;
use self::drawing::{draw_frame, draw_label, draw_memory, draw_regs, draw_screen};

verus! {

/// Minimum terminal width (columns) for the full layout.
pub const MIN_COLS: u16 = 143;

/// Minimum terminal height (rows) for the full layout.
pub const MIN_ROWS: u16 = 36;

/// Identifies one of the fixed color schemes of the renderer; the shell
/// maps each to concrete terminal colors.
#[derive(Clone, Copy, Debug, PartialEq, Eq, Structural)]
pub enum Style {
    /// Frame and label line: dark on light.
    Border,
    /// The machine's display region: light on dark.
    Screen,
    /// An ordinary memory panel entry.
    MemoryEntry,
    /// The highlighted memory panel entry (the program counter's row).
    MemoryCurrent,
    /// The register panel.
    Register,
    /// The "terminal too small" message.
    Warning,
}

/// One queued terminal operation of a frame's plan.
#[derive(Debug, PartialEq, Eq)]
pub enum DrawCmd {
    /// Clear the whole screen.
    Clear,
    /// Move the cursor to (column, row).
    MoveTo(u16, u16),
    /// Write text at the cursor in the given style.
    Text(Style, String),
}

/// The memory panel's window onto the address space, derived from the
/// program counter and the terminal height.
pub struct MemoryWindow {
    /// Number of visible entries: the terminal rows inside the frame.
    pub entries: u16,
    /// The center position of the panel.
    pub center: u16,
    /// Address shown by the first entry.
    pub base: u16,
    /// Index of the highlighted entry, the one showing the program counter.
    pub highlight: u16,
}

/// Computes the memory panel window. The highlighted entry always shows
/// the program counter; it sits at the panel's center except when the
/// program counter is too close to address zero for the window to reach
/// back that far, in which case the window is clamped at zero rather than
/// wrapping.
pub fn memory_window(pc: u16, rows: u16) -> (r: MemoryWindow)
    requires
        rows >= 3,
    ensures
        r.entries == rows - 2,
        r.center == r.entries / 2,
        r.highlight == if pc >= r.center { r.center as int } else { pc as int },
        r.base == pc - r.highlight,
        r.base + r.highlight == pc,
        r.highlight < r.entries,
{
    let entries = rows - 2;
    let center = entries / 2;
    let highlight = if pc >= center { center } else { pc };
    MemoryWindow { entries, center, base: pc - highlight, highlight }
}

/// The two rows of the register panel, spaced evenly across the panel's
/// height below the divider line.
pub fn register_rows(rows: u16) -> (r: (u16, u16))
    requires
        rows >= MIN_ROWS,
    ensures
        ({
            let available = rows - 34;
            let spacing = (available - 2) / 3;
            let middle = (available - 2) - 2 * spacing;
            r.0 == 34 + spacing && r.1 == 34 + spacing + middle
        }),
        34 <= r.0 <= r.1 < rows - 1,
{
    let available = rows - 34;
    let spacing = (available - 2) / 3;
    let middle = (available - 2) - 2 * spacing;
    (34 + spacing, 34 + spacing + middle)
}

/// True when a terminal of `size` (columns, rows) can hold the full layout.
pub fn fits_minimum(size: (u16, u16)) -> (r: bool)
    ensures
        r == (size.0 >= MIN_COLS && size.1 >= MIN_ROWS),
{
    size.0 >= MIN_COLS && size.1 >= MIN_ROWS
}

/// The message drawn when the terminal is below the minimum usable size.
pub open spec fn warning_text_spec() -> Seq<char> {
    "Too small terminal size. Try lowering font size (Try Ctrl+-)"@
}

/// Number of commands of the static frame's plan for a terminal of
/// height `h`.
pub open spec fn frame_cmds_len(h: u16) -> int {
    (4 + 4 * (h - 2) as int) + 2 * (h as int) + 2
}

/// The renderer. It remembers the last reported terminal size and whether
/// that size can hold the full layout, and recomputes the layout exactly
/// when the reported size changes.
pub struct TermUI {
    term_size: (u16, u16),
    min_fits: bool,
}

impl TermUI {
    /// The last terminal size this renderer has laid out for.
    pub closed spec fn spec_term_size(&self) -> (u16, u16) {
        self.term_size
    }

    /// Whether the last laid-out size holds the full layout.
    pub closed spec fn spec_min_fits(&self) -> bool {
        self.min_fits
    }

    /// Well-formedness: the fit flag agrees with the recorded size.
    pub open spec fn wf(&self) -> bool {
        self.spec_min_fits() == (self.spec_term_size().0 >= MIN_COLS
            && self.spec_term_size().1 >= MIN_ROWS)
    }

    /// A fresh renderer that has not laid out for any size yet, so the
    /// first draw always recomputes the layout.
    pub fn new() -> (r: TermUI)
        ensures
            r.spec_term_size() == (0u16, 0u16),
            !r.spec_min_fits(),
            r.wf(),
    {
        TermUI { term_size: (0, 0), min_fits: false }
    }

    /// Plans one frame.
    ///
    /// When the reported size differs from the last recorded one, the plan
    /// starts by clearing the screen and, if the size holds the layout,
    /// redrawing the static frame. Below the minimum size the plan holds
    /// only the size warning and no panel writes. Otherwise the display
    /// region is redrawn exactly when a changed pixel buffer is handed in,
    /// and the label line, the memory panel and the register panel are
    /// always redrawn, in that order.
    #[verifier::rlimit(100)]
    pub fn draw(
        &mut self,
        label: &str,
        chip: &MachineSnapshot,
        display: Option<&Vec<u128>>,
        size: (u16, u16),
    ) -> (r: Vec<DrawCmd>)
        requires
            old(self).wf(),
            chip.wf(),
            display matches Some(d) ==> d@.len() == 64,
        ensures
            final(self).wf(),
            final(self).spec_term_size() == size,
            final(self).spec_min_fits() == (size.0 >= MIN_COLS && size.1 >= MIN_ROWS),
            ({
                let resized = old(self).spec_term_size() != size;
                let fits = size.0 >= MIN_COLS && size.1 >= MIN_ROWS;
                if !fits {
                    if resized {
                        &&& r@.len() == 3
                        &&& r@[0] == DrawCmd::Clear
                        &&& r@[1] == DrawCmd::MoveTo(0, 0)
                        &&& drawing::is_text(r@[2], Style::Warning, warning_text_spec())
                    } else {
                        &&& r@.len() == 2
                        &&& r@[0] == DrawCmd::MoveTo(0, 0)
                        &&& drawing::is_text(r@[1], Style::Warning, warning_text_spec())
                    }
                } else {
                    let fl = if resized { 1 + frame_cmds_len(size.1) } else { 0 };
                    let sl = if display is Some { 64int } else { 0 };
                    let ml = 2 * (size.1 - 2) as int;
                    &&& r@.len() == fl + sl + 2 + ml + 21
                    &&& resized ==> r@[0] == DrawCmd::Clear && drawing::is_frame_cmds(
                        r@.subrange(1, fl),
                        size,
                    )
                    &&& display matches Some(d) ==> drawing::is_screen_cmds(
                        r@.subrange(fl, fl + sl),
                        d@,
                    )
                    &&& drawing::is_label_cmds(r@.subrange(fl + sl, fl + sl + 2), label@)
                    &&& drawing::is_memory_cmds(
                        r@.subrange(fl + sl + 2, fl + sl + 2 + ml),
                        chip.pc,
                        chip.mem@,
                        size.1,
                    )
                    &&& drawing::is_regs_cmds(
                        r@.subrange(fl + sl + 2 + ml, r@.len() as int),
                        *chip,
                        size.1,
                    )
                }
            }),
    {
        let resized = self.term_size.0 != size.0 || self.term_size.1 != size.1;
        let mut cmds: Vec<DrawCmd> = Vec::new();
        if resized {
            cmds.push(DrawCmd::Clear);
            self.term_size = size;
            self.min_fits = fits_minimum(size);
        }
        if !self.min_fits {
            cmds.push(DrawCmd::MoveTo(0, 0));
            cmds.push(
                DrawCmd::Text(
                    Style::Warning,
                    String::from_str(
                        "Too small terminal size. Try lowering font size (Try Ctrl+-)",
                    ),
                ),
            );
            return cmds;
        }
        let ghost fl: int = if resized { 1 + frame_cmds_len(size.1) } else { 0 };
        if resized {
            let mut frame = draw_frame(self.term_size);
            let ghost frame_part = frame@;
            cmds.append(&mut frame);
            proof {
                assert(cmds@.subrange(1, fl) =~= frame_part);
            }
        }
        let ghost before_screen = cmds@;
        if let Some(d) = display {
            let mut screen = draw_screen(d);
            let ghost screen_part = screen@;
            cmds.append(&mut screen);
            proof {
                assert(cmds@.subrange(0, fl) =~= before_screen);
                assert(cmds@.subrange(fl, cmds@.len() as int) =~= screen_part);
            }
        }
        let ghost after_screen = cmds@;
        let ghost fsl = cmds@.len() as int;
        let mut lab = draw_label(label);
        let ghost label_part = lab@;
        cmds.append(&mut lab);
        let mut mem = draw_memory(self.term_size, chip);
        let ghost mem_part = mem@;
        cmds.append(&mut mem);
        let mut regs = draw_regs(self.term_size, chip);
        let ghost regs_part = regs@;
        cmds.append(&mut regs);
        proof {
            if resized {
                assert(cmds@.subrange(1, fl) =~= before_screen.subrange(1, fl));
            }
            if display is Some {
                assert(cmds@.subrange(fl, fsl) =~= after_screen.subrange(fl, fsl));
            }
            assert(cmds@.subrange(fsl, fsl + 2) =~= label_part);
            assert(cmds@.subrange(fsl + 2, fsl + 2 + mem_part.len() as int) =~= mem_part);
            assert(cmds@.subrange(fsl + 2 + mem_part.len() as int, cmds@.len() as int)
                =~= regs_part);
        }
        cmds
    }
}

} // verus!
