//! The shared virtual-machine core and its read-only projection.
//!
//! The core itself is an external collaborator whose correctness is
//! assumed; this module reaches it through a narrow tick-and-query
//! interface and accounts for exactly how many execution ticks were
//! driven into it, so the scheduler can be held to "no extra and no
//! dropped ticks".

use vstd::prelude::*;

verus! {

#[verifier::external_type_specification]
#[verifier::external_body]
pub struct ExChip8(chiprust_emu::Chip8);

/// The address the core's programs are loaded at; below it lies the
/// built-in font.
pub const LOAD_OFFSET: usize = 0x200;

/// Relies on chiprust_emu::Chip8::load: writes the program at `at` and
/// the font below address 240, then sets the program counter to `at`.
/// It panics for `at` below 240 and indexes out of memory past 4096,
/// so those inputs are excluded here.
#[verifier::external_body]
fn chip_load(c: &mut chiprust_emu::Chip8, at: usize, program: &Vec<u8>)
    requires
        240 <= at,
        at + program@.len() <= 4096,
{
    c.load(at, program.as_slice(), None)
}

/// Relies on chiprust_emu::Chip8::get_pc: the current program counter.
#[verifier::external_body]
fn chip_get_pc(c: &chiprust_emu::Chip8) -> usize {
    c.get_pc()
}

/// Relies on chiprust_emu::Chip8::cpu_tick: decodes and executes one
/// instruction, reporting an illegal opcode or a program exit as the
/// error text. It reads the instruction pair at the program counter
/// with no bound of its own, so the caller must first check that the
/// pair lies in memory (a legal jump can park the counter on the last
/// byte). Residual aborts remain for programs that misbehave beyond
/// what this opaque type lets a contract fence: more than fifteen
/// nested calls overrun the core's stack array, a return on an empty
/// stack underflows it, and a large index register can index past
/// memory. The core's behaviour on well-behaved programs is assumed.
#[verifier::external_body]
fn chip_cpu_tick(c: &mut chiprust_emu::Chip8) -> Result<(), &'static str> {
    c.cpu_tick()
}

/// Relies on chiprust_emu::Chip8::timers_tick: decrements each nonzero
/// timer by one.
#[verifier::external_body]
fn chip_timers_tick(c: &mut chiprust_emu::Chip8) {
    c.timers_tick()
}

/// Relies on chiprust_emu::Chip8::is_sound_playing: whether the sound
/// timer is currently nonzero.
#[verifier::external_body]
fn chip_is_sound_playing(c: &chiprust_emu::Chip8) -> bool {
    c.is_sound_playing()
}

/// Relies on chiprust_emu::Chip8::to_state: copies the machine state
/// out; the register file has 16 entries and the memory image 4096
/// bytes, so the snapshot is well formed.
#[verifier::external_body]
fn chip_snapshot(c: &chiprust_emu::Chip8) -> (r: MachineSnapshot)
    ensures
        r.wf(),
{
    let st = c.to_state();
    MachineSnapshot {
        pc: st.pc as u16,
        regs: st.regs.to_vec(),
        i: st.i as u16,
        delay_timer: st.delay_timer,
        sound_timer: st.sound_timer,
        mem: st.mem.to_vec(),
    }
}

/// Relies on chiprust_emu::display::Display::dirty: whether the pixel
/// buffer changed since it was last read.
#[verifier::external_body]
fn chip_display_dirty(c: &chiprust_emu::Chip8) -> bool {
    c.display.dirty()
}

/// Relies on chiprust_emu::display::Display::read: hands out the 64
/// row words of the pixel buffer and clears the dirty flag.
#[verifier::external_body]
fn chip_display_read(c: &mut chiprust_emu::Chip8) -> (r: Vec<u128>)
    ensures
        r@.len() == 64,
{
    c.display.read().to_vec()
}

/// A fatal execution error reported by the core: the machine state is
/// no longer trustworthy and the loops must shut down.
#[derive(Clone, Copy, Debug, PartialEq, Eq)]
pub struct TickError {
    /// The core's description of the failure.
    pub message: &'static str,
}

/// The single machine instance the three loops share. All access is
/// serialized by the shell's one exclusion lock around the whole
/// [`Machine`]; no method here blocks or performs I/O, so the lock is
/// never held across a blocking operation.
pub struct Machine {
    chip: chiprust_emu::Chip8,
    ticks: u64,
}

impl Machine {
    /// How many execution ticks have been driven into the core.
    pub closed spec fn spec_ticks(&self) -> u64 {
        self.ticks
    }

    /// Wraps a core instance; no execution tick has happened yet.
    pub fn new(chip: chiprust_emu::Chip8) -> (r: Machine)
        ensures
            r.spec_ticks() == 0,
    {
        Machine { chip, ticks: 0 }
    }

    /// Reads the tick counter.
    pub fn ticks(&self) -> (r: u64)
        ensures
            r == self.spec_ticks(),
    {
        self.ticks
    }

    /// Loads a program image at the standard offset.
    pub fn load_program(&mut self, program: &Vec<u8>)
        requires
            program@.len() <= 3583,
        ensures
            final(self).spec_ticks() == old(self).spec_ticks(),
    {
        chip_load(&mut self.chip, LOAD_OFFSET, program);
    }

    /// The execution loop's body: exactly one decode-and-execute step.
    /// A program counter whose instruction pair would fall outside
    /// memory is refused as an execution error before the core runs, so
    /// a legal program that jumps or walks to the end of memory gets an
    /// error, not an abort. The tick counter grows by one exactly when
    /// the core ticked; a failure leaves the count unchanged and must
    /// propagate to a coordinated shutdown.
    pub fn execution_tick(&mut self) -> (r: Result<(), TickError>)
        requires
            old(self).spec_ticks() < u64::MAX,
        ensures
            r is Ok ==> final(self).spec_ticks() == old(self).spec_ticks() + 1,
            r is Err ==> final(self).spec_ticks() == old(self).spec_ticks(),
    {
        let pc = chip_get_pc(&self.chip);
        if pc >= 4095 {
            return Err(TickError { message: "program counter out of memory" });
        }
        match chip_cpu_tick(&mut self.chip) {
            Ok(()) => {
                self.ticks = self.ticks + 1;
                Ok(())
            },
            Err(message) => Err(TickError { message }),
        }
    }

    /// The timers loop's body: one timer-decrement step, and the core's
    /// answer to whether sound should currently be audible. The caller
    /// instructs the audio sink only after releasing the lock.
    pub fn timers_step(&mut self) -> (r: bool)
        ensures
            final(self).spec_ticks() == old(self).spec_ticks(),
    {
        chip_timers_tick(&mut self.chip);
        chip_is_sound_playing(&self.chip)
    }

    /// The render loop's lock-held part: a full snapshot copy, plus the
    /// pixel buffer exactly when it changed since the last read (the
    /// read clears the dirty flag).
    pub fn render_snapshot(&mut self) -> (r: (MachineSnapshot, Option<Vec<u128>>))
        ensures
            final(self).spec_ticks() == old(self).spec_ticks(),
            r.0.wf(),
            r.1 matches Some(d) ==> d@.len() == 64,
    {
        let snapshot = chip_snapshot(&self.chip);
        let display = if chip_display_dirty(&self.chip) {
            Some(chip_display_read(&mut self.chip))
        } else {
            None
        };
        (snapshot, display)
    }

    /// Runs exactly `n` execution ticks, stopping early only on a core
    /// failure: the scheduler introduces no extra and drops no ticks.
    pub fn run_ticks(&mut self, n: u64) -> (r: Result<(), TickError>)
        requires
            old(self).spec_ticks() + n <= u64::MAX,
        ensures
            r is Ok ==> final(self).spec_ticks() == old(self).spec_ticks() + n,
            final(self).spec_ticks() <= old(self).spec_ticks() + n,
    {
        let mut done: u64 = 0;
        while done < n
            invariant
                done <= n,
                self.spec_ticks() == old(self).spec_ticks() + done,
                old(self).spec_ticks() + n <= u64::MAX,
            decreases n - done,
        {
            let step = self.execution_tick();
            if let Err(e) = step {
                return Err(e);
            }
            done = done + 1;
        }
        Ok(())
    }
}

/// A read-only projection of the machine, taken under the exclusion lock
/// and drawn after the lock is released. Immutable once constructed.
pub struct MachineSnapshot {
    /// Program counter.
    pub pc: u16,
    /// The 16 general registers.
    pub regs: Vec<u8>,
    /// Index register.
    pub i: u16,
    /// Delay timer.
    pub delay_timer: u8,
    /// Sound timer.
    pub sound_timer: u8,
    /// The full memory image.
    pub mem: Vec<u8>,
}

impl MachineSnapshot {
    /// Well-formedness: the register file and the memory image have their
    /// fixed sizes.
    pub open spec fn wf(&self) -> bool {
        self.regs@.len() == 16 && self.mem@.len() == 4096
    }
}

} // verus!
