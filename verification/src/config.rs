//! Configuration validation: the target frequencies and the program
//! image, checked before any terminal state changes.
//!
//! Reading the command line and the program file is the shell's work;
//! it hands the raw argument bytes and the file contents in here, and
//! this module decides exactly which inputs are accepted.

use vstd::prelude::*;

verus! {

/// Whether a byte is an ASCII decimal digit.
pub open spec fn is_digit(b: u8) -> bool {
    48 <= b <= 57
}

/// Whether every byte of the text is a decimal digit.
pub open spec fn all_digits(s: Seq<u8>) -> bool {
    forall|i: int| 0 <= i < s.len() ==> is_digit(#[trigger] s[i])
}

/// The number a run of decimal digits denotes.
pub open spec fn dec_value(s: Seq<u8>) -> int
    decreases s.len(),
{
    if s.len() == 0 {
        0
    } else {
        dec_value(s.drop_last()) * 10 + (s.last() - 48)
    }
}

/// Whether the text is a well-formed frequency: nonempty, digits only,
/// and a value that fits an unsigned 32-bit integer.
pub open spec fn frequency_ok(s: Seq<u8>) -> bool {
    s.len() > 0 && all_digits(s) && dec_value(s) <= u32::MAX
}

proof fn lemma_dec_value_nonneg(s: Seq<u8>)
    requires
        all_digits(s),
    ensures
        dec_value(s) >= 0,
    decreases s.len(),
{
    if s.len() > 0 {
        assert(all_digits(s.drop_last())) by {
            assert(forall|i: int|
                0 <= i < s.len() - 1 ==> is_digit(#[trigger] s.drop_last()[i]) == is_digit(s[i]));
        }
        lemma_dec_value_nonneg(s.drop_last());
    }
}

proof fn lemma_dec_value_prefix_le(s: Seq<u8>, i: int)
    requires
        all_digits(s),
        0 <= i <= s.len(),
    ensures
        dec_value(s.take(i)) <= dec_value(s),
    decreases s.len() - i,
{
    if i < s.len() {
        lemma_dec_value_prefix_le(s, i + 1);
        let p = s.take(i + 1);
        assert(p.drop_last() =~= s.take(i));
        assert(all_digits(s.take(i))) by {
            assert(forall|j: int|
                0 <= j < i ==> is_digit(#[trigger] s.take(i)[j]) == is_digit(s[j]));
        }
        lemma_dec_value_nonneg(s.take(i));
        assert(dec_value(p) == dec_value(s.take(i)) * 10 + (p.last() - 48));
        assert(dec_value(s.take(i)) * 10 >= dec_value(s.take(i)));
        assert(is_digit(s[i]));
    } else {
        assert(s.take(i) =~= s);
    }
}

/// Parses a decimal frequency argument: some value exactly when the
/// text is nonempty, all digits, and within the unsigned 32-bit range.
pub fn parse_frequency(s: &Vec<u8>) -> (r: Option<u32>)
    ensures
        r == if frequency_ok(s@) {
            Some(dec_value(s@) as u32)
        } else {
            None::<u32>
        },
        frequency_ok(s@) ==> 0 <= dec_value(s@) <= u32::MAX,
{
    if s.len() == 0 {
        return None;
    }
    let mut acc: u64 = 0;
    let mut i: usize = 0;
    while i < s.len()
        invariant
            0 < s@.len(),
            i <= s@.len(),
            all_digits(s@.take(i as int)),
            acc == dec_value(s@.take(i as int)),
            acc <= u32::MAX,
        decreases s@.len() - i,
    {
        let b = s[i];
        if b < 48 || b > 57 {
            assert(!all_digits(s@));
            return None;
        }
        assert(s@.take(i + 1).drop_last() =~= s@.take(i as int));
        assert(all_digits(s@.take(i + 1))) by {
            assert(forall|j: int|
                0 <= j < i ==> is_digit(#[trigger] s@.take(i + 1)[j]) == is_digit(
                    s@.take(i as int)[j],
                ));
        }
        acc = acc * 10 + ((b - 48) as u64);
        i = i + 1;
        if acc > 0xFFFF_FFFF {
            proof {
                if all_digits(s@) {
                    lemma_dec_value_prefix_le(s@, i as int);
                    assert(dec_value(s@) > u32::MAX);
                }
            }
            return None;
        }
    }
    proof {
        assert(s@.take(i as int) =~= s@);
    }
    Some(acc as u32)
}

/// The core's free program memory: everything above the load offset.
pub const MAX_PROGRAM_BYTES: usize = 3583;

/// Which frequency argument was rejected.
#[derive(Clone, Copy, Debug, PartialEq, Eq, Structural)]
pub enum FrequencyField {
    /// The draw (render) frequency.
    Draw,
    /// The execution frequency.
    Cpu,
    /// The timers frequency.
    Timers,
}

/// Why a configuration was rejected, reported before any terminal mode
/// change.
#[derive(Clone, Copy, Debug, PartialEq, Eq, Structural)]
pub enum ConfigError {
    /// A frequency argument is not an unsigned decimal number in range.
    BadFrequency(FrequencyField),
    /// The program file holds this many bytes, more than the core's
    /// free memory can take.
    ProgramTooBig(usize),
}

/// The validated configuration of one run. The three frequencies are
/// set once at startup and never mutated afterwards; zero means "run
/// unthrottled".
#[derive(Debug, PartialEq, Eq)]
pub struct Config {
    /// Render frames per second.
    pub draw_freq: u32,
    /// Execution ticks per second.
    pub cpu_freq: u32,
    /// Timer ticks per second.
    pub timers_freq: u32,
    /// Whether executed instructions are echoed for debugging.
    pub is_debug: bool,
    /// The program image to load.
    pub program: Vec<u8>,
}

impl Config {
    /// Validates raw argument text and a loaded program image. The
    /// frequencies are checked in the order draw, cpu, timers; then the
    /// program must leave the core's font area untouched. The result is
    /// a configuration exactly when every check passes.
    pub fn from_parts(
        draw_freq: &Vec<u8>,
        cpu_freq: &Vec<u8>,
        timers_freq: &Vec<u8>,
        is_debug: bool,
        program: Vec<u8>,
    ) -> (r: Result<Config, ConfigError>)
        ensures
            ({
                if !frequency_ok(draw_freq@) {
                    r == Err::<Config, ConfigError>(ConfigError::BadFrequency(
                        FrequencyField::Draw,
                    ))
                } else if !frequency_ok(cpu_freq@) {
                    r == Err::<Config, ConfigError>(ConfigError::BadFrequency(FrequencyField::Cpu))
                } else if !frequency_ok(timers_freq@) {
                    r == Err::<Config, ConfigError>(ConfigError::BadFrequency(
                        FrequencyField::Timers,
                    ))
                } else if program@.len() >= MAX_PROGRAM_BYTES {
                    r == Err::<Config, ConfigError>(ConfigError::ProgramTooBig(program@.len() as usize))
                } else {
                    &&& r matches Ok(c)
                    &&& c.draw_freq == dec_value(draw_freq@)
                    &&& c.cpu_freq == dec_value(cpu_freq@)
                    &&& c.timers_freq == dec_value(timers_freq@)
                    &&& c.is_debug == is_debug
                    &&& c.program@ == program@
                }
            }),
    {
        let draw = match parse_frequency(draw_freq) {
            Some(v) => v,
            None => {
                return Err(ConfigError::BadFrequency(FrequencyField::Draw));
            },
        };
        let cpu = match parse_frequency(cpu_freq) {
            Some(v) => v,
            None => {
                return Err(ConfigError::BadFrequency(FrequencyField::Cpu));
            },
        };
        let timers = match parse_frequency(timers_freq) {
            Some(v) => v,
            None => {
                return Err(ConfigError::BadFrequency(FrequencyField::Timers));
            },
        };
        if program.len() >= MAX_PROGRAM_BYTES {
            return Err(ConfigError::ProgramTooBig(program.len()));
        }
        Ok(Config {
            draw_freq: draw,
            cpu_freq: cpu,
            timers_freq: timers,
            is_debug,
            program,
        })
    }
}

} // verus!
