//! Severity levels, the global filter, and the ANSI colour mapping.

use vstd::prelude::*;

verus! {

/// Severity of a log record, ordered from most severe (`Error`) to least
/// severe (`Trace`).
#[derive(Clone, Copy, PartialEq, Eq, Structural, Debug)]
pub enum Level {
    Error,
    Warn,
    Info,
    Debug,
    Trace,
}

/// The global maximum-enabled level: like `Level`, with `Off` below
/// everything to disable logging entirely.
#[derive(Clone, Copy, PartialEq, Eq, Structural, Debug)]
pub enum LevelFilter {
    Off,
    Error,
    Warn,
    Info,
    Debug,
    Trace,
}

/// Ordinal of a severity: lower means more severe.
pub open spec fn level_ordinal(l: Level) -> int {
    match l {
        Level::Error => 1,
        Level::Warn => 2,
        Level::Info => 3,
        Level::Debug => 4,
        Level::Trace => 5,
    }
}

/// Ordinal of a filter, on the same scale as `level_ordinal`; `Off` sits
/// below the most severe level, so nothing passes it.
pub open spec fn filter_ordinal(f: LevelFilter) -> int {
    match f {
        LevelFilter::Off => 0,
        LevelFilter::Error => 1,
        LevelFilter::Warn => 2,
        LevelFilter::Info => 3,
        LevelFilter::Debug => 4,
        LevelFilter::Trace => 5,
    }
}

/// Canonical upper-case name of a severity.
pub open spec fn level_name(l: Level) -> Seq<char> {
    match l {
        Level::Error => seq!['E', 'R', 'R', 'O', 'R'],
        Level::Warn => seq!['W', 'A', 'R', 'N'],
        Level::Info => seq!['I', 'N', 'F', 'O'],
        Level::Debug => seq!['D', 'E', 'B', 'U', 'G'],
        Level::Trace => seq!['T', 'R', 'A', 'C', 'E'],
    }
}

/// The escape sequence that resets the foreground colour.
pub open spec fn reset_code() -> Seq<char> {
    seq!['\x1b', '[', '3', '9', 'm']
}

/// The escape sequence selecting the colour of a severity: red for `Error`,
/// yellow for `Warn`, green for `Info`, blue for `Debug`, magenta for
/// `Trace`.
pub open spec fn colour_code(l: Level) -> Seq<char> {
    match l {
        Level::Error => seq!['\x1b', '[', '3', '1', 'm'],
        Level::Warn => seq!['\x1b', '[', '3', '3', 'm'],
        Level::Info => seq!['\x1b', '[', '3', '2', 'm'],
        Level::Debug => seq!['\x1b', '[', '3', '4', 'm'],
        Level::Trace => seq!['\x1b', '[', '3', '5', 'm'],
    }
}

/// A severity rendered as a bare coloured token: reset, colour, name, reset,
/// with no surrounding whitespace.
pub open spec fn coloured_level(l: Level) -> Seq<char> {
    reset_code() + colour_code(l) + level_name(l) + reset_code()
}

impl Level {
    /// Ordinal of this severity as a machine integer; lower means more
    /// severe.
    pub fn severity(&self) -> (r: u8)
        ensures
            r as int == level_ordinal(*self),
    {
        match self {
            Level::Error => 1,
            Level::Warn => 2,
            Level::Info => 3,
            Level::Debug => 4,
            Level::Trace => 5,
        }
    }

    /// Canonical upper-case name of this severity.
    pub fn as_str(&self) -> (r: &'static str)
        ensures
            r@ == level_name(*self),
    {
        match self {
            Level::Error => {
                proof {
                    reveal_strlit("ERROR");
                }
                assert("ERROR"@ =~= level_name(Level::Error));
                "ERROR"
            },
            Level::Warn => {
                proof {
                    reveal_strlit("WARN");
                }
                assert("WARN"@ =~= level_name(Level::Warn));
                "WARN"
            },
            Level::Info => {
                proof {
                    reveal_strlit("INFO");
                }
                assert("INFO"@ =~= level_name(Level::Info));
                "INFO"
            },
            Level::Debug => {
                proof {
                    reveal_strlit("DEBUG");
                }
                assert("DEBUG"@ =~= level_name(Level::Debug));
                "DEBUG"
            },
            Level::Trace => {
                proof {
                    reveal_strlit("TRACE");
                }
                assert("TRACE"@ =~= level_name(Level::Trace));
                "TRACE"
            },
        }
    }
}

impl LevelFilter {
    /// Ordinal of this filter on the same scale as `Level::severity`.
    pub fn severity(&self) -> (r: u8)
        ensures
            r as int == filter_ordinal(*self),
    {
        match self {
            LevelFilter::Off => 0,
            LevelFilter::Error => 1,
            LevelFilter::Warn => 2,
            LevelFilter::Info => 3,
            LevelFilter::Debug => 4,
            LevelFilter::Trace => 5,
        }
    }
}

/// A severity paired with its colour rendering.
pub struct ColourLogLevel(pub Level);

impl ColourLogLevel {
    /// The escape sequence that resets the foreground colour.
    pub fn reset_colour() -> (r: &'static str)
        ensures
            r@ == reset_code(),
    {
        proof {
            reveal_strlit("\x1b[39m");
        }
        assert("\x1b[39m"@ =~= reset_code());
        "\x1b[39m"
    }

    /// The colour escape sequence of this severity, per the fixed table.
    pub fn as_colour_code(&self) -> (r: &'static str)
        ensures
            r@ == colour_code(self.0),
    {
        match self.0 {
            Level::Error => {
                proof {
                    reveal_strlit("\x1b[31m");
                }
                assert("\x1b[31m"@ =~= colour_code(Level::Error));
                "\x1b[31m"
            },
            Level::Warn => {
                proof {
                    reveal_strlit("\x1b[33m");
                }
                assert("\x1b[33m"@ =~= colour_code(Level::Warn));
                "\x1b[33m"
            },
            Level::Info => {
                proof {
                    reveal_strlit("\x1b[32m");
                }
                assert("\x1b[32m"@ =~= colour_code(Level::Info));
                "\x1b[32m"
            },
            Level::Debug => {
                proof {
                    reveal_strlit("\x1b[34m");
                }
                assert("\x1b[34m"@ =~= colour_code(Level::Debug));
                "\x1b[34m"
            },
            Level::Trace => {
                proof {
                    reveal_strlit("\x1b[35m");
                }
                assert("\x1b[35m"@ =~= colour_code(Level::Trace));
                "\x1b[35m"
            },
        }
    }
}

impl From<Level> for ColourLogLevel {
    fn from(level: Level) -> (r: Self) {
        ColourLogLevel(level)
    }
}

impl vstd::std_specs::convert::FromSpecImpl<Level> for ColourLogLevel {
    open spec fn obeys_from_spec() -> bool {
        true
    }

    open spec fn from_spec(level: Level) -> Self {
        ColourLogLevel(level)
    }
}

/// No two severities share a colour escape sequence: the colour alone
/// identifies the severity.
pub proof fn lemma_colour_mapping_injective(a: Level, b: Level)
    requires
        a != b,
    ensures
        colour_code(a) != colour_code(b),
{
    assert(colour_code(a)[3] != colour_code(b)[3]);
}

} // verus!
