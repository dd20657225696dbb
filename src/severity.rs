use vstd::prelude::*;
use crate::paint::Hue;

verus! {

/// How serious a record is, from least to most: Trace, Debug, Info, Warn, Error.
#[derive(Clone, Copy, Debug, PartialEq, Eq, Structural)]
pub enum Severity {
    Trace,
    Debug,
    Info,
    Warn,
    Error,
}

/// The lowest severity that reaches the sinks.
pub const FLOOR: Severity = Severity::Debug;

impl Severity {
    /// Position in the order Trace < Debug < Info < Warn < Error.
    pub open spec fn rank_spec(self) -> nat {
        match self {
            Severity::Trace => 0,
            Severity::Debug => 1,
            Severity::Info => 2,
            Severity::Warn => 3,
            Severity::Error => 4,
        }
    }

    /// The one-letter mark that a line shows for this severity.
    pub open spec fn glyph_spec(self) -> char {
        match self {
            Severity::Trace => 'T',
            Severity::Debug => 'D',
            Severity::Info => 'I',
            Severity::Warn => 'W',
            Severity::Error => 'E',
        }
    }

    /// The colour of the mark: T purple, D blue, I green, W yellow, E red.
    pub open spec fn hue_spec(self) -> Hue {
        match self {
            Severity::Trace => Hue::Purple,
            Severity::Debug => Hue::Blue,
            Severity::Info => Hue::Green,
            Severity::Warn => Hue::Yellow,
            Severity::Error => Hue::Red,
        }
    }

    pub fn hue(&self) -> (r: Hue)
        ensures
            r == self.hue_spec(),
    {
        match self {
            Severity::Trace => Hue::Purple,
            Severity::Debug => Hue::Blue,
            Severity::Info => Hue::Green,
            Severity::Warn => Hue::Yellow,
            Severity::Error => Hue::Red,
        }
    }

    pub fn rank(&self) -> (r: u8)
        ensures
            r as nat == self.rank_spec(),
    {
        match self {
            Severity::Trace => 0,
            Severity::Debug => 1,
            Severity::Info => 2,
            Severity::Warn => 3,
            Severity::Error => 4,
        }
    }

    pub fn glyph(&self) -> (r: &'static str)
        ensures
            r@ == seq![self.glyph_spec()],
    {
        match self {
            Severity::Trace => {
                proof { reveal_strlit("T"); }
                "T"
            },
            Severity::Debug => {
                proof { reveal_strlit("D"); }
                "D"
            },
            Severity::Info => {
                proof { reveal_strlit("I"); }
                "I"
            },
            Severity::Warn => {
                proof { reveal_strlit("W"); }
                "W"
            },
            Severity::Error => {
                proof { reveal_strlit("E"); }
                "E"
            },
        }
    }

    /// Whether this severity is `floor` or above it.
    pub fn at_least(&self, floor: Severity) -> (r: bool)
        ensures
            r == (self.rank_spec() >= floor.rank_spec()),
    {
        self.rank() >= floor.rank()
    }
}

/// Whether a record of this severity passes the filter and reaches the sinks.
pub open spec fn admits_spec(level: Severity) -> bool {
    level.rank_spec() >= FLOOR.rank_spec()
}

pub fn admits(level: Severity) -> (r: bool)
    ensures
        r == admits_spec(level),
{
    level.at_least(FLOOR)
}

/// The filter lets Debug, Info, Warn and Error through and holds Trace back.
pub proof fn lemma_filter_holds_back_trace_only(level: Severity)
    ensures
        admits_spec(level) <==> level != Severity::Trace,
        !admits_spec(Severity::Trace),
        admits_spec(Severity::Debug) && admits_spec(Severity::Info),
        admits_spec(Severity::Warn) && admits_spec(Severity::Error),
{
}

} // verus!
