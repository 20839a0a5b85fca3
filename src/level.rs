use vstd::prelude::*;

verus! {

/// Severity of a log record, most severe first, in the facade's order.
#[derive(Clone, Copy, Debug, PartialEq, Eq, Structural)]
pub enum Level {
    Error,
    Warn,
    Info,
    Debug,
    Trace,
}

/// The upper-case name that the facade gives to a level.
pub open spec fn level_name(l: Level) -> Seq<char> {
    match l {
        Level::Error => seq!['E', 'R', 'R', 'O', 'R'],
        Level::Warn => seq!['W', 'A', 'R', 'N'],
        Level::Info => seq!['I', 'N', 'F', 'O'],
        Level::Debug => seq!['D', 'E', 'B', 'U', 'G'],
        Level::Trace => seq!['T', 'R', 'A', 'C', 'E'],
    }
}

/// Relies on log::Level::as_str: the name of each level as the facade writes it.
#[verifier::external_body]
fn facade_level_name(l: Level) -> (r: &'static str)
    ensures
        r@ == level_name(l),
{
    let l = match l {
        Level::Error => log::Level::Error,
        Level::Warn => log::Level::Warn,
        Level::Info => log::Level::Info,
        Level::Debug => log::Level::Debug,
        Level::Trace => log::Level::Trace,
    };
    l.as_str()
}

impl Level {
    /// Position in the facade's order: `Error` is 1, `Trace` is 5.
    pub open spec fn rank(self) -> int {
        match self {
            Level::Error => 1,
            Level::Warn => 2,
            Level::Info => 3,
            Level::Debug => 4,
            Level::Trace => 5,
        }
    }

    /// The numeric value the facade and foreign callers use for this level.
    pub fn as_usize(self) -> (r: usize)
        ensures
            r == self.rank(),
    {
        match self {
            Level::Error => 1,
            Level::Warn => 2,
            Level::Info => 3,
            Level::Debug => 4,
            Level::Trace => 5,
        }
    }

    /// The level with numeric value `n`, if there is one.
    pub fn from_usize(n: usize) -> (r: Option<Level>)
        ensures
            r matches Some(l) ==> l.rank() == n,
            r is None <==> (n < 1 || n > 5),
    {
        match n {
            1 => Some(Level::Error),
            2 => Some(Level::Warn),
            3 => Some(Level::Info),
            4 => Some(Level::Debug),
            5 => Some(Level::Trace),
            _ => None,
        }
    }

    /// Whether `self` is at least as severe as `threshold`, so that a sink
    /// configured with `threshold` forwards records at `self`.
    pub fn passes(self, threshold: Level) -> (r: bool)
        ensures
            r == (self.rank() <= threshold.rank()),
    {
        self.as_usize() <= threshold.as_usize()
    }

    /// The level's upper-case name.
    pub fn as_str(self) -> (r: &'static str)
        ensures
            r@ == level_name(self),
    {
        facade_level_name(self)
    }
}

} // verus!
