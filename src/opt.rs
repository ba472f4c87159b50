use vstd::prelude::*;
use crate::arg::Arg;
use crate::traits::Argument;

verus! {

/// A short or long option name (never its value), as returned by
/// [`Options::next_opt`][crate::Options::next_opt].
#[derive(Clone, Copy, Debug, PartialEq, Eq)]
pub enum Opt<A: Argument> {
    /// A short option, like `-f`, without the leading `-`.
    Short(A::ShortOpt),
    /// A long option, like `--file`, without the leading `--`.
    Long(A::LongOpt),
}

impl<A: Argument> TryFrom<Arg<A>> for Opt<A> {
    type Error = ();

    /// The option that `value` names; a positional argument names none.
    fn try_from(value: Arg<A>) -> (r: Result<Self, ()>) {
        match value {
            Arg::Short(short) => Ok(Opt::Short(short)),
            Arg::Long(long) => Ok(Opt::Long(long)),
            Arg::Positional(_) => Err(()),
        }
    }
}

impl<A: Argument> vstd::std_specs::convert::TryFromSpecImpl<Arg<A>> for Opt<A> {
    open spec fn obeys_try_from_spec() -> bool {
        true
    }

    open spec fn try_from_spec(value: Arg<A>) -> Result<Self, ()> {
        match value {
            Arg::Short(short) => Ok(Opt::Short(short)),
            Arg::Long(long) => Ok(Opt::Long(long)),
            Arg::Positional(_) => Err(()),
        }
    }
}

} // verus!
