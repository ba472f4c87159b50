use vstd::prelude::*;
use crate::opt::Opt;
use crate::traits::Argument;

verus! {

/// An option name or a positional argument, as returned by
/// [`Options::next_arg`][crate::Options::next_arg].
#[derive(Clone, Copy, Debug, PartialEq, Eq)]
pub enum Arg<A: Argument> {
    /// A short option, like `-f`, without the leading `-`.
    Short(A::ShortOpt),
    /// A long option, like `--file`, without the leading `--`.
    Long(A::LongOpt),
    /// A positional argument, like `foo.txt`.
    Positional(A::Positional),
}

impl<A: Argument> Arg<A> {
    /// The option this argument names, if it is `Short` or `Long`.
    pub fn opt(self) -> (r: Option<Opt<A>>)
        ensures
            r == match self {
                Arg::Short(s) => Some(Opt::Short(s)),
                Arg::Long(l) => Some(Opt::Long(l)),
                Arg::Positional(_) => None::<Opt<A>>,
            },
    {
        match self {
            Arg::Short(short) => Some(Opt::Short(short)),
            Arg::Long(long) => Some(Opt::Long(long)),
            Arg::Positional(_) => None,
        }
    }

    /// The positional argument this is, if it is `Positional`.
    pub fn positional(self) -> (r: Option<A::Positional>)
        ensures
            r == match self {
                Arg::Positional(p) => Some(p),
                _ => None::<A::Positional>,
            },
    {
        match self {
            Arg::Positional(arg) => Some(arg),
            _ => None,
        }
    }
}

impl<A: Argument> From<Opt<A>> for Arg<A> {
    fn from(opt: Opt<A>) -> (r: Self) {
        match opt {
            Opt::Short(short) => Arg::Short(short),
            Opt::Long(long) => Arg::Long(long),
        }
    }
}

impl<A: Argument> vstd::std_specs::convert::FromSpecImpl<Opt<A>> for Arg<A> {
    open spec fn obeys_from_spec() -> bool {
        true
    }

    open spec fn from_spec(opt: Opt<A>) -> Self {
        match opt {
            Opt::Short(short) => Arg::Short(short),
            Opt::Long(long) => Arg::Long(long),
        }
    }
}

} // verus!
