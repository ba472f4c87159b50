use vstd::prelude::*;
use crate::opt::Opt;
use crate::traits::Argument;

verus! {

/// What can go wrong while parsing. Every error is returned to the caller;
/// none is retried.
#[derive(Clone, Debug, PartialEq, Eq)]
pub enum Error<A: Argument> {
    /// A value was asked for this option, but none was attached and no
    /// token was left to supply one.
    RequiresValue(Opt<A>),
    /// A value was attached to this option (`--flag=value`) and was never
    /// asked for.
    DoesNotRequireValue(Opt<A>),
    /// A value was asked for while no option was awaiting one.
    NoPendingOption,
}

} // verus!
