use vstd::prelude::*;

verus! {

/// The capability that lets [`Options`][crate::Options] parse a token type.
///
/// Each method classifies or slices one token; the spec functions say what
/// each method returns, so that the parser's own contracts can speak of any
/// token type. `Options` tries `parse_long_opt` before `parse_short_cluster`
/// on every token, so an implementation of the latter need not guard against
/// long options.
pub trait Argument: Sized {
    /// What is left of a short option cluster after zero or more short
    /// options were taken from it.
    type ShortCluster;

    /// One short option, for example a `char`.
    type ShortOpt: Copy + Eq + core::fmt::Debug;

    /// The name of a long option.
    type LongOpt: Copy + Eq + core::fmt::Debug;

    /// The value of an option.
    type Value;

    /// A freestanding, positional argument.
    type Positional;

    /// The token is exactly the end-of-options marker.
    spec fn spec_ends_opts(&self) -> bool;

    /// The token carries the long option prefix with something after it.
    spec fn spec_is_long_opt(&self) -> bool;

    /// Parsing the token as a long option gives this name and value.
    spec fn spec_long_opt(&self, name: Self::LongOpt, value: Option<Self::Value>) -> bool;

    /// The token carries the short option prefix with something after it.
    spec fn spec_is_short_cluster(&self) -> bool;

    /// Parsing the token as a short option cluster gives this cluster.
    spec fn spec_short_cluster(&self, cluster: Self::ShortCluster) -> bool;

    /// The cluster holds at least one short option.
    spec fn spec_cluster_valid(cluster: Self::ShortCluster) -> bool;

    /// Taking one short option from `cluster` gives `opt` and leaves `rest`
    /// (`None` when nothing is left).
    spec fn spec_consume_short_opt(
        cluster: Self::ShortCluster,
        opt: Self::ShortOpt,
        rest: Option<Self::ShortCluster>,
    ) -> bool;

    /// Reading `cluster` whole as a value gives `value`.
    spec fn spec_consume_short_val(
        cluster: Self::ShortCluster,
        value: Result<Self::Value, Self::ShortCluster>,
    ) -> bool;

    /// The whole token, read as a value, is `value`.
    spec fn spec_into_value(&self, value: Self::Value) -> bool;

    /// The whole token, read as a positional argument, is `positional`.
    spec fn spec_into_positional(&self, positional: Self::Positional) -> bool;

    /// Returns `true` when the token is exactly the end-of-options marker
    /// (and not merely starts with it).
    fn ends_opts(&self) -> (r: bool)
        ensures
            r == self.spec_ends_opts(),
    ;

    /// Parses the token as a long option, `--flag` or `--flag=VALUE`, with the
    /// leading `--` stripped; hands the token back when it is none.
    fn parse_long_opt(self) -> (r: Result<(Self::LongOpt, Option<Self::Value>), Self>)
        ensures
            match r {
                Ok(p) => self.spec_is_long_opt() && self.spec_long_opt(p.0, p.1),
                Err(a) => !self.spec_is_long_opt() && a == self,
            },
    ;

    /// Parses the token as a short option cluster, with the leading `-`
    /// stripped; hands the token back when it is none.
    fn parse_short_cluster(self) -> (r: Result<Self::ShortCluster, Self>)
        ensures
            match r {
                Ok(c) => self.spec_is_short_cluster() && self.spec_short_cluster(c)
                    && Self::spec_cluster_valid(c),
                Err(a) => !self.spec_is_short_cluster() && a == self,
            },
    ;

    /// Takes one short option from a cluster and returns it with the rest
    /// of the cluster, if anything is left.
    fn consume_short_opt(cluster: Self::ShortCluster) -> (r: (
        Self::ShortOpt,
        Option<Self::ShortCluster>,
    ))
        requires
            Self::spec_cluster_valid(cluster),
        ensures
            Self::spec_consume_short_opt(cluster, r.0, r.1),
            match r.1 {
                Some(c) => Self::spec_cluster_valid(c),
                None => true,
            },
    ;

    /// Reads the rest of a cluster as the value of the short option before
    /// it (as in `-ovalue`).
    fn consume_short_val(rest: Self::ShortCluster) -> (r: Result<Self::Value, Self::ShortCluster>)
        requires
            Self::spec_cluster_valid(rest),
        ensures
            Self::spec_consume_short_val(rest, r),
    ;

    /// Reads the whole token as a value (as in `-o value`).
    fn into_value(self) -> (r: Self::Value)
        ensures
            self.spec_into_value(r),
    ;

    /// Reads the whole token as a positional argument.
    fn into_positional(self) -> (r: Self::Positional)
        ensures
            self.spec_into_positional(r),
    ;
}

} // verus!
