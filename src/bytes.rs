//! Tokens as byte slices: one byte is one short option.

use vstd::prelude::*;
use crate::syntax::{end_marker, is_end_marker, is_long_opt, is_short_cluster, lacks, long_opt_parts};
use crate::traits::Argument;

verus! {

/// The byte `-`.
pub const DASH: u8 = 0x2d;

/// The byte `=`.
pub const EQUALS: u8 = 0x3d;

impl<'a> Argument for &'a [u8] {
    type ShortCluster = &'a [u8];
    type ShortOpt = u8;
    type LongOpt = &'a [u8];
    type Value = &'a [u8];
    type Positional = &'a [u8];

    open spec fn spec_ends_opts(&self) -> bool {
        is_end_marker(self@, DASH)
    }

    open spec fn spec_is_long_opt(&self) -> bool {
        is_long_opt(self@, DASH)
    }

    open spec fn spec_long_opt(&self, name: &'a [u8], value: Option<&'a [u8]>) -> bool {
        long_opt_parts(
            self@,
            DASH,
            EQUALS,
            name@,
            match value {
                Some(v) => Some(v@),
                None => None,
            },
        )
    }

    open spec fn spec_is_short_cluster(&self) -> bool {
        is_short_cluster(self@, DASH)
    }

    open spec fn spec_short_cluster(&self, cluster: &'a [u8]) -> bool {
        cluster@ == self@.drop_first()
    }

    open spec fn spec_cluster_valid(cluster: &'a [u8]) -> bool {
        cluster@.len() > 0
    }

    open spec fn spec_consume_short_opt(
        cluster: &'a [u8],
        opt: u8,
        rest: Option<&'a [u8]>,
    ) -> bool {
        &&& opt == cluster@[0]
        &&& match rest {
            Some(r) => r@.len() > 0 && r@ == cluster@.drop_first(),
            None => cluster@.len() == 1,
        }
    }

    open spec fn spec_consume_short_val(
        cluster: &'a [u8],
        value: Result<&'a [u8], &'a [u8]>,
    ) -> bool {
        match value {
            Ok(v) => v@ == cluster@,
            Err(_) => false,
        }
    }

    open spec fn spec_into_value(&self, value: &'a [u8]) -> bool {
        value@ == self@
    }

    open spec fn spec_into_positional(&self, positional: &'a [u8]) -> bool {
        positional@ == self@
    }

    fn ends_opts(&self) -> (r: bool) {
        let b: &[u8] = *self;
        let r = b.len() == 2 && b[0] == DASH && b[1] == DASH;
        proof {
            if r {
                assert(b@ =~= end_marker(DASH));
            }
        }
        r
    }

    fn parse_long_opt(self) -> (r: Result<(&'a [u8], Option<&'a [u8]>), &'a [u8]>) {
        if !(self.len() > 2 && self[0] == DASH && self[1] == DASH) {
            return Err(self);
        }
        let (_, body) = self.split_at(2);
        let mut i: usize = 0;
        while i < body.len() && body[i] != EQUALS
            invariant
                0 <= i <= body@.len(),
                lacks(body@.subrange(0, i as int), EQUALS),
            decreases body@.len() - i,
        {
            i = i + 1;
        }
        if i < body.len() {
            let (name, tail) = body.split_at(i);
            let (_, value) = tail.split_at(1);
            assert(self@ =~= end_marker(DASH) + name@ + seq![EQUALS] + value@);
            Ok((name, Some(value)))
        } else {
            assert(self@ =~= end_marker(DASH) + body@);
            assert(body@ =~= body@.subrange(0, i as int));
            Ok((body, None))
        }
    }

    fn parse_short_cluster(self) -> (r: Result<&'a [u8], &'a [u8]>) {
        if self.len() > 1 && self[0] == DASH {
            let (_, cluster) = self.split_at(1);
            assert(cluster@ =~= self@.drop_first());
            Ok(cluster)
        } else {
            Err(self)
        }
    }

    fn consume_short_opt(cluster: &'a [u8]) -> (r: (u8, Option<&'a [u8]>)) {
        let (first, rest) = cluster.split_at(1);
        assert(rest@ =~= cluster@.drop_first());
        let opt = cluster[0];
        if rest.len() == 0 {
            (opt, None)
        } else {
            (opt, Some(rest))
        }
    }

    fn consume_short_val(rest: &'a [u8]) -> (r: Result<&'a [u8], &'a [u8]>) {
        Ok(rest)
    }

    fn into_value(self) -> (r: &'a [u8]) {
        self
    }

    fn into_positional(self) -> (r: &'a [u8]) {
        self
    }
}

} // verus!
