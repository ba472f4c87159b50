//! Tokens as string slices: one `char` is one short option.

use vstd::prelude::*;
use vstd::string::StrSliceExecFns;
use crate::syntax::{end_marker, is_end_marker, is_long_opt, is_short_cluster, lacks, long_opt_parts};
use crate::traits::Argument;

verus! {

impl<'a> Argument for &'a str {
    type ShortCluster = &'a str;
    type ShortOpt = char;
    type LongOpt = &'a str;
    type Value = &'a str;
    type Positional = &'a str;

    open spec fn spec_ends_opts(&self) -> bool {
        is_end_marker(self@, '-')
    }

    open spec fn spec_is_long_opt(&self) -> bool {
        is_long_opt(self@, '-')
    }

    open spec fn spec_long_opt(&self, name: &'a str, value: Option<&'a str>) -> bool {
        long_opt_parts(
            self@,
            '-',
            '=',
            name@,
            match value {
                Some(v) => Some(v@),
                None => None,
            },
        )
    }

    open spec fn spec_is_short_cluster(&self) -> bool {
        is_short_cluster(self@, '-')
    }

    open spec fn spec_short_cluster(&self, cluster: &'a str) -> bool {
        cluster@ == self@.drop_first()
    }

    open spec fn spec_cluster_valid(cluster: &'a str) -> bool {
        cluster@.len() > 0
    }

    open spec fn spec_consume_short_opt(
        cluster: &'a str,
        opt: char,
        rest: Option<&'a str>,
    ) -> bool {
        &&& opt == cluster@[0]
        &&& match rest {
            Some(r) => r@.len() > 0 && r@ == cluster@.drop_first(),
            None => cluster@.len() == 1,
        }
    }

    open spec fn spec_consume_short_val(
        cluster: &'a str,
        value: Result<&'a str, &'a str>,
    ) -> bool {
        match value {
            Ok(v) => v@ == cluster@,
            Err(_) => false,
        }
    }

    open spec fn spec_into_value(&self, value: &'a str) -> bool {
        value@ == self@
    }

    open spec fn spec_into_positional(&self, positional: &'a str) -> bool {
        positional@ == self@
    }

    fn ends_opts(&self) -> (r: bool) {
        let s: &str = *self;
        let r = s.unicode_len() == 2 && s.get_char(0) == '-' && s.get_char(1) == '-';
        proof {
            if r {
                assert(s@ =~= end_marker('-'));
            }
        }
        r
    }

    fn parse_long_opt(self) -> (r: Result<(&'a str, Option<&'a str>), &'a str>) {
        let n = self.unicode_len();
        if !(n > 2 && self.get_char(0) == '-' && self.get_char(1) == '-') {
            return Err(self);
        }
        let mut i: usize = 2;
        while i < n && self.get_char(i) != '='
            invariant
                2 <= i <= n,
                n == self@.len(),
                lacks(self@.subrange(2, i as int), '='),
            decreases n - i,
        {
            assert(self@.subrange(2, i + 1) =~= self@.subrange(2, i as int).push(self@[i as int]));
            i = i + 1;
        }
        let name = self.substring_char(2, i);
        if i < n {
            let value = self.substring_char(i + 1, n);
            assert(self@ =~= end_marker('-') + name@ + seq!['='] + value@);
            Ok((name, Some(value)))
        } else {
            assert(self@ =~= end_marker('-') + name@);
            Ok((name, None))
        }
    }

    fn parse_short_cluster(self) -> (r: Result<&'a str, &'a str>) {
        let n = self.unicode_len();
        if n > 1 && self.get_char(0) == '-' {
            let cluster = self.substring_char(1, n);
            assert(cluster@ =~= self@.drop_first());
            Ok(cluster)
        } else {
            Err(self)
        }
    }

    fn consume_short_opt(cluster: &'a str) -> (r: (char, Option<&'a str>)) {
        let n = cluster.unicode_len();
        let opt = cluster.get_char(0);
        if n == 1 {
            (opt, None)
        } else {
            let rest = cluster.substring_char(1, n);
            assert(rest@ =~= cluster@.drop_first());
            (opt, Some(rest))
        }
    }

    fn consume_short_val(rest: &'a str) -> (r: Result<&'a str, &'a str>) {
        Ok(rest)
    }

    fn into_value(self) -> (r: &'a str) {
        self
    }

    fn into_positional(self) -> (r: &'a str) {
        self
    }
}

} // verus!
