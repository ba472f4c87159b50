//! Properties of the parser that hold across calls, proved from the
//! relations that its methods' contracts state.

use vstd::prelude::*;
use crate::arg::Arg;
use crate::error::Error;
use crate::opt::Opt;
use crate::options::{
    State,
    awaiting_opt,
    classified,
    next_arg_step,
    next_opt_step,
    value_step,
};
use crate::traits::Argument;

verus! {

/// Item `a` was read from token `t`.
pub open spec fn read_from<A: Argument>(t: A, a: Arg<A>) -> bool {
    match a {
        Arg::Positional(p) => t.spec_into_positional(p),
        Arg::Long(n) => t.spec_is_long_opt() && (t.spec_long_opt(n, None) || exists|v: A::Value|
            t.spec_long_opt(n, Some(v))),
        Arg::Short(o) => t.spec_is_short_cluster() && exists|
            c: A::ShortCluster,
            rest: Option<A::ShortCluster>,
        | t.spec_short_cluster(c) && #[trigger] A::spec_consume_short_opt(c, o, rest),
    }
}

proof fn classified_reads<A: Argument>(t: A, st: State<A>, a: Arg<A>)
    requires
        classified(t, st, a),
    ensures
        read_from(t, a),
{
    match a {
        Arg::Long(n) => {
            match st {
                State::LongOptionWithValue(_, v) => {
                    assert(t.spec_long_opt(n, Some(v)));
                },
                _ => {},
            }
        },
        Arg::Short(o) => {
            match st {
                State::ShortOptionCluster(_, rest) => {
                    let c = choose|c: A::ShortCluster|
                        t.spec_short_cluster(c) && #[trigger] A::spec_consume_short_opt(c, o, rest);
                    assert(t.spec_short_cluster(c) && A::spec_consume_short_opt(c, o, rest));
                },
                _ => {},
            }
        },
        _ => {},
    }
}

/// `next_arg` reads tokens strictly in order and each at most once: what is
/// left afterwards is what was left before, less its first token or first
/// two. A token read yields the item returned; the only token read without
/// being returned is the end-of-options marker `--`.
pub proof fn next_arg_reads_in_order<A: Argument>(
    st: State<A>,
    toks: Seq<A>,
    st2: State<A>,
    toks2: Seq<A>,
    r: Result<Option<Arg<A>>, Error<A>>,
)
    requires
        next_arg_step(st, toks, st2, toks2, r),
    ensures
        toks2 == toks || (toks.len() >= 1 && toks2 == toks.drop_first() && match r {
            Ok(Some(a)) => read_from(toks[0], a),
            Ok(None) => toks[0].spec_ends_opts(),
            Err(_) => false,
        }) || (toks.len() >= 2 && toks2 == toks.drop_first().drop_first()
            && toks[0].spec_ends_opts() && match r {
            Ok(Some(Arg::Positional(p))) => toks[1].spec_into_positional(p),
            _ => false,
        }),
{
    match st {
        State::Positional(_) | State::ShortOptionCluster(_, Some(_)) | State::LongOptionWithValue(
            _,
            _,
        ) | State::End { .. } => {},
        _ => {
            if toks.len() > 0 {
                match r {
                    Ok(Some(a)) => {
                        if toks2 == toks.drop_first() && !toks[0].spec_ends_opts() && !(
                        st matches State::Start { ended_opts: true }) {
                            classified_reads(toks[0], st2, a);
                        }
                    },
                    _ => {},
                }
            }
        },
    }
}

/// Over any run of `next_arg` calls, what is left of the tokens after each
/// call is what was left of the original tokens at the start, less a prefix:
/// tokens are read in order, and none is read twice.
pub proof fn next_arg_run_reads_in_order<A: Argument>(
    toks: Seq<A>,
    sts: Seq<State<A>>,
    rems: Seq<Seq<A>>,
    rs: Seq<Result<Option<Arg<A>>, Error<A>>>,
)
    requires
        sts.len() == rs.len() + 1,
        rems.len() == rs.len() + 1,
        rems[0] == toks,
        forall|i: int|
            0 <= i < rs.len() ==> #[trigger] next_arg_step(
                sts[i],
                rems[i],
                sts[i + 1],
                rems[i + 1],
                rs[i],
            ),
    ensures
        forall|i: int|
            0 <= i < rems.len() ==> #[trigger] rems[i].len() <= toks.len() && rems[i] == toks.subrange(
                toks.len() - rems[i].len(),
                toks.len() as int,
            ),
    decreases rs.len(),
{
    let n = rs.len() as int;
    if n == 0 {
        assert(toks.subrange(0, toks.len() as int) =~= toks);
    } else {
        let sts0 = sts.drop_last();
        let rems0 = rems.drop_last();
        let rs0 = rs.drop_last();
        assert forall|i: int| 0 <= i < rs0.len() implies #[trigger] next_arg_step(
            sts0[i],
            rems0[i],
            sts0[i + 1],
            rems0[i + 1],
            rs0[i],
        ) by {
            assert(next_arg_step(sts[i], rems[i], sts[i + 1], rems[i + 1], rs[i]));
        }
        next_arg_run_reads_in_order(toks, sts0, rems0, rs0);
        assert(rems0[n - 1] == rems[n - 1]);
        let prev = rems[n - 1];
        assert(prev.len() <= toks.len() && prev == toks.subrange(
            toks.len() - prev.len(),
            toks.len() as int,
        ));
        let j = n - 1;
        assert(next_arg_step(sts[j], rems[j], sts[j + 1], rems[j + 1], rs[j]));
        next_arg_reads_in_order(sts[j], rems[j], sts[j + 1], rems[j + 1], rs[j]);
        let cur = rems[n];
        if cur != prev {
            assert(cur =~= toks.subrange(toks.len() - cur.len(), toks.len() as int));
        }
        assert forall|i: int| 0 <= i < rems.len() implies #[trigger] rems[i].len() <= toks.len()
            && rems[i] == toks.subrange(toks.len() - rems[i].len(), toks.len() as int) by {
            if i < n {
                assert(rems0[i] == rems[i]);
            }
        }
    }
}

/// `next_opt` reads at most one token; a token read yields the option
/// returned, or is `--`, or is the positional argument now held.
pub proof fn next_opt_reads_in_order<A: Argument>(
    st: State<A>,
    toks: Seq<A>,
    st2: State<A>,
    toks2: Seq<A>,
    r: Result<Option<Opt<A>>, Error<A>>,
)
    requires
        next_opt_step(st, toks, st2, toks2, r),
    ensures
        toks2 == toks || (toks.len() >= 1 && toks2 == toks.drop_first() && match r {
            Ok(Some(Opt::Short(s))) => read_from(toks[0], Arg::Short(s)),
            Ok(Some(Opt::Long(l))) => read_from(toks[0], Arg::Long(l)),
            Ok(None) => toks[0].spec_ends_opts() || match st2 {
                State::Positional(p) => toks[0].spec_into_positional(p),
                _ => false,
            },
            Err(_) => false,
        }),
{
    match st {
        State::Positional(_) | State::End { .. } | State::Start { ended_opts: true } => {},
        State::ShortOptionCluster(_, Some(_)) | State::LongOptionWithValue(_, _) => {
            let ra = choose|ra: Result<Option<Arg<A>>, Error<A>>|
                #[trigger] next_arg_step(st, toks, st2, toks2, ra) && r == crate::options::opt_result(ra);
            assert(next_arg_step(st, toks, st2, toks2, ra));
        },
        _ => {
            if toks.len() > 0 && !toks[0].spec_ends_opts() {
                match r {
                    Ok(Some(Opt::Short(s))) => classified_reads(toks[0], st2, Arg::Short(s)),
                    Ok(Some(Opt::Long(l))) => classified_reads(toks[0], st2, Arg::Long(l)),
                    _ => {},
                }
            }
        },
    }
}

/// `value` reads at most one token, and a value taken from a token is that
/// whole token.
pub proof fn value_reads_in_order<A: Argument>(
    st: State<A>,
    toks: Seq<A>,
    st2: State<A>,
    toks2: Seq<A>,
    r: Result<A::Value, Error<A>>,
)
    requires
        value_step(st, toks, st2, toks2, r),
    ensures
        toks2 == toks || (toks.len() >= 1 && toks2 == toks.drop_first() && match r {
            Ok(v) => toks[0].spec_into_value(v),
            Err(_) => false,
        }),
{
}

/// Once the tokens are exhausted, `next_arg` and `next_opt` keep returning
/// `None` and change nothing.
pub proof fn exhausted_stays_exhausted<A: Argument>(
    ended: bool,
    toks: Seq<A>,
    st_arg: State<A>,
    toks_arg: Seq<A>,
    r_arg: Result<Option<Arg<A>>, Error<A>>,
    st_opt: State<A>,
    toks_opt: Seq<A>,
    r_opt: Result<Option<Opt<A>>, Error<A>>,
)
    requires
        next_arg_step(State::End { ended_opts: ended }, toks, st_arg, toks_arg, r_arg),
        next_opt_step(State::End { ended_opts: ended }, toks, st_opt, toks_opt, r_opt),
    ensures
        r_arg == Ok::<Option<Arg<A>>, Error<A>>(None),
        st_arg == (State::<A>::End { ended_opts: ended }),
        toks_arg == toks,
        r_opt == Ok::<Option<Opt<A>>, Error<A>>(None),
        st_opt == (State::<A>::End { ended_opts: ended }),
        toks_opt == toks,
{
}

/// With no tokens left, `next_arg` reaches the end from any state that reads
/// a new token.
pub proof fn empty_source_ends<A: Argument>(
    st: State<A>,
    st2: State<A>,
    toks2: Seq<A>,
    r: Result<Option<Arg<A>>, Error<A>>,
)
    requires
        crate::options::reads_new_token(st),
        next_arg_step(st, Seq::empty(), st2, toks2, r),
    ensures
        r == Ok::<Option<Arg<A>>, Error<A>>(None),
        st2 is End,
        toks2 == Seq::<A>::empty(),
{
}

/// `value` with no option awaiting a value fails with `NoPendingOption` and
/// changes nothing.
pub proof fn value_without_pending_option_fails<A: Argument>(
    st: State<A>,
    toks: Seq<A>,
    st2: State<A>,
    toks2: Seq<A>,
    r: Result<A::Value, Error<A>>,
)
    requires
        awaiting_opt(st) is None,
        !(st is LongOptionWithValue),
        !(st is ShortOptionCluster),
        value_step(st, toks, st2, toks2, r),
    ensures
        r == Err::<A::Value, Error<A>>(Error::NoPendingOption),
        st2 == st,
        toks2 == toks,
{
}

/// Once `value` has returned a value, a second `value` fails with
/// `NoPendingOption` and changes nothing.
pub proof fn value_taken_twice_fails<A: Argument>(
    st: State<A>,
    toks: Seq<A>,
    v: A::Value,
    st2: State<A>,
    toks2: Seq<A>,
    st3: State<A>,
    toks3: Seq<A>,
    r3: Result<A::Value, Error<A>>,
)
    requires
        value_step(st, toks, st2, toks2, Ok(v)),
        value_step(st2, toks2, st3, toks3, r3),
    ensures
        r3 == Err::<A::Value, Error<A>>(Error::NoPendingOption),
        st3 == st2,
        toks3 == toks2,
{
}

} // verus!
