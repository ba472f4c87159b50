use vstd::prelude::*;
use crate::arg::Arg;
use crate::error::Error;
use crate::opt::Opt;
use crate::traits::Argument;

verus! {

/// Where the parser stands between two calls: at most one partly read token
/// is held, and which kind it is decides the variant.
#[derive(Clone, Debug, PartialEq, Eq)]
pub enum State<A: Argument> {
    /// No token is partly read; `ended_opts` tells whether `--` was seen.
    Start { ended_opts: bool },
    /// A positional argument was read by `next_opt` and awaits `next_arg`
    /// or `next_positional`.
    Positional(A::Positional),
    /// An option was returned and may still ask for a value from the next
    /// token.
    EndOfOption(Opt<A>),
    /// A short option was returned; the rest of its cluster, if any, holds
    /// more short options or its value.
    ShortOptionCluster(A::ShortOpt, Option<A::ShortCluster>),
    /// A long option was returned with a value attached by `=`.
    LongOptionWithValue(A::LongOpt, A::Value),
    /// No token is left.
    End { ended_opts: bool },
}

/// A held cluster always has a short option left in it.
pub open spec fn state_wf<A: Argument>(st: State<A>) -> bool {
    match st {
        State::ShortOptionCluster(_, Some(c)) => A::spec_cluster_valid(c),
        _ => true,
    }
}

/// States in which the next option or argument comes from a new token.
pub open spec fn reads_new_token<A: Argument>(st: State<A>) -> bool {
    match st {
        State::Start { .. } | State::EndOfOption(_) | State::ShortOptionCluster(_, None) => true,
        _ => false,
    }
}

/// Whether `--` has been seen, in a state that reads a new token.
pub open spec fn opts_ended<A: Argument>(st: State<A>) -> bool {
    match st {
        State::Start { ended_opts } => ended_opts,
        _ => false,
    }
}

/// The option that awaits a value from the next token, if any.
pub open spec fn awaiting_opt<A: Argument>(st: State<A>) -> Option<Opt<A>> {
    match st {
        State::EndOfOption(o) => Some(o),
        State::ShortOptionCluster(o, None) => Some(Opt::Short(o)),
        _ => None,
    }
}

/// Reading token `t` (not the end-of-options marker, before `--`) yields `r`
/// and leaves the parser in `st`: a long option is tried first, then a short
/// option cluster, and anything else is a positional argument.
pub open spec fn classified<A: Argument>(t: A, st: State<A>, r: Arg<A>) -> bool {
    if t.spec_is_long_opt() {
        match r {
            Arg::Long(name) => match st {
                State::LongOptionWithValue(n, v) => n == name && t.spec_long_opt(name, Some(v)),
                State::EndOfOption(Opt::Long(n)) => n == name && t.spec_long_opt(name, None),
                _ => false,
            },
            _ => false,
        }
    } else if t.spec_is_short_cluster() {
        match r {
            Arg::Short(o) => match st {
                State::ShortOptionCluster(o2, rest) => o2 == o && exists|c: A::ShortCluster|
                    t.spec_short_cluster(c) && #[trigger] A::spec_consume_short_opt(c, o, rest),
                _ => false,
            },
            _ => false,
        }
    } else {
        match r {
            Arg::Positional(p) => t.spec_into_positional(p) && st == State::<A>::Start {
                ended_opts: false,
            },
            _ => false,
        }
    }
}

/// Taking the next short option from a held cluster `c` yields `r`.
pub open spec fn next_in_cluster<A: Argument>(
    c: A::ShortCluster,
    st2: State<A>,
    r: Result<Option<Arg<A>>, Error<A>>,
) -> bool {
    match r {
        Ok(Some(Arg::Short(o))) => match st2 {
            State::ShortOptionCluster(o2, rest) => o2 == o && A::spec_consume_short_opt(c, o, rest),
            _ => false,
        },
        _ => false,
    }
}

/// `next_arg` in a state that reads a new token, from `toks`: an empty
/// source ends parsing; after `--` every token is positional; `--` itself is
/// skipped once; any other token is classified.
pub open spec fn read_arg<A: Argument>(
    ended: bool,
    toks: Seq<A>,
    st2: State<A>,
    toks2: Seq<A>,
    r: Result<Option<Arg<A>>, Error<A>>,
) -> bool {
    if toks.len() == 0 {
        r == Ok::<Option<Arg<A>>, Error<A>>(None) && st2 == State::<A>::End {
            ended_opts: ended,
        } && toks2 == toks
    } else if ended {
        read_positional_after_end(toks, st2, toks2, r)
    } else if toks[0].spec_ends_opts() {
        let rest = toks.drop_first();
        if rest.len() == 0 {
            r == Ok::<Option<Arg<A>>, Error<A>>(None) && st2 == State::<A>::End {
                ended_opts: true,
            } && toks2 == rest
        } else {
            read_positional_after_end(rest, st2, toks2, r)
        }
    } else {
        toks2 == toks.drop_first() && match r {
            Ok(Some(a)) => classified(toks[0], st2, a),
            _ => false,
        }
    }
}

/// After `--`, the first of `toks` (which is not empty) is read whole as a
/// positional argument.
pub open spec fn read_positional_after_end<A: Argument>(
    toks: Seq<A>,
    st2: State<A>,
    toks2: Seq<A>,
    r: Result<Option<Arg<A>>, Error<A>>,
) -> bool {
    &&& toks2 == toks.drop_first()
    &&& st2 == State::<A>::Start { ended_opts: true }
    &&& match r {
        Ok(Some(Arg::Positional(p))) => toks[0].spec_into_positional(p),
        _ => false,
    }
}

/// What `next_arg` does, from state `st` and remaining tokens `toks` to
/// state `st2`, remaining tokens `toks2` and result `r`.
pub open spec fn next_arg_step<A: Argument>(
    st: State<A>,
    toks: Seq<A>,
    st2: State<A>,
    toks2: Seq<A>,
    r: Result<Option<Arg<A>>, Error<A>>,
) -> bool {
    match st {
        State::Positional(p) => r == Ok::<Option<Arg<A>>, Error<A>>(Some(Arg::Positional(p)))
            && st2 == State::<A>::Start { ended_opts: false } && toks2 == toks,
        State::ShortOptionCluster(_, Some(c)) => next_in_cluster(c, st2, r) && toks2 == toks,
        State::LongOptionWithValue(n, _) => r == Err::<Option<Arg<A>>, Error<A>>(
            Error::DoesNotRequireValue(Opt::Long(n)),
        ) && st2 == State::<A>::Start { ended_opts: false } && toks2 == toks,
        State::End { .. } => r == Ok::<Option<Arg<A>>, Error<A>>(None) && st2 == st && toks2
            == toks,
        _ => read_arg(opts_ended(st), toks, st2, toks2, r),
    }
}

/// The option that an argument names, if any.
pub open spec fn opt_result<A: Argument>(r: Result<Option<Arg<A>>, Error<A>>) -> Result<
    Option<Opt<A>>,
    Error<A>,
> {
    match r {
        Ok(Some(Arg::Short(s))) => Ok(Some(Opt::Short(s))),
        Ok(Some(Arg::Long(l))) => Ok(Some(Opt::Long(l))),
        Ok(_) => Ok(None),
        Err(e) => Err(e),
    }
}

/// What `next_opt` does. It stops at a positional argument, which it holds
/// for `next_arg` or `next_positional`, and at `--`; otherwise it acts as
/// `next_arg` does.
pub open spec fn next_opt_step<A: Argument>(
    st: State<A>,
    toks: Seq<A>,
    st2: State<A>,
    toks2: Seq<A>,
    r: Result<Option<Opt<A>>, Error<A>>,
) -> bool {
    match st {
        State::Positional(_) | State::End { .. } | State::Start { ended_opts: true } => r
            == Ok::<Option<Opt<A>>, Error<A>>(None) && st2 == st && toks2 == toks,
        State::ShortOptionCluster(_, Some(_)) | State::LongOptionWithValue(_, _) => exists|
            ra: Result<Option<Arg<A>>, Error<A>>,
        |
            #[trigger] next_arg_step(st, toks, st2, toks2, ra) && r == opt_result(ra),
        _ => if toks.len() == 0 {
            r == Ok::<Option<Opt<A>>, Error<A>>(None) && st2 == State::<A>::End {
                ended_opts: false,
            } && toks2 == toks
        } else if toks[0].spec_ends_opts() {
            r == Ok::<Option<Opt<A>>, Error<A>>(None) && st2 == State::<A>::Start {
                ended_opts: true,
            } && toks2 == toks.drop_first()
        } else {
            toks2 == toks.drop_first() && match r {
                Ok(Some(Opt::Short(s))) => classified(toks[0], st2, Arg::Short(s)),
                Ok(Some(Opt::Long(l))) => classified(toks[0], st2, Arg::Long(l)),
                Ok(None) => match st2 {
                    State::Positional(p) => !toks[0].spec_is_long_opt()
                        && !toks[0].spec_is_short_cluster() && toks[0].spec_into_positional(p),
                    _ => false,
                },
                Err(_) => false,
            }
        },
    }
}

/// What `value` does: an attached value is taken first, else the next token
/// is read whole; with neither it fails with `RequiresValue` and changes
/// nothing. With no option awaiting a value it fails with `NoPendingOption`
/// and changes nothing.
pub open spec fn value_step<A: Argument>(
    st: State<A>,
    toks: Seq<A>,
    st2: State<A>,
    toks2: Seq<A>,
    r: Result<A::Value, Error<A>>,
) -> bool {
    match st {
        State::LongOptionWithValue(_, v) => r == Ok::<A::Value, Error<A>>(v) && st2
            == State::<A>::Start { ended_opts: false } && toks2 == toks,
        State::ShortOptionCluster(o, Some(c)) => toks2 == toks && st2 == State::<A>::Start {
            ended_opts: false,
        } && match r {
            Ok(v) => A::spec_consume_short_val(c, Ok(v)),
            Err(e) => e == Error::<A>::RequiresValue(Opt::Short(o)) && exists|c2: A::ShortCluster|
                #[trigger] A::spec_consume_short_val(c, Err(c2)),
        },
        _ => match awaiting_opt(st) {
            Some(o) => if toks.len() == 0 {
                r == Err::<A::Value, Error<A>>(Error::RequiresValue(o)) && st2 == st && toks2
                    == toks
            } else {
                toks2 == toks.drop_first() && st2 == State::<A>::Start { ended_opts: false }
                    && match r {
                    Ok(v) => toks[0].spec_into_value(v),
                    Err(_) => false,
                }
            },
            None => r == Err::<A::Value, Error<A>>(Error::NoPendingOption) && st2 == st && toks2
                == toks,
        },
    }
}

/// Token `t` reads as neither `--` nor an option.
pub open spec fn is_plain<A: Argument>(t: A) -> bool {
    !t.spec_ends_opts() && !t.spec_is_long_opt() && !t.spec_is_short_cluster()
}

/// What `values` does: it takes a value as `value` does, then every
/// following token that reads as neither `--` nor an option, each whole, and
/// stops before the first one that does.
pub open spec fn values_step<A: Argument>(
    st: State<A>,
    toks: Seq<A>,
    st2: State<A>,
    toks2: Seq<A>,
    r: Result<Vec<A::Value>, Error<A>>,
) -> bool {
    exists|st1: State<A>, toks1: Seq<A>, r1: Result<A::Value, Error<A>>|
        #[trigger] value_step(st, toks, st1, toks1, r1) && st2 == st1 && match r1 {
            Err(e) => r == Err::<Vec<A::Value>, Error<A>>(e) && toks2 == toks1,
            Ok(v) => match r {
                Ok(vals) => {
                    let n = vals@.len() - 1;
                    &&& vals@.len() >= 1
                    &&& vals@[0] == v
                    &&& n <= toks1.len()
                    &&& toks2 == toks1.subrange(n, toks1.len() as int)
                    &&& forall|i: int|
                        0 <= i < n ==> is_plain(#[trigger] toks1[i]) && toks1[i].spec_into_value(
                            vals@[i + 1],
                        )
                    &&& toks2.len() > 0 ==> !is_plain(toks2[0])
                },
                Err(_) => false,
            },
        }
}

/// What `value_opt` does: it takes an attached value, and otherwise reads
/// no token; either way the option no longer awaits a value.
pub open spec fn value_opt_step<A: Argument>(
    st: State<A>,
    st2: State<A>,
    r: Option<A::Value>,
) -> bool {
    match st {
        State::LongOptionWithValue(_, v) => r == Some(v) && st2 == State::<A>::Start {
            ended_opts: false,
        },
        State::ShortOptionCluster(_, Some(c)) => st2 == State::<A>::Start { ended_opts: false }
            && match r {
            Some(v) => A::spec_consume_short_val(c, Ok(v)),
            None => exists|c2: A::ShortCluster| #[trigger] A::spec_consume_short_val(c, Err(c2)),
        },
        State::EndOfOption(_) | State::ShortOptionCluster(_, None) => r == None::<A::Value> && st2
            == State::<A>::Start { ended_opts: false },
        _ => r == None::<A::Value> && st2 == st,
    }
}

/// What `next_positional` does: a held positional argument is returned;
/// after `--` the next token is read whole; otherwise nothing happens.
pub open spec fn next_positional_step<A: Argument>(
    st: State<A>,
    toks: Seq<A>,
    st2: State<A>,
    toks2: Seq<A>,
    r: Option<A::Positional>,
) -> bool {
    match st {
        State::Positional(p) => r == Some(p) && st2 == State::<A>::Start { ended_opts: false }
            && toks2 == toks,
        State::Start { ended_opts: true } => if toks.len() == 0 {
            r == None::<A::Positional> && st2 == State::<A>::End { ended_opts: true } && toks2
                == toks
        } else {
            toks2 == toks.drop_first() && st2 == st && match r {
                Some(p) => toks[0].spec_into_positional(p),
                None => false,
            }
        },
        _ => r == None::<A::Positional> && st2 == st && toks2 == toks,
    }
}

/// A copy of `o`; both of its variants hold `Copy` values.
fn copy_opt<A: Argument>(o: &Opt<A>) -> (r: Opt<A>)
    ensures
        r == *o,
{
    match o {
        Opt::Short(s) => Opt::Short(*s),
        Opt::Long(l) => Opt::Long(*l),
    }
}

/// `s` in reverse order.
pub open spec fn reversed<T>(s: Seq<T>) -> Seq<T> {
    Seq::new(s.len(), |i: int| s[s.len() - 1 - i])
}

/// The parser: it owns the tokens not yet read and its [`State`], and hands
/// out options, values and positional arguments on demand, one call at a
/// time.
pub struct Options<A: Argument> {
    /// The tokens not yet read, last one first.
    tokens: Vec<A>,
    state: State<A>,
}

impl<A: Argument> Options<A> {
    /// The state between calls.
    pub closed spec fn state(&self) -> State<A> {
        self.state
    }

    /// The tokens not yet read, in order.
    pub closed spec fn remaining(&self) -> Seq<A> {
        reversed(self.tokens@)
    }

    /// The parser is well formed.
    pub open spec fn wf(&self) -> bool {
        state_wf(self.state())
    }

    /// A parser over `args`, with nothing read yet.
    pub fn new(args: Vec<A>) -> (r: Self)
        ensures
            r.wf(),
            r.state() == (State::<A>::Start { ended_opts: false }),
            r.remaining() == args@,
    {
        let mut args = args;
        let ghost orig = args@;
        let mut tokens: Vec<A> = Vec::new();
        while args.len() > 0
            invariant
                orig == args@ + reversed(tokens@),
            decreases args.len(),
        {
            let t = args.pop().unwrap();
            tokens.push(t);
            assert(orig =~= args@ + reversed(tokens@));
        }
        assert(orig =~= reversed(tokens@));
        Options { tokens, state: State::Start { ended_opts: false } }
    }

    /// Reads the next token, if any.
    fn pull(&mut self) -> (r: Option<A>)
        ensures
            final(self).state == old(self).state,
            match r {
                Some(t) => old(self).remaining().len() > 0 && t == old(self).remaining()[0]
                    && final(self).remaining() == old(self).remaining().drop_first(),
                None => old(self).remaining().len() == 0 && final(self).remaining() == old(
                    self,
                ).remaining(),
            },
    {
        let r = self.tokens.pop();
        if r.is_some() {
            assert(reversed(self.tokens@) =~= reversed(old(self).tokens@).drop_first());
        }
        r
    }

    /// Moves the state out, leaving `Start` in its place.
    fn take_state(&mut self) -> (st: State<A>)
        ensures
            st == old(self).state,
            final(self).state == (State::<A>::Start { ended_opts: false }),
            final(self).tokens == old(self).tokens,
    {
        let mut st = State::Start { ended_opts: false };
        std::mem::swap(&mut self.state, &mut st);
        st
    }

    /// Reads token `t`, which is not `--`, before `--`.
    fn classify(t: A) -> (res: (State<A>, Arg<A>))
        ensures
            classified(t, res.0, res.1),
            state_wf(res.0),
    {
        match t.parse_long_opt() {
            Ok((name, value)) => match value {
                Some(v) => (State::LongOptionWithValue(name, v), Arg::Long(name)),
                None => (State::EndOfOption(Opt::Long(name)), Arg::Long(name)),
            },
            Err(t) => match t.parse_short_cluster() {
                Ok(cluster) => {
                    let ghost c = cluster;
                    let (o, rest) = A::consume_short_opt(cluster);
                    assert(t.spec_short_cluster(c) && A::spec_consume_short_opt(c, o, rest));
                    (State::ShortOptionCluster(o, rest), Arg::Short(o))
                },
                Err(t) => (State::Start { ended_opts: false }, Arg::Positional(t.into_positional())),
            },
        }
    }

    /// Returns the next option or positional argument, or `None` once no
    /// token is left. `--` is never returned; every token after it is
    /// positional. A long option whose attached value was never asked for
    /// gives `DoesNotRequireValue`.
    pub fn next_arg(&mut self) -> (r: Result<Option<Arg<A>>, Error<A>>)
        requires
            old(self).wf(),
        ensures
            final(self).wf(),
            next_arg_step(
                old(self).state(),
                old(self).remaining(),
                final(self).state(),
                final(self).remaining(),
                r,
            ),
    {
        let st = self.take_state();
        match st {
            State::Positional(p) => Ok(Some(Arg::Positional(p))),
            State::ShortOptionCluster(_, Some(cluster)) => {
                let (o, rest) = A::consume_short_opt(cluster);
                self.state = State::ShortOptionCluster(o, rest);
                Ok(Some(Arg::Short(o)))
            },
            State::LongOptionWithValue(name, _) => Err(Error::DoesNotRequireValue(Opt::Long(name))),
            State::End { ended_opts } => {
                self.state = State::End { ended_opts };
                Ok(None)
            },
            State::Start { ended_opts } => self.read_arg(ended_opts),
            _ => self.read_arg(false),
        }
    }

    /// Reads the next token for `next_arg`, skipping one `--`.
    fn read_arg(&mut self, ended: bool) -> (r: Result<Option<Arg<A>>, Error<A>>)
        ensures
            state_wf(final(self).state),
            read_arg(ended, old(self).remaining(), final(self).state(), final(self).remaining(), r),
    {
        match self.pull() {
            None => {
                self.state = State::End { ended_opts: ended };
                Ok(None)
            },
            Some(t) => {
                if ended {
                    self.state = State::Start { ended_opts: true };
                    Ok(Some(Arg::Positional(t.into_positional())))
                } else if t.ends_opts() {
                    match self.pull() {
                        None => {
                            self.state = State::End { ended_opts: true };
                            Ok(None)
                        },
                        Some(t2) => {
                            self.state = State::Start { ended_opts: true };
                            Ok(Some(Arg::Positional(t2.into_positional())))
                        },
                    }
                } else {
                    let (st, a) = Self::classify(t);
                    self.state = st;
                    Ok(Some(a))
                }
            },
        }
    }

    /// Returns the next option, or `None` once a positional argument, `--`
    /// or the end of the tokens is reached. A positional argument is held,
    /// not lost: `next_arg` or `next_positional` returns it.
    pub fn next_opt(&mut self) -> (r: Result<Option<Opt<A>>, Error<A>>)
        requires
            old(self).wf(),
        ensures
            final(self).wf(),
            next_opt_step(
                old(self).state(),
                old(self).remaining(),
                final(self).state(),
                final(self).remaining(),
                r,
            ),
    {
        let st = self.take_state();
        match st {
            State::ShortOptionCluster(o0, Some(cluster)) => {
                let ghost st0 = State::<A>::ShortOptionCluster(o0, Some(cluster));
                let (o, rest) = A::consume_short_opt(cluster);
                self.state = State::ShortOptionCluster(o, rest);
                let ghost ra = Ok::<Option<Arg<A>>, Error<A>>(Some(Arg::Short(o)));
                assert(next_arg_step(st0, old(self).remaining(), self.state(), self.remaining(), ra));
                Ok(Some(Opt::Short(o)))
            },
            State::LongOptionWithValue(name, v) => {
                let ghost st0 = State::<A>::LongOptionWithValue(name, v);
                let ghost ra = Err::<Option<Arg<A>>, Error<A>>(Error::DoesNotRequireValue(Opt::Long(name)));
                assert(next_arg_step(st0, old(self).remaining(), self.state(), self.remaining(), ra));
                Err(Error::DoesNotRequireValue(Opt::Long(name)))
            },
            State::Positional(p) => {
                self.state = State::Positional(p);
                Ok(None)
            },
            State::End { ended_opts } => {
                self.state = State::End { ended_opts };
                Ok(None)
            },
            State::Start { ended_opts: true } => {
                self.state = State::Start { ended_opts: true };
                Ok(None)
            },
            _ => match self.pull() {
                None => {
                    self.state = State::End { ended_opts: false };
                    Ok(None)
                },
                Some(t) => {
                    if t.ends_opts() {
                        self.state = State::Start { ended_opts: true };
                        Ok(None)
                    } else {
                        let (st, a) = Self::classify(t);
                        match a {
                            Arg::Short(o) => {
                                self.state = st;
                                Ok(Some(Opt::Short(o)))
                            },
                            Arg::Long(o) => {
                                self.state = st;
                                Ok(Some(Opt::Long(o)))
                            },
                            Arg::Positional(p) => {
                                self.state = State::Positional(p);
                                Ok(None)
                            },
                        }
                    }
                },
            },
        }
    }

    /// Returns the value of the option just returned: the value attached to
    /// it (`--flag=value`, `-ovalue`), or else the whole next token (`-o
    /// value`, `--flag value`), whatever it looks like. Fails with
    /// `RequiresValue` when neither exists, and with `NoPendingOption` when
    /// no option awaits a value; a failure changes nothing.
    pub fn value(&mut self) -> (r: Result<A::Value, Error<A>>)
        requires
            old(self).wf(),
        ensures
            final(self).wf(),
            value_step(
                old(self).state(),
                old(self).remaining(),
                final(self).state(),
                final(self).remaining(),
                r,
            ),
    {
        let st = self.take_state();
        match st {
            State::LongOptionWithValue(_, v) => Ok(v),
            State::ShortOptionCluster(o, Some(cluster)) => match A::consume_short_val(cluster) {
                Ok(v) => Ok(v),
                Err(_) => Err(Error::RequiresValue(Opt::Short(o))),
            },
            State::EndOfOption(o) => self.read_value(State::EndOfOption(copy_opt(&o)), o),
            State::ShortOptionCluster(o, None) => self.read_value(
                State::ShortOptionCluster(o, None),
                Opt::Short(o),
            ),
            other => {
                self.state = other;
                Err(Error::NoPendingOption)
            },
        }
    }

    /// Reads the next token whole as the value of `o`; without one, puts
    /// `st` back.
    fn read_value(&mut self, st: State<A>, o: Opt<A>) -> (r: Result<A::Value, Error<A>>)
        requires
            state_wf(st),
            old(self).state() == (State::<A>::Start { ended_opts: false }),
        ensures
            state_wf(final(self).state),
            old(self).remaining().len() == 0 ==> r == Err::<A::Value, Error<A>>(
                Error::RequiresValue(o),
            ) && final(self).state() == st && final(self).remaining() == old(self).remaining(),
            old(self).remaining().len() > 0 ==> final(self).remaining() == old(
                self,
            ).remaining().drop_first() && final(self).state() == (State::<A>::Start {
                ended_opts: false,
            }) && r is Ok && old(self).remaining()[0].spec_into_value(r->Ok_0),
    {
        match self.pull() {
            Some(t) => Ok(t.into_value()),
            None => {
                self.state = st;
                Err(Error::RequiresValue(o))
            },
        }
    }

    /// Returns the values of the option just returned: its value as `value`
    /// gives it, then each following token that is neither `--` nor an
    /// option, whole. Stops before the first token that is one, which the
    /// next call of `next_opt` or `next_arg` reads. Fails as `value` does.
    pub fn values(&mut self) -> (r: Result<Vec<A::Value>, Error<A>>) where A: Copy
        requires
            old(self).wf(),
        ensures
            final(self).wf(),
            values_step(
                old(self).state(),
                old(self).remaining(),
                final(self).state(),
                final(self).remaining(),
                r,
            ),
    {
        let ghost st0 = self.state();
        let ghost toks0 = self.remaining();
        let first = self.value();
        let ghost st1 = self.state();
        let ghost toks1 = self.remaining();
        assert(value_step(st0, toks0, st1, toks1, first));
        match first {
            Err(e) => Err(e),
            Ok(v) => {
                let mut vals: Vec<A::Value> = Vec::new();
                vals.push(v);
                loop
                    invariant
                        self.wf(),
                        self.state() == st1,
                        vals@.len() >= 1,
                        vals@[0] == v,
                        vals@.len() - 1 <= toks1.len(),
                        self.remaining() == toks1.subrange(vals@.len() - 1, toks1.len() as int),
                        forall|i: int|
                            0 <= i < vals@.len() - 1 ==> is_plain(#[trigger] toks1[i])
                                && toks1[i].spec_into_value(vals@[i + 1]),
                    ensures
                        self.wf(),
                        self.state() == st1,
                        vals@.len() >= 1,
                        vals@[0] == v,
                        vals@.len() - 1 <= toks1.len(),
                        self.remaining() == toks1.subrange(vals@.len() - 1, toks1.len() as int),
                        forall|i: int|
                            0 <= i < vals@.len() - 1 ==> is_plain(#[trigger] toks1[i])
                                && toks1[i].spec_into_value(vals@[i + 1]),
                        self.remaining().len() > 0 ==> !is_plain(self.remaining()[0]),
                    decreases self.tokens@.len(),
                {
                    let n = self.tokens.len();
                    if n == 0 {
                        break;
                    }
                    let t: A = self.tokens[n - 1];
                    assert(t == self.remaining()[0]);
                    if t.ends_opts() {
                        break;
                    }
                    match t.parse_long_opt() {
                        Ok(_) => {
                            break;
                        },
                        Err(t) => match t.parse_short_cluster() {
                            Ok(_) => {
                                break;
                            },
                            Err(_) => {},
                        },
                    }
                    let ghost k = vals@.len() - 1;
                    match self.pull() {
                        Some(t) => {
                            vals.push(t.into_value());
                            assert(toks1.subrange(k, toks1.len() as int).drop_first()
                                =~= toks1.subrange(k + 1, toks1.len() as int));
                        },
                        None => {
                            break;
                        },
                    }
                }
                assert(value_step(st0, toks0, st1, toks1, Ok::<A::Value, Error<A>>(v)));
                Ok(vals)
            },
        }
    }

    /// Returns the value attached to the option just returned, if it has
    /// one, and reads no token either way; afterwards the option no longer
    /// awaits a value.
    pub fn value_opt(&mut self) -> (r: Option<A::Value>)
        requires
            old(self).wf(),
        ensures
            final(self).wf(),
            final(self).remaining() == old(self).remaining(),
            value_opt_step(old(self).state(), final(self).state(), r),
    {
        let st = self.take_state();
        match st {
            State::LongOptionWithValue(_, v) => Some(v),
            State::ShortOptionCluster(_, Some(cluster)) => match A::consume_short_val(cluster) {
                Ok(v) => Some(v),
                Err(_) => None,
            },
            State::EndOfOption(_) | State::ShortOptionCluster(_, None) => None,
            other => {
                self.state = other;
                None
            },
        }
    }

    /// Returns the positional argument that `next_opt` stopped at, or after
    /// `--` the next token; otherwise `None`, and nothing changes.
    pub fn next_positional(&mut self) -> (r: Option<A::Positional>)
        requires
            old(self).wf(),
        ensures
            final(self).wf(),
            next_positional_step(
                old(self).state(),
                old(self).remaining(),
                final(self).state(),
                final(self).remaining(),
                r,
            ),
    {
        let st = self.take_state();
        match st {
            State::Positional(p) => Some(p),
            State::Start { ended_opts: true } => match self.pull() {
                Some(t) => {
                    self.state = State::Start { ended_opts: true };
                    Some(t.into_positional())
                },
                None => {
                    self.state = State::End { ended_opts: true };
                    None
                },
            },
            other => {
                self.state = other;
                None
            },
        }
    }

    /// Whether the option just returned still has attached text that
    /// `value` would take without reading a token.
    pub fn has_attached_value(&self) -> (r: bool)
        ensures
            r == match self.state() {
                State::ShortOptionCluster(_, Some(_)) | State::LongOptionWithValue(_, _) => true,
                _ => false,
            },
    {
        match &self.state {
            State::ShortOptionCluster(_, Some(_)) | State::LongOptionWithValue(_, _) => true,
            _ => false,
        }
    }

    /// Whether parsing has reached the end of the tokens.
    pub fn is_finished(&self) -> (r: bool)
        ensures
            r == self.state() is End,
    {
        match &self.state {
            State::End { .. } => true,
            _ => false,
        }
    }
}

} // verus!
