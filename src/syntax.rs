//! The token grammar, stated over the units of a token (bytes or chars)
//! and the two units that it gives a meaning: the dash that introduces an
//! option and the equals sign that attaches a value to a long option.

use vstd::prelude::*;

verus! {

/// The end-of-options marker `--`.
pub open spec fn end_marker<T>(dash: T) -> Seq<T> {
    seq![dash, dash]
}

/// True when `b` holds no `equals`.
pub open spec fn lacks<T>(b: Seq<T>, equals: T) -> bool {
    forall|i: int| 0 <= i < b.len() ==> b[i] != equals
}

/// True when `b` is exactly the end-of-options marker.
pub open spec fn is_end_marker<T>(b: Seq<T>, dash: T) -> bool {
    b == end_marker(dash)
}

/// True when `b` starts with `--` and has something after it.
pub open spec fn is_long_opt<T>(b: Seq<T>, dash: T) -> bool {
    b.len() > 2 && b[0] == dash && b[1] == dash
}

/// `b` reads as a long option with this name and value: the name runs up to
/// the first `=`, and the value, if any, is everything after that `=`.
pub open spec fn long_opt_parts<T>(
    b: Seq<T>,
    dash: T,
    equals: T,
    name: Seq<T>,
    value: Option<Seq<T>>,
) -> bool {
    &&& is_long_opt(b, dash)
    &&& lacks(name, equals)
    &&& match value {
        None => b == end_marker(dash) + name,
        Some(v) => b == end_marker(dash) + name + seq![equals] + v,
    }
}

/// True when `b` starts with `-` and has something after it.
pub open spec fn is_short_cluster<T>(b: Seq<T>, dash: T) -> bool {
    b.len() > 1 && b[0] == dash
}

} // verus!
