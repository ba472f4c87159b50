use getargs::{Arg, Argument, Error, Opt, Options};

fn opts<'a>(args: &[&'a str]) -> Options<&'a str> {
    Options::new(args.to_vec())
}

#[test]
fn cluster_with_attached_value() {
    let mut o = opts(&["-abc"]);
    assert_eq!(o.next_arg(), Ok(Some(Arg::Short('a'))));
    assert_eq!(o.next_arg(), Ok(Some(Arg::Short('b'))));
    assert!(o.has_attached_value());
    assert_eq!(o.value(), Ok("c"));
    assert_eq!(o.next_arg(), Ok(None));
}

#[test]
fn long_with_empty_value() {
    let mut o = opts(&["--flag="]);
    assert_eq!(o.next_arg(), Ok(Some(Arg::Long("flag"))));
    assert_eq!(o.value(), Ok(""));
    assert_eq!(o.next_arg(), Ok(None));
}

#[test]
fn long_without_value_asks_next_token() {
    let mut o = opts(&["--flag"]);
    assert_eq!(o.next_arg(), Ok(Some(Arg::Long("flag"))));
    assert!(!o.has_attached_value());
    assert_eq!(o.value(), Err(Error::RequiresValue(Opt::Long("flag"))));
}

#[test]
fn end_marker_makes_dash_positional() {
    let mut o = opts(&["--", "-f"]);
    assert_eq!(o.next_arg(), Ok(Some(Arg::Positional("-f"))));
    assert_eq!(o.next_arg(), Ok(None));
}

#[test]
fn second_end_marker_is_positional() {
    let mut o = opts(&["--", "--", "x"]);
    assert_eq!(o.next_arg(), Ok(Some(Arg::Positional("--"))));
    assert_eq!(o.next_arg(), Ok(Some(Arg::Positional("x"))));
    assert_eq!(o.next_arg(), Ok(None));
}

#[test]
fn end_marker_alone() {
    let mut o = opts(&["--"]);
    assert_eq!(o.next_arg(), Ok(None));
    assert!(o.is_finished());
}

#[test]
fn short_with_separate_value() {
    let mut o = opts(&["-o", "value"]);
    assert_eq!(o.next_arg(), Ok(Some(Arg::Short('o'))));
    assert!(!o.has_attached_value());
    assert_eq!(o.value(), Ok("value"));
    assert_eq!(o.next_arg(), Ok(None));
}

#[test]
fn separate_value_is_taken_whatever_it_looks_like() {
    let mut o = opts(&["-o", "--flag", "x"]);
    assert_eq!(o.next_arg(), Ok(Some(Arg::Short('o'))));
    assert_eq!(o.value(), Ok("--flag"));
    assert_eq!(o.next_arg(), Ok(Some(Arg::Positional("x"))));
}

#[test]
fn long_with_separate_value() {
    let mut o = opts(&["--out", "file.txt", "rest"]);
    assert_eq!(o.next_arg(), Ok(Some(Arg::Long("out"))));
    assert_eq!(o.value(), Ok("file.txt"));
    assert_eq!(o.next_arg(), Ok(Some(Arg::Positional("rest"))));
}

#[test]
fn value_without_option_fails() {
    let mut o = opts(&["x"]);
    assert_eq!(o.value(), Err(Error::NoPendingOption));
    assert_eq!(o.next_arg(), Ok(Some(Arg::Positional("x"))));
}

#[test]
fn value_twice_fails() {
    let mut o = opts(&["-o", "v", "w"]);
    assert_eq!(o.next_arg(), Ok(Some(Arg::Short('o'))));
    assert_eq!(o.value(), Ok("v"));
    assert_eq!(o.value(), Err(Error::NoPendingOption));
    assert_eq!(o.next_arg(), Ok(Some(Arg::Positional("w"))));
}

#[test]
fn short_requires_value_at_end() {
    let mut o = opts(&["-o"]);
    assert_eq!(o.next_arg(), Ok(Some(Arg::Short('o'))));
    assert_eq!(o.value(), Err(Error::RequiresValue(Opt::Short('o'))));
    assert_eq!(o.value(), Err(Error::RequiresValue(Opt::Short('o'))));
    assert_eq!(o.next_arg(), Ok(None));
}

#[test]
fn unasked_attached_value_is_reported() {
    let mut o = opts(&["--flag=v", "x"]);
    assert_eq!(o.next_arg(), Ok(Some(Arg::Long("flag"))));
    assert_eq!(o.next_arg(), Err(Error::DoesNotRequireValue(Opt::Long("flag"))));
    assert_eq!(o.next_arg(), Ok(Some(Arg::Positional("x"))));
}

#[test]
fn exhausted_stays_exhausted() {
    let mut o = opts(&["a"]);
    assert_eq!(o.next_arg(), Ok(Some(Arg::Positional("a"))));
    for _ in 0..3 {
        assert_eq!(o.next_arg(), Ok(None));
        assert_eq!(o.next_opt(), Ok(None));
        assert!(o.is_finished());
    }
}

#[test]
fn empty_source() {
    let mut o = opts(&[]);
    assert_eq!(o.next_opt(), Ok(None));
    assert_eq!(o.next_arg(), Ok(None));
    assert_eq!(o.next_positional(), None);
}

#[test]
fn every_token_in_order() {
    let mut o = opts(&["a", "-b", "--c", "-", "--", "-d", "e"]);
    let mut seen = Vec::new();
    while let Some(arg) = o.next_arg().unwrap() {
        seen.push(arg);
    }
    assert_eq!(
        seen,
        vec![
            Arg::Positional("a"),
            Arg::Short('b'),
            Arg::Long("c"),
            Arg::Positional("-"),
            Arg::Positional("-d"),
            Arg::Positional("e"),
        ]
    );
}

#[test]
fn next_opt_stops_at_positional() {
    let mut o = opts(&["-a", "file", "-b"]);
    assert_eq!(o.next_opt(), Ok(Some(Opt::Short('a'))));
    assert_eq!(o.next_opt(), Ok(None));
    assert_eq!(o.next_opt(), Ok(None));
    assert_eq!(o.next_positional(), Some("file"));
    assert_eq!(o.next_opt(), Ok(Some(Opt::Short('b'))));
    assert_eq!(o.next_opt(), Ok(None));
}

#[test]
fn next_opt_stops_at_end_marker() {
    let mut o = opts(&["-a", "--", "-b", "c"]);
    assert_eq!(o.next_opt(), Ok(Some(Opt::Short('a'))));
    assert_eq!(o.next_opt(), Ok(None));
    assert_eq!(o.next_opt(), Ok(None));
    assert_eq!(o.next_positional(), Some("-b"));
    assert_eq!(o.next_arg(), Ok(Some(Arg::Positional("c"))));
    assert_eq!(o.next_positional(), None);
}

#[test]
fn next_positional_leaves_options() {
    let mut o = opts(&["-a"]);
    assert_eq!(o.next_positional(), None);
    assert_eq!(o.next_opt(), Ok(Some(Opt::Short('a'))));
}

#[test]
fn value_opt_takes_attached_only() {
    let mut o = opts(&["--flag=x", "-o", "y", "-pz"]);
    assert_eq!(o.next_opt(), Ok(Some(Opt::Long("flag"))));
    assert_eq!(o.value_opt(), Some("x"));
    assert_eq!(o.next_opt(), Ok(Some(Opt::Short('o'))));
    assert_eq!(o.value_opt(), None);
    assert_eq!(o.next_arg(), Ok(Some(Arg::Positional("y"))));
    assert_eq!(o.next_opt(), Ok(Some(Opt::Short('p'))));
    assert_eq!(o.value_opt(), Some("z"));
    assert_eq!(o.value_opt(), None);
}

#[test]
fn long_value_keeps_later_equals() {
    let mut o = opts(&["--key=a=b"]);
    assert_eq!(o.next_opt(), Ok(Some(Opt::Long("key"))));
    assert_eq!(o.value(), Ok("a=b"));
}

#[test]
fn unicode_short_options() {
    let mut o = opts(&["-éx", "-ñvalué"]);
    assert_eq!(o.next_arg(), Ok(Some(Arg::Short('é'))));
    assert_eq!(o.next_arg(), Ok(Some(Arg::Short('x'))));
    assert_eq!(o.next_arg(), Ok(Some(Arg::Short('ñ'))));
    assert_eq!(o.value(), Ok("valué"));
}

#[test]
fn unicode_long_option() {
    let mut o = opts(&["--naïve=ü"]);
    assert_eq!(o.next_arg(), Ok(Some(Arg::Long("naïve"))));
    assert_eq!(o.value(), Ok("ü"));
}

#[test]
fn byte_tokens() {
    let args: Vec<&[u8]> = vec![b"-ab", b"--out=f", b"--", b"-x"];
    let mut o = Options::new(args);
    assert_eq!(o.next_arg(), Ok(Some(Arg::Short(b'a'))));
    assert_eq!(o.next_arg(), Ok(Some(Arg::Short(b'b'))));
    assert_eq!(o.next_arg(), Ok(Some(Arg::Long(&b"out"[..]))));
    assert_eq!(o.value(), Ok(&b"f"[..]));
    assert_eq!(o.next_arg(), Ok(Some(Arg::Positional(&b"-x"[..]))));
    assert_eq!(o.next_arg(), Ok(None));
}

#[test]
fn byte_short_value_separate() {
    let args: Vec<&[u8]> = vec![b"-o", b"v"];
    let mut o = Options::new(args);
    assert_eq!(o.next_opt(), Ok(Some(Opt::Short(b'o'))));
    assert_eq!(o.value(), Ok(&b"v"[..]));
    assert_eq!(o.next_opt(), Ok(None));
}

#[test]
fn values_stop_at_next_option() {
    let mut o = opts(&["-i", "a", "b", "-x", "c"]);
    assert_eq!(o.next_opt(), Ok(Some(Opt::Short('i'))));
    assert_eq!(o.values(), Ok(vec!["a", "b"]));
    assert_eq!(o.next_opt(), Ok(Some(Opt::Short('x'))));
    assert_eq!(o.values(), Ok(vec!["c"]));
    assert_eq!(o.next_arg(), Ok(None));
}

#[test]
fn values_start_with_attached_value() {
    let mut o = opts(&["--in=a", "b", "--", "c"]);
    assert_eq!(o.next_opt(), Ok(Some(Opt::Long("in"))));
    assert_eq!(o.values(), Ok(vec!["a", "b"]));
    assert_eq!(o.next_opt(), Ok(None));
    assert_eq!(o.next_positional(), Some("c"));
}

#[test]
fn values_fail_as_value_does() {
    let mut o = opts(&["-i"]);
    assert_eq!(o.next_opt(), Ok(Some(Opt::Short('i'))));
    assert_eq!(o.values(), Err(Error::RequiresValue(Opt::Short('i'))));
    let mut o = opts(&["a"]);
    assert_eq!(o.values(), Err(Error::NoPendingOption));
    assert_eq!(o.next_arg(), Ok(Some(Arg::Positional("a"))));
}
