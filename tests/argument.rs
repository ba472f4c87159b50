use getargs::{Arg, Argument, Opt};

#[test]
fn str_end_marker_is_exact() {
    assert!("--".ends_opts());
    assert!(!"--x".ends_opts());
    assert!(!"-".ends_opts());
    assert!(!"---".ends_opts());
}

#[test]
fn str_long_opt_parts() {
    assert_eq!("--flag".parse_long_opt(), Ok(("flag", None)));
    assert_eq!("--flag=".parse_long_opt(), Ok(("flag", Some(""))));
    assert_eq!("--flag=v".parse_long_opt(), Ok(("flag", Some("v"))));
    assert_eq!("--=v".parse_long_opt(), Ok(("", Some("v"))));
    assert_eq!("--".parse_long_opt(), Err("--"));
    assert_eq!("-f".parse_long_opt(), Err("-f"));
    assert_eq!("flag".parse_long_opt(), Err("flag"));
}

#[test]
fn str_short_cluster() {
    assert_eq!("-abc".parse_short_cluster(), Ok("abc"));
    assert_eq!("-".parse_short_cluster(), Err("-"));
    assert_eq!("abc".parse_short_cluster(), Err("abc"));
    assert_eq!(<&str>::consume_short_opt("abc"), ('a', Some("bc")));
    assert_eq!(<&str>::consume_short_opt("c"), ('c', None));
    assert_eq!(<&str>::consume_short_opt("éa"), ('é', Some("a")));
    assert_eq!(<&str>::consume_short_val("bc"), Ok("bc"));
    assert_eq!("x".into_value(), "x");
    assert_eq!("x".into_positional(), "x");
}

#[test]
fn bytes_argument() {
    let t: &[u8] = b"--name=val";
    assert_eq!(t.parse_long_opt(), Ok((&b"name"[..], Some(&b"val"[..]))));
    let t: &[u8] = b"--name";
    assert_eq!(t.parse_long_opt(), Ok((&b"name"[..], None)));
    let t: &[u8] = b"--";
    assert!(t.ends_opts());
    assert_eq!(t.parse_long_opt(), Err(&b"--"[..]));
    let t: &[u8] = b"-xy";
    assert_eq!(t.parse_short_cluster(), Ok(&b"xy"[..]));
    assert_eq!(<&[u8]>::consume_short_opt(b"xy"), (b'x', Some(&b"y"[..])));
    assert_eq!(<&[u8]>::consume_short_opt(b"y"), (b'y', None));
}

#[test]
fn arg_conversions() {
    let a: Arg<&str> = Arg::Short('f');
    assert_eq!(a.opt(), Some(Opt::Short('f')));
    assert_eq!(a.positional(), None);
    let p: Arg<&str> = Arg::Positional("x");
    assert_eq!(p.opt(), None);
    assert_eq!(p.positional(), Some("x"));
    let l: Arg<&str> = Arg::Long("file");
    assert_eq!(l.opt(), Some(Opt::Long("file")));
    assert_eq!(Arg::from(Opt::<&str>::Long("file")), Arg::Long("file"));
    assert_eq!(Opt::try_from(Arg::<&str>::Short('q')), Ok(Opt::Short('q')));
    assert_eq!(Opt::try_from(Arg::<&str>::Positional("q")), Err(()));
}
