use cargo_apk::capture::{color_choice, Output, Stream};

#[test]
fn stdout_collects_only_stdout_chunks() {
    let mut out = Output::new();
    out.push(Stream::Stdout, b"ab".to_vec());
    out.push(Stream::Stderr, b"x".to_vec());
    out.push(Stream::Stdout, b"c".to_vec());
    assert_eq!(out.stdout(), b"abc".to_vec());
    assert_eq!(out.stderr(), b"x".to_vec());
}

#[test]
fn stdout_is_independent_of_interleaving() {
    let mut first = Output::new();
    first.push(Stream::Stdout, b"hel".to_vec());
    first.push(Stream::Stdout, b"lo".to_vec());
    first.push(Stream::Stderr, b"warning".to_vec());

    let mut second = Output::new();
    second.push(Stream::Stderr, b"warn".to_vec());
    second.push(Stream::Stdout, b"hel".to_vec());
    second.push(Stream::Stderr, b"ing".to_vec());
    second.push(Stream::Stdout, b"lo".to_vec());

    assert_eq!(first.stdout(), b"hello".to_vec());
    assert_eq!(second.stdout(), b"hello".to_vec());
    assert_eq!(second.stderr(), b"warning".to_vec());
}

#[test]
fn empty_log_yields_empty_streams() {
    let out = Output::new();
    assert_eq!(out.stdout(), Vec::<u8>::new());
    assert_eq!(out.stderr(), Vec::<u8>::new());
}

#[test]
fn verdict_on_success_is_stdout_bytes() {
    let mut out = Output::new();
    out.push(Stream::Stdout, b"result".to_vec());
    out.push(Stream::Stderr, b"noise".to_vec());
    assert_eq!(out.verdict(true), Ok(b"result".to_vec()));
}

#[test]
fn verdict_on_failure_is_stderr_bytes() {
    let mut out = Output::new();
    out.push(Stream::Stdout, b"partial".to_vec());
    out.push(Stream::Stderr, b"boom: ".to_vec());
    out.push(Stream::Stderr, b"details".to_vec());
    assert_eq!(out.verdict(false), Err(b"boom: details".to_vec()));
}

#[test]
fn color_follows_override_veto_then_terminal() {
    assert!(color_choice(true, false, false));
    assert!(color_choice(true, true, false));
    assert!(!color_choice(false, true, true));
    assert!(color_choice(false, false, true));
    assert!(!color_choice(false, false, false));
}
