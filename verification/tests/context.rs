use failure::Error;
use failure_ext::{ContextAsErrorExt, FmtResultExt, OptionFailExt, PathResultExt};
use failure_ext::context::{context_message, wrap_error};
use std::io;
use std::path::Path;

fn messages(err: &Error) -> Vec<String> {
    err.iter_chain().map(|fail| fail.to_string()).collect()
}

fn failed(msg: &'static str) -> Result<u32, Error> {
    Err(failure::err_msg(msg))
}

#[test]
fn context_message_has_data_in_brackets() {
    assert_eq!(context_message("cannot open", "a.txt"), "cannot open (a.txt)");
    assert_eq!(context_message("", ""), " ()");
    assert_eq!(context_message("größe", "ä (b)"), "größe (ä (b))");
}

#[test]
fn wrap_error_puts_the_context_on_top() {
    let wrapped = wrap_error(failure::err_msg("boom"), "cannot open", "a.txt");
    assert_eq!(wrapped.to_string(), "cannot open (a.txt)");
    assert_eq!(messages(&wrapped), vec!["cannot open (a.txt)", "boom"]);
}

#[test]
fn context_fmt_leaves_a_success_as_it_is() {
    let r: Result<u32, Error> = Ok(7);
    let r = r.context_fmt("cannot open", "a.txt");
    assert_eq!(r.unwrap(), 7);
}

#[test]
fn context_fmt_wraps_a_failure() {
    let err = failed("boom").context_fmt("cannot open", "a.txt").unwrap_err();
    assert_eq!(err.to_string(), "cannot open (a.txt)");
    let chain = messages(&err);
    assert_eq!(chain.len(), 2);
    assert_eq!(chain[1], "boom");
    assert_eq!(err.iter_causes().next().unwrap().to_string(), "boom");
}

#[test]
fn context_fmt_renders_any_displayable_data() {
    let err = failed("boom").context_fmt("bad line", &42).unwrap_err();
    assert_eq!(messages(&err), vec!["bad line (42)", "boom"]);
    let err = failed("boom").context_fmt("bad flag", &String::from("-x")).unwrap_err();
    assert_eq!(messages(&err), vec!["bad flag (-x)", "boom"]);
    let err = failed("boom").context_fmt("bad sign", &'+').unwrap_err();
    assert_eq!(messages(&err), vec!["bad sign (+)", "boom"]);
}

#[test]
fn context_fmt_keeps_the_causes_of_the_cause() {
    let io_err = io::Error::new(io::ErrorKind::NotFound, "no such file");
    let r: Result<u32, Error> = Err(Error::from(io_err));
    let err = r.context_fmt("cannot read", "a.txt").unwrap_err();
    assert_eq!(messages(&err), vec!["cannot read (a.txt)", "no such file"]);
    assert!(err.iter_causes().next().unwrap().downcast_ref::<io::Error>().is_some());
}

#[test]
fn context_fmt_twice_is_two_deep() {
    let err = failed("boom")
        .context_fmt("cannot parse", "line 3")
        .context_fmt("cannot load", "a.toml")
        .unwrap_err();
    assert_eq!(
        messages(&err),
        vec!["cannot load (a.toml)", "cannot parse (line 3)", "boom"]
    );
}

#[test]
fn context_path_shows_a_path_that_does_not_exist() {
    let path = Path::new("/no/such/dir/file.txt");
    let err = failed("boom").context_path("cannot open", path).unwrap_err();
    assert_eq!(err.to_string(), format!("cannot open ({})", path.display()));
    assert_eq!(messages(&err), vec!["cannot open (/no/such/dir/file.txt)", "boom"]);
}

#[test]
fn context_path_leaves_a_success_as_it_is() {
    let r: Result<u32, Error> = Ok(7);
    assert_eq!(r.context_path("cannot open", Path::new("a.txt")).unwrap(), 7);
}

#[test]
fn context_err_takes_the_context_as_the_message() {
    let err = failed("boom").context_err("while starting").unwrap_err();
    assert_eq!(messages(&err), vec!["while starting", "boom"]);
    let err = failed("boom").context_err(&17).unwrap_err();
    assert_eq!(messages(&err), vec!["17", "boom"]);
}

#[test]
fn context_err_leaves_a_success_as_it_is() {
    let r: Result<u32, Error> = Ok(7);
    assert_eq!(r.context_err("while starting").unwrap(), 7);
}

#[test]
fn or_fail_of_none_has_the_message_and_no_cause() {
    let none: Option<u32> = None;
    let err = none.or_fail("x").unwrap_err();
    assert_eq!(err.to_string(), "x");
    assert_eq!(messages(&err), vec!["x"]);
    assert!(err.iter_causes().next().is_none());
}

#[test]
fn or_fail_of_some_is_ok() {
    assert_eq!(Some(5).or_fail("x").unwrap(), 5);
}

#[test]
fn or_fail_then_context() {
    let none: Option<u32> = None;
    let err = none.or_fail("no port").context_fmt("bad config", "a.toml").unwrap_err();
    assert_eq!(messages(&err), vec!["bad config (a.toml)", "no port"]);
}
