use std::sync::atomic::{AtomicUsize, Ordering};
use std::sync::Arc;
use std::time::Duration;

use curl::easy::{Easy, List};
use curl_easybuilder::errors::BuildError;
use curl_easybuilder::{EasyBuilder, TransferBuilder};

fn nul_description() -> String {
    let mut easy = Easy::new();
    let e = easy.url("a\0b").unwrap_err();
    e.description().to_string()
}

#[test]
fn fresh_builder_has_no_errors() {
    let mut b = EasyBuilder::new();
    assert!(!b.has_errors());
    assert!(b.result().is_ok());
}

#[test]
fn settings_that_succeed_keep_no_error() {
    let mut b = EasyBuilder::new();
    let mut headers = List::new();
    headers.append("Accept: text/plain").unwrap();
    b.verbose(false)
        .url("http://localhost/")
        .port(8080)
        .follow_location(true)
        .max_redirections(3)
        .timeout(Duration::from_secs(5))
        .connect_timeout(Duration::from_millis(1500))
        .useragent("builder-test")
        .http_headers(headers)
        .cookie_file("/tmp/cookies.txt")
        .read_function(|_buf| Ok(0));
    assert!(!b.has_errors());
    assert!(b.result().is_ok());
}

#[test]
fn interior_nul_is_kept_as_an_error() {
    let mut b = EasyBuilder::new();
    b.url("http://exa\0mple.com/");
    assert!(b.has_errors());
    let err = b.result().err().unwrap();
    assert_eq!(err.message(), format!("{}\n", nul_description()));
    assert!(!err.message().is_empty());
}

#[test]
fn chain_goes_on_after_a_failure() {
    let mut b = EasyBuilder::new();
    b.useragent("bad\0agent").verbose(false).post(true);
    assert!(b.has_errors());
    assert!(b.result().is_err());
}

#[test]
fn every_failure_is_reported_in_order() {
    let mut b = EasyBuilder::new();
    b.url("\0").referer("ok").cookie("x\0y");
    let text = b.result().err().unwrap().message().to_string();
    let line = nul_description();
    assert_eq!(text, format!("{}\n{}\n", line, line));
    assert_eq!(text.lines().count(), 2);
}

#[test]
fn result_hands_back_the_configured_handle() {
    let mut b = EasyBuilder::new();
    b.url("http://localhost:1/");
    let easy = b.result().unwrap();
    assert_eq!(easy.response_code().unwrap(), 0);
}

#[test]
fn build_error_from_string_keeps_the_text() {
    let e = BuildError::from(String::from("no handle\n"));
    assert_eq!(e.message(), "no handle\n");
}

#[test]
fn transfer_builder_installs_borrowing_callbacks() {
    let mut easy = Easy::new();
    let mut received: Vec<u8> = Vec::new();
    let mut headers = 0usize;
    {
        let mut tb = TransferBuilder::new(&mut easy);
        tb.write_function(|data| {
            received.extend_from_slice(data);
            Ok(data.len())
        })
        .header_function(|_h| {
            headers += 1;
            true
        })
        .read_function(|_buf| Ok(0))
        .debug_function(|_kind, _data| {});
        assert!(!tb.has_errors());
        assert!(tb.result().is_ok());
    }
    assert!(received.is_empty());
    assert_eq!(headers, 0);
}

#[test]
fn transfer_builder_reports_kept_failures() {
    let mut easy = Easy::new();
    let mut tb = TransferBuilder::new(&mut easy);
    let failure = Easy::new().url("\0").unwrap_err();
    tb.keep_outcome(Ok(())).keep_outcome(Err(failure));
    assert!(tb.has_errors());
    let err = tb.result().err().unwrap();
    assert_eq!(err.message(), format!("{}\n", nul_description()));
}

#[test]
fn transfer_builder_callbacks_receive_a_local_file() {
    let mut easy = Easy::new();
    easy.url("file:///etc/passwd").unwrap();
    let mut received: Vec<u8> = Vec::new();
    {
        let mut tb = TransferBuilder::new(&mut easy);
        tb.write_function(|data| {
            received.extend_from_slice(data);
            Ok(data.len())
        });
        tb.result().unwrap().perform().unwrap();
    }
    assert!(!received.is_empty());
}

#[test]
fn easy_builder_write_callback_receives_a_local_file() {
    let count = Arc::new(AtomicUsize::new(0));
    let seen = Arc::clone(&count);
    let mut b = EasyBuilder::new();
    let easy = b
        .url("file:///etc/passwd")
        .write_function(move |data| {
            seen.fetch_add(data.len(), Ordering::SeqCst);
            Ok(data.len())
        })
        .result()
        .unwrap();
    easy.perform().unwrap();
    assert!(count.load(Ordering::SeqCst) > 0);
}
