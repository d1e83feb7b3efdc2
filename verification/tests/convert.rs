use std::io::ErrorKind;

use reverse_proxy::{option_convert, std_res_convert, OptionConvert, StdResAutoConvert, StdResConvert};

#[test]
fn some_becomes_ok() {
    assert_eq!(option_convert(Some(5), "missing").unwrap(), 5);
    assert_eq!(Some("x").option_to_res("missing").unwrap(), "x");
}

#[test]
fn none_becomes_other_error() {
    let e = option_convert::<u8>(None, "Params error").unwrap_err();
    assert_eq!(e.kind(), ErrorKind::Other);
    assert_eq!(e.to_string(), "Params error");
    let e = None::<u8>.option_to_res("Address error").unwrap_err();
    assert_eq!(e.to_string(), "Address error");
}

#[test]
fn ok_passes_through() {
    let r: Result<u16, String> = Ok(7);
    assert_eq!(std_res_convert(r, |e| e).unwrap(), 7);
    let r: Result<u16, String> = Ok(8);
    assert_eq!(r.res_convert(|_| "never".to_string()).unwrap(), 8);
}

#[test]
fn error_gets_message_from_closure() {
    let r: Result<u16, u32> = Err(42);
    let e = std_res_convert(r, |code| format!("code {}", code)).unwrap_err();
    assert_eq!(e.kind(), ErrorKind::Other);
    assert_eq!(e.to_string(), "code 42");
    let r: Result<u16, u32> = Err(1);
    assert_eq!(r.res_convert(|_| "Quic server bind error".to_string()).unwrap_err().to_string(), "Quic server bind error");
}

#[test]
fn error_text_is_kept() {
    let r: Result<u16, std::num::ParseIntError> = "x".parse::<u16>();
    let expected = "x".parse::<u16>().unwrap_err().to_string();
    let e = r.res_auto_convert().unwrap_err();
    assert_eq!(e.kind(), ErrorKind::Other);
    assert_eq!(e.to_string(), expected);
    let ok: Result<u16, std::num::ParseIntError> = "12".parse::<u16>();
    assert_eq!(ok.res_auto_convert().unwrap(), 12);
}
