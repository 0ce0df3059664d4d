use tauri_plugin_bare_kit::decimal::{decimal_string, push_signed_decimal};
use tauri_plugin_bare_kit::error::{Base64Error, Error};
use tauri_plugin_bare_kit::payload::{
    decode_write_payload, parse_write_payload, raw_write_request, read_response,
    read_response_base64,
};
use tauri_plugin_bare_kit::script::{
    event_script, init_script, poll_script, suspend_script, wakeup_script,
};

#[test]
fn decimal_rendering() {
    assert_eq!(decimal_string(0), "0");
    assert_eq!(decimal_string(7), "7");
    assert_eq!(decimal_string(10), "10");
    assert_eq!(decimal_string(4294967295), "4294967295");
    assert_eq!(decimal_string(u64::MAX), "18446744073709551615");
    let mut s = String::from("x=");
    push_signed_decimal(&mut s, -2147483648);
    assert_eq!(s, "x=-2147483648");
    let mut s = String::new();
    push_signed_decimal(&mut s, i64::MIN);
    assert_eq!(s, "-9223372036854775808");
}

#[test]
fn callback_scripts() {
    assert_eq!(
        poll_script(42, true, false),
        "window.__TAURI_INTERNALS__.runCallback(42, { readable: true, writable: false })"
    );
    assert_eq!(
        wakeup_script(3, -1),
        "window.__TAURI_INTERNALS__.runCallback(3, { deadline: -1 })"
    );
    assert_eq!(
        suspend_script(0, 1000),
        "window.__TAURI_INTERNALS__.runCallback(0, { linger: 1000 })"
    );
    assert_eq!(event_script(4294967295), "window.__TAURI_INTERNALS__.runCallback(4294967295)");
    assert_eq!(
        init_script("linux"),
        "Object.defineProperty(window, '__TAURI_BARE_KIT_PLUGIN_INTERNALS__', { value: { platform: 'linux' } })"
    );
}

#[test]
fn error_messages() {
    assert_eq!(Error::NoWorklet(255).message(), "No worklet found for ID 255");
    assert_eq!(Error::InvalidWritePayload.message(), "Invalid payload for write request");
    assert_eq!(
        Error::Base64(Base64Error::InvalidByte(3, 33)).message(),
        "Invalid symbol 33, offset 3."
    );
    assert_eq!(Base64Error::InvalidLength(5).message(), "Invalid input length: 5");
    assert_eq!(
        Base64Error::InvalidLastSymbol(2, 66).message(),
        "Invalid last symbol 66, offset 2."
    );
    assert_eq!(Base64Error::InvalidPadding.message(), "Invalid padding");
}

#[test]
fn write_payload_splits_id_and_data() {
    assert_eq!(parse_write_payload(&[7]), (7, None));
    assert_eq!(parse_write_payload(&[7, 1, 2, 3]), (7, Some(vec![1, 2, 3])));
    assert_eq!(raw_write_request(Some(&[2, 9])), Ok((2, Some(vec![9]))));
    assert_eq!(raw_write_request(None), Err(Error::InvalidWritePayload));
}

#[test]
fn base64_payloads() {
    assert_eq!(decode_write_payload("BwEC"), Ok(vec![7, 1, 2]));
    assert_eq!(decode_write_payload("aGk="), Ok(b"hi".to_vec()));
    assert_eq!(
        decode_write_payload("a!=="),
        Err(Error::Base64(Base64Error::InvalidByte(1, 33)))
    );
    assert_eq!(decode_write_payload("abc"), Err(Error::Base64(Base64Error::InvalidPadding)));
    assert_eq!(read_response_base64(Some(b"hi".to_vec())), Some("aGk=".to_string()));
    assert_eq!(read_response_base64(Some(vec![])), Some(String::new()));
    assert_eq!(read_response_base64(None), None);
}

#[test]
fn read_response_bodies() {
    assert_eq!(read_response(Some(vec![1, 2])), vec![1, 2]);
    assert_eq!(read_response(None), Vec::<u8>::new());
}
