use std::str::FromStr;

use duplex_ext::backpressure::TrySendOutcome;
use duplex_ext::backpressure::discard_full_disposition;
use duplex_ext::backpressure::should_warn;
use duplex_ext::decimal::to_unscaled_digits;
use duplex_ext::decimal::unscaled_digits;
use duplex_ext::duration::Duration;
use duplex_ext::duration::duration_from_millis;
use duplex_ext::duration::duration_from_nanos;
use duplex_ext::duration::duration_from_secs;
use duplex_ext::duration::duration_humantime;
use duplex_ext::duration::duration_iso_8601;
use duplex_ext::json::parse_json;
use duplex_ext::message::ChannelError;
use duplex_ext::message::Message;
use duplex_ext::next::Binary;
use duplex_ext::next::Json;
use duplex_ext::next::NextStep;
use duplex_ext::next::Text;
use duplex_ext::parse::from_str;
use duplex_ext::parse::parse_comma_separated_boxed_slice;
use duplex_ext::parse::from_str_opt;
use duplex_ext::parse::from_str_or_default;
use duplex_ext::runtime_flavor::ParseRuntimeFlavorError;
use duplex_ext::runtime_flavor::RuntimeFlavor;
use duplex_ext::widths::calc_widths;
use duplex_ext::widths::calc_widths_row;
use duplex_ext::widths::calc_widths_single;

#[test]
fn test_deserialize_from_str() {
    let output: u32 = from_str("1").unwrap();
    assert_eq!(output, 1);
}

#[test]
fn test_deserialize_from_str_streaming() {
    // Streaming deserialization cannot borrow from its input, so the text
    // reaches the parser as an owned value; the parse is the same.
    let text = String::from("1");
    let output: u32 = from_str(&text).unwrap();
    assert_eq!(output, 1);
}

#[test]
fn test_deserialize_from_str_or_default_streaming() {
    let output: u32 = from_str_or_default("1");
    assert_eq!(output, 1);
}

#[test]
fn from_str_or_default_falls_back() {
    assert_eq!(from_str_or_default::<u32>("a"), 0);
    assert_eq!(from_str_or_default::<u32>("1"), 1);
}

#[test]
fn from_str_rejects_malformed() {
    assert!(from_str::<u32>("").is_err());
    assert!(from_str::<u32>("abc").is_err());
    assert!(from_str::<u32>("12x").is_err());
    assert!(from_str::<u32>("-2").is_err());
    assert!(from_str::<u32>("3.5").is_err());
    // One past the largest u32.
    assert!(from_str::<u32>("4294967296").is_err());
    assert_eq!(from_str::<u32>("4294967295").unwrap(), 4294967295);
    assert_eq!(from_str::<u32>("007").unwrap(), 7);
}

#[test]
fn from_str_accepts_one_leading_plus() {
    assert_eq!(from_str::<u32>("+7").unwrap(), 7);
    assert_eq!(from_str::<u32>("+0").unwrap(), 0);
    assert!(from_str::<u32>("+").is_err());
    assert!(from_str::<u32>("++1").is_err());
    assert!(from_str::<u32>("+-1").is_err());
}

#[test]
fn comma_pieces_trim_unicode_whitespace() {
    let padded = "1,\u{00A0}2\u{00A0},\u{2003}3";
    assert_eq!(
        parse_comma_separated_boxed_slice::<u32>(padded).unwrap(),
        vec![1, 2, 3]
    );
}

#[test]
fn from_str_opt_handles_absence() {
    assert_eq!(from_str_opt::<u32>(None), Ok(None));
    assert_eq!(from_str_opt::<u32>(Some("7")), Ok(Some(7)));
    assert!(from_str_opt::<u32>(Some("x")).is_err());
}

#[test]
fn test_deserialize_duration_iso_8601() {
    let output = duration_iso_8601("2023-10-06T17:35:55.440295Z").unwrap();
    assert_eq!(output, Duration::new(1_696_613_755, 440_295_000));
}

#[test]
fn test_deserialize_duration_from_millis() {
    // 2020-06-30 03:24:41.683
    let output = duration_from_millis(1593487481683);
    assert_eq!(output, Duration::new(1_593_487_481, 683_000_000));
}

#[test]
fn test_deserialize_duration_from_nanos() {
    // 2020-06-30 03:24:41.683297666
    let output = duration_from_nanos(1593487481683297666);
    assert_eq!(output, Duration::new(1_593_487_481, 683_297_666));
}

#[test]
fn test_deserialize_duration_humantime() {
    let output = duration_humantime("1hour 12min 5s").unwrap();
    assert_eq!(output, Duration::new(4325, 0));
}

#[test]
fn duration_parsers_reject_malformed() {
    assert!(duration_humantime("one eternity").is_err());
    assert!(duration_iso_8601("not a timestamp").is_err());
    assert_eq!(duration_from_secs(90), Duration::new(90, 0));
}

#[test]
fn duration_humantime_guards_digit_heavy_texts() {
    // Eleven digits in all is still accepted.
    assert_eq!(
        duration_humantime("99999999999ns").unwrap(),
        Duration::new(99, 999_999_999)
    );
    // More digits could drive the parser's totals toward the u64-seconds
    // overflow corner, so such texts are rejected up front.
    assert!(duration_humantime("1593487481683297666ns").is_err());
    assert!(duration_humantime("18446744073709551615s 1000000000ns").is_err());
}

#[test]
fn runtime_flavor_from_str() {
    assert_eq!(
        RuntimeFlavor::from_str("current_thread"),
        Ok(RuntimeFlavor::CurrentThread)
    );
    assert_eq!(
        RuntimeFlavor::from_str("multi_thread"),
        Ok(RuntimeFlavor::MultiThread)
    );
    assert_eq!(
        RuntimeFlavor::from_str("green_threads"),
        Err(ParseRuntimeFlavorError::Parse)
    );
    assert_eq!(RuntimeFlavor::CurrentThread.as_str(), "current_thread");
    assert_eq!(RuntimeFlavor::MultiThread.as_str(), "multi_thread");
}

#[test]
fn to_unscaled_array_vec() {
    let cases: &[(&str, &[u8])] = &[
        ("45285.2", b"452852"),
        ("0.00100000", b"100000"),
        ("45285.20", b"4528520"),
        ("101.00100000", b"10100100000"),
        ("0.001", b"1"),
        ("0", b"0"),
    ];
    for (input, expected) in cases {
        let d = rust_decimal::Decimal::from_str(input).unwrap();
        assert_eq!(to_unscaled_digits(&d).as_slice(), *expected);
    }
}

#[test]
fn unscaled_digits_renders_limbs() {
    assert_eq!(unscaled_digits(0, 0, 0), b"0".to_vec());
    assert_eq!(unscaled_digits(452852, 0, 0), b"452852".to_vec());
    // 2^32 = one unit in the middle limb.
    assert_eq!(unscaled_digits(0, 1, 0), b"4294967296".to_vec());
    // 2^64 = one unit in the high limb.
    assert_eq!(unscaled_digits(0, 0, 1), b"18446744073709551616".to_vec());
    // The largest 96-bit mantissa.
    assert_eq!(
        unscaled_digits(u32::MAX, u32::MAX, u32::MAX),
        b"79228162514264337593543950335".to_vec()
    );
}

#[test]
fn json_parsing_is_inline() {
    assert!(parse_json("{\"a\": 1}").is_ok());
    assert!(parse_json("[1, 2, 3]").is_ok());
    let err = parse_json("{\"a\":").unwrap_err();
    assert!(!err.message.is_empty());
}

#[test]
fn next_steps_filter_by_kind() {
    let bin = Binary::new();
    assert_eq!(
        bin.step(Some(Ok(Message::Binary(vec![1])))),
        NextStep::Finished(Some(Ok(vec![1])))
    );
    assert_eq!(
        bin.step(Some(Ok(Message::Text("no".to_string())))),
        NextStep::Skip
    );
    assert_eq!(bin.step(None), NextStep::Finished(None));
    let err = ChannelError::Other("gone".to_string());
    assert_eq!(
        bin.step(Some(Err(err.clone()))),
        NextStep::Finished(Some(Err(err)))
    );

    let text = Text::new();
    assert_eq!(
        text.step(Some(Ok(Message::Text("yes".to_string())))),
        NextStep::Finished(Some(Ok("yes".to_string())))
    );
    assert_eq!(text.step(Some(Ok(Message::Ping(vec![])))), NextStep::Skip);

    let json = Json::new();
    match json.step(Some(Ok(Message::Text("{\"k\":true}".to_string())))) {
        NextStep::Finished(Some(Ok(parsed))) => assert!(parsed.is_ok()),
        other => panic!("expected a parsed document, got {:?}", other),
    }
    match json.step(Some(Ok(Message::Text("{broken".to_string())))) {
        NextStep::Finished(Some(Ok(parsed))) => assert!(parsed.is_err()),
        other => panic!("expected an inline parse failure, got {:?}", other),
    }
    assert_eq!(
        json.step(Some(Ok(Message::Binary(vec![1])))),
        NextStep::Skip
    );
}

#[test]
fn test_parse_comma_separated_boxed_slice_valid() {
    let cases: &[(&str, &[u32])] = &[
        ("42", &[42]),
        ("1,2,3,4,5", &[1, 2, 3, 4, 5]),
        ("1, 2 , 3,  4  ,5", &[1, 2, 3, 4, 5]),
    ];
    for (input, expected) in cases {
        let result = parse_comma_separated_boxed_slice::<u32>(input);
        assert_eq!(result.unwrap().as_slice(), *expected);
    }
}

#[test]
fn test_parse_comma_separated_boxed_slice_invalid() {
    let cases: &[&str] = &[
        "",
        "1,2,abc,4",
        "1,2,3.5,4",
        "1,-2,3",
        "1,2,3,",
        ",1,2,3",
        "1,,3",
    ];
    for input in cases {
        let result = parse_comma_separated_boxed_slice::<u32>(input);
        assert!(result.is_err(), "{:?} should not parse", input);
    }
}

#[test]
fn backpressure_thresholds() {
    assert!(!should_warn(2, 4));
    assert!(should_warn(3, 4));
    assert!(!should_warn(0, 0));
    assert_eq!(
        discard_full_disposition(TrySendOutcome::Sent),
        (false, Ok(()))
    );
    assert_eq!(
        discard_full_disposition(TrySendOutcome::Full),
        (true, Ok(()))
    );
    assert_eq!(
        discard_full_disposition(TrySendOutcome::Closed),
        (false, Err(()))
    );
}

#[test]
fn column_widths_take_the_maximum() {
    let row1 = vec!["alpha".to_string(), "hi".to_string()];
    let row2 = vec!["ox".to_string(), "longest".to_string()];
    assert_eq!(calc_widths_single(&row1), vec![5, 2]);
    let acc = calc_widths_row(vec![0, 0], &row1);
    assert_eq!(acc, vec![5, 2]);
    let acc = calc_widths_row(acc, &row2);
    assert_eq!(acc, vec![5, 7]);
    assert_eq!(calc_widths(&vec![row1, row2], 2), vec![5, 7]);
}

#[test]
fn column_widths_count_bytes() {
    // Five characters, six bytes: the width is the byte length.
    let row = vec!["h\u{00E9}llo".to_string()];
    assert_eq!(calc_widths_single(&row), vec![6]);
}
