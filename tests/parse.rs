use parse_result::parse_with;
use parse_result::parse_outcome;
use parse_result::Error;
use parse_result::FromText;
use parse_result::OriginalErr;
use parse_result::ParseFailure;
use parse_result::ParseResult;
use std::any::Any;
use std::num::ParseIntError;
use std::str::ParseBoolError;

#[test]
fn parses_ok_with_type_inference() {
    let val: Result<&str, ()> = Ok("42");

    assert_eq!(val.parse(), Ok(42));
}

#[test]
fn fails_to_parse_an_original_err() {
    let val: Result<&str, &str> = Err("Failed to load data");

    assert_eq!(val.parse::<i32>(), Err(OriginalErr("Failed to load data")));
}

#[test]
fn returns_parse_error_on_parse_failure() {
    let val: Result<&str, &str> = Ok("hello");

    if let Err(ParseFailure(err)) = val.parse::<i32>() {
        assert!(<dyn Any>::is::<ParseIntError>(&err));
    } else {
        panic!("Should have failed to parse as an i32");
    }
}

#[test]
fn turbofish_picks_the_target_type() {
    let val: Result<&str, &str> = Ok("42");

    if let Err(ParseFailure(err)) = val.parse::<bool>() {
        assert!(<dyn Any>::is::<ParseBoolError>(&err));
    } else {
        panic!("Should have failed to parse as a bool");
    }

    assert_eq!(val.parse::<u32>(), Ok(42));
    assert_eq!(val.parse::<i64>(), Ok(42));
    assert_eq!(val.parse::<u8>(), Ok(42u8));
    assert_eq!(val.parse::<i128>(), Ok(42i128));
    assert_eq!(val.parse::<usize>(), Ok(42usize));
}

#[test]
fn original_err_is_kept_for_every_target() {
    let val: Result<&str, &str> = Err("42");

    assert_eq!(val.parse::<u32>(), Err(OriginalErr("42")));
    assert_eq!(val.parse::<bool>(), Err(OriginalErr("42")));
    assert_eq!(val.parse::<char>(), Err(OriginalErr("42")));
}

#[test]
fn parse_failure_holds_the_target_types_own_error() {
    let val: Result<&str, ()> = Ok("hello");
    let direct = "hello".parse::<i32>().unwrap_err();

    assert_eq!(val.parse::<i32>(), Err(ParseFailure(direct)));
}

#[test]
fn signed_and_unsigned_ranges() {
    assert_eq!(Ok::<&str, ()>("-5").parse::<i8>(), Ok(-5i8));
    assert_eq!(Ok::<&str, ()>("+7").parse::<i16>(), Ok(7i16));
    assert_eq!(Ok::<&str, ()>("255").parse::<u8>(), Ok(255u8));
    assert_eq!(Ok::<&str, ()>("65535").parse::<u16>(), Ok(65535u16));
    assert_eq!(Ok::<&str, ()>("-9").parse::<isize>(), Ok(-9isize));
    assert_eq!(Ok::<&str, ()>("18446744073709551615").parse::<u64>(), Ok(u64::MAX));
    assert_eq!(Ok::<&str, ()>("340282366920938463463374607431768211455").parse::<u128>(), Ok(u128::MAX));
    assert!(matches!(Ok::<&str, ()>("256").parse::<u8>(), Err(ParseFailure(_))));
    assert!(matches!(Ok::<&str, ()>("-1").parse::<u32>(), Err(ParseFailure(_))));
    assert!(matches!(Ok::<&str, ()>("").parse::<i32>(), Err(ParseFailure(_))));
    assert!(matches!(Ok::<&str, ()>(" 1").parse::<i32>(), Err(ParseFailure(_))));
}

#[test]
fn bool_and_char_targets() {
    assert_eq!(Ok::<&str, ()>("true").parse::<bool>(), Ok(true));
    assert_eq!(Ok::<&str, ()>("false").parse::<bool>(), Ok(false));
    assert!(matches!(Ok::<&str, ()>("True").parse::<bool>(), Err(ParseFailure(_))));
    assert_eq!(Ok::<&str, ()>("x").parse::<char>(), Ok('x'));
    assert!(matches!(Ok::<&str, ()>("xy").parse::<char>(), Err(ParseFailure(_))));
    assert!(matches!(Ok::<&str, ()>("").parse::<char>(), Err(ParseFailure(_))));
}

#[test]
fn owned_and_borrowed_strings() {
    let owned: Result<String, u8> = Ok(String::from("3000"));
    assert_eq!(owned.parse::<u16>(), Ok(3000u16));

    let text = String::from("-12");
    let borrowed: Result<&String, u8> = Ok(&text);
    assert_eq!(borrowed.parse::<i32>(), Ok(-12));

    let failed: Result<String, u8> = Err(4);
    assert_eq!(failed.parse::<u16>(), Err(OriginalErr(4u8)));
}

#[test]
fn fallback_on_any_failure() {
    let missing: Result<&str, ()> = Err(());
    let garbled: Result<&str, ()> = Ok("port");
    let given: Result<&str, ()> = Ok("8080");

    assert_eq!(missing.parse::<u32>().unwrap_or(3000), 3000);
    assert_eq!(garbled.parse::<u32>().unwrap_or(3000), 3000);
    assert_eq!(given.parse::<u32>().unwrap_or(3000), 8080);
}

#[test]
fn equality_needs_same_variant_and_value() {
    let a: Error<i32, i32> = OriginalErr(1);
    assert_eq!(a, OriginalErr(1));
    assert_ne!(a, OriginalErr(2));
    assert_ne!(a, ParseFailure(1));
    let b: Error<i32, i32> = ParseFailure(5);
    assert_eq!(b, ParseFailure(5));
    assert_ne!(b, ParseFailure(6));
    assert_ne!(b, OriginalErr(5));
}

#[test]
fn from_text_reads_standard_types() {
    assert_eq!(<u64 as FromText>::from_text("42"), Ok(42u64));
    assert_eq!(<i32 as FromText>::from_text("-42"), Ok(-42));
    assert_eq!(<bool as FromText>::from_text("true"), Ok(true));
    assert_eq!(<char as FromText>::from_text("z"), Ok('z'));
    assert!(<u16 as FromText>::from_text("70000").is_err());
}

#[test]
fn parse_outcome_tags_the_parse_error() {
    let ok: Result<u8, &str> = Ok(9);
    assert_eq!(parse_outcome::<u8, (), &str>(ok), Ok(9u8));
    let bad: Result<u8, &str> = Err("bad digit");
    assert_eq!(parse_outcome::<u8, (), &str>(bad), Err(ParseFailure("bad digit")));
}

#[test]
fn parse_with_skips_the_reader_on_err() {
    let mut calls: u32 = 0;
    let failed: Result<&str, &str> = Err("unset");
    let out = parse_with(failed, |t: &str| {
        calls += 1;
        t.parse::<u32>()
    });
    assert_eq!(out, Err(OriginalErr("unset")));
    assert_eq!(calls, 0);

    let given: Result<&str, &str> = Ok("17");
    assert_eq!(parse_with(given, |t: &str| t.parse::<u32>()), Ok(17));

    let garbled: Result<&str, &str> = Ok("x17");
    assert!(matches!(parse_with(garbled, |t: &str| t.parse::<u32>()), Err(ParseFailure(_))));
}
