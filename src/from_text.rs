//! Types that can be read from text, and how the standard ones read.
use vstd::prelude::*;
use std::num::ParseIntError;
use std::str::ParseBoolError;
use std::char::ParseCharError;

verus! {

/// A type whose values can be read from text, with an error for text that
/// reads as no value.
pub trait FromText: Sized {
    /// The error reported for text that reads as no value.
    type Err;

    /// The value that the text reads as, or `None` where it reads as none.
    spec fn text_value(s: Seq<char>) -> Option<Self>;

    /// Reads a value from the text.
    fn from_text(s: &str) -> (r: Result<Self, Self::Err>)
        ensures
            match r {
                Ok(v) => Self::text_value(s@) == Some(v),
                Err(_) => Self::text_value(s@) is None,
            },
    ;
}

#[verifier::external_type_specification]
#[verifier::external_body]
pub struct ExParseIntError(ParseIntError);

#[verifier::external_type_specification]
#[verifier::external_body]
pub struct ExParseBoolError(ParseBoolError);

#[verifier::external_type_specification]
#[verifier::external_body]
pub struct ExParseCharError(ParseCharError);

/// The value that `"true"` or `"false"` reads as, and no other text.
pub open spec fn bool_of_text(s: Seq<char>) -> Option<bool> {
    if s == "true"@ {
        Some(true)
    } else if s == "false"@ {
        Some(false)
    } else {
        None
    }
}

/// The character that a text of exactly one character reads as.
pub open spec fn char_of_text(s: Seq<char>) -> Option<char> {
    if s.len() == 1 {
        Some(s[0])
    } else {
        None
    }
}

/// Relies on `str::parse::<bool>`: only `"true"` and `"false"` are accepted.
#[verifier::external_body]
fn parse_bool(s: &str) -> (r: Result<bool, ParseBoolError>)
    ensures
        match r {
            Ok(v) => bool_of_text(s@) == Some(v),
            Err(_) => bool_of_text(s@) is None,
        },
{
    s.parse::<bool>()
}

/// Relies on `str::parse::<char>`: a text of exactly one character gives that
/// character, any other text an error.
#[verifier::external_body]
fn parse_char(s: &str) -> (r: Result<char, ParseCharError>)
    ensures
        match r {
            Ok(v) => char_of_text(s@) == Some(v),
            Err(_) => char_of_text(s@) is None,
        },
{
    s.parse::<char>()
}

impl FromText for bool {
    type Err = ParseBoolError;

    open spec fn text_value(s: Seq<char>) -> Option<bool> {
        bool_of_text(s)
    }

    fn from_text(s: &str) -> (r: Result<bool, ParseBoolError>) {
        parse_bool(s)
    }
}

impl FromText for char {
    type Err = ParseCharError;

    open spec fn text_value(s: Seq<char>) -> Option<char> {
        char_of_text(s)
    }

    fn from_text(s: &str) -> (r: Result<char, ParseCharError>) {
        parse_char(s)
    }
}

// What each integer type's decimal parser reads a text as: an optional sign
// and decimal digits, within the type's range. Each depends on the text alone.
pub uninterp spec fn i8_of_text(s: Seq<char>) -> Option<i8>;
pub uninterp spec fn i16_of_text(s: Seq<char>) -> Option<i16>;
pub uninterp spec fn i32_of_text(s: Seq<char>) -> Option<i32>;
pub uninterp spec fn i64_of_text(s: Seq<char>) -> Option<i64>;
pub uninterp spec fn i128_of_text(s: Seq<char>) -> Option<i128>;
pub uninterp spec fn isize_of_text(s: Seq<char>) -> Option<isize>;
pub uninterp spec fn u8_of_text(s: Seq<char>) -> Option<u8>;
pub uninterp spec fn u16_of_text(s: Seq<char>) -> Option<u16>;
pub uninterp spec fn u32_of_text(s: Seq<char>) -> Option<u32>;
pub uninterp spec fn u64_of_text(s: Seq<char>) -> Option<u64>;
pub uninterp spec fn u128_of_text(s: Seq<char>) -> Option<u128>;
pub uninterp spec fn usize_of_text(s: Seq<char>) -> Option<usize>;

/// Relies on `str::parse::<i8>`: the value read, or an error, depends on the
/// text alone.
#[verifier::external_body]
fn parse_i8(s: &str) -> (r: Result<i8, ParseIntError>)
    ensures
        match r {
            Ok(v) => i8_of_text(s@) == Some(v),
            Err(_) => i8_of_text(s@) is None,
        },
{
    s.parse::<i8>()
}

impl FromText for i8 {
    type Err = ParseIntError;

    open spec fn text_value(s: Seq<char>) -> Option<i8> {
        i8_of_text(s)
    }

    fn from_text(s: &str) -> (r: Result<i8, ParseIntError>) {
        parse_i8(s)
    }
}

/// Relies on `str::parse::<i16>`: the value read, or an error, depends on the
/// text alone.
#[verifier::external_body]
fn parse_i16(s: &str) -> (r: Result<i16, ParseIntError>)
    ensures
        match r {
            Ok(v) => i16_of_text(s@) == Some(v),
            Err(_) => i16_of_text(s@) is None,
        },
{
    s.parse::<i16>()
}

impl FromText for i16 {
    type Err = ParseIntError;

    open spec fn text_value(s: Seq<char>) -> Option<i16> {
        i16_of_text(s)
    }

    fn from_text(s: &str) -> (r: Result<i16, ParseIntError>) {
        parse_i16(s)
    }
}

/// Relies on `str::parse::<i32>`: the value read, or an error, depends on the
/// text alone.
#[verifier::external_body]
fn parse_i32(s: &str) -> (r: Result<i32, ParseIntError>)
    ensures
        match r {
            Ok(v) => i32_of_text(s@) == Some(v),
            Err(_) => i32_of_text(s@) is None,
        },
{
    s.parse::<i32>()
}

impl FromText for i32 {
    type Err = ParseIntError;

    open spec fn text_value(s: Seq<char>) -> Option<i32> {
        i32_of_text(s)
    }

    fn from_text(s: &str) -> (r: Result<i32, ParseIntError>) {
        parse_i32(s)
    }
}

/// Relies on `str::parse::<i64>`: the value read, or an error, depends on the
/// text alone.
#[verifier::external_body]
fn parse_i64(s: &str) -> (r: Result<i64, ParseIntError>)
    ensures
        match r {
            Ok(v) => i64_of_text(s@) == Some(v),
            Err(_) => i64_of_text(s@) is None,
        },
{
    s.parse::<i64>()
}

impl FromText for i64 {
    type Err = ParseIntError;

    open spec fn text_value(s: Seq<char>) -> Option<i64> {
        i64_of_text(s)
    }

    fn from_text(s: &str) -> (r: Result<i64, ParseIntError>) {
        parse_i64(s)
    }
}

/// Relies on `str::parse::<i128>`: the value read, or an error, depends on the
/// text alone.
#[verifier::external_body]
fn parse_i128(s: &str) -> (r: Result<i128, ParseIntError>)
    ensures
        match r {
            Ok(v) => i128_of_text(s@) == Some(v),
            Err(_) => i128_of_text(s@) is None,
        },
{
    s.parse::<i128>()
}

impl FromText for i128 {
    type Err = ParseIntError;

    open spec fn text_value(s: Seq<char>) -> Option<i128> {
        i128_of_text(s)
    }

    fn from_text(s: &str) -> (r: Result<i128, ParseIntError>) {
        parse_i128(s)
    }
}

/// Relies on `str::parse::<isize>`: the value read, or an error, depends on the
/// text alone.
#[verifier::external_body]
fn parse_isize(s: &str) -> (r: Result<isize, ParseIntError>)
    ensures
        match r {
            Ok(v) => isize_of_text(s@) == Some(v),
            Err(_) => isize_of_text(s@) is None,
        },
{
    s.parse::<isize>()
}

impl FromText for isize {
    type Err = ParseIntError;

    open spec fn text_value(s: Seq<char>) -> Option<isize> {
        isize_of_text(s)
    }

    fn from_text(s: &str) -> (r: Result<isize, ParseIntError>) {
        parse_isize(s)
    }
}

/// Relies on `str::parse::<u8>`: the value read, or an error, depends on the
/// text alone.
#[verifier::external_body]
fn parse_u8(s: &str) -> (r: Result<u8, ParseIntError>)
    ensures
        match r {
            Ok(v) => u8_of_text(s@) == Some(v),
            Err(_) => u8_of_text(s@) is None,
        },
{
    s.parse::<u8>()
}

impl FromText for u8 {
    type Err = ParseIntError;

    open spec fn text_value(s: Seq<char>) -> Option<u8> {
        u8_of_text(s)
    }

    fn from_text(s: &str) -> (r: Result<u8, ParseIntError>) {
        parse_u8(s)
    }
}

/// Relies on `str::parse::<u16>`: the value read, or an error, depends on the
/// text alone.
#[verifier::external_body]
fn parse_u16(s: &str) -> (r: Result<u16, ParseIntError>)
    ensures
        match r {
            Ok(v) => u16_of_text(s@) == Some(v),
            Err(_) => u16_of_text(s@) is None,
        },
{
    s.parse::<u16>()
}

impl FromText for u16 {
    type Err = ParseIntError;

    open spec fn text_value(s: Seq<char>) -> Option<u16> {
        u16_of_text(s)
    }

    fn from_text(s: &str) -> (r: Result<u16, ParseIntError>) {
        parse_u16(s)
    }
}

/// Relies on `str::parse::<u32>`: the value read, or an error, depends on the
/// text alone.
#[verifier::external_body]
fn parse_u32(s: &str) -> (r: Result<u32, ParseIntError>)
    ensures
        match r {
            Ok(v) => u32_of_text(s@) == Some(v),
            Err(_) => u32_of_text(s@) is None,
        },
{
    s.parse::<u32>()
}

impl FromText for u32 {
    type Err = ParseIntError;

    open spec fn text_value(s: Seq<char>) -> Option<u32> {
        u32_of_text(s)
    }

    fn from_text(s: &str) -> (r: Result<u32, ParseIntError>) {
        parse_u32(s)
    }
}

/// Relies on `str::parse::<u64>`: the value read, or an error, depends on the
/// text alone.
#[verifier::external_body]
fn parse_u64(s: &str) -> (r: Result<u64, ParseIntError>)
    ensures
        match r {
            Ok(v) => u64_of_text(s@) == Some(v),
            Err(_) => u64_of_text(s@) is None,
        },
{
    s.parse::<u64>()
}

impl FromText for u64 {
    type Err = ParseIntError;

    open spec fn text_value(s: Seq<char>) -> Option<u64> {
        u64_of_text(s)
    }

    fn from_text(s: &str) -> (r: Result<u64, ParseIntError>) {
        parse_u64(s)
    }
}

/// Relies on `str::parse::<u128>`: the value read, or an error, depends on the
/// text alone.
#[verifier::external_body]
fn parse_u128(s: &str) -> (r: Result<u128, ParseIntError>)
    ensures
        match r {
            Ok(v) => u128_of_text(s@) == Some(v),
            Err(_) => u128_of_text(s@) is None,
        },
{
    s.parse::<u128>()
}

impl FromText for u128 {
    type Err = ParseIntError;

    open spec fn text_value(s: Seq<char>) -> Option<u128> {
        u128_of_text(s)
    }

    fn from_text(s: &str) -> (r: Result<u128, ParseIntError>) {
        parse_u128(s)
    }
}

/// Relies on `str::parse::<usize>`: the value read, or an error, depends on the
/// text alone.
#[verifier::external_body]
fn parse_usize(s: &str) -> (r: Result<usize, ParseIntError>)
    ensures
        match r {
            Ok(v) => usize_of_text(s@) == Some(v),
            Err(_) => usize_of_text(s@) is None,
        },
{
    s.parse::<usize>()
}

impl FromText for usize {
    type Err = ParseIntError;

    open spec fn text_value(s: Seq<char>) -> Option<usize> {
        usize_of_text(s)
    }

    fn from_text(s: &str) -> (r: Result<usize, ParseIntError>) {
        parse_usize(s)
    }
}

} // verus!
