//! The extensions of segment files: `z01` for the first segment, `z02` for
//! the second, and so on.

use vstd::prelude::*;
use vstd::string::{StringExecFns, StringSliceAdditionalSpecFns};
use crate::constants::FILE_EXTENSION_PARSER_ERROR;
use crate::error::{decimal_string, spec_decimal, ZffError, ZffErrorKind};

verus! {

/// Whether a byte is an ASCII digit.
pub open spec fn spec_is_digit(b: u8) -> bool {
    0x30 <= b <= 0x39
}

/// Whether all bytes are ASCII digits.
pub open spec fn spec_all_digits(digits: Seq<u8>) -> bool {
    forall|i: int| 0 <= i < digits.len() ==> spec_is_digit(#[trigger] digits[i])
}

/// The number that decimal digits spell.
pub open spec fn spec_digits_value(digits: Seq<u8>) -> nat
    decreases digits.len(),
{
    if digits.len() == 0 {
        0
    } else {
        10 * spec_digits_value(digits.drop_last()) + (digits.last() - 0x30) as nat
    }
}

/// The number that a segment file extension names: the extension is the
/// letter `z` and at least two decimal digits behind it.
pub open spec fn spec_extension_number(extension: Seq<u8>) -> Option<nat> {
    if extension.len() >= 3 && extension[0] == 0x7a && spec_all_digits(extension.skip(1)) {
        Some(spec_digits_value(extension.skip(1)))
    } else {
        None
    }
}

/// The extension of the segment file of a number: the letter `z` and the
/// number in decimal, with a leading zero below ten.
pub open spec fn spec_extension(number: nat) -> Seq<char> {
    if number < 10 {
        seq!['z', '0'] + spec_decimal(number)
    } else {
        seq!['z'] + spec_decimal(number)
    }
}

/// The number that digits spell does not shrink when more digits follow.
pub proof fn lemma_digits_value_grows(digits: Seq<u8>, shorter: int)
    requires
        spec_all_digits(digits),
        0 <= shorter <= digits.len(),
    ensures
        spec_digits_value(digits.take(shorter)) <= spec_digits_value(digits),
    decreases digits.len(),
{
    if shorter == digits.len() {
        assert(digits.take(shorter) =~= digits);
    } else {
        let front = digits.drop_last();
        assert(front.take(shorter) =~= digits.take(shorter));
        assert(spec_all_digits(front)) by {
            assert forall|i: int| 0 <= i < front.len() implies spec_is_digit(
                #[trigger] front[i],
            ) by {
                assert(spec_is_digit(digits[i]));
            }
        }
        lemma_digits_value_grows(front, shorter);
    }
}

/// An error of the kind `FileExtensionParserError`.
fn parser_error() -> (e: ZffError)
    ensures
        e.kind == ZffErrorKind::FileExtensionParserError,
        e.details@ == FILE_EXTENSION_PARSER_ERROR@,
{
    ZffError::new(ZffErrorKind::FileExtensionParserError, FILE_EXTENSION_PARSER_ERROR.to_owned())
}

/// The extension of the segment file of the given number.
pub fn file_extension(number: u64) -> (extension: String)
    ensures
        extension@ == spec_extension(number as nat),
{
    let mut extension = if number < 10 {
        String::from_str("z0")
    } else {
        String::from_str("z")
    };
    let digits = decimal_string(number);
    extension.append(digits.as_str());
    proof {
        reveal_strlit("z0");
        reveal_strlit("z");
        assert(extension@ =~= spec_extension(number as nat));
    }
    extension
}

/// The number that a segment file extension names. An extension that is
/// not the letter `z` with at least two digits behind it, or that names a
/// number above the largest, is `FileExtensionParserError`.
pub fn file_extension_number(value: &str) -> (res: Result<u64, ZffError>)
    ensures
        match spec_extension_number(value.spec_bytes()) {
            Some(number) => if number <= u64::MAX {
                res == Ok::<u64, ZffError>(number as u64)
            } else {
                res matches Err(e) && e.kind == ZffErrorKind::FileExtensionParserError
            },
            None => res matches Err(e) && e.kind == ZffErrorKind::FileExtensionParserError,
        },
{
    let bytes = value.as_bytes();
    if bytes.len() < 3 || bytes[0] != 0x7a {
        return Err(parser_error());
    }
    let ghost digits = bytes@.skip(1);
    let mut number: u64 = 0;
    let mut i: usize = 1;
    while i < bytes.len()
        invariant
            1 <= i <= bytes@.len(),
            bytes@ == value.spec_bytes(),
            bytes@.len() >= 3,
            bytes@[0] == 0x7a,
            digits == bytes@.skip(1),
            spec_all_digits(digits.take(i - 1)),
            number == spec_digits_value(digits.take(i - 1)),
        decreases bytes.len() - i,
    {
        let b = bytes[i];
        if b < 0x30 || b > 0x39 {
            proof {
                assert(!spec_is_digit(digits[i - 1]));
            }
            return Err(parser_error());
        }
        proof {
            let next = digits.take(i as int);
            assert(next.drop_last() =~= digits.take(i - 1));
            assert(next.last() == b);
            assert(spec_all_digits(next)) by {
                assert forall|j: int| 0 <= j < next.len() implies spec_is_digit(
                    #[trigger] next[j],
                ) by {
                    if j < i - 1 {
                        assert(spec_is_digit(digits.take(i - 1)[j]));
                    }
                }
            }
        }
        let digit: u64 = (b - 0x30) as u64;
        let grown = match number.checked_mul(10) {
            Some(tens) => tens.checked_add(digit),
            None => None,
        };
        match grown {
            Some(value) => { number = value; },
            None => {
                proof {
                    let next = digits.take(i as int);
                    assert(spec_digits_value(next) == 10 * number + digit);
                    assert(spec_digits_value(next) > u64::MAX);
                    if spec_all_digits(digits) {
                        lemma_digits_value_grows(digits, i as int);
                    }
                }
                return Err(parser_error());
            },
        }
        i += 1;
    }
    proof {
        assert(digits.take(i - 1) =~= digits);
    }
    Ok(number)
}

/// The extension of the segment file that follows the one of the given
/// extension. An extension that names no number, or the largest, is
/// `FileExtensionParserError`.
pub fn file_extension_next_value(value: &str) -> (res: Result<String, ZffError>)
    ensures
        match spec_extension_number(value.spec_bytes()) {
            Some(number) => if number < u64::MAX {
                res matches Ok(next) && next@ == spec_extension(number + 1)
            } else {
                res matches Err(e) && e.kind == ZffErrorKind::FileExtensionParserError
            },
            None => res matches Err(e) && e.kind == ZffErrorKind::FileExtensionParserError,
        },
{
    let number = file_extension_number(value)?;
    if number == u64::MAX {
        return Err(parser_error());
    }
    Ok(file_extension(number + 1))
}

} // verus!
