//! Conversion errors in words.

use super::convert::PhpTypeConversionError;
use super::tags::TypeInfoUnion;
use vstd::prelude::*;
use vstd::string::StringExecFns;

verus! {

/// The character that stands for a digit.
pub open spec fn digit_char(digit: nat) -> char {
    if digit == 0 {
        '0'
    } else if digit == 1 {
        '1'
    } else if digit == 2 {
        '2'
    } else if digit == 3 {
        '3'
    } else if digit == 4 {
        '4'
    } else if digit == 5 {
        '5'
    } else if digit == 6 {
        '6'
    } else if digit == 7 {
        '7'
    } else if digit == 8 {
        '8'
    } else {
        '9'
    }
}

/// A number written in decimal digits, without leading zeros.
pub open spec fn decimal(number: nat) -> Seq<char>
    decreases number,
{
    if number < 10 {
        seq![digit_char(number)]
    } else {
        decimal(number / 10).push(digit_char(number % 10))
    }
}

impl PhpTypeConversionError {
    /// The type word that was found in place of the expected one.
    pub open spec fn spec_type_info(&self) -> TypeInfoUnion {
        match self {
            PhpTypeConversionError::NotBool(type_info) => *type_info,
            PhpTypeConversionError::NotInteger(type_info) => *type_info,
            PhpTypeConversionError::NotFloat(type_info) => *type_info,
            PhpTypeConversionError::NotString(type_info) => *type_info,
            PhpTypeConversionError::NotArray(type_info) => *type_info,
        }
    }

    /// What was expected, in words.
    pub open spec fn spec_expectation(&self) -> Seq<char> {
        match self {
            PhpTypeConversionError::NotBool(_) => "Not a bool. Type info is "@,
            PhpTypeConversionError::NotInteger(_) => "Not a integer. Type info is "@,
            PhpTypeConversionError::NotFloat(_) => "Not a float. Type info is "@,
            PhpTypeConversionError::NotString(_) => "Not a string. Type info is "@,
            PhpTypeConversionError::NotArray(_) => "Not a array. Type info is "@,
        }
    }

    /// The error in words: what was expected, and the type word found.
    pub open spec fn spec_message(&self) -> Seq<char> {
        self.spec_expectation() + decimal(self.spec_type_info().type_info as nat)
    }

    /// The type word that was found in place of the expected one.
    #[verifier::when_used_as_spec(spec_type_info)]
    pub fn type_info(&self) -> (type_info: TypeInfoUnion)
        ensures
            type_info == self.spec_type_info(),
    {
        match self {
            PhpTypeConversionError::NotBool(type_info) => *type_info,
            PhpTypeConversionError::NotInteger(type_info) => *type_info,
            PhpTypeConversionError::NotFloat(type_info) => *type_info,
            PhpTypeConversionError::NotString(type_info) => *type_info,
            PhpTypeConversionError::NotArray(type_info) => *type_info,
        }
    }

    /// The error in words: what was expected, and the type word found.
    pub fn message(&self) -> (text: String)
        ensures
            text@ == self.spec_message(),
    {
        let expectation = match self {
            PhpTypeConversionError::NotBool(_) => "Not a bool. Type info is ",
            PhpTypeConversionError::NotInteger(_) => "Not a integer. Type info is ",
            PhpTypeConversionError::NotFloat(_) => "Not a float. Type info is ",
            PhpTypeConversionError::NotString(_) => "Not a string. Type info is ",
            PhpTypeConversionError::NotArray(_) => "Not a array. Type info is ",
        };
        let mut text = String::from_str(expectation);
        append_decimal(&mut text, self.type_info().type_info);
        text
    }
}

/// The text of one digit.
fn digit_text(digit: u32) -> (text: &'static str)
    requires
        digit < 10,
    ensures
        text@ == seq![digit_char(digit as nat)],
{
    proof {
        reveal_strlit("0");
        reveal_strlit("1");
        reveal_strlit("2");
        reveal_strlit("3");
        reveal_strlit("4");
        reveal_strlit("5");
        reveal_strlit("6");
        reveal_strlit("7");
        reveal_strlit("8");
        reveal_strlit("9");
    }
    let text = match digit {
        0 => "0",
        1 => "1",
        2 => "2",
        3 => "3",
        4 => "4",
        5 => "5",
        6 => "6",
        7 => "7",
        8 => "8",
        _ => "9",
    };
    assert(text@ =~= seq![digit_char(digit as nat)]);
    text
}

/// Writes a number in decimal digits behind a text.
pub fn append_decimal(text: &mut String, number: u32)
    ensures
        final(text)@ == old(text)@ + decimal(number as nat),
    decreases number,
{
    if number >= 10 {
        append_decimal(text, number / 10);
    }
    text.append(digit_text(number % 10));
    assert(text@ =~= old(text)@ + decimal(number as nat));
}

} // verus!
