//! The conversions into a cell under the name the standard library gives
//! to conversions. Each is total; a sequence, which the host may be unable
//! to count, is laid into a cell by `Zval::new` instead.
//!
//! A cell that points to a host object is made anew by every conversion, so
//! none of the conversions is a function in the sense of `from_spec`; what
//! each one returns is said by its own contract, over the view of the cell.

use super::cells::text_string;
use super::convert::{double_cell, long_cell, Double, ToPhpZval};
use super::types::{ZendString, Zval};
use super::zval::string_cell;
use vstd::prelude::*;
use vstd::std_specs::convert::FromSpecImpl;

verus! {

impl<'a> From<&'a str> for Zval {
    /// The cell that points to a fresh host string with the bytes of the text.
    fn from(rust_str: &'a str) -> (cell: Zval)
        ensures
            cell@ == string_cell(text_string(rust_str@)),
    {
        rust_str.to_zval()
    }
}

impl<'a> FromSpecImpl<&'a str> for Zval {
    open spec fn obeys_from_spec() -> bool {
        false
    }

    open spec fn from_spec(rust_str: &'a str) -> Zval {
        arbitrary()
    }
}

impl From<String> for Zval {
    /// The cell that points to a fresh host string with the bytes of the text.
    fn from(rust_string: String) -> (cell: Zval)
        ensures
            cell@ == string_cell(text_string(rust_string@)),
    {
        Zval::from(rust_string.as_str())
    }
}

impl FromSpecImpl<String> for Zval {
    open spec fn obeys_from_spec() -> bool {
        false
    }

    open spec fn from_spec(rust_string: String) -> Zval {
        arbitrary()
    }
}

impl From<i64> for Zval {
    /// The cell that holds the integer.
    fn from(number: i64) -> (cell: Zval)
        ensures
            cell@ == long_cell(number),
    {
        number.to_zval()
    }
}

impl FromSpecImpl<i64> for Zval {
    open spec fn obeys_from_spec() -> bool {
        false
    }

    open spec fn from_spec(number: i64) -> Zval {
        arbitrary()
    }
}

impl From<i32> for Zval {
    /// The cell that holds the integer.
    fn from(number: i32) -> (cell: Zval)
        ensures
            cell@ == long_cell(number as i64),
    {
        number.to_zval()
    }
}

impl FromSpecImpl<i32> for Zval {
    open spec fn obeys_from_spec() -> bool {
        false
    }

    open spec fn from_spec(number: i32) -> Zval {
        arbitrary()
    }
}

impl From<u32> for Zval {
    /// The cell that holds the integer.
    fn from(number: u32) -> (cell: Zval)
        ensures
            cell@ == long_cell(number as i64),
    {
        number.to_zval()
    }
}

impl FromSpecImpl<u32> for Zval {
    open spec fn obeys_from_spec() -> bool {
        false
    }

    open spec fn from_spec(number: u32) -> Zval {
        arbitrary()
    }
}

impl From<usize> for Zval {
    /// The cell that holds the size as an integer. A size beyond the
    /// host's largest integer wraps round.
    fn from(size: usize) -> (cell: Zval)
        ensures
            cell@ == long_cell(size as i64),
    {
        size.to_zval()
    }
}

impl FromSpecImpl<usize> for Zval {
    open spec fn obeys_from_spec() -> bool {
        false
    }

    open spec fn from_spec(size: usize) -> Zval {
        arbitrary()
    }
}

impl From<Double> for Zval {
    /// The cell that holds the binary64 number.
    fn from(number: Double) -> (cell: Zval)
        ensures
            cell@ == double_cell(number.bits),
    {
        number.to_zval()
    }
}

impl FromSpecImpl<Double> for Zval {
    open spec fn obeys_from_spec() -> bool {
        false
    }

    open spec fn from_spec(number: Double) -> Zval {
        arbitrary()
    }
}

impl From<Box<ZendString>> for Zval {
    /// The cell that points to the given host string.
    fn from(string: Box<ZendString>) -> (cell: Zval)
        ensures
            cell@ == string_cell(string@),
    {
        Zval::from_string(string)
    }
}

impl FromSpecImpl<Box<ZendString>> for Zval {
    open spec fn obeys_from_spec() -> bool {
        false
    }

    open spec fn from_spec(string: Box<ZendString>) -> Zval {
        arbitrary()
    }
}

impl<'a> From<&'a Zval> for Zval {
    /// A copy of the cell that is pointed to: payload, type word and the host's word.
    fn from(zval: &'a Zval) -> (cell: Zval)
        ensures
            cell@ == zval@,
    {
        zval.clone()
    }
}

impl<'a> FromSpecImpl<&'a Zval> for Zval {
    open spec fn obeys_from_spec() -> bool {
        false
    }

    open spec fn from_spec(zval: &'a Zval) -> Zval {
        arbitrary()
    }
}

} // verus!
