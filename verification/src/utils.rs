//! Turning a missing value or a foreign error into a message.

use vstd::prelude::*;
use vstd::string::to_string_from_display_ensures;

verus! {

/// A result whose error is replaced by the text that the error displays as.
pub trait ResultToString<T, E: core::fmt::Display> {
    fn str_res(self) -> Result<T, String>;
}

impl<T, E: core::fmt::Display> ResultToString<T, E> for Result<T, E> {
    fn str_res(self) -> (res: Result<T, String>)
        ensures
            match self {
                Ok(val) => res == Ok::<T, String>(val),
                Err(err) => res matches Err(message) && to_string_from_display_ensures(
                    &err,
                    message,
                ),
            },
    {
        match self {
            Ok(val) => Ok(val),
            Err(err) => Err(err.to_string()),
        }
    }
}

/// The message for a value that is not there.
pub open spec fn none_message() -> Seq<char> {
    "Option: expect Some, found None"@
}

/// An option as a result, with a fixed message for `None`.
pub trait OptionToString<T> {
    fn str_res(self) -> Result<T, String>;
}

impl<T> OptionToString<T> for Option<T> {
    fn str_res(self) -> (res: Result<T, String>)
        ensures
            match self {
                Some(v) => res == Ok::<T, String>(v),
                None => res matches Err(message) && message@ == none_message(),
            },
    {
        match self {
            None => Err("Option: expect Some, found None".to_string()),
            Some(v) => Ok(v),
        }
    }
}

} // verus!
