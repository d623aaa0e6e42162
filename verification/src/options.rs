//! Unwrapping of host-supplied configuration options: a value that is absent
//! and a value that could not be read are distinct errors, each naming the
//! option concerned.

use vstd::prelude::*;
use vstd::string::StringExecFns;

verus! {

/// Why a configuration option could not be used.
#[derive(Clone, Debug, PartialEq, Eq)]
pub enum OptionError {
    /// The option has no value.
    NotSet { name: String },
    /// The option's value could not be read.
    Invalid { name: String, cause: String },
}

/// Unwraps the lookup result of the option called `name`: the value when one
/// is set, otherwise an error that says whether the option was missing or
/// unreadable, and which option it was.
pub fn get_option<T>(name: &str, res: Result<Option<T>, String>) -> (r: Result<T, OptionError>)
    ensures
        res matches Ok(Some(v)) ==> (r matches Ok(rv) && rv == v),
        res matches Ok(None) ==> (r matches Err(e) && e matches OptionError::NotSet { name: n }
            && n@ == name@),
        res matches Err(cause0) ==> (r matches Err(e) && e matches OptionError::Invalid {
            name: n,
            cause,
        } && n@ == name@ && cause == cause0),
{
    match res {
        Ok(v) => match v {
            Some(v) => Ok(v),
            None => Err(OptionError::NotSet { name: name.to_owned() }),
        },
        Err(cause) => Err(OptionError::Invalid { name: name.to_owned(), cause }),
    }
}

} // verus!
