//! The install decision for a `.vsix` package.

use vstd::prelude::*;
use vstd::string::*;
use crate::text::{joined, join_strings, string_views};

verus! {

/// The result of validating an unpacked `.vsix` package.
#[derive(Debug, Clone, PartialEq, Eq)]
pub struct VsixValidation {
    pub valid: bool,
    pub errors: Vec<String>,
}

/// The message with which an install refuses a package that failed validation.
pub open spec fn validation_failure_message(errors: Seq<Seq<char>>) -> Seq<char> {
    "VSIX validation failed: "@ + joined(errors, "; "@)
}

/// Installs an extension from a local `.vsix` file: the decision taken
/// between unpacking the package and writing its files. A package that
/// passed validation is installed (`Ok`); one that did not is refused with
/// its validation errors joined by `"; "`.
pub fn install_from_vsix(validation: &VsixValidation) -> (r: Result<(), String>)
    ensures
        r is Ok <==> validation.valid,
        r matches Err(m) ==> m@ == validation_failure_message(string_views(validation.errors@)),
{
    if !validation.valid {
        let mut m = String::from_str("VSIX validation failed: ");
        let joined_errors = join_strings(&validation.errors, "; ");
        m.append(joined_errors.as_str());
        return Err(m);
    }
    Ok(())
}

/// A refused package reports the validation prefix followed by its errors
/// in order, separated by `"; "`.
pub proof fn law_refusal_lists_errors(a: Seq<char>, b: Seq<char>)
    ensures
        validation_failure_message(seq![a]) == "VSIX validation failed: "@ + a,
        validation_failure_message(seq![a, b]) == "VSIX validation failed: "@ + a + "; "@ + b,
{
    assert(seq![a, b].drop_last() =~= seq![a]);
    assert("VSIX validation failed: "@ + (a + "; "@ + b) =~= "VSIX validation failed: "@ + a + "; "@
        + b);
}

} // verus!
