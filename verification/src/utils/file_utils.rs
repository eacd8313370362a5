//! Words about files that could not be read or written.
use vstd::prelude::*;
use vstd::string::StringExecFns;

verus! {

/// What is reported when something went wrong with the file `filename`: the
/// cause, then the file's name in brackets.
pub open spec fn file_error_text(error: Seq<char>, filename: Seq<char>) -> Seq<char> {
    error + " [file \""@ + filename + "\"]"@
}

/// The report of `error` on the file `filename`.
pub fn file_error(error: &str, filename: &str) -> (r: String)
    ensures
        r@ == file_error_text(error@, filename@),
{
    let mut text = String::from_str(error);
    text.append(" [file \"");
    text.append(filename);
    text.append("\"]");
    text
}

} // verus!
