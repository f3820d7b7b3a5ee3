//! Pieces of the printed lines: quoted strings and optional values.

use vstd::prelude::*;
use vstd::string::StringExecFns;

verus! {

/// The debug rendering of the string `text`, as `format!("{:?}", text)`
/// gives it: quoted, with quotes, backslashes and unprintable characters
/// escaped.
pub uninterp spec fn debug_quoted(text: Seq<char>) -> Seq<char>;

/// Formats a string with `{:?}`, std's `Debug` for `str`; the result is only
/// named.
#[verifier::external_body]
pub(crate) fn debug_quote(text: &str) -> (out: String)
    ensures
        out@ == debug_quoted(text@),
{
    format!("{:?}", text)
}

/// The rendering of an optional string: `None`, or `Some(..)` round the
/// quoted string.
pub open spec fn name_text(name: Option<Seq<char>>) -> Seq<char> {
    match name {
        Some(name) => "Some("@ + debug_quoted(name) + ")"@,
        None => "None"@,
    }
}

/// The characters of an optional string.
pub open spec fn optional_view(name: Option<String>) -> Option<Seq<char>> {
    match name {
        Some(name) => Some(name@),
        None => None,
    }
}

/// Appends the rendering of an optional string to `line`.
pub fn push_name(line: &mut String, name: &Option<String>)
    ensures
        final(line)@ == old(line)@ + name_text(optional_view(*name)),
{
    match name {
        Some(name) => {
            line.append("Some(");
            line.append(debug_quote(name.as_str()).as_str());
            line.append(")");
            assert(line@ =~= old(line)@ + name_text(Some(name@)));
        },
        None => {
            line.append("None");
        },
    }
}

} // verus!
