//! Canonical absolute paths.
//!
//! Making a path canonical needs the file system, so that step is the
//! caller's. This module joins the pieces beforehand and admits the outcome
//! afterwards.

use ra_ap_paths::Utf8Path;
use vstd::prelude::*;

use crate::error::{BatchError, ErrorKind};

verus! {

/// Whether `Utf8Path::is_absolute` holds of the path written `path`.
pub uninterp spec fn path_is_absolute(path: Seq<char>) -> bool;

/// The text of `Utf8Path::join` applied to the paths written `base` and `rest`.
pub uninterp spec fn path_join(base: Seq<char>, rest: Seq<char>) -> Seq<char>;

/// Calls `Utf8Path::is_absolute`, which asks the platform's rules whether the
/// path has a root; the answer is only named here, not spelled out.
#[verifier::external_body]
fn is_absolute(path: &str) -> (out: bool)
    ensures
        out == path_is_absolute(path@),
{
    Utf8Path::new(path).is_absolute()
}

/// Calls `Utf8Path::join`, which appends `rest` to `base` with the platform's
/// separator, or yields `rest` alone where `rest` is itself absolute; the
/// result is only named here.
#[verifier::external_body]
fn join(base: &str, rest: &str) -> (out: String)
    ensures
        out@ == path_join(base@, rest@),
{
    Utf8Path::new(base).join(rest).into_string()
}

/// A path known to be absolute.
pub struct AbsolutePath {
    text: String,
}

impl AbsolutePath {
    #[verifier::type_invariant]
    spec fn rooted(self) -> bool {
        path_is_absolute(self.text@)
    }

    /// The characters of the path.
    pub closed spec fn view(&self) -> Seq<char> {
        self.text@
    }

    /// Admits `text` if it is absolute.
    pub fn new(text: String) -> (out: Option<AbsolutePath>)
        ensures
            out is Some <==> path_is_absolute(text@),
            out is Some ==> out.unwrap()@ == text@,
    {
        if is_absolute(text.as_str()) {
            Some(AbsolutePath { text })
        } else {
            None
        }
    }

    /// The path as text.
    pub fn as_str(&self) -> (out: &str)
        ensures
            out@ == self@,
            path_is_absolute(out@),
    {
        proof {
            use_type_invariant(self);
        }
        self.text.as_str()
    }
}

/// The path to hand to canonicalization: `input` taken relative to `cwd`.
pub fn join_onto(cwd: &str, input: &str) -> (out: String)
    ensures
        out@ == path_join(cwd@, input@),
{
    join(cwd, input)
}

/// What `normalize` makes of the outcome of canonicalization.
pub open spec fn normalized(canonical: Result<String, String>, out: Result<AbsolutePath, BatchError>) -> bool {
    match canonical {
        Ok(text) => if path_is_absolute(text@) {
            out is Ok && out->Ok_0@ == text@
        } else {
            out is Err && out->Err_0.kind == ErrorKind::PathResolution && out->Err_0.detail@
                == text@
        },
        Err(why) => out is Err && out->Err_0.kind == ErrorKind::PathResolution
            && out->Err_0.detail@ == why@,
    }
}

/// Admits the outcome of canonicalizing a path: `Ok` with the canonical text,
/// or `Err` with the reason the file system gave. A reason becomes a
/// `PathResolution` failure carrying it; so does a text that is not absolute,
/// carrying the text.
pub fn normalize(canonical: Result<String, String>) -> (out: Result<AbsolutePath, BatchError>)
    ensures
        normalized(canonical, out),
{
    match canonical {
        Ok(text) => {
            let shown = text.clone();
            match AbsolutePath::new(text) {
                Some(path) => Ok(path),
                None => Err(BatchError { kind: ErrorKind::PathResolution, detail: shown }),
            }
        },
        Err(why) => Err(BatchError { kind: ErrorKind::PathResolution, detail: why }),
    }
}

} // verus!
