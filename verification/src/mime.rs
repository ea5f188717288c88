//! Content-type guessing: the MIME type of a path, read off its file
//! extension by the `mime_guess` crate.

use vstd::prelude::*;

verus! {

/// The MIME type that the file extension of `path` maps to, `text/plain`
/// where no mapping is known. The guess reads only the path string, so the
/// result is a function of `path` alone; its table is the `mime_guess`
/// crate's and is not restated here.
pub uninterp spec fn mime_of(path: Seq<char>) -> Seq<char>;

/// Relies on `mime_guess::MimeGuess::from_path` with `first_or_text_plain`:
/// the guess is made from the path's extension alone, never from file
/// contents, and falls back to `text/plain`.
#[verifier::external_body]
pub(crate) fn guess_mime(path: &str) -> (r: String)
    ensures
        r@ == mime_of(path@),
{
    mime_guess::MimeGuess::from_path(path).first_or_text_plain().to_string()
}

} // verus!
