use vstd::prelude::*;

verus! {

/// The text observed after a clipboard read.
///
/// A read that failed, or found no text, counts as the empty string: a
/// missing clipboard never aborts the step that reads it.
pub open spec fn observed_text(read: Option<Seq<char>>) -> Seq<char> {
    match read {
        Some(t) => t,
        None => Seq::empty(),
    }
}

/// Turns the outcome of a clipboard read into the text that is passed on.
pub fn clipboard_text(read: Option<String>) -> (r: String)
    ensures
        r@ == observed_text(
            match read {
                Some(t) => Some(t@),
                None => None,
            },
        ),
{
    match read {
        Some(t) => t,
        None => String::new(),
    }
}

} // verus!
