//! The quotation that decorates a board and seeds it where the command gave
//! no seed.

use vstd::prelude::*;
use vstd::string::StringExecFns;

verus! {

/// A quotation as the quotation service describes it.
#[derive(Debug)]
pub struct Quote {
    pub id: String,
    pub author: String,
    pub content: String,
    pub tags: Vec<String>,
    pub author_slug: String,
    pub length: usize,
    pub date_added: String,
    pub date_modified: String,
}

/// The words of the first of `quotes`, or a wish of luck where there is
/// none.
pub fn first_content(quotes: &[Quote]) -> (text: String)
    ensures
        text@ == if quotes@.len() == 0 {
            "Good luck!"@
        } else {
            quotes@[0].content@
        },
{
    if quotes.len() == 0 {
        String::from_str("Good luck!")
    } else {
        quotes[0].content.clone()
    }
}

/// The words that were fetched, or a wish of luck where fetching failed.
pub fn quote_or_default(fetched: Option<String>) -> (text: String)
    ensures
        text@ == match fetched {
            Some(words) => words@,
            None => "Good Luck!"@,
        },
{
    match fetched {
        Some(words) => words,
        None => String::from_str("Good Luck!"),
    }
}

} // verus!
