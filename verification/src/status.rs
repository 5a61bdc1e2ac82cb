//! The table from status codes to reason phrases.

use vstd::prelude::*;
use crate::text::same_text;

verus! {

/// Whether `code` is one of the status codes that the table lists.
pub open spec fn is_listed_status(code: Seq<char>) -> bool {
    code == "200"@ || code == "400"@ || code == "404"@ || code == "500"@
}

/// The reason phrase that stands for every status code the table does not list.
pub open spec fn fallback_status_text() -> Seq<char> {
    "Not Found"@
}

/// The reason phrase of a status code: the table's entry for a listed code,
/// and [`fallback_status_text`] for any other text.
pub open spec fn status_text_of(code: Seq<char>) -> Seq<char> {
    if code == "200"@ {
        "OK"@
    } else if code == "400"@ {
        "Bad Request"@
    } else if code == "404"@ {
        "Not Found"@
    } else if code == "500"@ {
        "Internal Server Error"@
    } else {
        fallback_status_text()
    }
}

/// Looks a status code up in the table.
///
/// The lookup is an exact match on the text of the code. It never fails: a
/// code that the table does not list gets the fallback phrase.
pub fn status_text_for(status_code: &str) -> (text: &'static str)
    ensures
        text@ == status_text_of(status_code@),
{
    if same_text(status_code, "200") {
        "OK"
    } else if same_text(status_code, "400") {
        "Bad Request"
    } else if same_text(status_code, "404") {
        "Not Found"
    } else if same_text(status_code, "500") {
        "Internal Server Error"
    } else {
        "Not Found"
    }
}

/// A code outside the table always gets the one fallback phrase, whatever
/// the code is.
pub proof fn lemma_unlisted_status_falls_back(code: Seq<char>)
    requires
        !is_listed_status(code),
    ensures
        status_text_of(code) == fallback_status_text(),
{
}

/// The four listed codes are pairwise different texts, so each has exactly
/// the phrase that the table gives it.
pub proof fn lemma_listed_status_texts()
    ensures
        status_text_of("200"@) == "OK"@,
        status_text_of("400"@) == "Bad Request"@,
        status_text_of("404"@) == "Not Found"@,
        status_text_of("500"@) == "Internal Server Error"@,
{
    reveal_strlit("200");
    reveal_strlit("400");
    reveal_strlit("404");
    reveal_strlit("500");
    assert("400"@[0] != "200"@[0]);
    assert("404"@[2] != "400"@[2]);
    assert("404"@[0] != "200"@[0]);
    assert("500"@[0] != "200"@[0]);
    assert("500"@[0] != "400"@[0]);
    assert("500"@[0] != "404"@[0]);
}

} // verus!
