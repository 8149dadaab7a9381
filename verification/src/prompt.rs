//! Yes/no questions to the user.
use vstd::prelude::*;
use crate::text::{concat, lowercase, str_eq, str_lower, trim, trim_spec};

verus! {

/// The question as it is shown: the text and ` [y/N] `.
pub fn prompt_text(prompt: &str) -> (r: String)
    ensures
        r@ == prompt@ + " [y/N] "@,
{
    concat(prompt, " [y/N] ")
}

/// The answer means yes: without surrounding white space, in lower case, it
/// is `y` or `yes` (anything else means no).
pub open spec fn answer_is_yes(line: Seq<char>) -> bool {
    str_lower(trim_spec(line)) == "y"@ || str_lower(trim_spec(line)) == "yes"@
}

/// Whether the line the user typed means yes (see `answer_is_yes`).
pub fn prompt_answer(line: &str) -> (r: bool)
    ensures
        r == answer_is_yes(line@),
{
    let t = trim(line);
    let l = lowercase(t.as_str());
    str_eq(l.as_str(), "y") || str_eq(l.as_str(), "yes")
}

} // verus!
