//! The categories under which commands are listed.

use vstd::prelude::*;

verus! {

/// The description of each command category; `???` for an unknown one.
pub open spec fn category_description(category: Seq<char>) -> Seq<char> {
    if category == "Meta"@ {
        "Information about the bot"@
    } else if category == "Support"@ {
        "Handles all aspects of support cases"@
    } else {
        "???"@
    }
}

/// The description of a command category; `???` for an unknown one.
pub fn get_category_description(category: &str) -> (text: &str)
    ensures
        text@ == category_description(category@),
{
    let name = category.to_owned();
    if name == "Meta".to_owned() {
        "Information about the bot"
    } else if name == "Support".to_owned() {
        "Handles all aspects of support cases"
    } else {
        "???"
    }
}

} // verus!
