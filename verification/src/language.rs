//! Language codes and the choice of the language to translate into.

use vstd::prelude::*;
use crate::text::same_text;

verus! {

/// The code of Russian.
pub const RUSSIAN: &'static str = "ru";

/// The code of Thai.
pub const THAI: &'static str = "th";

/// The language a text is translated into, given the language it was
/// detected to be in: Russian text goes to Thai, everything else to Russian.
pub open spec fn target_for(detected: Seq<char>) -> Seq<char> {
    if detected == RUSSIAN@ {
        THAI@
    } else {
        RUSSIAN@
    }
}

/// Picks the target language for a text detected to be in `detected`.
pub fn resolve_target(detected: &str) -> (target: &'static str)
    ensures
        target@ == target_for(detected@),
        detected@ == RUSSIAN@ ==> target@ == THAI@,
        detected@ != RUSSIAN@ ==> target@ == RUSSIAN@,
{
    if same_text(detected, RUSSIAN) {
        THAI
    } else {
        RUSSIAN
    }
}

/// Every language but Russian is translated into Russian.
pub proof fn other_languages_go_to_russian(detected: Seq<char>)
    requires
        detected != RUSSIAN@,
    ensures
        target_for(detected) == RUSSIAN@,
{
}

/// Russian is translated into Thai.
pub proof fn russian_goes_to_thai()
    ensures
        target_for(RUSSIAN@) == THAI@,
        target_for("ru"@) == "th"@,
{
}

/// The target language is never the language that was detected.
pub proof fn target_differs_from_source(detected: Seq<char>)
    ensures
        target_for(detected) != detected,
{
    reveal_strlit("ru");
    reveal_strlit("th");
    assert(RUSSIAN@[0] == 'r');
    assert(THAI@[0] == 't');
}

} // verus!
