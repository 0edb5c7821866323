//! Per-language line counts.

use vstd::prelude::*;

verus! {

/// The line counts of one language, as the statistics scan reported them.
#[derive(Debug, Clone, PartialEq, Eq)]
pub struct LanguageStat {
    pub language: String,
    pub code: usize,
    pub comments: usize,
    pub blanks: usize,
}

/// What a [`LanguageStat`] denotes.
pub struct LanguageStatView {
    pub language: Seq<char>,
    pub code: usize,
    pub comments: usize,
    pub blanks: usize,
}

impl View for LanguageStat {
    type V = LanguageStatView;

    open spec fn view(&self) -> LanguageStatView {
        LanguageStatView {
            language: self.language@,
            code: self.code,
            comments: self.comments,
            blanks: self.blanks,
        }
    }
}

/// The views of a sequence of line counts, in the same order.
pub open spec fn stats_view(stats: Seq<LanguageStat>) -> Seq<LanguageStatView> {
    Seq::new(stats.len(), |i: int| stats[i]@)
}

impl LanguageStat {
    /// The line counts of `language`.
    pub fn new(language: String, code: usize, comments: usize, blanks: usize) -> (stat: Self)
        ensures
            stat@ == (LanguageStatView { language: language@, code, comments, blanks }),
    {
        LanguageStat { language, code, comments, blanks }
    }
}

} // verus!
