//! The closed set of languages a document can be written in or rendered into.

use vstd::prelude::*;

verus! {

/// A natural language that can be chosen as the source or the target.
#[derive(Debug, Clone, Copy, PartialEq, Eq, Structural)]
pub enum Lang {
    /// Japanese.
    Ja,
    /// English.
    En,
    /// Chinese.
    Zh,
}

impl Lang {
    /// The name by which the instruction text refers to this language.
    pub open spec fn label(self) -> Seq<char> {
        match self {
            Lang::Ja => "日本語"@,
            Lang::En => "英語"@,
            Lang::Zh => "中国語"@,
        }
    }
}

/// Returns the name by which the instruction text refers to `lang`.
pub fn lang_to_prompt(lang: Lang) -> (name: String)
    ensures
        name@ == lang.label(),
        name@.len() > 0,
{
    proof {
        lemma_labels_nonempty_and_distinct(lang, lang);
    }
    match lang {
        Lang::Ja => String::from_str("日本語"),
        Lang::En => String::from_str("英語"),
        Lang::Zh => String::from_str("中国語"),
    }
}

/// Every language has a name, and no two languages share one.
pub proof fn lemma_labels_nonempty_and_distinct(a: Lang, b: Lang)
    ensures
        a.label().len() > 0,
        a.label() == b.label() <==> a == b,
{
    reveal_strlit("日本語");
    reveal_strlit("英語");
    reveal_strlit("中国語");
    if a != b && a.label().len() == b.label().len() {
        assert(a.label()[0] != b.label()[0]);
    }
}

} // verus!
