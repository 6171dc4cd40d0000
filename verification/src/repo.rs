//! The repository record: one element of the listing response, enriched
//! exactly once with its resolved language before the clone phase reads it.

use vstd::prelude::*;

verus! {

/// One repository of the listed user. `lang` is empty at construction and
/// set exactly once, by `set_language`, before the clone phase consumes
/// the record.
pub struct Repo {
    pub name: String,
    pub ssh_url: String,
    pub languages_url: String,
    pub lang: String,
}

impl Repo {
    /// A freshly listed repository: the identifying fields as decoded,
    /// no resolved language yet.
    pub fn new(name: String, ssh_url: String, languages_url: String) -> (r: Repo)
        ensures
            r.name == name,
            r.ssh_url == ssh_url,
            r.languages_url == languages_url,
            r.lang@ == Seq::<char>::empty(),
    {
        Repo { name, ssh_url, languages_url, lang: String::new() }
    }

    /// The single enrichment step of the record's lifecycle: the identifying
    /// fields are untouched, the language is now the given token.
    pub fn set_language(self, lang: String) -> (r: Repo)
        ensures
            r.name == self.name,
            r.ssh_url == self.ssh_url,
            r.languages_url == self.languages_url,
            r.lang == lang,
    {
        Repo { lang, ..self }
    }
}

} // verus!
