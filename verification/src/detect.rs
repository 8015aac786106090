//! Detecting the language of a file from its name.
//!
//! A file is looked up by its extension, or by its whole name where it has
//! no extension. Names are compared without their leading dots and without
//! regard to case, and the first language in registered order that
//! recognises the name is the language of the file.

use vstd::prelude::*;
use vstd::string::*;
use crate::catalog::{catalog, languages};
use crate::paths::{extension_of, file_name_of, path_extension, path_file_name};
use crate::registry::{LanguageConfig, LanguageSpec};
use crate::text::{lowercase, same_text, to_lowercase, trim_leading_dots, without_leading_dots};

verus! {

/// The name under which a file is looked up: its extension, or its file
/// name where it has no extension; `None` where the path has neither.
pub open spec fn lookup_key(path: Seq<char>) -> Option<Seq<char>> {
    match path_extension(path) {
        Some(extension) => Some(extension),
        None => path_file_name(path),
    }
}

/// The form in which names are compared: without leading dots, in lower
/// case.
pub open spec fn normal_form(name: Seq<char>) -> Seq<char> {
    lowercase(without_leading_dots(name))
}

/// The names of `names`, each in its normal form.
pub open spec fn normal_forms(names: Seq<Seq<char>>) -> Seq<Seq<char>> {
    Seq::new(names.len(), |j: int| normal_form(names[j]))
}

/// The recognised names of each of `languages`, in their normal forms.
pub open spec fn recognised_names(languages: Seq<LanguageSpec>) -> Seq<Seq<Seq<char>>> {
    Seq::new(languages.len(), |i: int| normal_forms(languages[i].extensions))
}

/// `found` is the position of the first of `sets` that holds `wanted`;
/// it is `None` where no set holds it.
pub open spec fn is_first_holding(
    sets: Seq<Seq<Seq<char>>>,
    wanted: Seq<char>,
    found: Option<usize>,
) -> bool {
    match found {
        Some(i) => i < sets.len() && sets[i as int].contains(wanted) && forall|j: int|
            0 <= j < i ==> !(#[trigger] sets[j]).contains(wanted),
        None => forall|j: int| 0 <= j < sets.len() ==> !(#[trigger] sets[j]).contains(wanted),
    }
}

/// The language that `languages` detect for the file at `path`, as a
/// position in `languages`: the first language that recognises the name
/// under which the file is looked up.
pub open spec fn is_detected(languages: Seq<LanguageSpec>, path: Seq<char>, found: Option<usize>) -> bool {
    match lookup_key(path) {
        Some(key) => is_first_holding(recognised_names(languages), normal_form(key), found),
        None => found is None,
    }
}

/// Detection has one answer: a file is of at most one language, and it is
/// either of a language or of none.
pub proof fn lemma_detection_is_unique(
    languages: Seq<LanguageSpec>,
    path: Seq<char>,
    one: Option<usize>,
    other: Option<usize>,
)
    requires
        is_detected(languages, path, one),
        is_detected(languages, path, other),
    ensures
        one == other,
{
    match lookup_key(path) {
        Some(key) => {
            let sets = recognised_names(languages);
            let wanted = normal_form(key);
            if one is Some && other is Some {
                let i = one->0;
                let j = other->0;
                if i < j {
                    assert(!sets[i as int].contains(wanted));
                } else if j < i {
                    assert(!sets[j as int].contains(wanted));
                }
            } else if one is Some {
                assert(!sets[one->0 as int].contains(wanted));
            } else if other is Some {
                assert(!sets[other->0 as int].contains(wanted));
            }
        },
        None => {},
    }
}

/// Brings a name into the form in which names are compared.
pub fn normalize(name: &str) -> (normal: String)
    ensures
        normal@ == normal_form(name@),
{
    to_lowercase(trim_leading_dots(name))
}

fn holds(set: &Vec<String>, wanted: &str) -> (held: bool)
    ensures
        held == set.deep_view().contains(wanted@),
{
    let mut j: usize = 0;
    while j < set.len()
        invariant
            j <= set.len(),
            forall|k: int| 0 <= k < j ==> set.deep_view()[k] != wanted@,
        decreases set.len() - j,
    {
        if same_text(set[j].as_str(), wanted) {
            assert(set.deep_view()[j as int] == wanted@);
            return true;
        }
        j += 1;
    }
    false
}

/// The position of the first of `sets` that holds `wanted`.
pub fn first_holding(sets: &Vec<Vec<String>>, wanted: &str) -> (found: Option<usize>)
    ensures
        is_first_holding(sets.deep_view(), wanted@, found),
{
    let mut i: usize = 0;
    while i < sets.len()
        invariant
            i <= sets.len(),
            forall|j: int| 0 <= j < i ==> !(#[trigger] sets.deep_view()[j]).contains(wanted@),
        decreases sets.len() - i,
    {
        if holds(&sets[i], wanted) {
            assert(sets.deep_view()[i as int] == sets[i as int].deep_view());
            return Some(i);
        }
        assert(sets.deep_view()[i as int] == sets[i as int].deep_view());
        i += 1;
    }
    None
}

fn normalized_names(language: &LanguageConfig) -> (names: Vec<String>)
    ensures
        names.deep_view() == normal_forms(language@.extensions),
{
    let mut names: Vec<String> = Vec::new();
    let mut j: usize = 0;
    while j < language.extensions.len()
        invariant
            j <= language.extensions.len(),
            names.len() == j,
            forall|k: int|
                0 <= k < j ==> (#[trigger] names[k])@ == normal_form(language.extensions[k]@),
        decreases language.extensions.len() - j,
    {
        names.push(normalize(language.extensions[j]));
        j += 1;
    }
    assert(names.deep_view() =~= normal_forms(language@.extensions));
    names
}

/// Detects the language of the file at `path` among `languages` and returns
/// its position: the first language, in the order of `languages`, that
/// recognises the extension of the file, or its file name where it has no
/// extension. `None` where no language does, or the path has no file name.
pub fn find_language(languages: &Vec<LanguageConfig>, path: &str) -> (found: Option<usize>)
    ensures
        is_detected(languages.deep_view(), path@, found),
{
    let key = match extension_of(path) {
        Some(extension) => extension,
        None => match file_name_of(path) {
            Some(name) => name,
            None => {
                return None;
            },
        },
    };
    let wanted = normalize(key.as_str());
    let mut sets: Vec<Vec<String>> = Vec::new();
    let mut i: usize = 0;
    while i < languages.len()
        invariant
            i <= languages.len(),
            sets.len() == i,
            forall|k: int|
                0 <= k < i ==> (#[trigger] sets[k]).deep_view() == normal_forms(
                    languages[k]@.extensions,
                ),
        decreases languages.len() - i,
    {
        sets.push(normalized_names(&languages[i]));
        i += 1;
    }
    assert(sets.deep_view() =~= recognised_names(languages.deep_view()));
    first_holding(&sets, wanted.as_str())
}

/// Detects the language of the file at `path` among the languages of the
/// catalogue.
pub fn get_language_for_file(path: &str) -> (language: Option<LanguageConfig>)
    ensures
        match language {
            Some(language) => exists|i: usize|
                #![trigger catalog()[i as int]]
                is_detected(catalog(), path@, Some(i)) && language@ == catalog()[i as int],
            None => is_detected(catalog(), path@, None),
        },
{
    let mut all = languages();
    match find_language(&all, path) {
        Some(i) => {
            let language = all.swap_remove(i);
            assert(language@ == catalog()[i as int]);
            Some(language)
        },
        None => None,
    }
}

} // verus!
