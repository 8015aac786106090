//! Searching the directories above a file.
//!
//! A search starts at the directory that holds the file and climbs from
//! parent to parent. What it looks for is decided by the caller, and what is
//! on disk is asked of a probe that the caller hands in, so every contract
//! here is stated over the answers that the probe gave.

use vstd::prelude::*;
use vstd::string::*;
use crate::paths::{join_path, parent_of, path_join, path_parent};
use crate::text::{same_text, text_of};

verus! {

/// The root directory ends a search: it is not tested. Every other
/// directory is, the current directory `.` and the empty path that is its
/// parent among them.
pub open spec fn ends_search(dir: Seq<char>) -> bool {
    dir == "/"@
}

/// The directories that a search tests from `dir` upwards, nearest first.
/// The climb goes on only while the parent is a shorter path than the
/// directory it was taken from.
pub open spec fn ancestors_from(dir: Seq<char>) -> Seq<Seq<char>>
    decreases dir.len(),
{
    if ends_search(dir) {
        Seq::empty()
    } else {
        seq![dir] + match path_parent(dir) {
            Some(up) => if up.len() < dir.len() {
                ancestors_from(up)
            } else {
                Seq::empty()
            },
            None => Seq::empty(),
        }
    }
}

/// The directories that a search for the file at `start` tests, nearest
/// first: none where the path has no parent.
pub open spec fn search_dirs(start: Seq<char>) -> Seq<Seq<char>> {
    match path_parent(start) {
        Some(dir) => if dir.len() < start.len() {
            ancestors_from(dir)
        } else {
            Seq::empty()
        },
        None => Seq::empty(),
    }
}

/// `test_func`, asked about the directory `dir`, may answer `answer`.
pub open spec fn answers<F: Fn(&str) -> Option<String>>(
    test_func: F,
    dir: Seq<char>,
    answer: Option<String>,
) -> bool {
    exists|d: &str| d@ == dir && call_ensures(test_func, (d,), answer)
}

/// `found` is the first answer other than `None` that `test_func` gave on
/// `dirs`, taken in order; it is `None` where every answer was `None`.
pub open spec fn first_answer<F: Fn(&str) -> Option<String>>(
    test_func: F,
    dirs: Seq<Seq<char>>,
    found: Option<String>,
) -> bool {
    match found {
        Some(hit) => exists|k: int|
            0 <= k < dirs.len() && #[trigger] answers(test_func, dirs[k], Some(hit)) && forall|
                j: int,
            |
                0 <= j < k ==> answers(test_func, #[trigger] dirs[j], None),
        None => forall|j: int| 0 <= j < dirs.len() ==> answers(test_func, #[trigger] dirs[j], None),
    }
}

/// `probe`, asked whether `path` is there, may answer `verdict`.
pub open spec fn says<F: Fn(&str) -> bool>(probe: &F, path: Seq<char>, verdict: bool) -> bool {
    exists|p: &str| p@ == path && call_ensures(*probe, (p,), verdict)
}

/// `found` is the first of `candidates` that `probe` confirmed, every
/// candidate before it having been denied; it is `None` where `probe`
/// denied them all.
pub open spec fn first_hit<F: Fn(&str) -> bool>(
    probe: &F,
    candidates: Seq<Seq<char>>,
    found: Option<Seq<char>>,
) -> bool {
    match found {
        Some(path) => exists|k: int|
            0 <= k < candidates.len() && #[trigger] candidates[k] == path && says(
                probe,
                path,
                true,
            ) && forall|j: int| 0 <= j < k ==> says(probe, #[trigger] candidates[j], false),
        None => forall|j: int|
            0 <= j < candidates.len() ==> says(probe, #[trigger] candidates[j], false),
    }
}

proof fn lemma_ancestors_shrink(dir: Seq<char>)
    ensures
        ancestors_from(dir).len() <= dir.len() + 1,
        forall|i: int|
            0 <= i < ancestors_from(dir).len() ==> (#[trigger] ancestors_from(dir)[i]).len()
                <= dir.len(),
        forall|i: int, j: int|
            0 <= i < j < ancestors_from(dir).len() ==> (#[trigger] ancestors_from(dir)[j]).len() < (
            #[trigger] ancestors_from(dir)[i]).len(),
    decreases dir.len(),
{
    if !ends_search(dir) {
        match path_parent(dir) {
            Some(up) => {
                if up.len() < dir.len() {
                    lemma_ancestors_shrink(up);
                    let rest = ancestors_from(up);
                    assert(ancestors_from(dir) =~= seq![dir] + rest);
                    assert forall|i: int, j: int|
                        0 <= i < j < ancestors_from(dir).len() implies (
                    #[trigger] ancestors_from(dir)[j]).len() < (#[trigger] ancestors_from(
                        dir,
                    )[i]).len() by {
                        assert(ancestors_from(dir)[j] == rest[j - 1]);
                        if i > 0 {
                            assert(ancestors_from(dir)[i] == rest[i - 1]);
                        }
                    }
                } else {
                    assert(ancestors_from(dir) =~= seq![dir]);
                }
            },
            None => {
                assert(ancestors_from(dir) =~= seq![dir]);
            },
        }
    }
}

/// A search is bounded and never comes back to a directory: it tests no
/// more directories than the path of the file has characters, each
/// directory it tests is a shorter path than the one before, and so no
/// directory is tested twice.
pub proof fn lemma_search_never_revisits(start: Seq<char>)
    ensures
        search_dirs(start).len() <= start.len(),
        forall|i: int, j: int|
            0 <= i < j < search_dirs(start).len() ==> (#[trigger] search_dirs(start)[j]).len() < (
            #[trigger] search_dirs(start)[i]).len(),
        forall|i: int, j: int|
            0 <= i < j < search_dirs(start).len() ==> #[trigger] search_dirs(start)[i]
                != #[trigger] search_dirs(start)[j],
{
    match path_parent(start) {
        Some(dir) => {
            if dir.len() < start.len() {
                lemma_ancestors_shrink(dir);
            }
        },
        None => {},
    }
}

/// Tests the directories above the file at `start_path`, nearest first, and
/// returns the first answer that `test_func` gives. The search ends without
/// an answer at the root directory, where the path has no parent, and where
/// a directory has no parent that is a shorter path.
pub fn find_in_parent_dirs<F: Fn(&str) -> Option<String>>(start_path: &str, test_func: F) -> (found:
    Option<String>)
    requires
        forall|d: &str| search_dirs(start_path@).contains(d@) ==> call_requires(test_func, (d,)),
    ensures
        first_answer(test_func, search_dirs(start_path@), found),
{
    let mut dir = match parent_of(start_path) {
        Some(dir) => dir,
        None => {
            return None;
        },
    };
    if dir.as_str().unicode_len() >= start_path.unicode_len() {
        return None;
    }
    let ghost dirs = search_dirs(start_path@);
    let ghost mut k: int = 0;
    loop
        invariant
            dirs == search_dirs(start_path@),
            0 <= k <= dirs.len(),
            ancestors_from(dir@) == dirs.skip(k),
            forall|j: int| 0 <= j < k ==> answers(test_func, #[trigger] dirs[j], None),
            forall|d: &str| dirs.contains(d@) ==> call_requires(test_func, (d,)),
        decreases dir@.len(),
    {
        if same_text(dir.as_str(), "/") {
            assert(dirs.skip(k).len() == 0);
            return None;
        }
        assert(ancestors_from(dir@)[0] == dir@);
        assert(dirs.skip(k).len() > 0);
        assert(dirs[k] == dirs.skip(k)[0]);
        assert(dirs.contains(dir@));
        match test_func(dir.as_str()) {
            Some(result) => {
                assert(answers(test_func, dirs[k], Some(result)));
                return Some(result);
            },
            None => {
                assert(answers(test_func, dirs[k], None));
            },
        }
        let up = match parent_of(dir.as_str()) {
            Some(up) => up,
            None => {
                assert(dirs.skip(k) =~= seq![dir@]);
                return None;
            },
        };
        if up.as_str().unicode_len() >= dir.as_str().unicode_len() {
            assert(dirs.skip(k) =~= seq![dir@]);
            return None;
        }
        proof {
            assert(ancestors_from(up@) =~= dirs.skip(k).skip(1));
            assert(dirs.skip(k).skip(1) =~= dirs.skip(k + 1));
            k = k + 1;
        }
        dir = up;
    }
}

/// The vendored directory of a language's ecosystem, as the two directory
/// names that lead to its binaries; `None` for a language that has none.
pub open spec fn vendor_dir(lang_name: Seq<char>) -> Option<(Seq<char>, Seq<char>)> {
    if lang_name == "javascript"@ || lang_name == "typescript"@ || lang_name == "css"@ || lang_name
        == "html"@ || lang_name == "json"@ || lang_name == "yaml"@ || lang_name == "markdown"@ {
        Some(("node_modules"@, ".bin"@))
    } else if lang_name == "php"@ {
        Some(("vendor"@, "bin"@))
    } else {
        None
    }
}

/// Where the vendored binary `executable` would stand below `dir`.
pub open spec fn vendor_candidate(
    dir: Seq<char>,
    place: (Seq<char>, Seq<char>),
    executable: Seq<char>,
) -> Seq<char> {
    path_join(path_join(path_join(dir, place.0), place.1), executable)
}

/// The vendored binaries that a search from `path` tests, nearest first.
pub open spec fn vendor_candidates(
    path: Seq<char>,
    place: (Seq<char>, Seq<char>),
    executable: Seq<char>,
) -> Seq<Seq<char>> {
    Seq::new(
        search_dirs(path).len(),
        |k: int| vendor_candidate(search_dirs(path)[k], place, executable),
    )
}

/// `found` is the vendored binary that a search from `path` comes to for a
/// tool `executable` of the language `lang_name`, going by what `present`
/// said: the nearest one, and none for a language without a vendored
/// directory.
pub open spec fn is_vendored<F: Fn(&str) -> bool>(
    present: &F,
    path: Seq<char>,
    lang_name: Seq<char>,
    executable: Seq<char>,
    found: Option<Seq<char>>,
) -> bool {
    match vendor_dir(lang_name) {
        Some(place) => first_hit(present, vendor_candidates(path, place, executable), found),
        None => found is None,
    }
}

/// `found` is the configuration file that a search from `path` comes to for
/// a tool that recognises `names`, going by what `is_file` said: in the
/// nearest directory that holds one, the name listed first.
pub open spec fn is_config<F: Fn(&str) -> bool>(
    is_file: &F,
    path: Seq<char>,
    names: Seq<Seq<char>>,
    found: Option<Seq<char>>,
) -> bool {
    first_hit(is_file, config_candidates(path, names), found)
}

fn vendor_place(lang_name: &str) -> (place: Option<(&'static str, &'static str)>)
    ensures
        match place {
            Some(names) => vendor_dir(lang_name@) == Some((names.0@, names.1@)),
            None => vendor_dir(lang_name@) is None,
        },
{
    if same_text(lang_name, "javascript") || same_text(lang_name, "typescript") || same_text(
        lang_name,
        "css",
    ) || same_text(lang_name, "html") || same_text(lang_name, "json") || same_text(
        lang_name,
        "yaml",
    ) || same_text(lang_name, "markdown") {
        Some(("node_modules", ".bin"))
    } else if same_text(lang_name, "php") {
        Some(("vendor", "bin"))
    } else {
        None
    }
}

/// Looks above the file at `path` for a binary of `executable` that the
/// project of a language named `lang_name` has vendored. `present` is asked
/// whether a path is there. The nearest vendored binary wins; a language
/// without a vendored directory has none.
pub fn test_vendor<F: Fn(&str) -> bool>(
    path: &str,
    lang_name: &str,
    executable: &str,
    present: &F,
) -> (found: Option<String>)
    requires
        forall|p: &str| call_requires(*present, (p,)),
    ensures
        is_vendored(present, path@, lang_name@, executable@, text_of(found)),
{
    let names = match vendor_place(lang_name) {
        Some(names) => names,
        None => {
            return None;
        },
    };
    let ghost place = (names.0@, names.1@);
    let look = |dir: &str| -> (hit: Option<String>)
        ensures
            match hit {
                Some(p) => p@ == vendor_candidate(dir@, (names.0@, names.1@), executable@) && says(
                    present,
                    p@,
                    true,
                ),
                None => says(present, vendor_candidate(dir@, (names.0@, names.1@), executable@), false),
            },
        {
            let outer = join_path(dir, names.0);
            let inner = join_path(outer.as_str(), names.1);
            let candidate = join_path(inner.as_str(), executable);
            if present(candidate.as_str()) {
                Some(candidate)
            } else {
                None
            }
        };
    let found = find_in_parent_dirs(path, look);
    proof {
        let dirs = search_dirs(path@);
        let candidates = vendor_candidates(path@, place, executable@);
        if found is Some {
            let hit = found->0;
            {
                let k = choose|k: int|
                    0 <= k < dirs.len() && #[trigger] answers(look, dirs[k], Some(hit)) && forall|
                        j: int,
                    |
                        0 <= j < k ==> answers(look, #[trigger] dirs[j], None);
                assert(candidates[k] == hit@);
                assert forall|j: int| 0 <= j < k implies says(
                    present,
                    #[trigger] candidates[j],
                    false,
                ) by {
                    assert(answers(look, dirs[j], None));
                }
            }
        } else {
            {
                assert forall|j: int| 0 <= j < candidates.len() implies says(
                    present,
                    #[trigger] candidates[j],
                    false,
                ) by {
                    assert(answers(look, dirs[j], None));
                }
            }
        }
    }
    found
}

/// The files named `names` as they would stand in `dir`, in the order of the
/// names.
pub open spec fn names_in(dir: Seq<char>, names: Seq<Seq<char>>) -> Seq<Seq<char>> {
    Seq::new(names.len(), |j: int| path_join(dir, names[j]))
}

/// The files named `names` as they would stand in each of `dirs`: all of the
/// first directory, in the order of the names, then all of the next.
pub open spec fn names_in_each(dirs: Seq<Seq<char>>, names: Seq<Seq<char>>) -> Seq<Seq<char>>
    decreases dirs.len(),
{
    if dirs.len() == 0 {
        Seq::empty()
    } else {
        names_in(dirs[0], names) + names_in_each(dirs.skip(1), names)
    }
}

/// The configuration files that a search from `path` tests, in the order in
/// which it tests them: nearest directory first, and in one directory the
/// names in their listed order.
pub open spec fn config_candidates(path: Seq<char>, names: Seq<Seq<char>>) -> Seq<Seq<char>> {
    names_in_each(search_dirs(path), names)
}

proof fn lemma_first_hit_early<F: Fn(&str) -> bool>(
    probe: &F,
    head: Seq<Seq<char>>,
    tail: Seq<Seq<char>>,
    found: Option<Seq<char>>,
)
    requires
        found is Some,
        first_hit(probe, head, found),
    ensures
        first_hit(probe, head + tail, found),
{
    let path = found->0;
    let k = choose|k: int|
        0 <= k < head.len() && #[trigger] head[k] == path && says(probe, path, true) && forall|
            j: int,
        |
            0 <= j < k ==> says(probe, #[trigger] head[j], false);
    assert((head + tail)[k] == path);
    assert forall|j: int| 0 <= j < k implies says(probe, #[trigger] (head + tail)[j], false) by {
        assert((head + tail)[j] == head[j]);
    }
}

proof fn lemma_first_hit_late<F: Fn(&str) -> bool>(
    probe: &F,
    head: Seq<Seq<char>>,
    tail: Seq<Seq<char>>,
    found: Option<Seq<char>>,
)
    requires
        first_hit(probe, head, None),
        first_hit(probe, tail, found),
    ensures
        first_hit(probe, head + tail, found),
{
    let all = head + tail;
    assert forall|j: int| 0 <= j < all.len() && j < head.len() implies says(
        probe,
        #[trigger] all[j],
        false,
    ) by {
        assert(all[j] == head[j]);
    }
    if found is Some {
        let path = found->0;
        let k = choose|k: int|
            0 <= k < tail.len() && #[trigger] tail[k] == path && says(probe, path, true) && forall|
                j: int,
            |
                0 <= j < k ==> says(probe, #[trigger] tail[j], false);
        assert(all[head.len() + k] == path);
        assert forall|j: int| 0 <= j < head.len() + k implies says(
            probe,
            #[trigger] all[j],
            false,
        ) by {
            if j >= head.len() {
                assert(all[j] == tail[j - head.len()]);
            }
        }
    } else {
        assert forall|j: int| 0 <= j < all.len() implies says(probe, #[trigger] all[j], false) by {
            if j >= head.len() {
                assert(all[j] == tail[j - head.len()]);
            }
        }
    }
}

proof fn lemma_first_hit_in_each<F: Fn(&str) -> bool>(
    probe: &F,
    dirs: Seq<Seq<char>>,
    names: Seq<Seq<char>>,
    k: int,
    found: Option<Seq<char>>,
)
    requires
        0 <= k <= dirs.len(),
        forall|j: int| 0 <= j < k ==> first_hit(probe, names_in(#[trigger] dirs[j], names), None),
        k < dirs.len() ==> found is Some && first_hit(probe, names_in(dirs[k], names), found),
        k == dirs.len() ==> found is None,
    ensures
        first_hit(probe, names_in_each(dirs, names), found),
    decreases dirs.len(),
{
    if dirs.len() > 0 {
        let head = names_in(dirs[0], names);
        let rest = dirs.skip(1);
        if k == 0 {
            lemma_first_hit_early(probe, head, names_in_each(rest, names), found);
        } else {
            assert forall|j: int| 0 <= j < k - 1 implies first_hit(
                probe,
                names_in(#[trigger] rest[j], names),
                None,
            ) by {
                assert(rest[j] == dirs[j + 1]);
            }
            if k < dirs.len() {
                assert(rest[k - 1] == dirs[k]);
            }
            lemma_first_hit_in_each(probe, rest, names, k - 1, found);
            lemma_first_hit_late(probe, head, names_in_each(rest, names), found);
        }
    }
}

fn first_in_dir<F: Fn(&str) -> bool>(dir: &str, names: &[&str], probe: &F) -> (found: Option<
    String,
>)
    requires
        forall|p: &str| call_requires(*probe, (p,)),
    ensures
        first_hit(probe, names_in(dir@, names.deep_view()), text_of(found)),
{
    let ghost candidates = names_in(dir@, names.deep_view());
    let mut j: usize = 0;
    while j < names.len()
        invariant
            j <= names.len(),
            candidates == names_in(dir@, names.deep_view()),
            forall|p: &str| call_requires(*probe, (p,)),
            forall|i: int| 0 <= i < j ==> says(probe, #[trigger] candidates[i], false),
        decreases names.len() - j,
    {
        let candidate = join_path(dir, names[j]);
        assert(candidates[j as int] == candidate@);
        if probe(candidate.as_str()) {
            return Some(candidate);
        }
        j += 1;
    }
    None
}

/// Looks above the file at `path` for a configuration file of a tool.
/// `config_files` are the names that the tool recognises, in the order of
/// their priority, and `is_file` is asked whether a path is a regular file.
/// The nearest directory that holds one of the names wins, and in that
/// directory the name listed first.
pub fn test_config_for_tool<F: Fn(&str) -> bool>(
    path: &str,
    config_files: &[&str],
    is_file: &F,
) -> (found: Option<String>)
    requires
        forall|p: &str| call_requires(*is_file, (p,)),
    ensures
        is_config(is_file, path@, config_files.deep_view(), text_of(found)),
{
    let look = |dir: &str| -> (hit: Option<String>)
        ensures
            first_hit(is_file, names_in(dir@, config_files.deep_view()), text_of(hit)),
        { first_in_dir(dir, config_files, is_file) };
    let found = find_in_parent_dirs(path, look);
    proof {
        let dirs = search_dirs(path@);
        let names = config_files.deep_view();
        if found is Some {
            let hit = found->0;
            let k = choose|k: int|
                0 <= k < dirs.len() && #[trigger] answers(look, dirs[k], Some(hit)) && forall|
                    j: int,
                |
                    0 <= j < k ==> answers(look, #[trigger] dirs[j], None);
            assert forall|j: int| 0 <= j < k implies first_hit(
                is_file,
                names_in(#[trigger] dirs[j], names),
                None,
            ) by {
                assert(answers(look, dirs[j], None));
            }
            lemma_first_hit_in_each(is_file, dirs, names, k, text_of(found));
        } else {
            assert forall|j: int| 0 <= j < dirs.len() implies first_hit(
                is_file,
                names_in(#[trigger] dirs[j], names),
                None,
            ) by {
                assert(answers(look, dirs[j], None));
            }
            lemma_first_hit_in_each(is_file, dirs, names, dirs.len() as int, None);
        }
    }
    found
}

} // verus!
