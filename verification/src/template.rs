//! Command templates and their expansion.
//!
//! A template holds two argument patterns, one for a tool that runs with a
//! configuration file and one for a tool that runs without. A slot of a
//! pattern is plain text in which two placeholders may stand, one for the
//! executable and one for the configuration file.

use vstd::prelude::*;
use vstd::string::*;
use crate::text::chars_of;

verus! {

/// The characters of the placeholder for the executable.
pub open spec fn exec_token() -> Seq<char> {
    "{exec}"@
}

/// The characters of the placeholder for the configuration file.
pub open spec fn config_token() -> Seq<char> {
    "{config}"@
}

/// `text` with every occurrence of `from` replaced by `to`. Occurrences are
/// taken from the left and do not overlap. An empty `from` occurs nowhere.
pub open spec fn replace_all(text: Seq<char>, from: Seq<char>, to: Seq<char>) -> Seq<char>
    decreases text.len(),
{
    if from.len() == 0 || text.len() < from.len() {
        text
    } else if text.subrange(0, from.len() as int) == from {
        to + replace_all(text.skip(from.len() as int), from, to)
    } else {
        seq![text[0]] + replace_all(text.skip(1), from, to)
    }
}

/// What one slot of a pattern expands to. The placeholder for the
/// executable is always replaced, the one for the configuration file only
/// where a configuration path is given.
pub open spec fn expand_slot(slot: Seq<char>, exec_path: Seq<char>, config_path: Option<Seq<char>>) -> Seq<
    char,
> {
    let with_exec = replace_all(slot, exec_token(), exec_path);
    match config_path {
        Some(config) => replace_all(with_exec, config_token(), config),
        None => with_exec,
    }
}

/// The characters of an optional string slice.
pub open spec fn str_text_of(value: Option<&str>) -> Option<Seq<char>> {
    match value {
        Some(text) => Some(text@),
        None => None,
    }
}

/// `token` stands in `text` at position `at`.
pub open spec fn stands_at(text: Seq<char>, at: int, token: Seq<char>) -> bool {
    0 <= at && at + token.len() <= text.len() && text.subrange(at, at + token.len()) == token
}

/// Neither placeholder stands anywhere in `text`.
pub open spec fn placeholder_free(text: Seq<char>) -> bool {
    &&& forall|at: int| !#[trigger] stands_at(text, at, exec_token())
    &&& forall|at: int| !#[trigger] stands_at(text, at, config_token())
}

/// No character of `text` is a brace, opening or closing.
pub open spec fn brace_less(text: Seq<char>) -> bool {
    forall|i: int| 0 <= i < text.len() ==> #[trigger] text[i] != '{' && text[i] != '}'
}

/// `slot` holds the placeholder `token` once and no brace beside it.
pub open spec fn holds_one(slot: Seq<char>, token: Seq<char>) -> bool {
    exists|at: int|
        #[trigger] stands_at(slot, at, token) && brace_less(slot.subrange(0, at)) && brace_less(
            slot.subrange(at + token.len(), slot.len() as int),
        )
}

/// `slot` is plain text without braces, or holds one placeholder and no
/// brace beside it: the one for the executable, or, where `with_config`
/// holds, the one for the configuration file.
pub open spec fn simple_slot(slot: Seq<char>, with_config: bool) -> bool {
    ||| brace_less(slot)
    ||| holds_one(slot, exec_token())
    ||| with_config && holds_one(slot, config_token())
}

/// A template as contracts see it: the slots of its two patterns.
#[verifier::ext_equal]
pub struct TemplateSpec {
    /// The pattern used when a configuration path is given.
    pub with_config: Seq<Seq<char>>,
    /// The pattern used when none is given.
    pub without_config: Seq<Seq<char>>,
}

impl TemplateSpec {
    /// The pattern that is expanded: the one with configuration where a
    /// configuration path is given, the other one where none is.
    pub open spec fn pattern(self, with_config: bool) -> Seq<Seq<char>> {
        if with_config {
            self.with_config
        } else {
            self.without_config
        }
    }

    /// The arguments that the template expands to: the chosen pattern, slot
    /// by slot and in its order.
    pub open spec fn expand(self, exec_path: Seq<char>, config_path: Option<Seq<char>>) -> Seq<
        Seq<char>,
    > {
        let pattern = self.pattern(config_path is Some);
        Seq::new(pattern.len(), |i: int| expand_slot(pattern[i], exec_path, config_path))
    }

    /// A template is well formed when every slot of its patterns is simple:
    /// plain text without braces, or one placeholder with no brace beside
    /// it. The pattern without configuration holds no placeholder for a
    /// configuration file.
    pub open spec fn well_formed(self) -> bool {
        &&& forall|i: int|
            0 <= i < self.with_config.len() ==> simple_slot(#[trigger] self.with_config[i], true)
        &&& forall|i: int|
            0 <= i < self.without_config.len() ==> simple_slot(
                #[trigger] self.without_config[i],
                false,
            )
    }
}

/// The two argument patterns of a tool.
pub struct CommandTemplate {
    /// The pattern used when a configuration path is given.
    pub with_config: Vec<&'static str>,
    /// The pattern used when none is given.
    pub without_config: Vec<&'static str>,
}

impl View for CommandTemplate {
    type V = TemplateSpec;

    open spec fn view(&self) -> TemplateSpec {
        TemplateSpec {
            with_config: self.with_config.deep_view(),
            without_config: self.without_config.deep_view(),
        }
    }
}

impl DeepView for CommandTemplate {
    type V = TemplateSpec;

    open spec fn deep_view(&self) -> TemplateSpec {
        self@
    }
}

impl CommandTemplate {
    /// A template of the two patterns.
    pub fn new(with_config: Vec<&'static str>, without_config: Vec<&'static str>) -> (template:
        Self)
        ensures
            template.with_config == with_config,
            template.without_config == without_config,
    {
        Self { with_config, without_config }
    }

    /// Expands the template into the arguments of a command. With a
    /// configuration path the pattern with configuration is taken, without
    /// one the other pattern; every slot has its placeholders replaced by the
    /// paths as they are given.
    pub fn build(&self, exec_path: &str, config_path: Option<&str>) -> (args: Vec<String>)
        ensures
            args.deep_view() == self@.expand(exec_path@, str_text_of(config_path)),
    {
        let selected = if config_path.is_some() {
            &self.with_config
        } else {
            &self.without_config
        };
        let ghost pattern = self@.pattern(config_path is Some);
        let ghost expected = self@.expand(exec_path@, str_text_of(config_path));
        let mut args: Vec<String> = Vec::new();
        let mut i: usize = 0;
        while i < selected.len()
            invariant
                i <= selected.len(),
                selected.deep_view() == pattern,
                expected == self@.expand(exec_path@, str_text_of(config_path)),
                pattern == self@.pattern(config_path is Some),
                args.len() == i,
                forall|j: int| 0 <= j < i ==> (#[trigger] args[j])@ == expected[j],
            decreases selected.len() - i,
        {
            assert(selected[i as int]@ == pattern[i as int]);
            proof {
                reveal_strlit("{exec}");
                reveal_strlit("{config}");
            }
            let mut resolved = replace(selected[i], "{exec}", exec_path);
            if let Some(config) = config_path {
                resolved = replace(resolved.as_str(), "{config}", config);
            }
            args.push(resolved);
            i += 1;
        }
        assert(args.deep_view() =~= expected);
        args
    }
}

fn stands_here(text: &Vec<char>, at: usize, token: &Vec<char>) -> (stands: bool)
    requires
        at + token.len() <= text.len(),
    ensures
        stands == stands_at(text@, at as int, token@),
{
    let mut j: usize = 0;
    while j < token.len()
        invariant
            j <= token.len(),
            at + token.len() <= text.len(),
            forall|k: int| 0 <= k < j ==> text@[at + k] == token@[k],
        decreases token.len() - j,
    {
        if text[at + j] != token[j] {
            assert(text@.subrange(at as int, at + token.len())[j as int] != token@[j as int]);
            return false;
        }
        j += 1;
    }
    assert(text@.subrange(at as int, at + token.len()) =~= token@);
    true
}

/// `text` with every occurrence of `from` replaced by `to`, as
/// `str::replace` does it for a pattern that is not empty. With an empty
/// `from` the text comes back unchanged.
pub fn replace(text: &str, from: &str, to: &str) -> (replaced: String)
    ensures
        replaced@ == replace_all(text@, from@, to@),
{
    let chars = chars_of(text);
    let token = chars_of(from);
    if token.len() == 0 {
        return text.to_owned();
    }
    let mut replaced = String::new();
    // The text from `kept` to `at` holds no occurrence and is not copied yet.
    let mut kept: usize = 0;
    let mut at: usize = 0;
    assert(text@.skip(0) =~= text@);
    assert(replaced@ + text@.subrange(0, 0) =~= Seq::<char>::empty());
    assert(Seq::<char>::empty() + text@ =~= text@);
    while token.len() <= chars.len() - at
        invariant
            chars@ == text@,
            token@ == from@,
            token.len() > 0,
            kept <= at <= chars.len(),
            replace_all(text@, from@, to@) == replaced@ + text@.subrange(kept as int, at as int)
                + replace_all(text@.skip(at as int), from@, to@),
        decreases chars.len() - at,
    {
        let ghost rest = text@.skip(at as int);
        assert(rest.subrange(0, token.len() as int) =~= text@.subrange(
            at as int,
            at + token.len(),
        ));
        if stands_here(&chars, at, &token) {
            replaced.append(text.substring_char(kept, at));
            replaced.append(to);
            at = at + token.len();
            kept = at;
            assert(rest.skip(token.len() as int) =~= text@.skip(at as int));
            assert(text@.subrange(kept as int, at as int) =~= Seq::<char>::empty());
        } else {
            assert(rest.skip(1) =~= text@.skip(at + 1));
            assert(text@.subrange(kept as int, at + 1) =~= text@.subrange(kept as int, at as int)
                + seq![rest[0]]);
            at = at + 1;
        }
    }
    replaced.append(text.substring_char(kept, chars.len()));
    assert(text@.subrange(kept as int, at as int) + text@.skip(at as int) =~= text@.subrange(
        kept as int,
        text@.len() as int,
    ));
    replaced
}

/// A token opens with an opening brace and closes with a closing one.
spec fn is_braced(token: Seq<char>) -> bool {
    &&& token.len() >= 2
    &&& token[0] == '{'
    &&& token[token.len() - 1] == '}'
}

proof fn lemma_tokens_are_braced()
    ensures
        is_braced(exec_token()),
        is_braced(config_token()),
        forall|at: int| !#[trigger] stands_at(config_token(), at, exec_token()),
{
    reveal_strlit("{exec}");
    reveal_strlit("{config}");
    assert forall|at: int| !#[trigger] stands_at(config_token(), at, exec_token()) by {
        if stands_at(config_token(), at, exec_token()) {
            let piece = config_token().subrange(at, at + 6);
            assert(piece[0] == config_token()[at]);
            assert(piece[1] == config_token()[at + 1]);
        }
    }
}

/// Replacing leaves a stretch without braces at the start of the text as it
/// is.
proof fn lemma_replace_keeps_plain_start(text: Seq<char>, from: Seq<char>, to: Seq<char>, n: int)
    requires
        from.len() > 0,
        from[0] == '{',
        0 <= n <= text.len(),
        forall|i: int| 0 <= i < n ==> #[trigger] text[i] != '{',
    ensures
        replace_all(text, from, to) == text.take(n) + replace_all(text.skip(n), from, to),
    decreases n,
{
    if n == 0 {
        assert(text.skip(0) =~= text);
        assert(text.take(0) + text =~= text);
    } else {
        assert(text[0] != '{');
        if text.len() < from.len() {
            assert(replace_all(text.skip(n), from, to) == text.skip(n));
            assert(text.take(n) + text.skip(n) =~= text);
        } else {
            assert(text.subrange(0, from.len() as int)[0] == text[0]);
            let rest = text.skip(1);
            assert forall|i: int| 0 <= i < n - 1 implies #[trigger] rest[i] != '{' by {
                assert(rest[i] == text[i + 1]);
            }
            lemma_replace_keeps_plain_start(rest, from, to, n - 1);
            assert(rest.skip(n - 1) =~= text.skip(n));
            assert(seq![text[0]] + rest.take(n - 1) =~= text.take(n));
            assert(seq![text[0]] + (rest.take(n - 1) + replace_all(text.skip(n), from, to))
                =~= text.take(n) + replace_all(text.skip(n), from, to));
        }
    }
}

/// Where `from` stands nowhere in the text, replacing changes nothing.
proof fn lemma_replace_nothing(text: Seq<char>, from: Seq<char>, to: Seq<char>)
    requires
        from.len() > 0,
        forall|at: int| !#[trigger] stands_at(text, at, from),
    ensures
        replace_all(text, from, to) == text,
    decreases text.len(),
{
    if text.len() >= from.len() {
        assert(!stands_at(text, 0, from));
        let rest = text.skip(1);
        assert forall|at: int| !#[trigger] stands_at(rest, at, from) by {
            if stands_at(rest, at, from) {
                assert(rest.subrange(at, at + from.len()) =~= text.subrange(
                    at + 1,
                    at + 1 + from.len(),
                ));
                assert(stands_at(text, at + 1, from));
            }
        }
        lemma_replace_nothing(rest, from, to);
        assert(seq![text[0]] + rest =~= text);
    }
}

/// A braced token stands nowhere in a text without braces.
proof fn lemma_no_token_without_braces(text: Seq<char>, token: Seq<char>)
    requires
        is_braced(token),
        brace_less(text),
    ensures
        forall|at: int| !#[trigger] stands_at(text, at, token),
{
    assert forall|at: int| !#[trigger] stands_at(text, at, token) by {
        if stands_at(text, at, token) {
            assert(text.subrange(at, at + token.len())[0] == text[at]);
        }
    }
}

/// Between two texts without braces a braced token can only stand where it
/// stands in the text between them.
proof fn lemma_no_token_around(
    pre: Seq<char>,
    value: Seq<char>,
    suf: Seq<char>,
    token: Seq<char>,
)
    requires
        is_braced(token),
        brace_less(pre),
        brace_less(suf),
        forall|at: int| !#[trigger] stands_at(value, at, token),
    ensures
        forall|at: int| !#[trigger] stands_at(pre + value + suf, at, token),
{
    let text = pre + value + suf;
    assert forall|at: int| !#[trigger] stands_at(text, at, token) by {
        if stands_at(text, at, token) {
            let piece = text.subrange(at, at + token.len());
            let last = at + token.len() - 1;
            assert(piece[0] == text[at]);
            assert(piece[token.len() - 1] == text[last]);
            if at < pre.len() {
                assert(text[at] == pre[at]);
            }
            if last >= pre.len() + value.len() {
                assert(text[last] == suf[last - pre.len() - value.len()]);
            }
            let inner = at - pre.len();
            assert(value.subrange(inner, inner + token.len()) =~= piece);
            assert(stands_at(value, inner, token));
        }
    }
}

/// Replacing the one placeholder of a simple slot puts the value in its
/// place and leaves the text around it as it is.
proof fn lemma_replace_one(pre: Seq<char>, token: Seq<char>, suf: Seq<char>, to: Seq<char>)
    requires
        is_braced(token),
        brace_less(pre),
        brace_less(suf),
    ensures
        replace_all(pre + token + suf, token, to) == pre + to + suf,
{
    let text = pre + token + suf;
    let rest = token + suf;
    assert forall|i: int| 0 <= i < pre.len() implies #[trigger] text[i] != '{' by {
        assert(text[i] == pre[i]);
    }
    lemma_replace_keeps_plain_start(text, token, to, pre.len() as int);
    assert(text.take(pre.len() as int) =~= pre);
    assert(text.skip(pre.len() as int) =~= rest);
    assert(rest.subrange(0, token.len() as int) =~= token);
    assert(rest.skip(token.len() as int) =~= suf);
    lemma_no_token_without_braces(suf, token);
    lemma_replace_nothing(suf, token, to);
    assert(pre + (to + suf) =~= pre + to + suf);
}

/// The text before and after the one placeholder of a slot.
proof fn lemma_split_at_placeholder(slot: Seq<char>, token: Seq<char>) -> (parts: (
    Seq<char>,
    Seq<char>,
))
    requires
        holds_one(slot, token),
    ensures
        brace_less(parts.0),
        brace_less(parts.1),
        slot == parts.0 + token + parts.1,
{
    let at = choose|at: int|
        #[trigger] stands_at(slot, at, token) && brace_less(slot.subrange(0, at)) && brace_less(
            slot.subrange(at + token.len(), slot.len() as int),
        );
    let pre = slot.subrange(0, at);
    let suf = slot.subrange(at + token.len(), slot.len() as int);
    assert(slot =~= pre + slot.subrange(at, at + token.len()) + suf);
    (pre, suf)
}

/// A simple slot, expanded with paths that hold no placeholder, holds no
/// placeholder.
proof fn lemma_expanded_slot_holds_no_placeholder(
    slot: Seq<char>,
    exec_path: Seq<char>,
    config_path: Option<Seq<char>>,
)
    requires
        simple_slot(slot, config_path is Some),
        placeholder_free(exec_path),
        config_path is Some ==> placeholder_free(config_path->0),
    ensures
        placeholder_free(expand_slot(slot, exec_path, config_path)),
{
    lemma_tokens_are_braced();
    let exec = exec_token();
    let conf = config_token();
    if brace_less(slot) {
        lemma_no_token_without_braces(slot, exec);
        lemma_no_token_without_braces(slot, conf);
        lemma_replace_nothing(slot, exec, exec_path);
        if config_path is Some {
            lemma_replace_nothing(slot, conf, config_path->0);
        }
    } else if holds_one(slot, exec) {
        let (pre, suf) = lemma_split_at_placeholder(slot, exec);
        let filled = pre + exec_path + suf;
        lemma_replace_one(pre, exec, suf, exec_path);
        lemma_no_token_around(pre, exec_path, suf, exec);
        lemma_no_token_around(pre, exec_path, suf, conf);
        if config_path is Some {
            lemma_replace_nothing(filled, conf, config_path->0);
        }
    } else {
        let config = config_path->0;
        let (pre, suf) = lemma_split_at_placeholder(slot, conf);
        lemma_no_token_around(pre, conf, suf, exec);
        lemma_replace_nothing(slot, exec, exec_path);
        lemma_replace_one(pre, conf, suf, config);
        lemma_no_token_around(pre, config, suf, exec);
        lemma_no_token_around(pre, config, suf, conf);
    }
}

/// Expansion leaves no placeholder behind. For a well-formed template and
/// paths in which neither placeholder stands, neither placeholder stands in
/// any argument of the expansion. This holds with a configuration path,
/// where both placeholders are replaced, and without one, where the pattern
/// holds only the placeholder for the executable.
pub proof fn lemma_expansion_leaves_no_placeholder(
    template: TemplateSpec,
    exec_path: Seq<char>,
    config_path: Option<Seq<char>>,
)
    requires
        template.well_formed(),
        placeholder_free(exec_path),
        config_path is Some ==> placeholder_free(config_path->0),
    ensures
        forall|i: int|
            0 <= i < template.expand(exec_path, config_path).len() ==> placeholder_free(
                #[trigger] template.expand(exec_path, config_path)[i],
            ),
{
    let args = template.expand(exec_path, config_path);
    let pattern = template.pattern(config_path is Some);
    assert forall|i: int| 0 <= i < args.len() implies placeholder_free(#[trigger] args[i]) by {
        assert(simple_slot(pattern[i], config_path is Some));
        lemma_expanded_slot_holds_no_placeholder(pattern[i], exec_path, config_path);
    }
}

/// Without a configuration path the expansion is the pattern without
/// configuration, slot by slot, with nothing but the placeholder for the
/// executable replaced.
pub proof fn lemma_expansion_without_configuration(template: TemplateSpec, exec_path: Seq<char>)
    ensures
        template.expand(exec_path, None).len() == template.without_config.len(),
        forall|i: int|
            0 <= i < template.without_config.len() ==> #[trigger] template.expand(
                exec_path,
                None,
            )[i] == replace_all(template.without_config[i], exec_token(), exec_path),
{
}

} // verus!
