//! The command gate: decides whether an executable may be launched at all.
//!
//! A command is reduced to a bare program name (its last path segment, in
//! lower case, without one launcher suffix) and that name is looked up in a
//! fixed allow-list.

use vstd::prelude::*;
use crate::outside::lowercase_of;
use crate::text::{chars_of, same_chars, string_of};

verus! {

/// `/` and `\` both separate path segments.
pub open spec fn is_separator(c: char) -> bool {
    c == '/' || c == '\\'
}

/// No character of `s` separates path segments.
pub open spec fn separator_free(s: Seq<char>) -> bool {
    forall|i: int| 0 <= i < s.len() ==> !is_separator(#[trigger] s[i])
}

/// Where the last path segment of `s` begins: just behind the last separator,
/// or at 0 when `s` has none.
pub open spec fn last_segment_start(s: Seq<char>) -> int
    decreases s.len(),
{
    if s.len() == 0 {
        0
    } else if is_separator(s.last()) {
        s.len() as int
    } else {
        last_segment_start(s.drop_last())
    }
}

/// The last path segment of `s`.
pub open spec fn last_segment(s: Seq<char>) -> Seq<char> {
    s.skip(last_segment_start(s))
}

/// The launcher suffixes: `.exe`, `.cmd`, `.bat`.
pub open spec fn is_launcher_suffix(s: Seq<char>) -> bool {
    s == seq!['.', 'e', 'x', 'e'] || s == seq!['.', 'c', 'm', 'd'] || s == seq!['.', 'b', 'a', 't']
}

/// `s` ends in a launcher suffix.
pub open spec fn has_launcher_suffix(s: Seq<char>) -> bool {
    s.len() >= 4 && is_launcher_suffix(s.skip(s.len() - 4))
}

/// `s` without its launcher suffix, when it has one.
pub open spec fn strip_launcher_suffix(s: Seq<char>) -> Seq<char> {
    if has_launcher_suffix(s) {
        s.take(s.len() - 4)
    } else {
        s
    }
}

/// The allow-list.
pub open spec fn allowed_names() -> Seq<Seq<char>> {
    seq![
        "npx"@,
        "node"@,
        "npm"@,
        "uvx"@,
        "uv"@,
        "python"@,
        "python3"@,
        "pip"@,
        "pip3"@,
        "docker"@,
        "deno"@,
        "bun"@,
    ]
}

/// The allow-list as it is shown to a person: the names in quotes, between
/// brackets.
pub open spec fn allow_list_text() -> Seq<char> {
    "[\"npx\", \"node\", \"npm\", \"uvx\", \"uv\", \"python\", \"python3\", \"pip\", \"pip3\", \"docker\", \"deno\", \"bun\"]"@
}

/// The allow-list as it is shown to a person.
pub fn allow_list_label() -> (label: &'static str)
    ensures
        label@ == allow_list_text(),
{
    "[\"npx\", \"node\", \"npm\", \"uvx\", \"uv\", \"python\", \"python3\", \"pip\", \"pip3\", \"docker\", \"deno\", \"bun\"]"
}

/// A path segment that is already in lower case is allowed when, without its
/// launcher suffix, it is on the allow-list.
pub open spec fn lowered_segment_allowed(lowered: Seq<char>) -> bool {
    allowed_names().contains(strip_launcher_suffix(lowered))
}

/// The program name that a command stands for: its last path segment, in
/// lower case, without its launcher suffix.
pub open spec fn program_name(command: Seq<char>) -> Seq<char> {
    strip_launcher_suffix(lowercase_of(last_segment(command)))
}

/// A command is allowed when its program name is on the allow-list.
pub open spec fn command_allowed(command: Seq<char>) -> bool {
    allowed_names().contains(program_name(command))
}

/// The last segment is the one suffix of `s` that holds no separator and is
/// either all of `s` or preceded by a separator.
pub proof fn lemma_last_segment(s: Seq<char>)
    ensures
        0 <= last_segment_start(s) <= s.len(),
        separator_free(last_segment(s)),
        last_segment_start(s) > 0 ==> is_separator(s[last_segment_start(s) - 1]),
    decreases s.len(),
{
    if s.len() > 0 && !is_separator(s.last()) {
        let t = s.drop_last();
        lemma_last_segment(t);
        assert forall|i: int| 0 <= i < last_segment(s).len() implies !is_separator(
            #[trigger] last_segment(s)[i],
        ) by {
            if i < last_segment(t).len() {
                assert(last_segment(s)[i] == last_segment(t)[i]);
            }
        }
    }
}

/// A suffix without separators that begins at 0 or behind a separator is the
/// last segment.
pub proof fn lemma_last_segment_unique(s: Seq<char>, start: int)
    requires
        0 <= start <= s.len(),
        separator_free(s.skip(start)),
        start > 0 ==> is_separator(s[start - 1]),
    ensures
        last_segment_start(s) == start,
    decreases s.len(),
{
    if s.len() > 0 {
        if is_separator(s.last()) {
            if start < s.len() {
                assert(s.skip(start)[s.len() - 1 - start] == s.last());
            }
        } else {
            let t = s.drop_last();
            assert forall|i: int| 0 <= i < t.skip(start).len() implies !is_separator(
                #[trigger] t.skip(start)[i],
            ) by {
                assert(t.skip(start)[i] == s.skip(start)[i]);
            }
            lemma_last_segment_unique(t, start);
        }
    }
}

/// Every name on the allow-list is free of `.`, `/` and `\\`.
pub proof fn lemma_allowed_names_are_plain(name: Seq<char>)
    requires
        allowed_names().contains(name),
    ensures
        separator_free(name),
        forall|i: int| 0 <= i < name.len() ==> name[i] != '.',
        name.len() > 0,
{
    reveal_strlit("npx");
    reveal_strlit("node");
    reveal_strlit("npm");
    reveal_strlit("uvx");
    reveal_strlit("uv");
    reveal_strlit("python");
    reveal_strlit("python3");
    reveal_strlit("pip");
    reveal_strlit("pip3");
    reveal_strlit("docker");
    reveal_strlit("deno");
    reveal_strlit("bun");
    let names = allowed_names();
    let k = choose|k: int| 0 <= k < names.len() && names[k] == name;
    assert(names[k] == name);
}

/// Every allow-listed name is an allowed segment, with or without one
/// launcher suffix behind it.
pub proof fn lemma_listed_names_are_allowed(name: Seq<char>, suffix: Seq<char>)
    requires
        allowed_names().contains(name),
        suffix.len() == 0 || is_launcher_suffix(suffix),
    ensures
        strip_launcher_suffix(name + suffix) == name,
        lowered_segment_allowed(name + suffix),
{
    lemma_allowed_names_are_plain(name);
    let whole = name + suffix;
    if suffix.len() == 0 {
        assert(whole =~= name);
        if name.len() >= 4 {
            assert(name.skip(name.len() - 4)[0] == name[name.len() - 4]);
        }
    } else {
        assert(whole.skip(whole.len() - 4) =~= suffix);
        assert(whole.take(whole.len() - 4) =~= name);
    }
}

/// Only the last path segment decides: the directories before it change
/// nothing.
pub proof fn lemma_directories_are_ignored(dir: Seq<char>, rest: Seq<char>)
    requires
        dir.len() == 0 || is_separator(dir.last()),
        separator_free(rest),
    ensures
        last_segment(dir + rest) == rest,
        program_name(dir + rest) == program_name(rest),
        command_allowed(dir + rest) == command_allowed(rest),
{
    let s = dir + rest;
    assert(s.skip(dir.len() as int) =~= rest);
    lemma_last_segment_unique(s, dir.len() as int);
    assert(rest.skip(0) =~= rest);
    lemma_last_segment_unique(rest, 0);
}

/// Index at which the last path segment of `chars` begins.
pub fn find_last_segment(chars: &Vec<char>) -> (start: usize)
    ensures
        start == last_segment_start(chars@),
        start <= chars@.len(),
{
    let mut start: usize = chars.len();
    while start > 0 && chars[start - 1] != '/' && chars[start - 1] != '\\'
        invariant
            start <= chars@.len(),
            separator_free(chars@.skip(start as int)),
        decreases start,
    {
        start -= 1;
        assert forall|i: int| 0 <= i < chars@.skip(start as int).len() implies !is_separator(
            #[trigger] chars@.skip(start as int)[i],
        ) by {
            if i > 0 {
                assert(chars@.skip(start as int)[i] == chars@.skip(start + 1)[i - 1]);
            }
        }
    }
    proof {
        lemma_last_segment_unique(chars@, start as int);
    }
    start
}

/// Whether `chars[from..end]` ends in `.exe`, `.cmd` or `.bat`.
fn ends_with_launcher_suffix(chars: &Vec<char>, from: usize, end: usize) -> (found: bool)
    requires
        from <= end <= chars@.len(),
    ensures
        found == has_launcher_suffix(chars@.subrange(from as int, end as int)),
{
    if end - from < 4 {
        return false;
    }
    let a = chars[end - 4];
    let b = chars[end - 3];
    let c = chars[end - 2];
    let d = chars[end - 1];
    let ghost s = chars@.subrange(from as int, end as int);
    let ghost tail = s.skip(s.len() - 4);
    assert(tail.len() == 4 && tail[0] == a && tail[1] == b && tail[2] == c && tail[3] == d);
    let found = a == '.' && ((b == 'e' && c == 'x' && d == 'e') || (b == 'c' && c == 'm' && d
        == 'd') || (b == 'b' && c == 'a' && d == 't'));
    assert(found ==> is_launcher_suffix(tail)) by {
        if found {
            assert(tail =~= seq![a, b, c, d]);
        }
    }
    found
}

/// Whether `name` is on the allow-list.
pub fn is_allowed_name(name: &Vec<char>) -> (found: bool)
    ensures
        found == allowed_names().contains(name@),
{
    let found = same_chars(name, "npx") || same_chars(name, "node") || same_chars(name, "npm")
        || same_chars(name, "uvx") || same_chars(name, "uv") || same_chars(name, "python")
        || same_chars(name, "python3") || same_chars(name, "pip") || same_chars(name, "pip3")
        || same_chars(name, "docker") || same_chars(name, "deno") || same_chars(name, "bun");
    proof {
        let names = allowed_names();
        if found {
            let k = choose|k: int| 0 <= k < 12 && names[k] == name@;
            assert(names[k] == name@);
        }
    }
    found
}

/// Whether a path segment that is already in lower case names an allowed
/// program.
pub fn is_lowered_segment_allowed(lowered: &str) -> (allowed: bool)
    ensures
        allowed == lowered_segment_allowed(lowered@),
{
    let chars = chars_of(lowered);
    let mut end: usize = chars.len();
    assert(chars@.subrange(0, end as int) =~= chars@);
    if ends_with_launcher_suffix(&chars, 0, end) {
        end -= 4;
        assert(chars@.subrange(0, end as int) =~= chars@.take(chars@.len() - 4));
    }
    let mut name: Vec<char> = Vec::new();
    let mut i: usize = 0;
    while i < end
        invariant
            i <= end <= chars@.len(),
            name@ == chars@.subrange(0, i as int),
        decreases end - i,
    {
        name.push(chars[i]);
        i += 1;
    }
    is_allowed_name(&name)
}

/// Whether `command` may be launched: its last path segment, in lower case
/// and without one trailing `.exe`, `.cmd` or `.bat`, must be on the
/// allow-list.
pub fn is_command_allowed(command: &str) -> (allowed: bool)
    ensures
        allowed == command_allowed(command@),
{
    let chars = chars_of(command);
    let start = find_last_segment(&chars);
    let segment = string_of(&chars, start, chars.len());
    assert(chars@.subrange(start as int, chars@.len() as int) =~= last_segment(chars@));
    let lowered = segment.as_str().to_lowercase();
    is_lowered_segment_allowed(lowered.as_str())
}

} // verus!
