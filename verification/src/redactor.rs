//! The secret redactor: a growing list of sensitive strings, and the filter
//! that blanks them out of text before anyone else sees it.

use vstd::prelude::*;
use crate::redaction_laws::lemma_redaction_leaves_no_secret;
use crate::text::{chars_of, string_of, texts_of};

verus! {

/// The token that takes the place of a secret: `[REDACTED]`.
pub open spec fn marker() -> Seq<char> {
    seq!['[', 'R', 'E', 'D', 'A', 'C', 'T', 'E', 'D', ']']
}

/// `text` with every occurrence of `secret` replaced by the marker, scanning
/// from the left and never looking again at what was replaced. An empty
/// secret changes nothing.
pub open spec fn redact_one(text: Seq<char>, secret: Seq<char>) -> Seq<char>
    decreases text.len(),
{
    if secret.len() == 0 || text.len() == 0 {
        text
    } else if secret.is_prefix_of(text) {
        marker() + redact_one(text.skip(secret.len() as int), secret)
    } else {
        seq![text[0]] + redact_one(text.skip(1), secret)
    }
}

/// `text` after each of `secrets` has been redacted in turn, first to last.
pub open spec fn redact_text(secrets: Seq<Seq<char>>, text: Seq<char>) -> Seq<char>
    decreases secrets.len(),
{
    if secrets.len() == 0 {
        text
    } else {
        redact_one(redact_text(secrets.drop_last(), text), secrets.last())
    }
}

/// `pattern` stands in `text` at index `at`.
pub open spec fn occurs_at(pattern: Seq<char>, text: Seq<char>, at: int) -> bool {
    0 <= at <= text.len() && pattern.is_prefix_of(text.skip(at))
}

/// `pattern` stands somewhere in `text`.
pub open spec fn occurs_in(pattern: Seq<char>, text: Seq<char>) -> bool {
    exists|at: int| occurs_at(pattern, text, at)
}

/// `s` holds neither `[` nor `]`.
pub open spec fn bracket_free(s: Seq<char>) -> bool {
    forall|i: int| 0 <= i < s.len() ==> s[i] != '[' && s[i] != ']'
}

/// The marker without its brackets: `REDACTED`.
pub open spec fn marker_interior() -> Seq<char> {
    marker().subrange(1, 9)
}

/// A secret that cannot be mistaken for a piece of the marker: it holds no
/// bracket and is not a part of the word `REDACTED`. The empty string, which
/// is never redacted, counts as safe.
pub open spec fn marker_safe(secret: Seq<char>) -> bool {
    secret.len() == 0 || (bracket_free(secret) && !occurs_in(secret, marker_interior()))
}

/// Every entry of `secrets` is safe with respect to the marker.
pub open spec fn all_marker_safe(secrets: Seq<Seq<char>>) -> bool {
    forall|i: int| 0 <= i < secrets.len() ==> marker_safe(#[trigger] secrets[i])
}

/// No non-empty entry of `secrets` stands anywhere in `text`.
pub open spec fn free_of_secrets(secrets: Seq<Seq<char>>, text: Seq<char>) -> bool {
    forall|i: int|
        0 <= i < secrets.len() && (#[trigger] secrets[i]).len() > 0 ==> !occurs_in(
            secrets[i],
            text,
        )
}

/// The list after `value` was offered to it: empty values and values already
/// present are ignored, anything else goes to the end.
pub open spec fn register_one(secrets: Seq<Seq<char>>, value: Seq<char>) -> Seq<Seq<char>> {
    if value.len() == 0 || secrets.contains(value) {
        secrets
    } else {
        secrets.push(value)
    }
}

/// The list after each of `values` was offered to it, first to last.
pub open spec fn register_all(secrets: Seq<Seq<char>>, values: Seq<Seq<char>>) -> Seq<Seq<char>>
    decreases values.len(),
{
    if values.len() == 0 {
        secrets
    } else {
        register_one(register_all(secrets, values.drop_last()), values.last())
    }
}

/// What a secret list must satisfy: no empty entry, no entry twice.
pub open spec fn well_formed_secrets(secrets: Seq<Seq<char>>) -> bool {
    &&& forall|i: int| 0 <= i < secrets.len() ==> (#[trigger] secrets[i]).len() > 0
    &&& secrets.no_duplicates()
}

/// The marker as characters.
pub fn marker_chars() -> (out: Vec<char>)
    ensures
        out@ == marker(),
{
    let out = chars_of("[REDACTED]");
    proof {
        reveal_strlit("[REDACTED]");
        assert(out@ =~= marker());
    }
    out
}

/// Whether `pattern` stands in `text` at index `at`.
fn matches_at(text: &Vec<char>, pattern: &Vec<char>, at: usize) -> (found: bool)
    requires
        at <= text@.len(),
    ensures
        found == pattern@.is_prefix_of(text@.skip(at as int)),
{
    let n = pattern.len();
    if text.len() - at < n {
        return false;
    }
    let ghost rest = text@.skip(at as int);
    let mut k: usize = 0;
    while k < n
        invariant
            k <= n,
            n == pattern@.len(),
            at + n <= text.len(),
            rest == text@.skip(at as int),
            pattern@.take(k as int) == rest.take(k as int),
        decreases n - k,
    {
        if text[at + k] != pattern[k] {
            assert(rest.subrange(0, n as int)[k as int] != pattern@[k as int]);
            return false;
        }
        assert(pattern@.take(k + 1) =~= pattern@.take(k as int).push(pattern@[k as int]));
        assert(rest.take(k + 1) =~= rest.take(k as int).push(rest[k as int]));
        k += 1;
    }
    assert(pattern@.take(n as int) =~= pattern@);
    true
}

/// `text` with every occurrence of `secret` replaced by the marker.
pub fn redact_chars(text: &Vec<char>, secret: &Vec<char>) -> (out: Vec<char>)
    ensures
        out@ == redact_one(text@, secret@),
{
    let mark = marker_chars();
    let mut out: Vec<char> = Vec::new();
    let mut i: usize = 0;
    if secret.len() == 0 {
        while i < text.len()
            invariant
                i <= text@.len(),
                out@ == text@.take(i as int),
            decreases text@.len() - i,
        {
            out.push(text[i]);
            assert(text@.take(i + 1) =~= text@.take(i as int).push(text@[i as int]));
            i += 1;
        }
        assert(text@.take(i as int) =~= text@);
        return out;
    }
    assert(text@.skip(0) =~= text@);
    while i < text.len()
        invariant
            i <= text@.len(),
            secret@.len() > 0,
            mark@ == marker(),
            redact_one(text@, secret@) == out@ + redact_one(text@.skip(i as int), secret@),
        decreases text@.len() - i,
    {
        let ghost rest = text@.skip(i as int);
        let ghost before = out@;
        if matches_at(text, secret, i) {
            let mut k: usize = 0;
            while k < mark.len()
                invariant
                    k <= mark@.len(),
                    out@ == before + mark@.take(k as int),
                decreases mark@.len() - k,
            {
                out.push(mark[k]);
                assert(mark@.take(k + 1) =~= mark@.take(k as int).push(mark@[k as int]));
                k += 1;
            }
            assert(mark@.take(k as int) =~= mark@);
            i += secret.len();
            assert(rest.skip(secret@.len() as int) =~= text@.skip(i as int));
            assert(before + (marker() + redact_one(text@.skip(i as int), secret@)) =~= out@
                + redact_one(text@.skip(i as int), secret@));
        } else {
            out.push(text[i]);
            i += 1;
            assert(rest.skip(1) =~= text@.skip(i as int));
            assert(before + (seq![rest[0]] + redact_one(text@.skip(i as int), secret@)) =~= out@
                + redact_one(text@.skip(i as int), secret@));
        }
    }
    assert(out@ + redact_one(text@.skip(i as int), secret@) =~= out@);
    out
}

/// The secrets known so far, in the order in which they were registered.
/// Entries are never removed; no entry is empty and none occurs twice.
pub struct SecretSet {
    secrets: Vec<String>,
}

impl View for SecretSet {
    type V = Seq<Seq<char>>;

    closed spec fn view(&self) -> Seq<Seq<char>> {
        texts_of(self.secrets@)
    }
}

impl SecretSet {
    #[verifier::type_invariant]
    spec fn well_formed(self) -> bool {
        well_formed_secrets(texts_of(self.secrets@))
    }

    /// A list without secrets.
    pub fn new() -> (set: Self)
        ensures
            set@ == Seq::<Seq<char>>::empty(),
            well_formed_secrets(set@),
    {
        let set = SecretSet { secrets: Vec::new() };
        assert(texts_of(set.secrets@) =~= Seq::<Seq<char>>::empty());
        set
    }

    /// How many secrets are registered.
    pub fn len(&self) -> (n: usize)
        ensures
            n == self@.len(),
            well_formed_secrets(self@),
    {
        proof {
            use_type_invariant(self);
        }
        self.secrets.len()
    }

    /// Whether `value` is registered.
    pub fn contains(&self, value: &str) -> (found: bool)
        ensures
            found == self@.contains(value@),
    {
        let wanted = value.to_owned();
        let mut i: usize = 0;
        while i < self.secrets.len()
            invariant
                i <= self.secrets@.len(),
                wanted@ == value@,
                forall|k: int| 0 <= k < i ==> texts_of(self.secrets@)[k] != value@,
            decreases self.secrets@.len() - i,
        {
            if self.secrets[i] == wanted {
                assert(texts_of(self.secrets@)[i as int] == value@);
                return true;
            }
            i += 1;
        }
        false
    }

    /// Offers one value: it is appended unless it is empty or already there.
    pub fn register_value(&mut self, value: String)
        ensures
            final(self)@ == register_one(old(self)@, value@),
            well_formed_secrets(final(self)@),
    {
        proof {
            use_type_invariant(&*self);
        }
        if !value.as_str().is_empty() && !self.contains(value.as_str()) {
            let ghost before = texts_of(self.secrets@);
            let mut grown: Vec<String> = Vec::new();
            assert(texts_of(grown@) =~= Seq::<Seq<char>>::empty());
            core::mem::swap(&mut self.secrets, &mut grown);
            grown.push(value);
            assert(texts_of(grown@) =~= before.push(value@));
            core::mem::swap(&mut self.secrets, &mut grown);
        }
    }

    /// Offers each of `values` in turn.
    pub fn register(&mut self, values: Vec<String>)
        ensures
            final(self)@ == register_all(old(self)@, texts_of(values@)),
            well_formed_secrets(final(self)@),
    {
        let ghost offered = texts_of(values@);
        let mut i: usize = 0;
        assert(offered.take(0) =~= Seq::<Seq<char>>::empty());
        while i < values.len()
            invariant
                i <= values@.len(),
                offered == texts_of(values@),
                self@ == register_all(old(self)@, offered.take(i as int)),
            decreases values@.len() - i,
        {
            let value = values[i].clone();
            assert(offered.take(i + 1).drop_last() =~= offered.take(i as int));
            assert(offered.take(i + 1).last() == value@);
            self.register_value(value);
            i += 1;
        }
        assert(offered.take(i as int) =~= offered);
        proof {
            use_type_invariant(&*self);
        }
    }

    /// `text` with every registered secret replaced by `[REDACTED]`, the
    /// secrets taken in the order of their registration.
    pub fn redact(&self, text: &str) -> (clean: String)
        ensures
            clean@ == redact_text(self@, text@),
            all_marker_safe(self@) ==> free_of_secrets(self@, clean@),
    {
        proof {
            if all_marker_safe(self@) {
                lemma_redaction_leaves_no_secret(self@, text@);
            }
        }
        let ghost secrets = texts_of(self.secrets@);
        let mut current = chars_of(text);
        let mut i: usize = 0;
        assert(secrets.take(0) =~= Seq::<Seq<char>>::empty());
        while i < self.secrets.len()
            invariant
                i <= self.secrets@.len(),
                secrets == texts_of(self.secrets@),
                current@ == redact_text(secrets.take(i as int), text@),
            decreases self.secrets@.len() - i,
        {
            let secret = chars_of(self.secrets[i].as_str());
            assert(secrets.take(i + 1).drop_last() =~= secrets.take(i as int));
            assert(secrets.take(i + 1).last() == secret@);
            current = redact_chars(&current, &secret);
            i += 1;
        }
        assert(secrets.take(i as int) =~= secrets);
        let clean = string_of(&current, 0, current.len());
        assert(current@.subrange(0, current@.len() as int) =~= current@);
        clean
    }

    /// A copy of the list as it stands now; later registrations do not reach
    /// the copy.
    pub fn snapshot(&self) -> (copy: Self)
        ensures
            copy@ == self@,
            well_formed_secrets(copy@),
    {
        proof {
            use_type_invariant(self);
        }
        let mut secrets: Vec<String> = Vec::new();
        let mut i: usize = 0;
        while i < self.secrets.len()
            invariant
                i <= self.secrets@.len(),
                texts_of(secrets@) == texts_of(self.secrets@).take(i as int),
            decreases self.secrets@.len() - i,
        {
            let ghost before = texts_of(secrets@);
            secrets.push(self.secrets[i].clone());
            assert(texts_of(secrets@) =~= before.push(self.secrets@[i as int]@));
            assert(texts_of(self.secrets@).take(i + 1) =~= texts_of(self.secrets@).take(
                i as int,
            ).push(self.secrets@[i as int]@));
            i += 1;
        }
        assert(texts_of(self.secrets@).take(i as int) =~= texts_of(self.secrets@));
        SecretSet { secrets }
    }

    /// The registered secrets, first to last.
    pub fn to_vec(&self) -> (values: Vec<String>)
        ensures
            texts_of(values@) == self@,
    {
        self.snapshot().secrets
    }
}

} // verus!
