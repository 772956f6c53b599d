//! What redaction guarantees: when it leaves text alone, when no secret
//! survives it, and when running it twice is the same as running it once.

use vstd::prelude::*;
use crate::redactor::{all_marker_safe, free_of_secrets, marker, marker_interior, marker_safe,
    occurs_at, occurs_in, redact_one, redact_text, register_all, register_one,
    well_formed_secrets};

verus! {

/// An occurrence in a tail of `text` is an occurrence in `text`.
pub proof fn lemma_occurs_in_tail(pattern: Seq<char>, text: Seq<char>, cut: int)
    requires
        0 <= cut <= text.len(),
        occurs_in(pattern, text.skip(cut)),
    ensures
        occurs_in(pattern, text),
{
    let at = choose|at: int| occurs_at(pattern, text.skip(cut), at);
    assert(text.skip(cut).skip(at) =~= text.skip(cut + at));
    assert(occurs_at(pattern, text, cut + at));
}

/// Text in which a secret does not occur passes its redaction unchanged.
pub proof fn lemma_redact_one_absent(text: Seq<char>, secret: Seq<char>)
    requires
        !occurs_in(secret, text),
    ensures
        redact_one(text, secret) == text,
    decreases text.len(),
{
    if secret.len() > 0 && text.len() > 0 {
        assert(text.skip(0) =~= text);
        assert(!occurs_at(secret, text, 0));
        if occurs_in(secret, text.skip(1)) {
            lemma_occurs_in_tail(secret, text, 1);
        }
        lemma_redact_one_absent(text.skip(1), secret);
        assert(seq![text[0]] + text.skip(1) =~= text);
    }
}

/// Text that holds none of the secrets passes redaction unchanged.
pub proof fn lemma_redact_text_absent(secrets: Seq<Seq<char>>, text: Seq<char>)
    requires
        free_of_secrets(secrets, text),
    ensures
        redact_text(secrets, text) == text,
    decreases secrets.len(),
{
    if secrets.len() > 0 {
        let front = secrets.drop_last();
        assert forall|i: int| 0 <= i < front.len() && (#[trigger] front[i]).len() > 0 implies !occurs_in(
            front[i],
            text,
        ) by {
            assert(front[i] == secrets[i]);
        }
        lemma_redact_text_absent(front, text);
        if secrets.last().len() > 0 {
            lemma_redact_one_absent(text, secrets.last());
        }
    }
}

/// As far as the redacted text shows no `[`, it is the text as it was.
pub proof fn lemma_redacted_prefix(text: Seq<char>, secret: Seq<char>, n: int)
    requires
        secret.len() > 0,
        0 <= n <= redact_one(text, secret).len(),
        forall|k: int| 0 <= k < n ==> redact_one(text, secret)[k] != '[',
    ensures
        n <= text.len(),
        text.take(n) == redact_one(text, secret).take(n),
    decreases n,
{
    let r = redact_one(text, secret);
    if n > 0 {
        assert(text.len() > 0);
        if secret.is_prefix_of(text) {
            assert(r[0] == marker()[0]);
            assert(false);
        } else {
            let rest = redact_one(text.skip(1), secret);
            assert forall|k: int| 0 <= k < n - 1 implies rest[k] != '[' by {
                assert(rest[k] == r[k + 1]);
            }
            lemma_redacted_prefix(text.skip(1), secret, n - 1);
            assert(text.take(n) =~= seq![text[0]] + text.skip(1).take(n - 1));
            assert(r.take(n) =~= seq![text[0]] + rest.take(n - 1));
        }
    } else {
        assert(text.take(0) =~= r.take(0));
    }
}

/// A safe pattern cannot begin inside a marker that stands at the front of
/// `whole`.
proof fn lemma_not_inside_marker(pattern: Seq<char>, whole: Seq<char>, at: int)
    requires
        pattern.len() > 0,
        marker_safe(pattern),
        marker().is_prefix_of(whole),
        0 <= at < 10,
    ensures
        !occurs_at(pattern, whole, at),
{
    if occurs_at(pattern, whole, at) {
        let tail = whole.skip(at);
        let n = pattern.len() as int;
        assert(forall|k: int| 0 <= k < n ==> pattern[k] == tail.subrange(0, n)[k]);
        assert(forall|k: int| 0 <= k < 10 ==> whole[k] == whole.subrange(0, 10)[k]);
        assert(pattern[0] == whole[at]);
        if at + n > 9 {
            assert(pattern[9 - at] == whole[9]);
            assert(whole[9] == ']');
        } else {
            assert(at >= 1);
            let inner = marker_interior();
            assert(pattern =~= inner.skip(at - 1).subrange(0, n)) by {
                assert forall|k: int| 0 <= k < n implies pattern[k] == inner.skip(at - 1).subrange(
                    0,
                    n,
                )[k] by {
                    assert(pattern[k] == whole[at + k]);
                    assert(whole[at + k] == marker()[at + k]);
                }
            }
            assert(occurs_at(pattern, inner, at - 1));
        }
    }
}

/// Redacting `secret` leaves no occurrence of a safe pattern, provided the
/// pattern is the secret itself or did not occur before.
pub proof fn lemma_redact_one_clears(text: Seq<char>, secret: Seq<char>, pattern: Seq<char>)
    requires
        secret.len() > 0,
        pattern.len() > 0,
        marker_safe(pattern),
        pattern == secret || !occurs_in(pattern, text),
    ensures
        !occurs_in(pattern, redact_one(text, secret)),
    decreases text.len(),
{
    let r = redact_one(text, secret);
    if text.len() == 0 {
        assert forall|at: int| !occurs_at(pattern, r, at) by {}
    } else if secret.is_prefix_of(text) {
        let cut = secret.len() as int;
        let rest = redact_one(text.skip(cut), secret);
        if pattern != secret && occurs_in(pattern, text.skip(cut)) {
            lemma_occurs_in_tail(pattern, text, cut);
        }
        lemma_redact_one_clears(text.skip(cut), secret, pattern);
        assert(marker().is_prefix_of(r)) by {
            assert(r.subrange(0, 10) =~= marker());
        }
        assert forall|at: int| !occurs_at(pattern, r, at) by {
            if 0 <= at < 10 {
                lemma_not_inside_marker(pattern, r, at);
            } else if 10 <= at <= r.len() {
                assert(r.skip(at) =~= rest.skip(at - 10));
                assert(!occurs_at(pattern, rest, at - 10));
            }
        }
    } else {
        let rest = redact_one(text.skip(1), secret);
        if pattern != secret && occurs_in(pattern, text.skip(1)) {
            lemma_occurs_in_tail(pattern, text, 1);
        }
        lemma_redact_one_clears(text.skip(1), secret, pattern);
        assert forall|at: int| !occurs_at(pattern, r, at) by {
            if at == 0 {
                if occurs_at(pattern, r, 0) {
                    let n = pattern.len() as int;
                    assert(r.skip(0) =~= r);
                    assert forall|k: int| 0 <= k < n implies r[k] != '[' by {
                        assert(r[k] == r.subrange(0, n)[k]);
                    }
                    lemma_redacted_prefix(text, secret, n);
                    assert(text.skip(0) =~= text);
                    assert(text.subrange(0, n) =~= text.take(n));
                    assert(r.take(n) =~= pattern);
                    assert(occurs_at(pattern, text, 0));
                }
            } else if 1 <= at <= r.len() {
                assert(r.skip(at) =~= rest.skip(at - 1));
                assert(!occurs_at(pattern, rest, at - 1));
            }
        }
    }
}

/// Where every secret is safe with respect to the marker, no secret is left
/// anywhere in redacted text.
pub proof fn lemma_redaction_leaves_no_secret(secrets: Seq<Seq<char>>, text: Seq<char>)
    requires
        all_marker_safe(secrets),
    ensures
        free_of_secrets(secrets, redact_text(secrets, text)),
    decreases secrets.len(),
{
    if secrets.len() > 0 {
        let front = secrets.drop_last();
        let last = secrets.last();
        let before = redact_text(front, text);
        let after = redact_text(secrets, text);
        assert forall|i: int| 0 <= i < front.len() implies marker_safe(#[trigger] front[i]) by {
            assert(front[i] == secrets[i]);
        }
        lemma_redaction_leaves_no_secret(front, text);
        assert forall|i: int| 0 <= i < secrets.len() && (#[trigger] secrets[i]).len() > 0 implies !occurs_in(
            secrets[i],
            after,
        ) by {
            if last.len() > 0 {
                if i < front.len() {
                    assert(front[i] == secrets[i]);
                    lemma_redact_one_clears(before, last, secrets[i]);
                } else {
                    lemma_redact_one_clears(before, last, last);
                }
            } else {
                assert(i < front.len());
                assert(front[i] == secrets[i]);
            }
        }
    }
}

/// Where every secret is safe with respect to the marker, redacting twice is
/// the same as redacting once.
pub proof fn lemma_redact_idempotent(secrets: Seq<Seq<char>>, text: Seq<char>)
    requires
        all_marker_safe(secrets),
    ensures
        redact_text(secrets, redact_text(secrets, text)) == redact_text(secrets, text),
{
    lemma_redaction_leaves_no_secret(secrets, text);
    lemma_redact_text_absent(secrets, redact_text(secrets, text));
}

/// Redacting twice is the same as redacting once whenever the first pass left
/// no secret behind.
pub proof fn lemma_redact_fixed_point(secrets: Seq<Seq<char>>, text: Seq<char>)
    requires
        free_of_secrets(secrets, redact_text(secrets, text)),
    ensures
        redact_text(secrets, redact_text(secrets, text)) == redact_text(secrets, text),
{
    lemma_redact_text_absent(secrets, redact_text(secrets, text));
}

/// Registration only appends: what was registered before stays, in place.
pub proof fn lemma_register_grows(secrets: Seq<Seq<char>>, values: Seq<Seq<char>>)
    ensures
        secrets.is_prefix_of(register_all(secrets, values)),
    decreases values.len(),
{
    if values.len() > 0 {
        lemma_register_grows(secrets, values.drop_last());
    }
}

/// After registration the list holds every non-empty value that was offered,
/// and nothing but those values and what it held before.
pub proof fn lemma_register_holds_values(secrets: Seq<Seq<char>>, values: Seq<Seq<char>>)
    ensures
        forall|v: Seq<char>|
            register_all(secrets, values).contains(v) <==> secrets.contains(v) || (v.len() > 0
                && values.contains(v)),
    decreases values.len(),
{
    let result = register_all(secrets, values);
    if values.len() > 0 {
        let front = values.drop_last();
        let last = values.last();
        let mid = register_all(secrets, front);
        lemma_register_holds_values(secrets, front);
        assert forall|v: Seq<char>| result.contains(v) <==> secrets.contains(v) || (v.len() > 0
            && values.contains(v)) by {
            if values.contains(v) {
                let k = choose|k: int| 0 <= k < values.len() && values[k] == v;
                if k < front.len() {
                    assert(front[k] == v);
                }
            }
            if front.contains(v) {
                let k = choose|k: int| 0 <= k < front.len() && front[k] == v;
                assert(values[k] == v);
            }
            assert(values[values.len() - 1] == last);
            if result == mid {
                if v == last && last.len() > 0 {
                    assert(mid.contains(v));
                }
            } else {
                assert(result == mid.push(last));
                if mid.contains(v) {
                    let k = choose|k: int| 0 <= k < mid.len() && mid[k] == v;
                    assert(result[k] == v);
                }
                if result.contains(v) {
                    let k = choose|k: int| 0 <= k < result.len() && result[k] == v;
                    if k < mid.len() {
                        assert(mid[k] == v);
                    }
                }
                assert(result[mid.len() as int] == last);
            }
        }
    }
}

/// Registration keeps the list free of empty entries and of duplicates.
pub proof fn lemma_register_well_formed(secrets: Seq<Seq<char>>, values: Seq<Seq<char>>)
    requires
        well_formed_secrets(secrets),
    ensures
        well_formed_secrets(register_all(secrets, values)),
    decreases values.len(),
{
    if values.len() > 0 {
        lemma_register_well_formed(secrets, values.drop_last());
    }
}

/// A value that is empty or already registered changes nothing.
pub proof fn lemma_register_again(secrets: Seq<Seq<char>>, value: Seq<char>)
    ensures
        register_one(register_one(secrets, value), value) == register_one(secrets, value),
{
    let once = register_one(secrets, value);
    if once != secrets {
        assert(once[secrets.len() as int] == value);
    }
}

/// A process whose secrets were copied before a value was registered sees
/// text that holds the value unchanged, so far as its own secrets are absent;
/// a process whose copy was taken afterwards has the value redacted.
pub proof fn lemma_redaction_follows_the_copy(
    earlier: Seq<Seq<char>>,
    values: Seq<Seq<char>>,
    text: Seq<char>,
)
    requires
        free_of_secrets(earlier, text),
        all_marker_safe(register_all(earlier, values)),
    ensures
        redact_text(earlier, text) == text,
        free_of_secrets(values, redact_text(register_all(earlier, values), text)),
{
    lemma_redact_text_absent(earlier, text);
    let later = register_all(earlier, values);
    let clean = redact_text(later, text);
    lemma_redaction_leaves_no_secret(later, text);
    lemma_register_holds_values(earlier, values);
    assert forall|i: int| 0 <= i < values.len() && (#[trigger] values[i]).len() > 0 implies !occurs_in(
        values[i],
        clean,
    ) by {
        assert(values.contains(values[i]));
        assert(later.contains(values[i]));
        let k = choose|k: int| 0 <= k < later.len() && later[k] == values[i];
        assert(later[k].len() > 0);
    }
}

} // verus!
