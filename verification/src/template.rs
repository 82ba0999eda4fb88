//! Replacing a token in a text, over sequences of characters.

use vstd::prelude::*;

verus! {

/// Whether `token` stands in `text` at position `at`.
pub open spec fn occurs_at(text: Seq<char>, token: Seq<char>, at: int) -> bool {
    &&& 0 <= at
    &&& at + token.len() <= text.len()
    &&& text.subrange(at, at + token.len()) == token
}

/// Whether `token` stands anywhere in `text`.
pub open spec fn occurs(text: Seq<char>, token: Seq<char>) -> bool {
    exists|at: int| occurs_at(text, token, at)
}

/// `text` with every occurrence of `token` replaced by `with`, reading from
/// the left; an occurrence that overlaps one already replaced is not one.
/// Where the token is empty the text is left as it is.
pub open spec fn substitute(text: Seq<char>, token: Seq<char>, with: Seq<char>) -> Seq<char>
    decreases text.len(),
{
    if token.len() == 0 || text.len() < token.len() {
        text
    } else if text.subrange(0, token.len() as int) == token {
        with + substitute(text.skip(token.len() as int), token, with)
    } else {
        seq![text[0]] + substitute(text.skip(1), token, with)
    }
}

/// The characters of `s`, in order.
fn chars_of(s: &str) -> (v: Vec<char>)
    ensures
        v@ == s@,
{
    let mut v: Vec<char> = Vec::new();
    for c in it: s.chars()
        invariant
            v@ == it.seq().take(it.index()),
            it.seq() == s@,
    {
        v.push(c);
    }
    v
}

/// Whether `token` stands in `text` at position `at`.
fn matches_at(text: &Vec<char>, token: &Vec<char>, at: usize) -> (b: bool)
    requires
        at + token.len() <= text.len(),
    ensures
        b == occurs_at(text@, token@, at as int),
{
    let mut j: usize = 0;
    while j < token.len()
        invariant
            j <= token.len(),
            at + token.len() <= text.len(),
            forall|k: int| 0 <= k < j ==> text@[at + k] == token@[k],
        decreases token.len() - j,
    {
        if text[at + j] != token[j] {
            assert(text@.subrange(at as int, at + token.len())[j as int] != token@[j as int]);
            return false;
        }
        j += 1;
    }
    assert(text@.subrange(at as int, at + token.len()) =~= token@);
    true
}

/// Replaces every occurrence of `token` in `text` by `with`, reading from the
/// left. Where the token is empty the text is returned as it is.
pub fn replace_token(text: &str, token: &str, with: &str) -> (out: String)
    ensures
        out@ == substitute(text@, token@, with@),
{
    let t = chars_of(text);
    let k = chars_of(token);
    let n = t.len();
    let m = k.len();
    if m == 0 || n < m {
        return text.to_owned();
    }
    let mut out = String::new();
    let mut start: usize = 0;
    let mut i: usize = 0;
    assert(text@.skip(0) =~= text@);
    while i <= n - m
        invariant
            0 < m <= n,
            start <= i <= n,
            t@ == text@,
            k@ == token@,
            n == t.len(),
            m == k.len(),
            substitute(text@, token@, with@) == out@ + text@.subrange(start as int, i as int)
                + substitute(text@.skip(i as int), token@, with@),
        decreases n - i,
    {
        let ghost rest = text@.skip(i as int);
        assert(rest.subrange(0, m as int) =~= text@.subrange(i as int, i + m));
        if matches_at(&t, &k, i) {
            out.append(text.substring_char(start, i));
            out.append(with);
            assert(rest.skip(m as int) =~= text@.skip(i + m));
            i = i + m;
            start = i;
            assert(substitute(text@, token@, with@) =~= out@ + text@.subrange(
                start as int,
                i as int,
            ) + substitute(text@.skip(i as int), token@, with@));
        } else {
            assert(rest.skip(1) =~= text@.skip(i + 1));
            assert(text@.subrange(start as int, i as int) + seq![rest[0]] =~= text@.subrange(
                start as int,
                i + 1,
            ));
            i = i + 1;
            assert(substitute(text@, token@, with@) =~= out@ + text@.subrange(
                start as int,
                i as int,
            ) + substitute(text@.skip(i as int), token@, with@));
        }
    }
    out.append(text.substring_char(start, n));
    assert(text@.subrange(start as int, i as int) + text@.skip(i as int) =~= text@.subrange(
        start as int,
        n as int,
    ));
    out
}

/// A text in which the token does not occur is left as it is.
pub proof fn lemma_substitute_absent(text: Seq<char>, token: Seq<char>, with: Seq<char>)
    requires
        !occurs(text, token),
    ensures
        substitute(text, token, with) == text,
    decreases text.len(),
{
    if token.len() > 0 && text.len() >= token.len() {
        assert(!occurs_at(text, token, 0));
        let rest = text.skip(1);
        assert forall|at: int| !occurs_at(rest, token, at) by {
            if occurs_at(rest, token, at) {
                assert(rest.subrange(at, at + token.len()) =~= text.subrange(
                    at + 1,
                    at + 1 + token.len(),
                ));
                assert(occurs_at(text, token, at + 1));
            }
        }
        lemma_substitute_absent(rest, token, with);
        assert(seq![text[0]] + rest =~= text);
    }
}

/// Replacing the token by itself changes nothing.
pub proof fn lemma_substitute_by_token(text: Seq<char>, token: Seq<char>)
    ensures
        substitute(text, token, token) == text,
    decreases text.len(),
{
    if token.len() > 0 && text.len() >= token.len() {
        if text.subrange(0, token.len() as int) == token {
            let rest = text.skip(token.len() as int);
            lemma_substitute_by_token(rest, token);
            assert(text.subrange(0, token.len() as int) + rest =~= text);
        } else {
            let rest = text.skip(1);
            lemma_substitute_by_token(rest, token);
            assert(seq![text[0]] + rest =~= text);
        }
    }
}

/// Only occurrences of the token change: up to the first occurrence the text
/// stands as it was, the occurrence gives way to `with`, and what follows it
/// is treated in the same way.
pub proof fn lemma_substitute_first_occurrence(
    text: Seq<char>,
    token: Seq<char>,
    with: Seq<char>,
    at: int,
)
    requires
        token.len() > 0,
        occurs_at(text, token, at),
        forall|before: int| 0 <= before < at ==> !occurs_at(text, token, before),
    ensures
        substitute(text, token, with) == text.subrange(0, at) + with + substitute(
            text.skip(at + token.len()),
            token,
            with,
        ),
    decreases at,
{
    if at == 0 {
        assert(text.subrange(0, 0) + with =~= with);
    } else {
        assert(!occurs_at(text, token, 0));
        let rest = text.skip(1);
        assert(rest.subrange(at - 1, at - 1 + token.len()) =~= text.subrange(
            at,
            at + token.len(),
        ));
        assert forall|before: int| 0 <= before < at - 1 implies !occurs_at(
            rest,
            token,
            before,
        ) by {
            assert(rest.subrange(before, before + token.len()) =~= text.subrange(
                before + 1,
                before + 1 + token.len(),
            ));
            assert(!occurs_at(text, token, before + 1));
        }
        lemma_substitute_first_occurrence(rest, token, with, at - 1);
        assert(rest.skip(at - 1 + token.len()) =~= text.skip(at + token.len()));
        assert(seq![text[0]] + (rest.subrange(0, at - 1) + with + substitute(
            text.skip(at + token.len()),
            token,
            with,
        )) =~= text.subrange(0, at) + with + substitute(
            text.skip(at + token.len()),
            token,
            with,
        ));
    }
}

/// A replacement longer than the token never shortens the text, and a shorter
/// one never lengthens it.
pub proof fn lemma_substitute_len(text: Seq<char>, token: Seq<char>, with: Seq<char>)
    ensures
        with.len() >= token.len() ==> substitute(text, token, with).len() >= text.len(),
        with.len() <= token.len() ==> substitute(text, token, with).len() <= text.len(),
    decreases text.len(),
{
    if token.len() > 0 && text.len() >= token.len() {
        if text.subrange(0, token.len() as int) == token {
            lemma_substitute_len(text.skip(token.len() as int), token, with);
        } else {
            lemma_substitute_len(text.skip(1), token, with);
        }
    }
}

/// Substitution leaves a text as it is exactly when there is nothing to
/// replace, or when the replacement is the token itself.
pub proof fn lemma_substitute_fixed_point(text: Seq<char>, token: Seq<char>, with: Seq<char>)
    requires
        token.len() > 0,
    ensures
        substitute(text, token, with) == text <==> (!occurs(text, token) || with == token),
    decreases text.len(),
{
    if !occurs(text, token) {
        lemma_substitute_absent(text, token, with);
    } else if with == token {
        lemma_substitute_by_token(text, token);
    } else {
        let at = choose|at: int| occurs_at(text, token, at);
        if text.subrange(0, token.len() as int) == token {
            let rest = text.skip(token.len() as int);
            lemma_substitute_len(rest, token, with);
            if with.len() == token.len() {
                let out = with + substitute(rest, token, with);
                assert(out.subrange(0, token.len() as int) =~= with);
            }
        } else {
            let rest = text.skip(1);
            assert(rest.subrange(at - 1, at - 1 + token.len()) =~= text.subrange(
                at,
                at + token.len(),
            ));
            assert(occurs_at(rest, token, at - 1));
            lemma_substitute_fixed_point(rest, token, with);
            let out = seq![text[0]] + substitute(rest, token, with);
            if out == text {
                assert(out.skip(1) =~= substitute(rest, token, with));
            }
        }
    }
}

/// Substituting a second time changes nothing exactly when the first pass
/// left no occurrence of the token behind, or the replacement is the token
/// itself.
pub proof fn lemma_substitute_idempotent(text: Seq<char>, token: Seq<char>, with: Seq<char>)
    requires
        token.len() > 0,
    ensures
        substitute(substitute(text, token, with), token, with) == substitute(text, token, with)
            <==> (!occurs(substitute(text, token, with), token) || with == token),
{
    lemma_substitute_fixed_point(substitute(text, token, with), token, with);
}

} // verus!
