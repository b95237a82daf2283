//! Removal of ANSI escape sequences from text.

use vstd::prelude::*;
use vstd::string::*;

use crate::strings::push_char;

verus! {

/// What remains of `s` after escape stripping. While `in_escape` holds the
/// stripper is inside an escape sequence and drops every character up to
/// and including the next `m`; outside an escape sequence an escape
/// character starts one, and every other character is kept.
pub open spec fn strip_rec(s: Seq<char>, in_escape: bool) -> Seq<char>
    decreases s.len(),
{
    if s.len() == 0 {
        Seq::empty()
    } else if in_escape {
        strip_rec(s.drop_first(), s[0] != 'm')
    } else if s[0] == '\x1b' {
        strip_rec(s.drop_first(), true)
    } else {
        seq![s[0]] + strip_rec(s.drop_first(), false)
    }
}

/// The text `s` with every ANSI escape sequence removed.
pub open spec fn strip_spec(s: Seq<char>) -> Seq<char> {
    strip_rec(s, false)
}

/// Stripping never leaves an escape character behind, whatever state the
/// stripper starts in.
pub proof fn lemma_strip_rec_no_escape(s: Seq<char>, in_escape: bool)
    ensures
        forall|i: int| 0 <= i < strip_rec(s, in_escape).len() ==> strip_rec(s, in_escape)[i]
            != '\x1b',
    decreases s.len(),
{
    if s.len() == 0 {
    } else if in_escape {
        lemma_strip_rec_no_escape(s.drop_first(), s[0] != 'm');
        let r = strip_rec(s, in_escape);
        let rest = strip_rec(s.drop_first(), s[0] != 'm');
        assert forall|i: int| 0 <= i < r.len() implies r[i] != '\x1b' by {
            assert(r[i] == rest[i]);
        }
    } else if s[0] == '\x1b' {
        lemma_strip_rec_no_escape(s.drop_first(), true);
        let r = strip_rec(s, in_escape);
        let rest = strip_rec(s.drop_first(), true);
        assert forall|i: int| 0 <= i < r.len() implies r[i] != '\x1b' by {
            assert(r[i] == rest[i]);
        }
    } else {
        lemma_strip_rec_no_escape(s.drop_first(), false);
        let r = strip_rec(s, in_escape);
        let rest = strip_rec(s.drop_first(), false);
        assert forall|i: int| 0 <= i < r.len() implies r[i] != '\x1b' by {
            if i == 0 {
                assert(r[0] == s[0]);
            } else {
                assert(r[i] == rest[i - 1]);
            }
        }
    }
}

/// Whether `s` holds no ANSI escape character at all.
pub open spec fn plain_text(s: Seq<char>) -> bool {
    forall|i: int| 0 <= i < s.len() ==> s[i] != '\x1b'
}

/// The stripper's escape state after reading one character.
pub open spec fn step_escape(in_escape: bool, c: char) -> bool {
    if in_escape {
        c != 'm'
    } else {
        c == '\x1b'
    }
}

/// The stripper's escape state after reading all of `s`.
pub open spec fn escape_after(s: Seq<char>, in_escape: bool) -> bool
    decreases s.len(),
{
    if s.len() == 0 {
        in_escape
    } else {
        escape_after(s.drop_first(), step_escape(in_escape, s[0]))
    }
}

/// Stripping splits at any seam: the right part is stripped in the state
/// the left part ends in.
pub proof fn lemma_strip_rec_concat(a: Seq<char>, b: Seq<char>, in_escape: bool)
    ensures
        strip_rec(a + b, in_escape) == strip_rec(a, in_escape) + strip_rec(
            b,
            escape_after(a, in_escape),
        ),
    decreases a.len(),
{
    if a.len() == 0 {
        assert(a + b =~= b);
        assert(strip_rec(a, in_escape) =~= Seq::<char>::empty());
        assert(strip_rec(a, in_escape) + strip_rec(b, in_escape) =~= strip_rec(b, in_escape));
    } else {
        lemma_strip_rec_concat(a.drop_first(), b, step_escape(in_escape, a[0]));
        assert((a + b)[0] == a[0]);
        assert((a + b).drop_first() =~= a.drop_first() + b);
        assert(strip_rec(a + b, in_escape) =~= strip_rec(a, in_escape) + strip_rec(
            b,
            escape_after(a, in_escape),
        ));
    }
}

/// Plain text read outside an escape sequence leaves the stripper
/// outside an escape sequence.
pub proof fn lemma_plain_escape_after(s: Seq<char>)
    requires
        plain_text(s),
    ensures
        escape_after(s, false) == false,
    decreases s.len(),
{
    if s.len() > 0 {
        assert(s[0] != '\x1b');
        assert(forall|i: int| 0 <= i < s.drop_first().len() ==> s.drop_first()[i] != '\x1b');
        lemma_plain_escape_after(s.drop_first());
    }
}

/// Inside an escape sequence, everything up to and including the closing
/// `m` is dropped, and the stripper comes out of the sequence.
proof fn lemma_strip_escape_tail(t: Seq<char>)
    requires
        t.len() >= 1,
        t[t.len() - 1] == 'm',
        forall|i: int| 0 <= i < t.len() - 1 ==> t[i] != 'm',
    ensures
        strip_rec(t, true) == Seq::<char>::empty(),
        escape_after(t, true) == false,
    decreases t.len(),
{
    if t.len() == 1 {
        reveal_with_fuel(strip_rec, 2);
        reveal_with_fuel(escape_after, 2);
        assert(t[0] == 'm');
        assert(t.drop_first() =~= Seq::<char>::empty());
        assert(strip_rec(t, true) =~= Seq::<char>::empty());
    } else {
        assert(t[0] != 'm');
        let rest = t.drop_first();
        assert(rest[rest.len() - 1] == t[t.len() - 1]);
        assert(forall|i: int| 0 <= i < rest.len() - 1 ==> rest[i] != 'm');
        lemma_strip_escape_tail(rest);
    }
}

/// A whole ANSI escape sequence — the escape character, a body free of
/// `m`, and the closing `m` — strips to nothing and leaves the stripper
/// outside an escape sequence.
pub proof fn lemma_strip_escape_sequence(s: Seq<char>)
    requires
        s.len() >= 2,
        s[0] == '\x1b',
        s[s.len() - 1] == 'm',
        forall|i: int| 1 <= i < s.len() - 1 ==> s[i] != 'm',
    ensures
        strip_rec(s, false) == Seq::<char>::empty(),
        escape_after(s, false) == false,
{
    let rest = s.drop_first();
    assert(rest[rest.len() - 1] == s[s.len() - 1]);
    assert(forall|i: int| 0 <= i < rest.len() - 1 ==> rest[i] != 'm');
    lemma_strip_escape_tail(rest);
}

/// The escape state after a seam is the state after the right part,
/// started in the state the left part ends in.
pub proof fn lemma_escape_after_concat(a: Seq<char>, b: Seq<char>, in_escape: bool)
    ensures
        escape_after(a + b, in_escape) == escape_after(b, escape_after(a, in_escape)),
    decreases a.len(),
{
    if a.len() == 0 {
        assert(a + b =~= b);
    } else {
        lemma_escape_after_concat(a.drop_first(), b, step_escape(in_escape, a[0]));
        assert((a + b)[0] == a[0]);
        assert((a + b).drop_first() =~= a.drop_first() + b);
    }
}

/// Whether `s` contains no `m`, the character that closes an ANSI escape
/// sequence.
pub open spec fn close_free(s: Seq<char>) -> bool {
    forall|i: int| 0 <= i < s.len() ==> s[i] != 'm'
}

/// Text without the closing character put together still has none.
pub proof fn lemma_close_free_concat(a: Seq<char>, b: Seq<char>)
    requires
        close_free(a),
        close_free(b),
    ensures
        close_free(a + b),
{
    assert forall|i: int| 0 <= i < (a + b).len() implies (a + b)[i] != 'm' by {
        if i < a.len() {
            assert((a + b)[i] == a[i]);
        } else {
            assert((a + b)[i] == b[i - a.len()]);
        }
    }
}

/// An escape sequence assembled from the escape character, a body free
/// of the closing character, and the closing `m` strips to nothing.
pub proof fn lemma_strip_escape_parts(body: Seq<char>)
    requires
        close_free(body),
    ensures
        strip_rec(seq!['\x1b'] + body + seq!['m'], false) == Seq::<char>::empty(),
        escape_after(seq!['\x1b'] + body + seq!['m'], false) == false,
{
    let s = seq!['\x1b'] + body + seq!['m'];
    assert(s[0] == '\x1b');
    assert(s[s.len() - 1] == 'm');
    assert forall|i: int| 1 <= i < s.len() - 1 implies s[i] != 'm' by {
        assert(s[i] == body[i - 1]);
    }
    lemma_strip_escape_sequence(s);
}

/// Plain text put together stays plain.
pub proof fn lemma_plain_concat(a: Seq<char>, b: Seq<char>)
    requires
        plain_text(a),
        plain_text(b),
    ensures
        plain_text(a + b),
{
    assert forall|i: int| 0 <= i < (a + b).len() implies (a + b)[i] != '\x1b' by {
        if i < a.len() {
            assert((a + b)[i] == a[i]);
        } else {
            assert((a + b)[i] == b[i - a.len()]);
        }
    }
}

/// Stripped text contains no escape character, so a stripped line is plain
/// text even when the formatter injected color codes.
pub proof fn lemma_strip_no_escape(s: Seq<char>)
    ensures
        plain_text(strip_spec(s)),
{
    lemma_strip_rec_no_escape(s, false);
}

/// Text without escape characters is left unchanged by stripping.
pub proof fn lemma_strip_plain(s: Seq<char>)
    requires
        plain_text(s),
    ensures
        strip_spec(s) == s,
    decreases s.len(),
{
    if s.len() == 0 {
        assert(strip_spec(s) =~= s);
    } else {
        assert(s[0] != '\x1b');
        assert(forall|i: int| 0 <= i < s.drop_first().len() ==> s.drop_first()[i] != '\x1b');
        lemma_strip_plain(s.drop_first());
        assert(strip_spec(s) =~= s);
    }
}

/// Removes ANSI escape sequences from `s`: every run of characters from an
/// escape character up to and including the next `m` is dropped.
pub fn strip_ansi_codes(s: &str) -> (r: String)
    ensures
        r@ == strip_spec(s@),
{
    let n = s.unicode_len();
    let mut buf = String::new();
    let mut in_escape = false;
    let mut i: usize = 0;
    proof {
        assert(s@.skip(0) =~= s@);
        assert(buf@ + strip_rec(s@, false) =~= strip_rec(s@, false));
    }
    while i < n
        invariant
            i <= n,
            n == s@.len(),
            strip_spec(s@) == buf@ + strip_rec(s@.skip(i as int), in_escape),
        decreases n - i,
    {
        let ghost prev = i as int;
        let ghost prev_esc = in_escape;
        let ghost prev_buf = buf@;
        let c = s.get_char(i);
        if in_escape {
            if c == 'm' {
                in_escape = false;
            }
        } else if c == '\x1b' {
            in_escape = true;
        } else {
            push_char(&mut buf, c);
        }
        i += 1;
        proof {
            assert(s@.skip(prev)[0] == c);
            assert(s@.skip(prev).drop_first() =~= s@.skip(i as int));
            if !prev_esc && c != '\x1b' {
                assert(prev_buf + (seq![c] + strip_rec(s@.skip(i as int), in_escape)) =~= buf@
                    + strip_rec(s@.skip(i as int), in_escape));
            }
        }
    }
    proof {
        assert(s@.skip(n as int) =~= Seq::<char>::empty());
    }
    buf
}

} // verus!
