//! The name sanitizer: raw text to a filesystem-safe display name.
//!
//! Sanitizing trims leading and trailing whitespace and then deletes every
//! occurrence of the path separator `/` outright (no substitution), which
//! may merge the surrounding words; that exact behaviour is part of the
//! catalog format's compatibility contract.

use vstd::prelude::*;

verus! {

/// The one path-separator character that sanitized names may not contain.
pub const SEPARATOR: char = '/';

/// The whitespace characters that trimming removes: Unicode's White_Space
/// set (the set `str::trim` strips).
pub open spec fn spec_whitespace(c: char) -> bool {
    c == ' ' || c == '\t' || c == '\n' || c == '\r' || c == '\u{000B}' || c == '\u{000C}' || c
        == '\u{0085}' || c == '\u{00A0}' || c == '\u{1680}' || (0x2000 <= c as u32 && c as u32
        <= 0x200A) || c == '\u{2028}' || c == '\u{2029}' || c == '\u{202F}' || c == '\u{205F}' || c
        == '\u{3000}'
}

/// Whether `c` is one of the whitespace characters that trimming removes.
#[verifier::when_used_as_spec(spec_whitespace)]
pub fn is_whitespace(c: char) -> (r: bool)
    ensures
        r == spec_whitespace(c),
{
    let u = c as u32;
    u == 0x20 || (0x09 <= u && u <= 0x0D) || u == 0x85 || u == 0xA0 || u == 0x1680 || (0x2000 <= u
        && u <= 0x200A) || u == 0x2028 || u == 0x2029 || u == 0x202F || u == 0x205F || u == 0x3000
}

/// `s` without its leading whitespace.
pub open spec fn spec_trim_start(s: Seq<char>) -> Seq<char>
    decreases s.len(),
{
    if s.len() == 0 {
        s
    } else if spec_whitespace(s[0]) {
        spec_trim_start(s.drop_first())
    } else {
        s
    }
}

/// `s` without its trailing whitespace.
pub open spec fn spec_trim_end(s: Seq<char>) -> Seq<char>
    decreases s.len(),
{
    if s.len() == 0 {
        s
    } else if spec_whitespace(s.last()) {
        spec_trim_end(s.drop_last())
    } else {
        s
    }
}

/// `s` without leading and trailing whitespace.
pub open spec fn spec_trim(s: Seq<char>) -> Seq<char> {
    spec_trim_end(spec_trim_start(s))
}

/// `s` with every occurrence of the separator deleted, order kept.
pub open spec fn spec_remove_separators(s: Seq<char>) -> Seq<char>
    decreases s.len(),
{
    if s.len() == 0 {
        Seq::<char>::empty()
    } else if s.last() == SEPARATOR {
        spec_remove_separators(s.drop_last())
    } else {
        spec_remove_separators(s.drop_last()).push(s.last())
    }
}

/// What sanitizing yields: trim first, then delete every separator.
pub open spec fn spec_sanitized(s: Seq<char>) -> Seq<char> {
    spec_remove_separators(spec_trim(s))
}

/// Deleting separators after trimming can uncover whitespace that trimming
/// never saw (an input whose trimmed form starts or ends with separators
/// around whitespace). This predicate marks the inputs where that does not
/// happen: the sanitized name carries no whitespace at either end, so it is
/// its own trimmed form.
pub open spec fn sanitized_is_trimmed(s: Seq<char>) -> bool {
    spec_trim(spec_sanitized(s)) == spec_sanitized(s)
}

proof fn lemma_trim_start_skip(s: Seq<char>, i: int)
    requires
        0 <= i <= s.len(),
        forall|k: int| 0 <= k < i ==> spec_whitespace(s[k]),
        i < s.len() ==> !spec_whitespace(s[i]),
    ensures
        spec_trim_start(s) == s.skip(i),
    decreases i,
{
    if i == 0 {
        assert(s.skip(0) =~= s);
    } else {
        assert(spec_whitespace(s[0]));
        lemma_trim_start_skip(s.drop_first(), i - 1);
        assert(s.drop_first().skip(i - 1) =~= s.skip(i));
    }
}

proof fn lemma_trim_end_take(s: Seq<char>, e: int)
    requires
        0 <= e <= s.len(),
        forall|k: int| e <= k < s.len() ==> spec_whitespace(s[k]),
        e > 0 ==> !spec_whitespace(s[e - 1]),
    ensures
        spec_trim_end(s) == s.take(e),
    decreases s.len(),
{
    if e == s.len() {
        assert(s.take(e) =~= s);
    } else {
        assert(spec_whitespace(s.last()));
        lemma_trim_end_take(s.drop_last(), e);
        assert(s.drop_last().take(e) =~= s.take(e));
    }
}

proof fn lemma_trim_start_len(s: Seq<char>)
    ensures
        spec_trim_start(s).len() <= s.len(),
    decreases s.len(),
{
    if s.len() > 0 && spec_whitespace(s[0]) {
        lemma_trim_start_len(s.drop_first());
    }
}

proof fn lemma_trim_end_len(s: Seq<char>)
    ensures
        spec_trim_end(s).len() <= s.len(),
    decreases s.len(),
{
    if s.len() > 0 && spec_whitespace(s.last()) {
        lemma_trim_end_len(s.drop_last());
    }
}

proof fn lemma_trim_start_last(s: Seq<char>)
    requires
        spec_trim_start(s).len() > 0,
    ensures
        s.len() > 0,
        spec_trim_start(s).last() == s.last(),
    decreases s.len(),
{
    if s.len() > 0 && spec_whitespace(s[0]) {
        lemma_trim_start_last(s.drop_first());
        assert(s.drop_first().last() == s.last());
    }
}

/// A sanitized name never contains the separator, whatever the input was.
pub proof fn lemma_sanitized_separator_free(s: Seq<char>)
    ensures
        forall|i: int|
            0 <= i < spec_sanitized(s).len() ==> #[trigger] spec_sanitized(s)[i] != SEPARATOR,
{
    lemma_remove_separators_separator_free(spec_trim(s));
}

proof fn lemma_remove_separators_separator_free(s: Seq<char>)
    ensures
        forall|i: int|
            0 <= i < spec_remove_separators(s).len() ==> #[trigger] spec_remove_separators(s)[i]
                != SEPARATOR,
    decreases s.len(),
{
    if s.len() > 0 {
        lemma_remove_separators_separator_free(s.drop_last());
        let rest = spec_remove_separators(s.drop_last());
        if s.last() != SEPARATOR {
            assert forall|i: int|
                0 <= i < spec_remove_separators(s).len() implies #[trigger] spec_remove_separators(
                s,
            )[i] != SEPARATOR by {
                if i < rest.len() {
                    assert(spec_remove_separators(s)[i] == rest[i]);
                } else {
                    assert(spec_remove_separators(s)[i] == s.last());
                }
            }
        }
    }
}

proof fn lemma_remove_separators_identity(s: Seq<char>)
    requires
        forall|i: int| 0 <= i < s.len() ==> #[trigger] s[i] != SEPARATOR,
    ensures
        spec_remove_separators(s) == s,
    decreases s.len(),
{
    if s.len() > 0 {
        assert(forall|i: int|
            0 <= i < s.drop_last().len() ==> #[trigger] s.drop_last()[i] != SEPARATOR);
        lemma_remove_separators_identity(s.drop_last());
        assert(s.drop_last().push(s.last()) =~= s);
    }
}

proof fn lemma_trim_fixed_point_ends(u: Seq<char>)
    requires
        spec_trim(u) == u,
        u.len() > 0,
    ensures
        !spec_whitespace(u[0]),
        !spec_whitespace(u.last()),
{
    if spec_whitespace(u[0]) {
        lemma_trim_start_len(u.drop_first());
        lemma_trim_end_len(spec_trim_start(u));
        assert(spec_trim(u).len() < u.len());
        assert(false);
    }
    if spec_whitespace(u.last()) {
        let t = spec_trim_start(u);
        lemma_trim_start_len(u);
        if t.len() == 0 {
            assert(spec_trim(u).len() == 0);
            assert(false);
        } else {
            lemma_trim_start_last(u);
            assert(spec_whitespace(t.last()));
            lemma_trim_end_len(t.drop_last());
            assert(spec_trim(u).len() < u.len());
            assert(false);
        }
    }
}

/// Sanitizing is idempotent on every input whose sanitized form is already
/// trimmed: a second pass changes nothing, since the first pass left no
/// separator behind and (on these inputs) no whitespace at either end.
pub proof fn lemma_sanitize_idempotent(s: Seq<char>)
    requires
        sanitized_is_trimmed(s),
    ensures
        spec_sanitized(spec_sanitized(s)) == spec_sanitized(s),
{
    let u = spec_sanitized(s);
    lemma_sanitized_separator_free(s);
    lemma_remove_separators_identity(u);
}

/// On every input whose sanitized form is already trimmed, the sanitized
/// name is safe as a path component: no separator anywhere, and no
/// whitespace character at either end.
pub proof fn lemma_sanitized_safe(s: Seq<char>)
    requires
        sanitized_is_trimmed(s),
    ensures
        forall|i: int|
            0 <= i < spec_sanitized(s).len() ==> #[trigger] spec_sanitized(s)[i] != SEPARATOR,
        spec_sanitized(s).len() > 0 ==> !spec_whitespace(spec_sanitized(s)[0]),
        spec_sanitized(s).len() > 0 ==> !spec_whitespace(spec_sanitized(s).last()),
{
    lemma_sanitized_separator_free(s);
    if spec_sanitized(s).len() > 0 {
        lemma_trim_fixed_point_ends(spec_sanitized(s));
    }
}

/// Relies on String::push: appends exactly the one given character.
#[verifier::external_body]
fn push_char(out: &mut String, c: char)
    ensures
        final(out)@ == old(out)@.push(c),
{
    out.push(c);
}

/// The name sanitizer: trims leading and trailing whitespace, then deletes
/// every `/`. Pure; always succeeds.
pub fn sanitize_name(raw: &str) -> (out: String)
    ensures
        out@ == spec_sanitized(raw@),
{
    let ghost s = raw@;
    let n = raw.unicode_len();
    let mut start: usize = 0;
    while start < n && is_whitespace(raw.get_char(start))
        invariant
            s == raw@,
            n == s.len(),
            start <= n,
            forall|k: int| 0 <= k < start ==> spec_whitespace(s[k]),
        decreases n - start,
    {
        start += 1;
    }
    proof {
        lemma_trim_start_skip(s, start as int);
    }
    if start == n {
        proof {
            assert(spec_trim_start(s) =~= Seq::<char>::empty());
            assert(spec_trim(s) =~= Seq::<char>::empty());
            assert(spec_sanitized(s) =~= Seq::<char>::empty());
        }
        return String::new();
    }
    let mut end: usize = n;
    while end > start && is_whitespace(raw.get_char(end - 1))
        invariant
            s == raw@,
            n == s.len(),
            start < end <= n,
            start < n,
            !spec_whitespace(s[start as int]),
            forall|k: int| end <= k < n ==> spec_whitespace(s[k]),
        decreases end,
    {
        proof {
            if end - 1 == start {
                assert(spec_whitespace(s[start as int]));
                assert(false);
            }
        }
        end -= 1;
    }
    proof {
        lemma_trim_end_take(s.skip(start as int), end as int - start as int);
        assert(s.skip(start as int).take(end as int - start as int) =~= s.subrange(
            start as int,
            end as int,
        ));
        assert(spec_trim(s) == s.subrange(start as int, end as int));
    }
    let mut out = String::new();
    let mut i = start;
    while i < end
        invariant
            s == raw@,
            n == s.len(),
            start <= i <= end <= n,
            out@ == spec_remove_separators(s.subrange(start as int, i as int)),
        decreases end - i,
    {
        let c = raw.get_char(i);
        if c != SEPARATOR {
            push_char(&mut out, c);
        }
        proof {
            let pre = s.subrange(start as int, i as int);
            let post = s.subrange(start as int, i as int + 1);
            assert(post.drop_last() =~= pre);
            assert(post.last() == s[i as int]);
        }
        i += 1;
    }
    proof {
        assert(out@ == spec_sanitized(s));
    }
    out
}

} // verus!
