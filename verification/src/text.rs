//! Character-level transforms on text: removing a pair of characters, compact
//! timestamps and file-name cleaning.

use vstd::prelude::*;

verus! {

/// The test that a character is neither `a` nor `b`.
pub open spec fn neither(a: char, b: char) -> spec_fn(char) -> bool {
    |c: char| c != a && c != b
}

/// `s` with every occurrence of `a` and of `b` removed, the other characters in
/// their order.
pub open spec fn without(s: Seq<char>, a: char, b: char) -> Seq<char> {
    s.filter(neither(a, b))
}

/// The compact form of a timestamp: the text without `-` and `:`.
pub open spec fn compact(s: Seq<char>) -> Seq<char> {
    without(s, '-', ':')
}

/// A text is compact when it holds no `-` and no `:`.
pub open spec fn is_compact(s: Seq<char>) -> bool {
    !s.contains('-') && !s.contains(':')
}

/// The part of a summary that is used in a file name: the text without `/` and `\`.
pub open spec fn sanitized(s: Seq<char>) -> Seq<char> {
    without(s, '/', '\\')
}

/// `String::push` of std appends one character to the end of the string.
pub assume_specification[ String::push ](s: &mut String, c: char)
    ensures
        final(s)@ == old(s)@.push(c),
;

/// Copies `s` without the characters `a` and `b`.
pub fn strip_chars(s: &str, a: char, b: char) -> (out: String)
    ensures
        out@ == without(s@, a, b),
{
    broadcast use vstd::string::axiom_spec_iter;
    let ghost keep = neither(a, b);
    let mut out = String::new();
    proof {
        s@.take(0).lemma_filter_len(keep);
    }
    for c in rest: s.chars()
        invariant
            rest.seq() == s@,
            out@ == s@.take(rest.index() as int).filter(keep),
            keep == neither(a, b),
    {
        proof {
            let i = rest.index() as int;
            s@.take(i).lemma_filter_push(c, keep);
            assert(s@.take(i + 1) =~= s@.take(i).push(c));
        }
        if c != a && c != b {
            out.push(c);
        }
    }
    assert(s@.take(s@.len() as int) =~= s@);
    out
}

/// Rewrites a date and time into its compact form: every `-` and `:` is dropped,
/// and nothing else is looked at.
pub fn compact_timestamp(s: &str) -> (out: String)
    ensures
        out@ == compact(s@),
        is_compact(out@),
{
    proof {
        lemma_compact_idempotent(s@);
    }
    strip_chars(s, '-', ':')
}

/// Cleans a summary for use in a file name: every `/` and `\` is dropped.
pub fn sanitize_file_name(summary: &str) -> (out: String)
    ensures
        out@ == sanitized(summary@),
        !out@.contains('/'),
        !out@.contains('\\'),
{
    proof {
        lemma_sanitized_is_safe(summary@);
    }
    strip_chars(summary, '/', '\\')
}

/// A text in which every character passes `keep` is left as it is by the filter.
pub proof fn lemma_filter_keeps_all(s: Seq<char>, keep: spec_fn(char) -> bool)
    requires
        forall|i: int| 0 <= i < s.len() ==> keep(#[trigger] s[i]),
    ensures
        s.filter(keep) == s,
    decreases s.len(),
{
    if s.len() == 0 {
        s.lemma_filter_len(keep);
        assert(s.filter(keep) =~= s);
    } else {
        lemma_filter_keeps_all(s.drop_last(), keep);
        s.drop_last().lemma_filter_push(s.last(), keep);
        assert(s.drop_last().push(s.last()) =~= s);
    }
}

/// Neither of the two characters is left after they were removed.
pub proof fn lemma_without_removes(s: Seq<char>, a: char, b: char)
    ensures
        !without(s, a, b).contains(a),
        !without(s, a, b).contains(b),
{
    s.filter_lemma(neither(a, b));
}

/// Removing the two characters a second time changes nothing.
pub proof fn lemma_without_idempotent(s: Seq<char>, a: char, b: char)
    ensures
        without(without(s, a, b), a, b) == without(s, a, b),
{
    s.filter_lemma(neither(a, b));
    lemma_filter_keeps_all(without(s, a, b), neither(a, b));
}

/// The compact form of a timestamp holds no `-` and no `:`, and compacting it again
/// gives the same text.
pub proof fn lemma_compact_idempotent(s: Seq<char>)
    ensures
        is_compact(compact(s)),
        compact(compact(s)) == compact(s),
{
    lemma_without_removes(s, '-', ':');
    lemma_without_idempotent(s, '-', ':');
}

/// A cleaned summary holds no `/` and no `\`, whatever the summary was.
pub proof fn lemma_sanitized_is_safe(s: Seq<char>)
    ensures
        !sanitized(s).contains('/'),
        !sanitized(s).contains('\\'),
{
    lemma_without_removes(s, '/', '\\');
}

} // verus!
