//! Escaping text for Markdown logs.
use vstd::prelude::*;

use crate::text::chars_of;

verus! {

/// What one character becomes: backslash, `*`, `_` and `#` are escaped with
/// a backslash, and a backtick becomes `&\#96;` (the HTML entity, whose `#`
/// is escaped in turn).
pub open spec fn md_escape_char(c: char) -> Seq<char> {
    if c == '\\' {
        seq!['\\', '\\']
    } else if c == '*' {
        seq!['\\', '*']
    } else if c == '_' {
        seq!['\\', '_']
    } else if c == '`' {
        seq!['&', '\\', '#', '9', '6', ';']
    } else if c == '#' {
        seq!['\\', '#']
    } else {
        seq![c]
    }
}

/// A text with each character escaped.
pub open spec fn md_escape(s: Seq<char>) -> Seq<char>
    decreases s.len(),
{
    if s.len() == 0 {
        Seq::empty()
    } else {
        md_escape(s.drop_last()) + md_escape_char(s.last())
    }
}

/// Escapes the Markdown characters of a text (see `md_escape`).
pub fn escape_markdown(s: &str) -> (r: String)
    ensures
        r@ == md_escape(s@),
{
    let v = chars_of(s);
    let mut r = String::new();
    let mut i: usize = 0;
    while i < v.len()
        invariant
            i <= v@.len(),
            r@ == md_escape(v@.take(i as int)),
        decreases v.len() - i,
    {
        let c = v[i];
        let ghost before = r@;
        if c == '\\' {
            r.push('\\');
            r.push('\\');
        } else if c == '*' {
            r.push('\\');
            r.push('*');
        } else if c == '_' {
            r.push('\\');
            r.push('_');
        } else if c == '`' {
            r.push('&');
            r.push('\\');
            r.push('#');
            r.push('9');
            r.push('6');
            r.push(';');
        } else if c == '#' {
            r.push('\\');
            r.push('#');
        } else {
            r.push(c);
        }
        assert(r@ =~= before + md_escape_char(c));
        assert(v@.take(i + 1).drop_last() =~= v@.take(i as int));
        i = i + 1;
    }
    assert(v@.take(v@.len() as int) =~= v@);
    r
}

/// Every `*` of an escaped text follows a backslash, and no backtick is
/// left.
pub proof fn lemma_escaped_markdown(s: Seq<char>)
    ensures
        forall|p: int| 0 <= p < md_escape(s).len() ==> #[trigger] md_escape(s)[p] != '`',
        forall|p: int|
            0 <= p < md_escape(s).len() && #[trigger] md_escape(s)[p] == '*' ==> p > 0 && md_escape(s)[p
                - 1] == '\\',
    decreases s.len(),
{
    if s.len() > 0 {
        lemma_escaped_markdown(s.drop_last());
        let a = md_escape(s.drop_last());
        let b = md_escape_char(s.last());
        assert(md_escape(s) == a + b);
        assert forall|p: int| 0 <= p < md_escape(s).len() implies #[trigger] md_escape(s)[p] != '`' by {
            if p >= a.len() {
                assert(md_escape(s)[p] == b[p - a.len()]);
            } else {
                assert(md_escape(s)[p] == a[p]);
            }
        }
        assert forall|p: int|
            0 <= p < md_escape(s).len() && #[trigger] md_escape(s)[p] == '*' implies p > 0
                && md_escape(s)[p - 1] == '\\' by {
            if p >= a.len() {
                assert(md_escape(s)[p] == b[p - a.len()]);
                assert(b[p - a.len()] == '*');
                assert(p - a.len() == 1);
                assert(md_escape(s)[p - 1] == b[0]);
            } else {
                assert(md_escape(s)[p] == a[p]);
                assert(md_escape(s)[p - 1] == a[p - 1]);
            }
        }
    }
}

/// An escaped text holds no `**` and no backtick.
pub proof fn lemma_escaped_markdown_has_no_emphasis(s: Seq<char>)
    ensures
        forall|p: int|
            0 <= p < md_escape(s).len() - 1 ==> !(#[trigger] md_escape(s)[p] == '*' && md_escape(s)[p
                + 1] == '*'),
        forall|p: int| 0 <= p < md_escape(s).len() ==> #[trigger] md_escape(s)[p] != '`',
{
    lemma_escaped_markdown(s);
    assert forall|p: int| 0 <= p < md_escape(s).len() - 1 implies !(#[trigger] md_escape(s)[p] == '*'
        && md_escape(s)[p + 1] == '*') by {
        if md_escape(s)[p + 1] == '*' {
            assert(md_escape(s)[p] == '\\');
        }
    }
}

} // verus!
