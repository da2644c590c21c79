//! Reading a snapshot back: the snapshot of a graph can be read, and what
//! it reads as holds the graph again (see `lemma_snapshot_round_trip`).
use vstd::prelude::*;

use crate::engine::backtrack::{edge_type_of, node_status_of, xml_attr_spec};
use crate::engine::graph_xml::{
    desc_of, descs_of, edge_chunks, edge_desc, edge_desc_of, edge_error, graph_snapshot, graph_xml_error,
    lemma_split_first, node_chunks, node_desc, put_desc, reads_as, snapshot_edge, snapshot_edges, snapshot_node,
    snapshot_nodes, split_section, NodeDesc,
};
use crate::fixed::{all_digits, digit_value, digits_value, fixed4, frac_digit, is_digit, parse_i32_spec, parse_thousandths_spec};
use crate::models::edge::{edge_type_name, Edge, EdgeType};
use crate::models::graph::{complexity_sum, is_live_node, node_ids, Graph};
use crate::models::node::{node_status_name, Node, NodeStatus};
use crate::text::{decimal, digit_char, find, find_from, lemma_find_from, matches_at, signed_decimal, split, split_from};

verus! {

/// `p` occurs nowhere in `s` from `lo` up to (not including) `hi`.
pub open spec fn no_match_in(s: Seq<char>, p: Seq<char>, lo: int, hi: int) -> bool {
    forall|j: int| lo <= j < hi ==> !#[trigger] matches_at(s, p, j)
}

/// The first occurrence from `k` on is at `i` when there is one at `i` and
/// none before it.
pub proof fn lemma_find_at(s: Seq<char>, p: Seq<char>, k: int, i: int)
    requires
        0 <= k <= i,
        no_match_in(s, p, k, i),
        matches_at(s, p, i),
    ensures
        find_from(s, p, k) == Some(i),
{
    lemma_find_from(s, p, k);
    match find_from(s, p, k) {
        Some(i2) => {
            if i2 < i {
                assert(!matches_at(s, p, i2));
            } else if i2 > i {
            }
        },
        None => {},
    }
}

/// A digit's character has that digit's value.
pub proof fn lemma_digit_char(d: nat)
    requires
        d < 10,
    ensures
        is_digit(digit_char(d)),
        digit_value(digit_char(d)) == d,
{
}

/// The decimal notation of a number is digits, at least one, worth the
/// number.
pub proof fn lemma_decimal_digits(n: nat)
    ensures
        decimal(n).len() >= 1,
        all_digits(decimal(n)),
        digits_value(decimal(n)) == n,
    decreases n,
{
    if n < 10 {
        lemma_digit_char(n);
        assert(decimal(n).drop_last() =~= Seq::<char>::empty());
        assert(digits_value(Seq::<char>::empty()) == 0);
        assert(digits_value(decimal(n)) == digits_value(decimal(n).drop_last()) * 10 + digit_value(decimal(n).last()));
    } else {
        lemma_decimal_digits(n / 10);
        lemma_digit_char(n % 10);
        assert(decimal(n).drop_last() =~= decimal(n / 10));
        assert(digits_value(decimal(n)) == digits_value(decimal(n).drop_last()) * 10 + digit_value(decimal(n).last()));
        assert((n / 10) * 10 + n % 10 == n);
    }
}

/// A signed integer's notation reads back as that integer.
pub proof fn lemma_signed_decimal_reads_back(x: i32)
    ensures
        parse_i32_spec(signed_decimal(x as int)) == Some(x),
        forall|i: int| 0 <= i < signed_decimal(x as int).len() ==> #[trigger] signed_decimal(x as int)[i] == '-' || is_digit(signed_decimal(x as int)[i]),
{
    let s = signed_decimal(x as int);
    if x < 0 {
        lemma_decimal_digits((-x) as nat);
        assert(s.skip(1) =~= decimal((-x) as nat));
    } else {
        lemma_decimal_digits(x as nat);
    }
}

/// In digits followed by a point, the first point is that one.
pub proof fn lemma_find_point(ip: Seq<char>, rest: Seq<char>)
    requires
        all_digits(ip),
    ensures
        find(ip + seq!['.'] + rest, "."@) == Some(ip.len() as int),
{
    reveal_strlit(".");
    let s = ip + seq!['.'] + rest;
    assert forall|j: int| 0 <= j < ip.len() implies !#[trigger] matches_at(s, "."@, j) by {
        if matches_at(s, "."@, j) {
            assert(s.subrange(j, j + 1)[0] == '.');
            assert(s[j] == ip[j]);
        }
    }
    assert(s.subrange(ip.len() as int, ip.len() as int + 1) =~= "."@);
    lemma_find_at(s, "."@, 0, ip.len() as int);
}

/// The parts of a number in thousandths.
proof fn lemma_thousandths_parts(v: nat)
    ensures
        (v / 1000) * 1000 + ((v / 100) % 10) * 100 + ((v / 10) % 10) * 10 + v % 10 == v,
        (v / 100) % 10 < 10,
        (v / 10) % 10 < 10,
        v % 10 < 10,
{
    assert((v / 1000) * 1000 + ((v / 100) % 10) * 100 + ((v / 10) % 10) * 10 + v % 10 == v) by (nonlinear_arith);
}

/// A value in thousandths written with four decimals reads back as that
/// value.
pub proof fn lemma_fixed4_reads_back(w: u32)
    ensures
        parse_thousandths_spec(fixed4(w as nat)) == Some(w),
        forall|i: int| 0 <= i < fixed4(w as nat).len() ==> #[trigger] fixed4(w as nat)[i] == '.' || is_digit(fixed4(w as nat)[i]),
{
    let v = w as nat;
    let ip = decimal(v / 1000);
    let fp = seq![digit_char((v / 100) % 10), digit_char((v / 10) % 10), digit_char(v % 10), '0'];
    let s = fixed4(v);
    lemma_thousandths_parts(v);
    lemma_decimal_digits(v / 1000);
    lemma_digit_char((v / 100) % 10);
    lemma_digit_char((v / 10) % 10);
    lemma_digit_char(v % 10);
    lemma_digit_char(0);
    assert(s =~= ip + seq!['.'] + fp);
    lemma_find_point(ip, fp);
    assert(s.take(ip.len() as int) =~= ip);
    assert(s.skip(ip.len() as int + 1) =~= fp);
    assert(all_digits(fp));
    assert(frac_digit(fp, 0) == (v / 100) % 10);
    assert(frac_digit(fp, 1) == (v / 10) % 10);
    assert(frac_digit(fp, 2) == v % 10);
}

/// A node status's name reads back as that status, but for `Failed`,
/// which no name stands for in a snapshot.
pub proof fn lemma_status_reads_back(st: NodeStatus)
    ensures
        node_status_of(node_status_name(st)) == if st == NodeStatus::Failed {
            None
        } else {
            Some(st)
        },
{
    reveal_strlit("Draft");
    reveal_strlit("Active");
    reveal_strlit("Pruned");
    reveal_strlit("Locked");
    reveal_strlit("Failed");
    let a = "Active"@;
    let d = "Draft"@;
    let p = "Pruned"@;
    let l = "Locked"@;
    let f = "Failed"@;
    assert(a != d) by { assert(a.len() != d.len()); }
    assert(p != d) by { assert(p.len() != d.len()); }
    assert(p != a) by { assert(p[0] != a[0]); }
    assert(l != d) by { assert(l.len() != d.len()); }
    assert(l != a) by { assert(l[0] != a[0]); }
    assert(l != p) by { assert(l[0] != p[0]); }
    assert(f != d) by { assert(f.len() != d.len()); }
    assert(f != a) by { assert(f[0] != a[0]); }
    assert(f != p) by { assert(f[0] != p[0]); }
    assert(f != l) by { assert(f[0] != l[0]); }
}

/// An edge type's name reads back as that type.
pub proof fn lemma_edge_type_reads_back(t: EdgeType)
    ensures
        edge_type_of(edge_type_name(t)) == Some(t),
{
    reveal_strlit("Reasoning");
    reveal_strlit("Constraint");
    reveal_strlit("Divergence");
    let r = "Reasoning"@;
    let c = "Constraint"@;
    let d = "Divergence"@;
    assert(c != r) by { assert(c[0] != r[0]); }
    assert(d != r) by { assert(d[0] != r[0]); }
    assert(d != c) by { assert(d[0] != c[0]); }
}

/// Whether a text lacks a character.
pub open spec fn lacks(s: Seq<char>, c: char) -> bool {
    forall|i: int| 0 <= i < s.len() ==> #[trigger] s[i] != c
}

/// `p` occurs nowhere in `s`.
pub open spec fn absent(s: Seq<char>, p: Seq<char>) -> bool {
    forall|j: int| !#[trigger] matches_at(s, p, j)
}

/// No occurrence of `p` can start in the last characters of `s` and run on
/// into what follows: the first character of `p` is not among them.
pub open spec fn tail_clear(s: Seq<char>, p: Seq<char>) -> bool {
    forall|i: int| 0 <= i < s.len() && s.len() - p.len() < i ==> #[trigger] s[i] != p[0]
}

/// A text without the pattern's first character holds no occurrence and
/// ends clear of it.
pub proof fn lemma_lacks_head(s: Seq<char>, p: Seq<char>)
    requires
        p.len() > 0,
        lacks(s, p[0]),
    ensures
        absent(s, p),
        tail_clear(s, p),
{
    assert forall|j: int| !#[trigger] matches_at(s, p, j) by {
        if matches_at(s, p, j) {
            assert(s.subrange(j, j + p.len())[0] == p[0]);
        }
    }
}

/// Two texts without the pattern, the first ending clear of it, make a
/// text without it.
pub proof fn lemma_absent_cat(a: Seq<char>, b: Seq<char>, p: Seq<char>)
    requires
        p.len() > 0,
        absent(a, p),
        absent(b, p),
        tail_clear(a, p),
    ensures
        absent(a + b, p),
{
    let s = a + b;
    assert forall|j: int| !#[trigger] matches_at(s, p, j) by {
        if matches_at(s, p, j) {
            if j + p.len() <= a.len() {
                assert(s.subrange(j, j + p.len()) =~= a.subrange(j, j + p.len()));
                assert(matches_at(a, p, j));
            } else if j >= a.len() {
                assert(s.subrange(j, j + p.len()) =~= b.subrange(j - a.len(), j - a.len() + p.len()));
                assert(matches_at(b, p, j - a.len()));
            } else {
                assert(s.subrange(j, j + p.len())[0] == p[0]);
                assert(s[j] == a[j]);
            }
        }
    }
}

/// Text without the pattern's first character keeps the end clear.
pub proof fn lemma_tail_lacks(a: Seq<char>, b: Seq<char>, p: Seq<char>)
    requires
        p.len() > 0,
        tail_clear(a, p),
        lacks(b, p[0]),
    ensures
        tail_clear(a + b, p),
{
    assert forall|i: int| 0 <= i < (a + b).len() && (a + b).len() - p.len() < i implies #[trigger] (a + b)[i] != p[0] by {
        if i < a.len() {
            assert((a + b)[i] == a[i]);
        } else {
            assert((a + b)[i] == b[i - a.len()]);
        }
    }
}

/// A long enough end piece that ends clear keeps the whole end clear.
pub proof fn lemma_tail_long(a: Seq<char>, b: Seq<char>, p: Seq<char>)
    requires
        p.len() > 0,
        tail_clear(b, p),
        b.len() + 1 >= p.len(),
    ensures
        tail_clear(a + b, p),
{
    assert forall|i: int| 0 <= i < (a + b).len() && (a + b).len() - p.len() < i implies #[trigger] (a + b)[i] != p[0] by {
        assert((a + b)[i] == b[i - a.len()]);
    }
}

/// Searching past a prefix is searching the rest.
pub proof fn lemma_find_shift(x: Seq<char>, y: Seq<char>, p: Seq<char>, k: int)
    requires
        0 <= k,
    ensures
        find_from(x + y, p, x.len() + k) == match find_from(y, p, k) {
            Some(i) => Some(i + x.len()),
            None => None,
        },
    decreases y.len() - k,
{
    let s = x + y;
    if k + p.len() > y.len() {
    } else {
        assert(s.subrange(x.len() + k, x.len() + k + p.len()) =~= y.subrange(k, k + p.len()));
        if matches_at(y, p, k) {
        } else if k >= y.len() {
        } else {
            lemma_find_shift(x, y, p, k + 1);
        }
    }
}

/// Splitting past a prefix is splitting the rest.
pub proof fn lemma_split_shift(x: Seq<char>, y: Seq<char>, p: Seq<char>, k: int)
    requires
        0 <= k <= y.len(),
        p.len() > 0,
    ensures
        split_from(x + y, p, x.len() + k) == split_from(y, p, k),
    decreases y.len() - k,
{
    let s = x + y;
    lemma_find_shift(x, y, p, k);
    lemma_find_from(y, p, k);
    match find_from(y, p, k) {
        None => {
            assert(s.subrange(x.len() + k, s.len() as int) =~= y.subrange(k, y.len() as int));
        },
        Some(i) => {
            assert(s.subrange(x.len() + k, x.len() + i) =~= y.subrange(k, i));
            lemma_split_shift(x, y, p, i + p.len());
        },
    }
}

/// Splitting at a first occurrence that follows a clear piece: that piece,
/// then the pieces of the rest.
pub proof fn lemma_split_first_at(a: Seq<char>, b: Seq<char>, p: Seq<char>)
    requires
        p.len() > 0,
        absent(a, p),
        tail_clear(a, p),
    ensures
        split(a + p + b, p) == seq![a] + split(b, p),
{
    let s = a + p + b;
    assert forall|j: int| 0 <= j < a.len() implies !#[trigger] matches_at(s, p, j) by {
        if matches_at(s, p, j) {
            if j + p.len() <= a.len() {
                assert(s.subrange(j, j + p.len()) =~= a.subrange(j, j + p.len()));
                assert(matches_at(a, p, j));
            } else {
                assert(s.subrange(j, j + p.len())[0] == p[0]);
                assert(s[j] == a[j]);
            }
        }
    }
    assert(s.subrange(a.len() as int, a.len() as int + p.len()) =~= p);
    lemma_find_at(s, p, 0, a.len() as int);
    assert(s.subrange(0, a.len() as int) =~= a);
    assert(s =~= (a + p) + b);
    lemma_split_shift(a + p, b, p, 0);
}

/// A text without the pattern splits into itself alone.
pub proof fn lemma_split_absent(s: Seq<char>, p: Seq<char>)
    requires
        p.len() > 0,
        absent(s, p),
    ensures
        split(s, p) == seq![s],
{
    lemma_find_from(s, p, 0);
    match find_from(s, p, 0) {
        Some(i) => {
            assert(!matches_at(s, p, i));
        },
        None => {
            assert(s.subrange(0, s.len() as int) =~= s);
        },
    }
}

/// The tags around a node's content hold none of the section tags.
proof fn lemma_node_literals()
    ensures
        absent("\">\n      <content><![CDATA["@, "<node "@),
        tail_clear("\">\n      <content><![CDATA["@, "<node "@),
        absent("\">\n      <content><![CDATA["@, "<nodes>"@),
        tail_clear("\">\n      <content><![CDATA["@, "<nodes>"@),
        absent("\">\n      <content><![CDATA["@, "</nodes>"@),
        tail_clear("\">\n      <content><![CDATA["@, "</nodes>"@),
        absent("\">\n      <content><![CDATA["@, "<edges>"@),
        tail_clear("\">\n      <content><![CDATA["@, "<edges>"@),
        absent("]]></content>\n    </node>\n"@, "<node "@),
        tail_clear("]]></content>\n    </node>\n"@, "<node "@),
        absent("]]></content>\n    </node>\n"@, "<nodes>"@),
        tail_clear("]]></content>\n    </node>\n"@, "<nodes>"@),
        absent("]]></content>\n    </node>\n"@, "</nodes>"@),
        tail_clear("]]></content>\n    </node>\n"@, "</nodes>"@),
        absent("]]></content>\n    </node>\n"@, "<edges>"@),
        tail_clear("]]></content>\n    </node>\n"@, "<edges>"@),
{
    reveal_strlit("\">\n      <content><![CDATA[");
    reveal_strlit("</nodes>");
    reveal_strlit("<edges>");
    reveal_strlit("<node ");
    reveal_strlit("<nodes>");
    reveal_strlit("]]></content>\n    </node>\n");
    assert forall|j: int| !#[trigger] matches_at("\">\n      <content><![CDATA["@, "<node "@, j) by {
        if matches_at("\">\n      <content><![CDATA["@, "<node "@, j) {
            assert("\">\n      <content><![CDATA["@.subrange(j, j + 6)[0] == "<node "@[0]);
            assert("\">\n      <content><![CDATA["@.subrange(j, j + 6)[1] == "<node "@[1]);
            assert("\">\n      <content><![CDATA["@.subrange(j, j + 6)[2] == "<node "@[2]);
            assert("\">\n      <content><![CDATA["@.subrange(j, j + 6)[3] == "<node "@[3]);
            assert("\">\n      <content><![CDATA["@.subrange(j, j + 6)[4] == "<node "@[4]);
            assert("\">\n      <content><![CDATA["@.subrange(j, j + 6)[5] == "<node "@[5]);
        }
    }
    assert forall|j: int| !#[trigger] matches_at("\">\n      <content><![CDATA["@, "<nodes>"@, j) by {
        if matches_at("\">\n      <content><![CDATA["@, "<nodes>"@, j) {
            assert("\">\n      <content><![CDATA["@.subrange(j, j + 7)[0] == "<nodes>"@[0]);
            assert("\">\n      <content><![CDATA["@.subrange(j, j + 7)[1] == "<nodes>"@[1]);
            assert("\">\n      <content><![CDATA["@.subrange(j, j + 7)[2] == "<nodes>"@[2]);
            assert("\">\n      <content><![CDATA["@.subrange(j, j + 7)[3] == "<nodes>"@[3]);
            assert("\">\n      <content><![CDATA["@.subrange(j, j + 7)[4] == "<nodes>"@[4]);
            assert("\">\n      <content><![CDATA["@.subrange(j, j + 7)[5] == "<nodes>"@[5]);
            assert("\">\n      <content><![CDATA["@.subrange(j, j + 7)[6] == "<nodes>"@[6]);
        }
    }
    assert forall|j: int| !#[trigger] matches_at("\">\n      <content><![CDATA["@, "</nodes>"@, j) by {
        if matches_at("\">\n      <content><![CDATA["@, "</nodes>"@, j) {
            assert("\">\n      <content><![CDATA["@.subrange(j, j + 8)[0] == "</nodes>"@[0]);
            assert("\">\n      <content><![CDATA["@.subrange(j, j + 8)[1] == "</nodes>"@[1]);
            assert("\">\n      <content><![CDATA["@.subrange(j, j + 8)[2] == "</nodes>"@[2]);
            assert("\">\n      <content><![CDATA["@.subrange(j, j + 8)[3] == "</nodes>"@[3]);
            assert("\">\n      <content><![CDATA["@.subrange(j, j + 8)[4] == "</nodes>"@[4]);
            assert("\">\n      <content><![CDATA["@.subrange(j, j + 8)[5] == "</nodes>"@[5]);
            assert("\">\n      <content><![CDATA["@.subrange(j, j + 8)[6] == "</nodes>"@[6]);
            assert("\">\n      <content><![CDATA["@.subrange(j, j + 8)[7] == "</nodes>"@[7]);
        }
    }
    assert forall|j: int| !#[trigger] matches_at("\">\n      <content><![CDATA["@, "<edges>"@, j) by {
        if matches_at("\">\n      <content><![CDATA["@, "<edges>"@, j) {
            assert("\">\n      <content><![CDATA["@.subrange(j, j + 7)[0] == "<edges>"@[0]);
            assert("\">\n      <content><![CDATA["@.subrange(j, j + 7)[1] == "<edges>"@[1]);
            assert("\">\n      <content><![CDATA["@.subrange(j, j + 7)[2] == "<edges>"@[2]);
            assert("\">\n      <content><![CDATA["@.subrange(j, j + 7)[3] == "<edges>"@[3]);
            assert("\">\n      <content><![CDATA["@.subrange(j, j + 7)[4] == "<edges>"@[4]);
            assert("\">\n      <content><![CDATA["@.subrange(j, j + 7)[5] == "<edges>"@[5]);
            assert("\">\n      <content><![CDATA["@.subrange(j, j + 7)[6] == "<edges>"@[6]);
        }
    }
    assert forall|j: int| !#[trigger] matches_at("]]></content>\n    </node>\n"@, "<node "@, j) by {
        if matches_at("]]></content>\n    </node>\n"@, "<node "@, j) {
            assert("]]></content>\n    </node>\n"@.subrange(j, j + 6)[0] == "<node "@[0]);
            assert("]]></content>\n    </node>\n"@.subrange(j, j + 6)[1] == "<node "@[1]);
            assert("]]></content>\n    </node>\n"@.subrange(j, j + 6)[2] == "<node "@[2]);
            assert("]]></content>\n    </node>\n"@.subrange(j, j + 6)[3] == "<node "@[3]);
            assert("]]></content>\n    </node>\n"@.subrange(j, j + 6)[4] == "<node "@[4]);
            assert("]]></content>\n    </node>\n"@.subrange(j, j + 6)[5] == "<node "@[5]);
        }
    }
    assert forall|j: int| !#[trigger] matches_at("]]></content>\n    </node>\n"@, "<nodes>"@, j) by {
        if matches_at("]]></content>\n    </node>\n"@, "<nodes>"@, j) {
            assert("]]></content>\n    </node>\n"@.subrange(j, j + 7)[0] == "<nodes>"@[0]);
            assert("]]></content>\n    </node>\n"@.subrange(j, j + 7)[1] == "<nodes>"@[1]);
            assert("]]></content>\n    </node>\n"@.subrange(j, j + 7)[2] == "<nodes>"@[2]);
            assert("]]></content>\n    </node>\n"@.subrange(j, j + 7)[3] == "<nodes>"@[3]);
            assert("]]></content>\n    </node>\n"@.subrange(j, j + 7)[4] == "<nodes>"@[4]);
            assert("]]></content>\n    </node>\n"@.subrange(j, j + 7)[5] == "<nodes>"@[5]);
            assert("]]></content>\n    </node>\n"@.subrange(j, j + 7)[6] == "<nodes>"@[6]);
        }
    }
    assert forall|j: int| !#[trigger] matches_at("]]></content>\n    </node>\n"@, "</nodes>"@, j) by {
        if matches_at("]]></content>\n    </node>\n"@, "</nodes>"@, j) {
            assert("]]></content>\n    </node>\n"@.subrange(j, j + 8)[0] == "</nodes>"@[0]);
            assert("]]></content>\n    </node>\n"@.subrange(j, j + 8)[1] == "</nodes>"@[1]);
            assert("]]></content>\n    </node>\n"@.subrange(j, j + 8)[2] == "</nodes>"@[2]);
            assert("]]></content>\n    </node>\n"@.subrange(j, j + 8)[3] == "</nodes>"@[3]);
            assert("]]></content>\n    </node>\n"@.subrange(j, j + 8)[4] == "</nodes>"@[4]);
            assert("]]></content>\n    </node>\n"@.subrange(j, j + 8)[5] == "</nodes>"@[5]);
            assert("]]></content>\n    </node>\n"@.subrange(j, j + 8)[6] == "</nodes>"@[6]);
            assert("]]></content>\n    </node>\n"@.subrange(j, j + 8)[7] == "</nodes>"@[7]);
        }
    }
    assert forall|j: int| !#[trigger] matches_at("]]></content>\n    </node>\n"@, "<edges>"@, j) by {
        if matches_at("]]></content>\n    </node>\n"@, "<edges>"@, j) {
            assert("]]></content>\n    </node>\n"@.subrange(j, j + 7)[0] == "<edges>"@[0]);
            assert("]]></content>\n    </node>\n"@.subrange(j, j + 7)[1] == "<edges>"@[1]);
            assert("]]></content>\n    </node>\n"@.subrange(j, j + 7)[2] == "<edges>"@[2]);
            assert("]]></content>\n    </node>\n"@.subrange(j, j + 7)[3] == "<edges>"@[3]);
            assert("]]></content>\n    </node>\n"@.subrange(j, j + 7)[4] == "<edges>"@[4]);
            assert("]]></content>\n    </node>\n"@.subrange(j, j + 7)[5] == "<edges>"@[5]);
            assert("]]></content>\n    </node>\n"@.subrange(j, j + 7)[6] == "<edges>"@[6]);
        }
    }
}

/// Adding a piece without the pattern's first character keeps a text free
/// of the pattern and clear at its end.
pub proof fn lemma_push_plain(acc: Seq<char>, piece: Seq<char>, p: Seq<char>)
    requires
        p.len() > 0,
        absent(acc, p),
        tail_clear(acc, p),
        lacks(piece, p[0]),
    ensures
        absent(acc + piece, p),
        tail_clear(acc + piece, p),
{
    lemma_lacks_head(piece, p);
    lemma_absent_cat(acc, piece, p);
    lemma_tail_lacks(acc, piece, p);
}

/// Adding a long enough piece free of the pattern and clear at its end does
/// the same.
pub proof fn lemma_push_clear(acc: Seq<char>, piece: Seq<char>, p: Seq<char>)
    requires
        p.len() > 0,
        absent(acc, p),
        tail_clear(acc, p),
        absent(piece, p),
        tail_clear(piece, p),
        piece.len() + 1 >= p.len(),
    ensures
        absent(acc + piece, p),
        tail_clear(acc + piece, p),
{
    lemma_absent_cat(acc, piece, p);
    lemma_tail_long(acc, piece, p);
}

/// The empty text is free of any pattern and clear at its end.
pub proof fn lemma_empty_clear(p: Seq<char>)
    requires
        p.len() > 0,
    ensures
        absent(Seq::<char>::empty(), p),
        tail_clear(Seq::<char>::empty(), p),
{
}

/// Whether a text can stand as an identifier in a snapshot: no quote, no
/// equals sign, no `<`.
pub open spec fn plain_id(s: Seq<char>) -> bool {
    &&& lacks(s, '"')
    &&& lacks(s, '=')
    &&& lacks(s, '<')
}

/// A node's lines after a first piece: its attributes and content.
pub open spec fn node_text(n: Node, first: Seq<char>) -> Seq<char> {
    first + n.id@ + "\" step=\""@ + signed_decimal(n.step as int) + "\" weight=\""@ + fixed4(n.weight as nat)
        + "\" confidence=\""@ + fixed4(n.confidence as nat) + "\" status=\""@ + node_status_name(n.status)
        + "\">\n      <content><![CDATA["@ + n.content@ + "]]></content>\n    </node>\n"@
}

/// What follows `    <node ` in a node's lines.
pub open spec fn node_rest(n: Node) -> Seq<char> {
    node_text(n, "id=\""@)
}

/// What follows `    <edge ` in an edge's line.
pub open spec fn edge_rest(e: Edge) -> Seq<char> {
    "id=\""@ + e.id@ + "\" from=\""@ + e.from@ + "\" to=\""@ + e.to@ + "\" type=\""@ + edge_type_name(e.edge_type)
        + "\" weight=\""@ + fixed4(e.weight as nat) + "\" />\n"@
}

/// A node's lines are `    <node ` and the rest.
pub proof fn lemma_node_lines(n: Node)
    ensures
        snapshot_node(n) == "    "@ + "<node "@ + node_rest(n),
{
    reveal_strlit("    <node id=\"");
    reveal_strlit("    ");
    reveal_strlit("<node ");
    reveal_strlit("id=\"");
    assert(snapshot_node(n) =~= "    "@ + "<node "@ + node_rest(n));
}

/// An edge's line is `    <edge ` and the rest.
pub proof fn lemma_edge_line(e: Edge)
    ensures
        snapshot_edge(e) == "    "@ + "<edge "@ + edge_rest(e),
{
    reveal_strlit("    <edge id=\"");
    reveal_strlit("    ");
    reveal_strlit("<edge ");
    reveal_strlit("id=\"");
    assert(snapshot_edge(e) =~= "    "@ + "<edge "@ + edge_rest(e));
}

/// Numbers and names as a snapshot writes them lack `<`.
pub proof fn lemma_values_lack_tag(n: Node)
    ensures
        lacks(signed_decimal(n.step as int), '<'),
        lacks(fixed4(n.weight as nat), '<'),
        lacks(fixed4(n.confidence as nat), '<'),
        lacks(node_status_name(n.status), '<'),
{
    lemma_signed_decimal_reads_back(n.step);
    lemma_fixed4_reads_back(n.weight);
    lemma_fixed4_reads_back(n.confidence);
    reveal_strlit("Draft");
    reveal_strlit("Active");
    reveal_strlit("Pruned");
    reveal_strlit("Locked");
    reveal_strlit("Failed");
}

/// The attribute openers of a node lack `<`.
proof fn lemma_node_openers_lack_tag()
    ensures
        lacks("id=\""@, '<'),
        lacks("\" step=\""@, '<'),
        lacks("\" weight=\""@, '<'),
        lacks("\" confidence=\""@, '<'),
        lacks("\" status=\""@, '<'),
{
    reveal_strlit("id=\"");
    reveal_strlit("\" step=\"");
    reveal_strlit("\" weight=\"");
    reveal_strlit("\" confidence=\"");
    reveal_strlit("\" status=\"");
}

/// A node's lines after a first piece free of a tag pattern hold it no
/// more than the tags around its content do, and end clear of it.
pub proof fn lemma_node_text_clear(n: Node, first: Seq<char>, p: Seq<char>)
    requires
        p.len() > 0,
        p.len() <= 26,
        p[0] == '<',
        plain_id(n.id@),
        lacks(n.content@, '<'),
        absent(first, p),
        tail_clear(first, p),
        absent("\">\n      <content><![CDATA["@, p),
        tail_clear("\">\n      <content><![CDATA["@, p),
        absent("]]></content>\n    </node>\n"@, p),
        tail_clear("]]></content>\n    </node>\n"@, p),
    ensures
        absent(node_text(n, first), p),
        tail_clear(node_text(n, first), p),
{
    reveal_strlit("\">\n      <content><![CDATA[");
    reveal_strlit("]]></content>\n    </node>\n");
    lemma_values_lack_tag(n);
    lemma_node_openers_lack_tag();
    let s1 = first;
    lemma_push_plain(s1, n.id@, p);
    let s2 = s1 + n.id@;
    lemma_push_plain(s2, "\" step=\""@, p);
    let s3 = s2 + "\" step=\""@;
    lemma_push_plain(s3, signed_decimal(n.step as int), p);
    let s4 = s3 + signed_decimal(n.step as int);
    lemma_push_plain(s4, "\" weight=\""@, p);
    let s5 = s4 + "\" weight=\""@;
    lemma_push_plain(s5, fixed4(n.weight as nat), p);
    let s6 = s5 + fixed4(n.weight as nat);
    lemma_push_plain(s6, "\" confidence=\""@, p);
    let s7 = s6 + "\" confidence=\""@;
    lemma_push_plain(s7, fixed4(n.confidence as nat), p);
    let s8 = s7 + fixed4(n.confidence as nat);
    lemma_push_plain(s8, "\" status=\""@, p);
    let s9 = s8 + "\" status=\""@;
    lemma_push_plain(s9, node_status_name(n.status), p);
    let s10 = s9 + node_status_name(n.status);
    lemma_push_clear(s10, "\">\n      <content><![CDATA["@, p);
    let s11 = s10 + "\">\n      <content><![CDATA["@;
    lemma_push_plain(s11, n.content@, p);
    let s12 = s11 + n.content@;
    lemma_push_clear(s12, "]]></content>\n    </node>\n"@, p);
}

/// Texts without a character make a text without it.
pub proof fn lemma_lacks_cat(a: Seq<char>, b: Seq<char>, c: char)
    requires
        lacks(a, c),
        lacks(b, c),
    ensures
        lacks(a + b, c),
{
    assert forall|i: int| 0 <= i < (a + b).len() implies #[trigger] (a + b)[i] != c by {
        if i < a.len() {
            assert((a + b)[i] == a[i]);
        } else {
            assert((a + b)[i] == b[i - a.len()]);
        }
    }
}

/// What follows the first piece of an edge's line lacks `<` where its
/// identifiers do.
pub proof fn lemma_edge_rest_lacks(e: Edge, first: Seq<char>)
    requires
        lacks(first, '<'),
        plain_id(e.id@),
        plain_id(e.from@),
        plain_id(e.to@),
    ensures
        lacks(
            first + e.id@ + "\" from=\""@ + e.from@ + "\" to=\""@ + e.to@ + "\" type=\""@ + edge_type_name(e.edge_type)
                + "\" weight=\""@ + fixed4(e.weight as nat) + "\" />\n"@,
            '<',
        ),
{
    reveal_strlit("\" from=\"");
    reveal_strlit("\" to=\"");
    reveal_strlit("\" type=\"");
    reveal_strlit("\" weight=\"");
    reveal_strlit("\" />\n");
    reveal_strlit("Reasoning");
    reveal_strlit("Constraint");
    reveal_strlit("Divergence");
    lemma_fixed4_reads_back(e.weight);
    let s1 = first + e.id@;
    lemma_lacks_cat(first, e.id@, '<');
    let s2 = s1 + "\" from=\""@;
    lemma_lacks_cat(s1, "\" from=\""@, '<');
    let s3 = s2 + e.from@;
    lemma_lacks_cat(s2, e.from@, '<');
    let s4 = s3 + "\" to=\""@;
    lemma_lacks_cat(s3, "\" to=\""@, '<');
    let s5 = s4 + e.to@;
    lemma_lacks_cat(s4, e.to@, '<');
    let s6 = s5 + "\" type=\""@;
    lemma_lacks_cat(s5, "\" type=\""@, '<');
    let s7 = s6 + edge_type_name(e.edge_type);
    lemma_lacks_cat(s6, edge_type_name(e.edge_type), '<');
    let s8 = s7 + "\" weight=\""@;
    lemma_lacks_cat(s7, "\" weight=\""@, '<');
    let s9 = s8 + fixed4(e.weight as nat);
    lemma_lacks_cat(s8, fixed4(e.weight as nat), '<');
    lemma_lacks_cat(s9, "\" />\n"@, '<');
}

/// A node's first piece holds none of the section tags.
proof fn lemma_line_openers()
    ensures
        absent("    <node id=\""@, "<nodes>"@),
        tail_clear("    <node id=\""@, "<nodes>"@),
        absent("    <node id=\""@, "</nodes>"@),
        tail_clear("    <node id=\""@, "</nodes>"@),
        absent("    <node id=\""@, "<edges>"@),
        tail_clear("    <node id=\""@, "<edges>"@),
{
    reveal_strlit("    <node id=\"");
    reveal_strlit("</nodes>");
    reveal_strlit("<edges>");
    reveal_strlit("<nodes>");
    assert forall|j: int| !#[trigger] matches_at("    <node id=\""@, "<nodes>"@, j) by {
        if matches_at("    <node id=\""@, "<nodes>"@, j) {
            assert("    <node id=\""@.subrange(j, j + 7)[0] == "<nodes>"@[0]);
            assert("    <node id=\""@.subrange(j, j + 7)[1] == "<nodes>"@[1]);
            assert("    <node id=\""@.subrange(j, j + 7)[2] == "<nodes>"@[2]);
            assert("    <node id=\""@.subrange(j, j + 7)[3] == "<nodes>"@[3]);
            assert("    <node id=\""@.subrange(j, j + 7)[4] == "<nodes>"@[4]);
            assert("    <node id=\""@.subrange(j, j + 7)[5] == "<nodes>"@[5]);
            assert("    <node id=\""@.subrange(j, j + 7)[6] == "<nodes>"@[6]);
        }
    }
    assert forall|j: int| !#[trigger] matches_at("    <node id=\""@, "</nodes>"@, j) by {
        if matches_at("    <node id=\""@, "</nodes>"@, j) {
            assert("    <node id=\""@.subrange(j, j + 8)[0] == "</nodes>"@[0]);
            assert("    <node id=\""@.subrange(j, j + 8)[1] == "</nodes>"@[1]);
            assert("    <node id=\""@.subrange(j, j + 8)[2] == "</nodes>"@[2]);
            assert("    <node id=\""@.subrange(j, j + 8)[3] == "</nodes>"@[3]);
            assert("    <node id=\""@.subrange(j, j + 8)[4] == "</nodes>"@[4]);
            assert("    <node id=\""@.subrange(j, j + 8)[5] == "</nodes>"@[5]);
            assert("    <node id=\""@.subrange(j, j + 8)[6] == "</nodes>"@[6]);
            assert("    <node id=\""@.subrange(j, j + 8)[7] == "</nodes>"@[7]);
        }
    }
    assert forall|j: int| !#[trigger] matches_at("    <node id=\""@, "<edges>"@, j) by {
        if matches_at("    <node id=\""@, "<edges>"@, j) {
            assert("    <node id=\""@.subrange(j, j + 7)[0] == "<edges>"@[0]);
            assert("    <node id=\""@.subrange(j, j + 7)[1] == "<edges>"@[1]);
            assert("    <node id=\""@.subrange(j, j + 7)[2] == "<edges>"@[2]);
            assert("    <node id=\""@.subrange(j, j + 7)[3] == "<edges>"@[3]);
            assert("    <node id=\""@.subrange(j, j + 7)[4] == "<edges>"@[4]);
            assert("    <node id=\""@.subrange(j, j + 7)[5] == "<edges>"@[5]);
            assert("    <node id=\""@.subrange(j, j + 7)[6] == "<edges>"@[6]);
        }
    }
}

/// An edge's first piece holds none of the section tags.
proof fn lemma_edge_openers()
    ensures
        absent("    <edge id=\""@, "<nodes>"@),
        tail_clear("    <edge id=\""@, "<nodes>"@),
        absent("    <edge id=\""@, "<edges>"@),
        tail_clear("    <edge id=\""@, "<edges>"@),
        absent("    <edge id=\""@, "</edges>"@),
        tail_clear("    <edge id=\""@, "</edges>"@),
{
    reveal_strlit("    <edge id=\"");
    reveal_strlit("</edges>");
    reveal_strlit("<edges>");
    reveal_strlit("<nodes>");
    assert forall|j: int| !#[trigger] matches_at("    <edge id=\""@, "<nodes>"@, j) by {
        if matches_at("    <edge id=\""@, "<nodes>"@, j) {
            assert("    <edge id=\""@.subrange(j, j + 7)[0] == "<nodes>"@[0]);
            assert("    <edge id=\""@.subrange(j, j + 7)[1] == "<nodes>"@[1]);
            assert("    <edge id=\""@.subrange(j, j + 7)[2] == "<nodes>"@[2]);
            assert("    <edge id=\""@.subrange(j, j + 7)[3] == "<nodes>"@[3]);
            assert("    <edge id=\""@.subrange(j, j + 7)[4] == "<nodes>"@[4]);
            assert("    <edge id=\""@.subrange(j, j + 7)[5] == "<nodes>"@[5]);
            assert("    <edge id=\""@.subrange(j, j + 7)[6] == "<nodes>"@[6]);
        }
    }
    assert forall|j: int| !#[trigger] matches_at("    <edge id=\""@, "<edges>"@, j) by {
        if matches_at("    <edge id=\""@, "<edges>"@, j) {
            assert("    <edge id=\""@.subrange(j, j + 7)[0] == "<edges>"@[0]);
            assert("    <edge id=\""@.subrange(j, j + 7)[1] == "<edges>"@[1]);
            assert("    <edge id=\""@.subrange(j, j + 7)[2] == "<edges>"@[2]);
            assert("    <edge id=\""@.subrange(j, j + 7)[3] == "<edges>"@[3]);
            assert("    <edge id=\""@.subrange(j, j + 7)[4] == "<edges>"@[4]);
            assert("    <edge id=\""@.subrange(j, j + 7)[5] == "<edges>"@[5]);
            assert("    <edge id=\""@.subrange(j, j + 7)[6] == "<edges>"@[6]);
        }
    }
    assert forall|j: int| !#[trigger] matches_at("    <edge id=\""@, "</edges>"@, j) by {
        if matches_at("    <edge id=\""@, "</edges>"@, j) {
            assert("    <edge id=\""@.subrange(j, j + 8)[0] == "</edges>"@[0]);
            assert("    <edge id=\""@.subrange(j, j + 8)[1] == "</edges>"@[1]);
            assert("    <edge id=\""@.subrange(j, j + 8)[2] == "</edges>"@[2]);
            assert("    <edge id=\""@.subrange(j, j + 8)[3] == "</edges>"@[3]);
            assert("    <edge id=\""@.subrange(j, j + 8)[4] == "</edges>"@[4]);
            assert("    <edge id=\""@.subrange(j, j + 8)[5] == "</edges>"@[5]);
            assert("    <edge id=\""@.subrange(j, j + 8)[6] == "</edges>"@[6]);
            assert("    <edge id=\""@.subrange(j, j + 8)[7] == "</edges>"@[7]);
        }
    }
}

/// A node's lines, front to back: its first piece and the rest.
pub proof fn lemma_node_lines_text(n: Node)
    ensures
        snapshot_node(n) == node_text(n, "    <node id=\""@),
{
    assert(snapshot_node(n) =~= node_text(n, "    <node id=\""@));
}

/// The lines of some nodes are those of the first, then those of the rest.
pub proof fn lemma_nodes_front(ns: Seq<Node>)
    requires
        ns.len() > 0,
    ensures
        snapshot_nodes(ns) == snapshot_node(ns[0]) + snapshot_nodes(ns.drop_first()),
    decreases ns.len(),
{
    if ns.len() == 1 {
        assert(ns.drop_last() =~= Seq::<Node>::empty());
        assert(ns.drop_first() =~= Seq::<Node>::empty());
        assert(snapshot_nodes(ns) =~= snapshot_node(ns[0]) + snapshot_nodes(ns.drop_first()));
    } else {
        lemma_nodes_front(ns.drop_last());
        assert(ns.drop_last().drop_first() =~= ns.drop_first().drop_last());
        assert(ns.drop_first().last() == ns.last());
        assert(ns.drop_last()[0] == ns[0]);
        assert(snapshot_nodes(ns) =~= snapshot_node(ns[0]) + snapshot_nodes(ns.drop_first()));
    }
}

/// The lines of some edges are those of the first, then those of the rest.
pub proof fn lemma_edges_front(es: Seq<Edge>)
    requires
        es.len() > 0,
    ensures
        snapshot_edges(es) == snapshot_edge(es[0]) + snapshot_edges(es.drop_first()),
    decreases es.len(),
{
    if es.len() == 1 {
        assert(es.drop_last() =~= Seq::<Edge>::empty());
        assert(es.drop_first() =~= Seq::<Edge>::empty());
        assert(snapshot_edges(es) =~= snapshot_edge(es[0]) + snapshot_edges(es.drop_first()));
    } else {
        lemma_edges_front(es.drop_last());
        assert(es.drop_last().drop_first() =~= es.drop_first().drop_last());
        assert(es.drop_first().last() == es.last());
        assert(es.drop_last()[0] == es[0]);
        assert(snapshot_edges(es) =~= snapshot_edge(es[0]) + snapshot_edges(es.drop_first()));
    }
}

/// Whether a graph's texts can stand in a snapshot as they are: its node
/// and edge identifiers and edge ends have no quote, equals sign or `<`,
/// and its node contents no `<`.
pub open spec fn snapshot_plain(g: Graph) -> bool {
    &&& forall|i: int| 0 <= i < g.nodes@.len() ==> plain_id(#[trigger] g.nodes@[i].id@) && lacks(g.nodes@[i].content@, '<')
    &&& forall|k: int| 0 <= k < g.edges@.len() ==> plain_id(#[trigger] g.edges@[k].id@) && plain_id(g.edges@[k].from@) && plain_id(g.edges@[k].to@)
}

/// Whether every node of a list can stand in a snapshot as it is.
pub open spec fn nodes_plain(ns: Seq<Node>) -> bool {
    forall|i: int| 0 <= i < ns.len() ==> plain_id(#[trigger] ns[i].id@) && lacks(ns[i].content@, '<')
}

/// Whether every edge of a list can stand in a snapshot as it is.
pub open spec fn edges_plain(es: Seq<Edge>) -> bool {
    forall|k: int| 0 <= k < es.len() ==> plain_id(#[trigger] es[k].id@) && plain_id(es[k].from@) && plain_id(es[k].to@)
}

/// The lines of plain nodes hold none of the section tags and end clear of
/// them.
pub proof fn lemma_nodes_clear(ns: Seq<Node>, p: Seq<char>)
    requires
        nodes_plain(ns),
        p == "<nodes>"@ || p == "</nodes>"@ || p == "<edges>"@,
    ensures
        absent(snapshot_nodes(ns), p),
        tail_clear(snapshot_nodes(ns), p),
    decreases ns.len(),
{
    reveal_strlit("<nodes>");
    reveal_strlit("</nodes>");
    reveal_strlit("<edges>");
    reveal_strlit("    <node id=\"");
    reveal_strlit("]]></content>\n    </node>\n");
    if ns.len() == 0 {
        lemma_empty_clear(p);
    } else {
        assert(nodes_plain(ns.drop_last())) by {
            assert forall|i: int| 0 <= i < ns.drop_last().len() implies plain_id(#[trigger] ns.drop_last()[i].id@) && lacks(ns.drop_last()[i].content@, '<') by {
                assert(ns.drop_last()[i] == ns[i]);
                assert(plain_id(ns[i].id@));
            }
        }
        lemma_nodes_clear(ns.drop_last(), p);
        let n = ns.last();
        assert(plain_id(ns[ns.len() - 1].id@));
        lemma_line_openers();
        lemma_node_literals();
        lemma_node_text_clear(n, "    <node id=\""@, p);
        lemma_node_lines_text(n);
        lemma_push_clear(snapshot_nodes(ns.drop_last()), snapshot_node(n), p);
    }
}

/// The lines of plain edges hold none of the section tags and end clear of
/// them.
pub proof fn lemma_edges_clear(es: Seq<Edge>, p: Seq<char>)
    requires
        edges_plain(es),
        p == "<nodes>"@ || p == "<edges>"@ || p == "</edges>"@,
    ensures
        absent(snapshot_edges(es), p),
        tail_clear(snapshot_edges(es), p),
    decreases es.len(),
{
    reveal_strlit("<nodes>");
    reveal_strlit("<edges>");
    reveal_strlit("</edges>");
    reveal_strlit("    <edge id=\"");
    if es.len() == 0 {
        lemma_empty_clear(p);
    } else {
        assert(edges_plain(es.drop_last())) by {
            assert forall|k: int| 0 <= k < es.drop_last().len() implies plain_id(#[trigger] es.drop_last()[k].id@) && plain_id(es.drop_last()[k].from@) && plain_id(es.drop_last()[k].to@) by {
                assert(es.drop_last()[k] == es[k]);
                assert(plain_id(es[k].id@));
            }
        }
        lemma_edges_clear(es.drop_last(), p);
        let e = es.last();
        assert(plain_id(es[es.len() - 1].id@));
        lemma_edge_openers();
        lemma_edge_rest_lacks(e, Seq::<char>::empty());
        let rest = Seq::<char>::empty() + e.id@ + "\" from=\""@ + e.from@ + "\" to=\""@ + e.to@ + "\" type=\""@
            + edge_type_name(e.edge_type) + "\" weight=\""@ + fixed4(e.weight as nat) + "\" />\n"@;
        lemma_push_plain("    <edge id=\""@, rest, p);
        assert(snapshot_edge(e) =~= "    <edge id=\""@ + rest);
        lemma_push_clear(snapshot_edges(es.drop_last()), snapshot_edge(e), p);
    }
}


/// What ends a node's chunk: the indent of the next node's lines, or the
/// indent of the section's closing tag after the last.
pub open spec fn node_sep(last: bool) -> Seq<char> {
    if last {
        "  "@
    } else {
        "    "@
    }
}

/// The chunks that the nodes' lines split into at `<node `, one a node.
pub open spec fn node_chunk_texts(ns: Seq<Node>) -> Seq<Seq<char>> {
    Seq::new(ns.len(), |i: int| node_rest(ns[i]) + node_sep(i + 1 == ns.len()))
}

/// Splitting the lines of plain nodes, after a piece free of `<node `, at
/// `<node ` gives that piece, then one chunk a node.
#[verifier::spinoff_prover]
#[verifier::rlimit(60)]
pub proof fn lemma_split_nodes(a: Seq<char>, ns: Seq<Node>)
    requires
        nodes_plain(ns),
        absent(a, "<node "@),
        tail_clear(a, "<node "@),
    ensures
        split(a + snapshot_nodes(ns) + "  "@, "<node "@) == seq![a + node_sep(ns.len() == 0)] + node_chunk_texts(ns),
    decreases ns.len(),
{
    reveal_strlit("<node ");
    reveal_strlit("  ");
    reveal_strlit("    ");
    reveal_strlit("id=\"");
    let p = "<node "@;
    if ns.len() == 0 {
        lemma_push_plain(a, "  "@, p);
        assert(a + snapshot_nodes(ns) + "  "@ =~= a + "  "@);
        lemma_split_absent(a + "  "@, p);
        assert(node_chunk_texts(ns) =~= Seq::<Seq<char>>::empty());
        assert(seq![a + node_sep(true)] + node_chunk_texts(ns) =~= seq![a + "  "@]);
    } else {
        let n0 = ns[0];
        let rest = ns.drop_first();
        assert(plain_id(ns[0].id@));
        assert(nodes_plain(rest)) by {
            assert forall|i: int| 0 <= i < rest.len() implies plain_id(#[trigger] rest[i].id@) && lacks(rest[i].content@, '<') by {
                assert(rest[i] == ns[i + 1]);
            }
        }
        lemma_nodes_front(ns);
        lemma_node_lines(n0);
        lemma_push_plain(a, "    "@, p);
        let tail = node_rest(n0) + snapshot_nodes(rest) + "  "@;
        assert(a + snapshot_nodes(ns) + "  "@ =~= (a + "    "@) + p + tail);
        lemma_split_first_at(a + "    "@, tail, p);
        lemma_lacks_head("id=\""@, p);
        lemma_node_literals();
        lemma_node_text_clear(n0, "id=\""@, p);
        lemma_split_nodes(node_rest(n0), rest);
        assert(node_chunk_texts(ns) =~= seq![node_rest(n0) + node_sep(rest.len() == 0)] + node_chunk_texts(rest));
        assert(a + node_sep(ns.len() == 0) =~= a + "    "@);
    }
}

/// What ends an edge's chunk (see `node_sep`).
pub open spec fn edge_chunk_texts(es: Seq<Edge>) -> Seq<Seq<char>> {
    Seq::new(es.len(), |i: int| edge_rest(es[i]) + node_sep(i + 1 == es.len()))
}

/// Splitting the lines of plain edges, after a piece free of `<edge `, at
/// `<edge ` gives that piece, then one chunk an edge.
#[verifier::spinoff_prover]
#[verifier::rlimit(60)]
pub proof fn lemma_split_edges(a: Seq<char>, es: Seq<Edge>)
    requires
        edges_plain(es),
        absent(a, "<edge "@),
        tail_clear(a, "<edge "@),
    ensures
        split(a + snapshot_edges(es) + "  "@, "<edge "@) == seq![a + node_sep(es.len() == 0)] + edge_chunk_texts(es),
    decreases es.len(),
{
    reveal_strlit("<edge ");
    reveal_strlit("  ");
    reveal_strlit("    ");
    reveal_strlit("id=\"");
    let p = "<edge "@;
    if es.len() == 0 {
        lemma_push_plain(a, "  "@, p);
        assert(a + snapshot_edges(es) + "  "@ =~= a + "  "@);
        lemma_split_absent(a + "  "@, p);
        assert(edge_chunk_texts(es) =~= Seq::<Seq<char>>::empty());
        assert(seq![a + node_sep(true)] + edge_chunk_texts(es) =~= seq![a + "  "@]);
    } else {
        let e0 = es[0];
        let rest = es.drop_first();
        assert(plain_id(es[0].id@));
        assert(edges_plain(rest)) by {
            assert forall|k: int| 0 <= k < rest.len() implies plain_id(#[trigger] rest[k].id@) && plain_id(rest[k].from@) && plain_id(rest[k].to@) by {
                assert(rest[k] == es[k + 1]);
            }
        }
        lemma_edges_front(es);
        lemma_edge_line(e0);
        lemma_push_plain(a, "    "@, p);
        let tail = edge_rest(e0) + snapshot_edges(rest) + "  "@;
        assert(a + snapshot_edges(es) + "  "@ =~= (a + "    "@) + p + tail);
        lemma_split_first_at(a + "    "@, tail, p);
        lemma_edge_rest_lacks(e0, "id=\""@);
        assert(edge_rest(e0) =~= "id=\""@ + e0.id@ + "\" from=\""@ + e0.from@ + "\" to=\""@ + e0.to@ + "\" type=\""@
            + edge_type_name(e0.edge_type) + "\" weight=\""@ + fixed4(e0.weight as nat) + "\" />\n"@);
        lemma_lacks_head(edge_rest(e0), p);
        lemma_split_edges(edge_rest(e0), rest);
        assert(edge_chunk_texts(es) =~= seq![edge_rest(e0) + node_sep(rest.len() == 0)] + edge_chunk_texts(rest));
        assert(a + node_sep(es.len() == 0) =~= a + "    "@);
    }
}

/// The frame of a snapshot holds no `<nodes>` but where the section opens.
proof fn lemma_frame_literals_nodes()
    ensures
        absent("<?xml version=\"1.0\" encoding=\"UTF-8\"?>\n<graph>\n  "@, "<nodes>"@),
        tail_clear("<?xml version=\"1.0\" encoding=\"UTF-8\"?>\n<graph>\n  "@, "<nodes>"@),
        absent("  </nodes>\n  <edges>\n"@, "<nodes>"@),
        tail_clear("  </nodes>\n  <edges>\n"@, "<nodes>"@),
        absent("  </edges>\n  <complexity>"@, "<nodes>"@),
        tail_clear("  </edges>\n  <complexity>"@, "<nodes>"@),
        absent("</complexity>\n</graph>\n"@, "<nodes>"@),
        tail_clear("</complexity>\n</graph>\n"@, "<nodes>"@),
{
    reveal_strlit("  </edges>\n  <complexity>");
    reveal_strlit("  </nodes>\n  <edges>\n");
    reveal_strlit("</complexity>\n</graph>\n");
    reveal_strlit("<?xml version=\"1.0\" encoding=\"UTF-8\"?>\n<graph>\n  ");
    reveal_strlit("<nodes>");
    assert forall|j: int| !#[trigger] matches_at("<?xml version=\"1.0\" encoding=\"UTF-8\"?>\n<graph>\n  "@, "<nodes>"@, j) by {
        if matches_at("<?xml version=\"1.0\" encoding=\"UTF-8\"?>\n<graph>\n  "@, "<nodes>"@, j) {
            assert("<?xml version=\"1.0\" encoding=\"UTF-8\"?>\n<graph>\n  "@.subrange(j, j + 7)[0] == "<nodes>"@[0]);
            assert("<?xml version=\"1.0\" encoding=\"UTF-8\"?>\n<graph>\n  "@.subrange(j, j + 7)[1] == "<nodes>"@[1]);
            assert("<?xml version=\"1.0\" encoding=\"UTF-8\"?>\n<graph>\n  "@.subrange(j, j + 7)[2] == "<nodes>"@[2]);
            assert("<?xml version=\"1.0\" encoding=\"UTF-8\"?>\n<graph>\n  "@.subrange(j, j + 7)[3] == "<nodes>"@[3]);
            assert("<?xml version=\"1.0\" encoding=\"UTF-8\"?>\n<graph>\n  "@.subrange(j, j + 7)[4] == "<nodes>"@[4]);
            assert("<?xml version=\"1.0\" encoding=\"UTF-8\"?>\n<graph>\n  "@.subrange(j, j + 7)[5] == "<nodes>"@[5]);
            assert("<?xml version=\"1.0\" encoding=\"UTF-8\"?>\n<graph>\n  "@.subrange(j, j + 7)[6] == "<nodes>"@[6]);
        }
    }
    assert forall|j: int| !#[trigger] matches_at("  </nodes>\n  <edges>\n"@, "<nodes>"@, j) by {
        if matches_at("  </nodes>\n  <edges>\n"@, "<nodes>"@, j) {
            assert("  </nodes>\n  <edges>\n"@.subrange(j, j + 7)[0] == "<nodes>"@[0]);
            assert("  </nodes>\n  <edges>\n"@.subrange(j, j + 7)[1] == "<nodes>"@[1]);
            assert("  </nodes>\n  <edges>\n"@.subrange(j, j + 7)[2] == "<nodes>"@[2]);
            assert("  </nodes>\n  <edges>\n"@.subrange(j, j + 7)[3] == "<nodes>"@[3]);
            assert("  </nodes>\n  <edges>\n"@.subrange(j, j + 7)[4] == "<nodes>"@[4]);
            assert("  </nodes>\n  <edges>\n"@.subrange(j, j + 7)[5] == "<nodes>"@[5]);
            assert("  </nodes>\n  <edges>\n"@.subrange(j, j + 7)[6] == "<nodes>"@[6]);
        }
    }
    assert forall|j: int| !#[trigger] matches_at("  </edges>\n  <complexity>"@, "<nodes>"@, j) by {
        if matches_at("  </edges>\n  <complexity>"@, "<nodes>"@, j) {
            assert("  </edges>\n  <complexity>"@.subrange(j, j + 7)[0] == "<nodes>"@[0]);
            assert("  </edges>\n  <complexity>"@.subrange(j, j + 7)[1] == "<nodes>"@[1]);
            assert("  </edges>\n  <complexity>"@.subrange(j, j + 7)[2] == "<nodes>"@[2]);
            assert("  </edges>\n  <complexity>"@.subrange(j, j + 7)[3] == "<nodes>"@[3]);
            assert("  </edges>\n  <complexity>"@.subrange(j, j + 7)[4] == "<nodes>"@[4]);
            assert("  </edges>\n  <complexity>"@.subrange(j, j + 7)[5] == "<nodes>"@[5]);
            assert("  </edges>\n  <complexity>"@.subrange(j, j + 7)[6] == "<nodes>"@[6]);
        }
    }
    assert forall|j: int| !#[trigger] matches_at("</complexity>\n</graph>\n"@, "<nodes>"@, j) by {
        if matches_at("</complexity>\n</graph>\n"@, "<nodes>"@, j) {
            assert("</complexity>\n</graph>\n"@.subrange(j, j + 7)[0] == "<nodes>"@[0]);
            assert("</complexity>\n</graph>\n"@.subrange(j, j + 7)[1] == "<nodes>"@[1]);
            assert("</complexity>\n</graph>\n"@.subrange(j, j + 7)[2] == "<nodes>"@[2]);
            assert("</complexity>\n</graph>\n"@.subrange(j, j + 7)[3] == "<nodes>"@[3]);
            assert("</complexity>\n</graph>\n"@.subrange(j, j + 7)[4] == "<nodes>"@[4]);
            assert("</complexity>\n</graph>\n"@.subrange(j, j + 7)[5] == "<nodes>"@[5]);
            assert("</complexity>\n</graph>\n"@.subrange(j, j + 7)[6] == "<nodes>"@[6]);
        }
    }
}

/// The frame of a snapshot holds no `<edges>` but where the section opens.
proof fn lemma_frame_literals_edges()
    ensures
        absent("<?xml version=\"1.0\" encoding=\"UTF-8\"?>\n<graph>\n  <nodes>\n"@, "<edges>"@),
        tail_clear("<?xml version=\"1.0\" encoding=\"UTF-8\"?>\n<graph>\n  <nodes>\n"@, "<edges>"@),
        absent("  </nodes>\n  "@, "<edges>"@),
        tail_clear("  </nodes>\n  "@, "<edges>"@),
        absent("  </edges>\n  <complexity>"@, "<edges>"@),
        tail_clear("  </edges>\n  <complexity>"@, "<edges>"@),
        absent("</complexity>\n</graph>\n"@, "<edges>"@),
        tail_clear("</complexity>\n</graph>\n"@, "<edges>"@),
{
    reveal_strlit("  </edges>\n  <complexity>");
    reveal_strlit("  </nodes>\n  ");
    reveal_strlit("</complexity>\n</graph>\n");
    reveal_strlit("<?xml version=\"1.0\" encoding=\"UTF-8\"?>\n<graph>\n  <nodes>\n");
    reveal_strlit("<edges>");
    assert forall|j: int| !#[trigger] matches_at("<?xml version=\"1.0\" encoding=\"UTF-8\"?>\n<graph>\n  <nodes>\n"@, "<edges>"@, j) by {
        if matches_at("<?xml version=\"1.0\" encoding=\"UTF-8\"?>\n<graph>\n  <nodes>\n"@, "<edges>"@, j) {
            assert("<?xml version=\"1.0\" encoding=\"UTF-8\"?>\n<graph>\n  <nodes>\n"@.subrange(j, j + 7)[0] == "<edges>"@[0]);
            assert("<?xml version=\"1.0\" encoding=\"UTF-8\"?>\n<graph>\n  <nodes>\n"@.subrange(j, j + 7)[1] == "<edges>"@[1]);
            assert("<?xml version=\"1.0\" encoding=\"UTF-8\"?>\n<graph>\n  <nodes>\n"@.subrange(j, j + 7)[2] == "<edges>"@[2]);
            assert("<?xml version=\"1.0\" encoding=\"UTF-8\"?>\n<graph>\n  <nodes>\n"@.subrange(j, j + 7)[3] == "<edges>"@[3]);
            assert("<?xml version=\"1.0\" encoding=\"UTF-8\"?>\n<graph>\n  <nodes>\n"@.subrange(j, j + 7)[4] == "<edges>"@[4]);
            assert("<?xml version=\"1.0\" encoding=\"UTF-8\"?>\n<graph>\n  <nodes>\n"@.subrange(j, j + 7)[5] == "<edges>"@[5]);
            assert("<?xml version=\"1.0\" encoding=\"UTF-8\"?>\n<graph>\n  <nodes>\n"@.subrange(j, j + 7)[6] == "<edges>"@[6]);
        }
    }
    assert forall|j: int| !#[trigger] matches_at("  </nodes>\n  "@, "<edges>"@, j) by {
        if matches_at("  </nodes>\n  "@, "<edges>"@, j) {
            assert("  </nodes>\n  "@.subrange(j, j + 7)[0] == "<edges>"@[0]);
            assert("  </nodes>\n  "@.subrange(j, j + 7)[1] == "<edges>"@[1]);
            assert("  </nodes>\n  "@.subrange(j, j + 7)[2] == "<edges>"@[2]);
            assert("  </nodes>\n  "@.subrange(j, j + 7)[3] == "<edges>"@[3]);
            assert("  </nodes>\n  "@.subrange(j, j + 7)[4] == "<edges>"@[4]);
            assert("  </nodes>\n  "@.subrange(j, j + 7)[5] == "<edges>"@[5]);
            assert("  </nodes>\n  "@.subrange(j, j + 7)[6] == "<edges>"@[6]);
        }
    }
    assert forall|j: int| !#[trigger] matches_at("  </edges>\n  <complexity>"@, "<edges>"@, j) by {
        if matches_at("  </edges>\n  <complexity>"@, "<edges>"@, j) {
            assert("  </edges>\n  <complexity>"@.subrange(j, j + 7)[0] == "<edges>"@[0]);
            assert("  </edges>\n  <complexity>"@.subrange(j, j + 7)[1] == "<edges>"@[1]);
            assert("  </edges>\n  <complexity>"@.subrange(j, j + 7)[2] == "<edges>"@[2]);
            assert("  </edges>\n  <complexity>"@.subrange(j, j + 7)[3] == "<edges>"@[3]);
            assert("  </edges>\n  <complexity>"@.subrange(j, j + 7)[4] == "<edges>"@[4]);
            assert("  </edges>\n  <complexity>"@.subrange(j, j + 7)[5] == "<edges>"@[5]);
            assert("  </edges>\n  <complexity>"@.subrange(j, j + 7)[6] == "<edges>"@[6]);
        }
    }
    assert forall|j: int| !#[trigger] matches_at("</complexity>\n</graph>\n"@, "<edges>"@, j) by {
        if matches_at("</complexity>\n</graph>\n"@, "<edges>"@, j) {
            assert("</complexity>\n</graph>\n"@.subrange(j, j + 7)[0] == "<edges>"@[0]);
            assert("</complexity>\n</graph>\n"@.subrange(j, j + 7)[1] == "<edges>"@[1]);
            assert("</complexity>\n</graph>\n"@.subrange(j, j + 7)[2] == "<edges>"@[2]);
            assert("</complexity>\n</graph>\n"@.subrange(j, j + 7)[3] == "<edges>"@[3]);
            assert("</complexity>\n</graph>\n"@.subrange(j, j + 7)[4] == "<edges>"@[4]);
            assert("</complexity>\n</graph>\n"@.subrange(j, j + 7)[5] == "<edges>"@[5]);
            assert("</complexity>\n</graph>\n"@.subrange(j, j + 7)[6] == "<edges>"@[6]);
        }
    }
}

/// Two texts free of a pattern and clear at their ends make one.
pub proof fn lemma_push_any(acc: Seq<char>, piece: Seq<char>, p: Seq<char>)
    requires
        p.len() > 0,
        absent(acc, p),
        tail_clear(acc, p),
        absent(piece, p),
        tail_clear(piece, p),
    ensures
        absent(acc + piece, p),
        tail_clear(acc + piece, p),
{
    lemma_absent_cat(acc, piece, p);
    let s = acc + piece;
    assert forall|i: int| 0 <= i < s.len() && s.len() - p.len() < i implies #[trigger] s[i] != p[0] by {
        if i < acc.len() {
            assert(s[i] == acc[i]);
        } else {
            assert(s[i] == piece[i - acc.len()]);
        }
    }
}

/// Where the pattern occurs at `q` and a quote follows its value, the
/// attribute can be read.
pub proof fn lemma_attr_some(c: Seq<char>, name: Seq<char>, q: int, t: int)
    requires
        matches_at(c, name + "=\""@, q),
        q + name.len() + 2 <= t < c.len(),
        c[t] == '"',
    ensures
        xml_attr_spec(c, name) is Some,
{
    reveal_strlit("=\"");
    reveal_strlit("\"");
    let pat = name + "=\""@;
    lemma_find_from(c, pat, 0);
    let a = find_from(c, pat, 0)->0;
    assert(a <= q);
    lemma_find_from(c, "\""@, a + pat.len());
    assert(c.subrange(t, t + 1) =~= "\""@);
    assert(matches_at(c, "\""@, t));
}


/// A value written with four decimals is digits and a point.
pub proof fn lemma_fixed4_lacks_tag(v: nat)
    ensures
        lacks(fixed4(v), '<'),
{
    lemma_decimal_digits(v / 1000);
    let s = fixed4(v);
    assert forall|i: int| 0 <= i < s.len() implies #[trigger] s[i] != '<' by {
        if i < decimal(v / 1000).len() {
            assert(s[i] == decimal(v / 1000)[i]);
            assert(is_digit(decimal(v / 1000)[i]));
        }
    }
}

/// The sections of the snapshot of a graph with plain texts: the nodes'
/// lines and the edges' lines, each between a line break and the indent of
/// the closing tag; their chunks are one a node and one an edge.
#[verifier::spinoff_prover]
#[verifier::rlimit(80)]
pub proof fn lemma_snapshot_sections(g: Graph)
    requires
        nodes_plain(g.nodes@),
        edges_plain(g.edges@),
    ensures
        split_section(graph_snapshot(g), "<nodes>"@, "</nodes>"@) == Some("\n"@ + snapshot_nodes(g.nodes@) + "  "@),
        node_chunks(graph_snapshot(g)) == node_chunk_texts(g.nodes@),
        split_section(graph_snapshot(g), "<edges>"@, "</edges>"@) == Some("\n"@ + snapshot_edges(g.edges@) + "  "@),
        edge_chunks(graph_snapshot(g)) == edge_chunk_texts(g.edges@),
{
    let x = graph_snapshot(g);
    let sn = snapshot_nodes(g.nodes@);
    let se = snapshot_edges(g.edges@);
    let f = fixed4(complexity_sum(g.nodes@.filter(is_live_node())));
    let h0 = "<?xml version=\"1.0\" encoding=\"UTF-8\"?>\n<graph>\n  "@;
    let hf = "<?xml version=\"1.0\" encoding=\"UTF-8\"?>\n<graph>\n  <nodes>\n"@;
    let m = "  </nodes>\n  <edges>\n"@;
    let mc = "  </nodes>\n  "@;
    let t1 = "  </edges>\n  <complexity>"@;
    let t2 = "</complexity>\n</graph>\n"@;
    let nl = "\n"@;
    let sp = "  "@;
    reveal_strlit("<?xml version=\"1.0\" encoding=\"UTF-8\"?>\n<graph>\n  ");
    reveal_strlit("<?xml version=\"1.0\" encoding=\"UTF-8\"?>\n<graph>\n  <nodes>\n");
    reveal_strlit("  </nodes>\n  <edges>\n");
    reveal_strlit("  </nodes>\n  ");
    reveal_strlit("  </edges>\n  <complexity>");
    reveal_strlit("</complexity>\n</graph>\n");
    reveal_strlit("\n");
    reveal_strlit("  ");
    reveal_strlit("<nodes>");
    reveal_strlit("</nodes>");
    reveal_strlit("<edges>");
    reveal_strlit("</edges>");
    reveal_strlit("<node ");
    reveal_strlit("<edge ");
    reveal_strlit("\n  <edges>\n");
    reveal_strlit("\n  <complexity>");
    lemma_fixed4_lacks_tag(complexity_sum(g.nodes@.filter(is_live_node())));
    lemma_frame_literals_nodes();
    lemma_frame_literals_edges();
    // the nodes section
    let pn = "<nodes>"@;
    let r1 = nl + sn + m + se + t1 + f + t2;
    assert(x =~= h0 + pn + r1);
    lemma_split_first_at(h0, r1, pn);
    lemma_lacks_head(nl, pn);
    lemma_nodes_clear(g.nodes@, pn);
    lemma_push_any(nl, sn, pn);
    lemma_push_any(nl + sn, m, pn);
    lemma_edges_clear(g.edges@, pn);
    lemma_push_any(nl + sn + m, se, pn);
    lemma_push_any(nl + sn + m + se, t1, pn);
    lemma_push_plain(nl + sn + m + se + t1, f, pn);
    lemma_push_any(nl + sn + m + se + t1 + f, t2, pn);
    lemma_split_absent(r1, pn);
    assert(split(x, pn) =~= seq![h0, r1]);
    let pc = "</nodes>"@;
    let a = nl + sn + sp;
    let z = "\n  <edges>\n"@ + se + t1 + f + t2;
    assert(r1 =~= a + pc + z);
    lemma_lacks_head(nl, pc);
    lemma_nodes_clear(g.nodes@, pc);
    lemma_push_any(nl, sn, pc);
    lemma_push_plain(nl + sn, sp, pc);
    lemma_split_first_at(a, z, pc);
    lemma_split_first(z, pc);
    assert(split_section(x, pn, pc) == Some(a));
    let pnode = "<node "@;
    lemma_lacks_head(nl, pnode);
    lemma_split_nodes(nl, g.nodes@);
    assert(node_chunks(x) =~= node_chunk_texts(g.nodes@));
    // the edges section
    let pe = "<edges>"@;
    let e0 = hf + sn + mc;
    let r2 = nl + se + t1 + f + t2;
    assert(x =~= e0 + pe + r2);
    lemma_nodes_clear(g.nodes@, pe);
    lemma_push_any(hf, sn, pe);
    lemma_push_any(hf + sn, mc, pe);
    lemma_split_first_at(e0, r2, pe);
    lemma_lacks_head(nl, pe);
    lemma_edges_clear(g.edges@, pe);
    lemma_push_any(nl, se, pe);
    lemma_push_any(nl + se, t1, pe);
    lemma_push_plain(nl + se + t1, f, pe);
    lemma_push_any(nl + se + t1 + f, t2, pe);
    lemma_split_absent(r2, pe);
    assert(split(x, pe) =~= seq![e0, r2]);
    let pce = "</edges>"@;
    let b = nl + se + sp;
    let z2 = "\n  <complexity>"@ + f + t2;
    assert(r2 =~= b + pce + z2);
    lemma_lacks_head(nl, pce);
    lemma_edges_clear(g.edges@, pce);
    lemma_push_any(nl, se, pce);
    lemma_push_plain(nl + se, sp, pce);
    lemma_split_first_at(b, z2, pce);
    lemma_split_first(z2, pce);
    assert(split_section(x, pe, pce) == Some(b));
    let pedge = "<edge "@;
    lemma_lacks_head(nl, pedge);
    lemma_split_edges(nl, g.edges@);
    assert(edge_chunks(x) =~= edge_chunk_texts(g.edges@));
}


/// An attribute written as `name="value"` after some text can be read.
pub proof fn lemma_attr_written(pre: Seq<char>, name: Seq<char>, value: Seq<char>, post: Seq<char>)
    ensures
        xml_attr_spec(pre + (name + "=\""@) + value + ("\""@ + post), name) is Some,
{
    reveal_strlit("=\"");
    reveal_strlit("\"");
    let c = pre + (name + "=\""@) + value + ("\""@ + post);
    let pat = name + "=\""@;
    assert(c.subrange(pre.len() as int, pre.len() + pat.len() as int) =~= pat);
    lemma_attr_some(c, name, pre.len() as int, pre.len() + pat.len() + value.len() as int);
}

/// Every node chunk of a plain graph's snapshot has an identifier.
pub proof fn lemma_node_chunk_has_id(n: Node, sep: Seq<char>)
    ensures
        xml_attr_spec(node_rest(n) + sep, "id"@) is Some,
{
    reveal_strlit("id=\"");
    reveal_strlit("id");
    reveal_strlit("=\"");
    reveal_strlit("\"");
    reveal_strlit("\" step=\"");
    let post = node_rest(n).subrange(4 + n.id@.len() as int + 1, node_rest(n).len() as int) + sep;
    assert(node_rest(n) + sep =~= Seq::<char>::empty() + ("id"@ + "=\""@) + n.id@ + ("\""@ + post));
    lemma_attr_written(Seq::<char>::empty(), "id"@, n.id@, post);
}

/// Every edge chunk of a plain graph's snapshot has both ends.
pub proof fn lemma_edge_chunk_has_ends(e: Edge, sep: Seq<char>)
    ensures
        xml_attr_spec(edge_rest(e) + sep, "from"@) is Some,
        xml_attr_spec(edge_rest(e) + sep, "to"@) is Some,
{
    reveal_strlit("id=\"");
    reveal_strlit("from");
    reveal_strlit("to");
    reveal_strlit("=\"");
    reveal_strlit("\"");
    reveal_strlit("\" ");
    reveal_strlit("\" from=\"");
    reveal_strlit("\" to=\"");
    reveal_strlit("\" type=\"");
    reveal_strlit("\" weight=\"");
    reveal_strlit("\" />\n");
    reveal_strlit("from=\"");
    let c = edge_rest(e) + sep;
    let pre1 = "id=\""@ + e.id@ + "\" "@;
    let k1: int = pre1.len() as int + 6 + e.from@.len() as int;
    let post1 = c.subrange(k1 + 1, c.len() as int);
    assert(c =~= pre1 + ("from"@ + "=\""@) + e.from@ + ("\""@ + post1));
    lemma_attr_written(pre1, "from"@, e.from@, post1);
    let pre2 = pre1 + "from=\""@ + e.from@ + "\" "@;
    let k2: int = pre2.len() as int + 4 + e.to@.len() as int;
    let post2 = c.subrange(k2 + 1, c.len() as int);
    assert(c =~= pre2 + ("to"@ + "=\""@) + e.to@ + ("\""@ + post2));
    lemma_attr_written(pre2, "to"@, e.to@, post2);
}

/// No edge chunk from `i` on lacks an end, so there is no edge error.
pub proof fn lemma_no_edge_error(cs: Seq<Seq<char>>, i: int)
    requires
        0 <= i,
        forall|k: int| i <= k < cs.len() ==> xml_attr_spec(#[trigger] cs[k], "from"@) is Some && xml_attr_spec(cs[k], "to"@) is Some,
    ensures
        edge_error(cs, i) is None,
    decreases cs.len() - i,
{
    if i < cs.len() {
        lemma_no_edge_error(cs, i + 1);
    }
}


/// A graph whose texts can stand in a snapshot as they are (see
/// `snapshot_plain`): its nodes and its edges can.
pub proof fn lemma_plain_parts(g: Graph)
    requires
        snapshot_plain(g),
    ensures
        nodes_plain(g.nodes@),
        edges_plain(g.edges@),
{
}

/// The snapshot of a graph whose texts can stand in it as they are can be
/// read back: it has its nodes section, every node chunk an identifier and
/// every edge chunk both ends.
pub proof fn lemma_snapshot_readable(g: Graph)
    requires
        snapshot_plain(g),
    ensures
        graph_xml_error(graph_snapshot(g)) is None,
{
    let x = graph_snapshot(g);
    lemma_plain_parts(g);
    lemma_snapshot_sections(g);
    let nc = node_chunks(x);
    assert forall|i: int| 0 <= i < nc.len() implies xml_attr_spec(#[trigger] nc[i], "id"@) is Some by {
        lemma_node_chunk_has_id(g.nodes@[i], node_sep(i + 1 == g.nodes@.len()));
    }
    let ec = edge_chunks(x);
    assert forall|k: int| 0 <= k < ec.len() implies xml_attr_spec(#[trigger] ec[k], "from"@) is Some && xml_attr_spec(ec[k], "to"@) is Some by {
        lemma_edge_chunk_has_ends(g.edges@[k], node_sep(k + 1 == g.edges@.len()));
    }
    lemma_no_edge_error(ec, 0);
}


/// A character of the pattern that the text lacks where it would have to
/// stand rules out every occurrence.
pub proof fn lemma_char_rules_out(s: Seq<char>, p: Seq<char>, o: int, lo: int, hi: int)
    requires
        0 <= o < p.len(),
        forall|t: int| lo + o <= t < hi + o && 0 <= t < s.len() ==> s[t] != p[o],
    ensures
        no_match_in(s, p, lo, hi),
{
    assert forall|j: int| lo <= j < hi implies !#[trigger] matches_at(s, p, j) by {
        if matches_at(s, p, j) {
            assert(s.subrange(j, j + p.len())[o] == p[o]);
        }
    }
}

/// An attribute is read from where its `name="` first stands up to the
/// next quote.
pub proof fn lemma_attr_at(c: Seq<char>, name: Seq<char>, start: int, value: Seq<char>)
    requires
        0 <= start,
        matches_at(c, name + "=\""@, start),
        no_match_in(c, name + "=\""@, 0, start),
        lacks(value, '"'),
        start + name.len() + 2 + value.len() < c.len(),
        c.subrange(start + name.len() + 2, start + name.len() + 2 + value.len()) == value,
        c[start + name.len() + 2 + value.len()] == '"',
    ensures
        xml_attr_spec(c, name) == Some(value),
{
    reveal_strlit("=\"");
    reveal_strlit("\"");
    let pat = name + "=\""@;
    let a = start + pat.len();
    let b = a + value.len();
    lemma_find_at(c, pat, 0, start);
    assert forall|t: int| a <= t < b implies c[t] != '"' by {
        assert(c[t] == value[t - a]);
    }
    lemma_char_rules_out(c, "\""@, 0, a, b);
    assert(c.subrange(b, b + 1) =~= "\""@);
    lemma_find_at(c, "\""@, a, b);
}

/// Where a node chunk's attributes stand: the identifier from 4, then each
/// opener `" name="` followed by its value.
pub open spec fn chunk_offsets(n: Node) -> (int, int, int, int) {
    let id = n.id@.len() as int;
    let b1 = 4 + id;
    let b2 = b1 + 8 + signed_decimal(n.step as int).len();
    let b3 = b2 + 10 + fixed4(n.weight as nat).len();
    let b4 = b3 + 14 + fixed4(n.confidence as nat).len();
    (b1, b2, b3, b4)
}

/// Numbers and names as a snapshot writes them lack quotes and equals signs.
pub proof fn lemma_values_plain(n: Node)
    ensures
        lacks(signed_decimal(n.step as int), '"'),
        lacks(signed_decimal(n.step as int), '='),
        lacks(fixed4(n.weight as nat), '"'),
        lacks(fixed4(n.weight as nat), '='),
        lacks(fixed4(n.confidence as nat), '"'),
        lacks(fixed4(n.confidence as nat), '='),
        lacks(node_status_name(n.status), '"'),
        lacks(node_status_name(n.status), '='),
{
    lemma_signed_decimal_reads_back(n.step);
    lemma_fixed4_reads_back(n.weight);
    lemma_fixed4_reads_back(n.confidence);
    reveal_strlit("Draft");
    reveal_strlit("Active");
    reveal_strlit("Pruned");
    reveal_strlit("Locked");
    reveal_strlit("Failed");
}

/// The characters of a node chunk up to its status value, by place.
pub proof fn lemma_chunk_layout(n: Node, sep: Seq<char>)
    ensures
        ({
            let c = node_rest(n) + sep;
            let (b1, b2, b3, b4) = chunk_offsets(n);
            &&& c.subrange(0, 4) == "id=\""@
            &&& c.subrange(4, b1) == n.id@
            &&& c.subrange(b1, b1 + 8) == "\" step=\""@
            &&& c.subrange(b1 + 8, b2) == signed_decimal(n.step as int)
            &&& c.subrange(b2, b2 + 10) == "\" weight=\""@
            &&& c.subrange(b2 + 10, b3) == fixed4(n.weight as nat)
            &&& c.subrange(b3, b3 + 14) == "\" confidence=\""@
            &&& c.subrange(b3 + 14, b4) == fixed4(n.confidence as nat)
            &&& c.subrange(b4, b4 + 10) == "\" status=\""@
            &&& c.subrange(b4 + 10, b4 + 10 + node_status_name(n.status).len()) == node_status_name(n.status)
            &&& c[b4 + 10 + node_status_name(n.status).len()] == '"'
            &&& b4 + 10 + node_status_name(n.status).len() < c.len()
        }),
{
    reveal_strlit("id=\"");
    reveal_strlit("\" step=\"");
    reveal_strlit("\" weight=\"");
    reveal_strlit("\" confidence=\"");
    reveal_strlit("\" status=\"");
    reveal_strlit("\">\n      <content><![CDATA[");
    let c = node_rest(n) + sep;
    let (b1, b2, b3, b4) = chunk_offsets(n);
    let st = node_status_name(n.status);
    assert(c.subrange(0, 4) =~= "id=\""@);
    assert(c.subrange(4, b1) =~= n.id@);
    assert(c.subrange(b1, b1 + 8) =~= "\" step=\""@);
    assert(c.subrange(b1 + 8, b2) =~= signed_decimal(n.step as int));
    assert(c.subrange(b2, b2 + 10) =~= "\" weight=\""@);
    assert(c.subrange(b2 + 10, b3) =~= fixed4(n.weight as nat));
    assert(c.subrange(b3, b3 + 14) =~= "\" confidence=\""@);
    assert(c.subrange(b3 + 14, b4) =~= fixed4(n.confidence as nat));
    assert(c.subrange(b4, b4 + 10) =~= "\" status=\""@);
    assert(c.subrange(b4 + 10, b4 + 10 + st.len()) =~= st);
}

/// The step of a node chunk reads back as written.
#[verifier::spinoff_prover]
#[verifier::rlimit(40)]
pub proof fn lemma_chunk_step(n: Node, sep: Seq<char>)
    requires
        plain_id(n.id@),
    ensures
        xml_attr_spec(node_rest(n) + sep, "step"@) == Some(signed_decimal(n.step as int)),
{
    reveal_strlit("id=\"");
    reveal_strlit("\" step=\"");
    reveal_strlit("\" weight=\"");
    reveal_strlit("\" confidence=\"");
    reveal_strlit("\" status=\"");
    reveal_strlit("=\"");
    reveal_strlit("\"");
    reveal_strlit("step");
    lemma_chunk_layout(n, sep);
    lemma_values_plain(n);
    let c = node_rest(n) + sep;
    let (b1, b2, b3, b4) = chunk_offsets(n);
    let pat = "step"@ + "=\""@;
    let start = b1 + 2;
    assert forall|j: int| 0 <= j < start implies !#[trigger] matches_at(c, pat, j) by {
        if matches_at(c, pat, j) {
            let t = j + 4;
            assert(c.subrange(j, j + pat.len())[4] == pat[4]);
            assert(c.subrange(j, j + pat.len())[3] == pat[3]);
            assert(c[t] == '=');
            if t < 4 {
                assert(c[t] == c.subrange(0, 4)[t - (0)]);
                if t - 1 >= 0 {
                    assert(c[t - 1] == c.subrange(0, 4)[t - 1 - (0)]);
                }
            } else if t < b1 {
                assert(c[t] == c.subrange(4, b1)[t - (4)]);
                if t - 1 >= 4 {
                    assert(c[t - 1] == c.subrange(4, b1)[t - 1 - (4)]);
                }
            } else if t < b1 + 8 {
                assert(c[t] == c.subrange(b1, b1 + 8)[t - (b1)]);
                if t - 1 >= b1 {
                    assert(c[t - 1] == c.subrange(b1, b1 + 8)[t - 1 - (b1)]);
                }
            }
        }
    }
    assert(c.subrange(start, start + pat.len() as int) =~= pat);
    lemma_attr_at(c, "step"@, start, signed_decimal(n.step as int));
}

/// The weight of a node chunk reads back as written.
#[verifier::spinoff_prover]
#[verifier::rlimit(40)]
pub proof fn lemma_chunk_weight(n: Node, sep: Seq<char>)
    requires
        plain_id(n.id@),
    ensures
        xml_attr_spec(node_rest(n) + sep, "weight"@) == Some(fixed4(n.weight as nat)),
{
    reveal_strlit("id=\"");
    reveal_strlit("\" step=\"");
    reveal_strlit("\" weight=\"");
    reveal_strlit("\" confidence=\"");
    reveal_strlit("\" status=\"");
    reveal_strlit("=\"");
    reveal_strlit("\"");
    reveal_strlit("weight");
    lemma_chunk_layout(n, sep);
    lemma_values_plain(n);
    let c = node_rest(n) + sep;
    let (b1, b2, b3, b4) = chunk_offsets(n);
    let pat = "weight"@ + "=\""@;
    let start = b2 + 2;
    assert forall|j: int| 0 <= j < start implies !#[trigger] matches_at(c, pat, j) by {
        if matches_at(c, pat, j) {
            let t = j + 6;
            assert(c.subrange(j, j + pat.len())[6] == pat[6]);
            assert(c.subrange(j, j + pat.len())[5] == pat[5]);
            assert(c[t] == '=');
            if t < 4 {
                assert(c[t] == c.subrange(0, 4)[t - (0)]);
                if t - 1 >= 0 {
                    assert(c[t - 1] == c.subrange(0, 4)[t - 1 - (0)]);
                }
            } else if t < b1 {
                assert(c[t] == c.subrange(4, b1)[t - (4)]);
                if t - 1 >= 4 {
                    assert(c[t - 1] == c.subrange(4, b1)[t - 1 - (4)]);
                }
            } else if t < b1 + 8 {
                assert(c[t] == c.subrange(b1, b1 + 8)[t - (b1)]);
                if t - 1 >= b1 {
                    assert(c[t - 1] == c.subrange(b1, b1 + 8)[t - 1 - (b1)]);
                }
            } else if t < b2 {
                assert(c[t] == c.subrange(b1 + 8, b2)[t - (b1 + 8)]);
                if t - 1 >= b1 + 8 {
                    assert(c[t - 1] == c.subrange(b1 + 8, b2)[t - 1 - (b1 + 8)]);
                }
            } else if t < b2 + 10 {
                assert(c[t] == c.subrange(b2, b2 + 10)[t - (b2)]);
                if t - 1 >= b2 {
                    assert(c[t - 1] == c.subrange(b2, b2 + 10)[t - 1 - (b2)]);
                }
            }
        }
    }
    assert(c.subrange(start, start + pat.len() as int) =~= pat);
    lemma_attr_at(c, "weight"@, start, fixed4(n.weight as nat));
}

/// The confidence of a node chunk reads back as written.
#[verifier::spinoff_prover]
#[verifier::rlimit(100)]
pub proof fn lemma_chunk_confidence(n: Node, sep: Seq<char>)
    requires
        plain_id(n.id@),
    ensures
        xml_attr_spec(node_rest(n) + sep, "confidence"@) == Some(fixed4(n.confidence as nat)),
{
    reveal_strlit("id=\"");
    reveal_strlit("\" step=\"");
    reveal_strlit("\" weight=\"");
    reveal_strlit("\" confidence=\"");
    reveal_strlit("\" status=\"");
    reveal_strlit("=\"");
    reveal_strlit("\"");
    reveal_strlit("confidence");
    lemma_chunk_layout(n, sep);
    lemma_values_plain(n);
    let c = node_rest(n) + sep;
    let (b1, b2, b3, b4) = chunk_offsets(n);
    let pat = "confidence"@ + "=\""@;
    let start = b3 + 2;
    assert forall|j: int| 0 <= j < start implies !#[trigger] matches_at(c, pat, j) by {
        if matches_at(c, pat, j) {
            let t = j + 10;
            assert(c.subrange(j, j + pat.len())[10] == pat[10]);
            assert(c.subrange(j, j + pat.len())[9] == pat[9]);
            assert(c[t] == '=');
            if t < 4 {
                assert(c[t] == c.subrange(0, 4)[t - (0)]);
                if t - 1 >= 0 {
                    assert(c[t - 1] == c.subrange(0, 4)[t - 1 - (0)]);
                }
            } else if t < b1 {
                assert(c[t] == c.subrange(4, b1)[t - (4)]);
                if t - 1 >= 4 {
                    assert(c[t - 1] == c.subrange(4, b1)[t - 1 - (4)]);
                }
            } else if t < b1 + 8 {
                assert(c[t] == c.subrange(b1, b1 + 8)[t - (b1)]);
                if t - 1 >= b1 {
                    assert(c[t - 1] == c.subrange(b1, b1 + 8)[t - 1 - (b1)]);
                }
            } else if t < b2 {
                assert(c[t] == c.subrange(b1 + 8, b2)[t - (b1 + 8)]);
                if t - 1 >= b1 + 8 {
                    assert(c[t - 1] == c.subrange(b1 + 8, b2)[t - 1 - (b1 + 8)]);
                }
            } else if t < b2 + 10 {
                assert(c[t] == c.subrange(b2, b2 + 10)[t - (b2)]);
                if t - 1 >= b2 {
                    assert(c[t - 1] == c.subrange(b2, b2 + 10)[t - 1 - (b2)]);
                }
            } else if t < b3 {
                assert(c[t] == c.subrange(b2 + 10, b3)[t - (b2 + 10)]);
                if t - 1 >= b2 + 10 {
                    assert(c[t - 1] == c.subrange(b2 + 10, b3)[t - 1 - (b2 + 10)]);
                }
            } else if t < b3 + 14 {
                assert(c[t] == c.subrange(b3, b3 + 14)[t - (b3)]);
                if t - 1 >= b3 {
                    assert(c[t - 1] == c.subrange(b3, b3 + 14)[t - 1 - (b3)]);
                }
            }
        }
    }
    assert(c.subrange(start, start + pat.len() as int) =~= pat);
    lemma_attr_at(c, "confidence"@, start, fixed4(n.confidence as nat));
}

/// The status of a node chunk reads back as written.
#[verifier::spinoff_prover]
#[verifier::rlimit(100)]
pub proof fn lemma_chunk_status(n: Node, sep: Seq<char>)
    requires
        plain_id(n.id@),
    ensures
        xml_attr_spec(node_rest(n) + sep, "status"@) == Some(node_status_name(n.status)),
{
    reveal_strlit("id=\"");
    reveal_strlit("\" step=\"");
    reveal_strlit("\" weight=\"");
    reveal_strlit("\" confidence=\"");
    reveal_strlit("\" status=\"");
    reveal_strlit("=\"");
    reveal_strlit("\"");
    reveal_strlit("status");
    lemma_chunk_layout(n, sep);
    lemma_values_plain(n);
    let c = node_rest(n) + sep;
    let (b1, b2, b3, b4) = chunk_offsets(n);
    let pat = "status"@ + "=\""@;
    let start = b4 + 2;
    assert forall|j: int| 0 <= j < start implies !#[trigger] matches_at(c, pat, j) by {
        if matches_at(c, pat, j) {
            let t = j + 6;
            assert(c.subrange(j, j + pat.len())[6] == pat[6]);
            assert(c.subrange(j, j + pat.len())[5] == pat[5]);
            assert(c[t] == '=');
            if t < 4 {
                assert(c[t] == c.subrange(0, 4)[t - (0)]);
                if t - 1 >= 0 {
                    assert(c[t - 1] == c.subrange(0, 4)[t - 1 - (0)]);
                }
            } else if t < b1 {
                assert(c[t] == c.subrange(4, b1)[t - (4)]);
                if t - 1 >= 4 {
                    assert(c[t - 1] == c.subrange(4, b1)[t - 1 - (4)]);
                }
            } else if t < b1 + 8 {
                assert(c[t] == c.subrange(b1, b1 + 8)[t - (b1)]);
                if t - 1 >= b1 {
                    assert(c[t - 1] == c.subrange(b1, b1 + 8)[t - 1 - (b1)]);
                }
            } else if t < b2 {
                assert(c[t] == c.subrange(b1 + 8, b2)[t - (b1 + 8)]);
                if t - 1 >= b1 + 8 {
                    assert(c[t - 1] == c.subrange(b1 + 8, b2)[t - 1 - (b1 + 8)]);
                }
            } else if t < b2 + 10 {
                assert(c[t] == c.subrange(b2, b2 + 10)[t - (b2)]);
                if t - 1 >= b2 {
                    assert(c[t - 1] == c.subrange(b2, b2 + 10)[t - 1 - (b2)]);
                }
            } else if t < b3 {
                assert(c[t] == c.subrange(b2 + 10, b3)[t - (b2 + 10)]);
                if t - 1 >= b2 + 10 {
                    assert(c[t - 1] == c.subrange(b2 + 10, b3)[t - 1 - (b2 + 10)]);
                }
            } else if t < b3 + 14 {
                assert(c[t] == c.subrange(b3, b3 + 14)[t - (b3)]);
                if t - 1 >= b3 {
                    assert(c[t - 1] == c.subrange(b3, b3 + 14)[t - 1 - (b3)]);
                }
            } else if t < b4 {
                assert(c[t] == c.subrange(b3 + 14, b4)[t - (b3 + 14)]);
                if t - 1 >= b3 + 14 {
                    assert(c[t - 1] == c.subrange(b3 + 14, b4)[t - 1 - (b3 + 14)]);
                }
            } else if t < b4 + 10 {
                assert(c[t] == c.subrange(b4, b4 + 10)[t - (b4)]);
                if t - 1 >= b4 {
                    assert(c[t - 1] == c.subrange(b4, b4 + 10)[t - 1 - (b4)]);
                }
            }
        }
    }
    assert(c.subrange(start, start + pat.len() as int) =~= pat);
    lemma_attr_at(c, "status"@, start, node_status_name(n.status));
}

/// A node as its snapshot describes it once read back: identifier, step,
/// weight, confidence and content as they are; the status as it is, but
/// `Failed`, which reads as `Active`.
pub open spec fn read_desc(n: Node) -> NodeDesc {
    (
        n.id@,
        n.step,
        n.weight,
        n.confidence,
        n.content@,
        if n.status == NodeStatus::Failed {
            NodeStatus::Active
        } else {
            n.status
        },
    )
}

/// The identifier of a node chunk reads back as written.
pub proof fn lemma_chunk_id(n: Node, sep: Seq<char>)
    requires
        plain_id(n.id@),
    ensures
        xml_attr_spec(node_rest(n) + sep, "id"@) == Some(n.id@),
{
    reveal_strlit("id=\"");
    reveal_strlit("id");
    reveal_strlit("=\"");
    reveal_strlit("\" step=\"");
    lemma_chunk_layout(n, sep);
    let c = node_rest(n) + sep;
    assert(c.subrange(0, 4) =~= "id"@ + "=\""@);
    let (b1, b2, b3, b4) = chunk_offsets(n);
    assert(c[b1] == c.subrange(b1, b1 + 8)[0]);
    lemma_attr_at(c, "id"@, 0, n.id@);
}

/// The content of a node chunk reads back as written.
#[verifier::spinoff_prover]
#[verifier::rlimit(60)]
pub proof fn lemma_chunk_content(n: Node, sep: Seq<char>)
    requires
        plain_id(n.id@),
        lacks(n.content@, '<'),
        lacks(sep, '<'),
    ensures
        split_section(node_rest(n) + sep, "<content><![CDATA["@, "]]></content>"@) == Some(n.content@),
{
    reveal_strlit("<content><![CDATA[");
    reveal_strlit("]]></content>");
    reveal_strlit("\">\n      <content><![CDATA[");
    reveal_strlit("\">\n      ");
    reveal_strlit("]]></content>\n    </node>\n");
    reveal_strlit("\n    </node>\n");
    reveal_strlit("id=\"");
    let o = "<content><![CDATA["@;
    let cl = "]]></content>"@;
    let c = node_rest(n) + sep;
    lemma_values_lack_tag(n);
    lemma_node_openers_lack_tag();
    let u = "id=\""@ + n.id@ + "\" step=\""@ + signed_decimal(n.step as int) + "\" weight=\""@ + fixed4(n.weight as nat)
        + "\" confidence=\""@ + fixed4(n.confidence as nat) + "\" status=\""@ + node_status_name(n.status)
        + "\">\n      "@;
    let rest = n.content@ + "]]></content>\n    </node>\n"@ + sep;
    assert(c =~= u + o + rest);
    lemma_lacks_cat("id=\""@, n.id@, '<');
    lemma_lacks_cat("id=\""@ + n.id@, "\" step=\""@, '<');
    lemma_lacks_cat("id=\""@ + n.id@ + "\" step=\""@, signed_decimal(n.step as int), '<');
    lemma_lacks_cat("id=\""@ + n.id@ + "\" step=\""@ + signed_decimal(n.step as int), "\" weight=\""@, '<');
    lemma_lacks_cat("id=\""@ + n.id@ + "\" step=\""@ + signed_decimal(n.step as int) + "\" weight=\""@, fixed4(n.weight as nat), '<');
    lemma_lacks_cat("id=\""@ + n.id@ + "\" step=\""@ + signed_decimal(n.step as int) + "\" weight=\""@ + fixed4(n.weight as nat), "\" confidence=\""@, '<');
    lemma_lacks_cat("id=\""@ + n.id@ + "\" step=\""@ + signed_decimal(n.step as int) + "\" weight=\""@ + fixed4(n.weight as nat) + "\" confidence=\""@, fixed4(n.confidence as nat), '<');
    lemma_lacks_cat("id=\""@ + n.id@ + "\" step=\""@ + signed_decimal(n.step as int) + "\" weight=\""@ + fixed4(n.weight as nat) + "\" confidence=\""@ + fixed4(n.confidence as nat), "\" status=\""@, '<');
    lemma_lacks_cat("id=\""@ + n.id@ + "\" step=\""@ + signed_decimal(n.step as int) + "\" weight=\""@ + fixed4(n.weight as nat) + "\" confidence=\""@ + fixed4(n.confidence as nat) + "\" status=\""@, node_status_name(n.status), '<');
    lemma_lacks_cat("id=\""@ + n.id@ + "\" step=\""@ + signed_decimal(n.step as int) + "\" weight=\""@ + fixed4(n.weight as nat) + "\" confidence=\""@ + fixed4(n.confidence as nat) + "\" status=\""@ + node_status_name(n.status), "\">\n      "@, '<');
    lemma_lacks_head(u, o);
    lemma_split_first_at(u, rest, o);
    let k = n.content@.len() as int;
    let l7 = "]]></content>\n    </node>\n"@;
    assert forall|j: int| !#[trigger] matches_at(rest, o, j) by {
        if matches_at(rest, o, j) {
            assert(rest.subrange(j, j + 18)[0] == o[0]);
            assert(rest.subrange(j, j + 18)[1] == o[1]);
            if j < k {
                assert(rest[j] == n.content@[j]);
            } else if j < k + 26 {
                assert(rest[j] == l7[j - k]);
                assert(rest[j + 1] == l7[j + 1 - k]);
            } else {
                assert(rest[j] == sep[j - k - 26]);
            }
        }
    }
    lemma_split_absent(rest, o);
    assert forall|t: int| 3 <= t < k + 3 && 0 <= t < rest.len() implies rest[t] != cl[3] by {
        if t < k {
            assert(rest[t] == n.content@[t]);
        } else {
            assert(rest[t] == "]]></content>\n    </node>\n"@[t - k]);
        }
    }
    lemma_char_rules_out(rest, cl, 3, 0, k);
    assert(rest.subrange(k, k + 13) =~= cl);
    lemma_find_at(rest, cl, 0, k);
    assert(split(rest, cl)[0] == rest.subrange(0, k));
    assert(rest.subrange(0, k) =~= n.content@);
}

/// A node chunk describes its node as it reads back (see `read_desc`).
pub proof fn lemma_chunk_desc(n: Node, sep: Seq<char>)
    requires
        plain_id(n.id@),
        lacks(n.content@, '<'),
        lacks(sep, '<'),
    ensures
        node_desc(node_rest(n) + sep) == read_desc(n),
{
    lemma_chunk_id(n, sep);
    lemma_chunk_step(n, sep);
    lemma_chunk_weight(n, sep);
    lemma_chunk_confidence(n, sep);
    lemma_chunk_status(n, sep);
    lemma_chunk_content(n, sep);
    lemma_signed_decimal_reads_back(n.step);
    lemma_fixed4_reads_back(n.weight);
    lemma_fixed4_reads_back(n.confidence);
    lemma_status_reads_back(n.status);
}


/// Chunks that describe nodes with distinct identifiers, in order, read as
/// those nodes' descriptions, in order.
pub proof fn lemma_descs_of_chunks(cs: Seq<Seq<char>>, ns: Seq<Node>)
    requires
        cs.len() == ns.len(),
        node_ids(ns).no_duplicates(),
        forall|i: int| 0 <= i < cs.len() ==> node_desc(#[trigger] cs[i]) == read_desc(ns[i]),
    ensures
        descs_of(cs) == ns.map_values(|n: Node| read_desc(n)),
    decreases cs.len(),
{
    if cs.len() == 0 {
        assert(ns.map_values(|n: Node| read_desc(n)) =~= Seq::<NodeDesc>::empty());
    } else {
        let m = ns.len() - 1;
        assert(node_ids(ns.drop_last()) =~= node_ids(ns).drop_last());
        assert forall|i: int| 0 <= i < cs.drop_last().len() implies node_desc(#[trigger] cs.drop_last()[i]) == read_desc(ns.drop_last()[i]) by {
            assert(cs.drop_last()[i] == cs[i]);
        }
        lemma_descs_of_chunks(cs.drop_last(), ns.drop_last());
        let ds = ns.drop_last().map_values(|n: Node| read_desc(n));
        let d = node_desc(cs.last());
        assert(d == read_desc(ns[m]));
        assert(ds.map_values(|x: NodeDesc| x.0) =~= node_ids(ns.drop_last()));
        assert(!node_ids(ns.drop_last()).contains(ns[m].id@)) by {
            if node_ids(ns.drop_last()).contains(ns[m].id@) {
                let i = choose|i: int| 0 <= i < node_ids(ns.drop_last()).len() && node_ids(ns.drop_last())[i] == ns[m].id@;
                assert(node_ids(ns)[i] == node_ids(ns)[m]);
            }
        }
        assert(put_desc(ds, d) =~= ds.push(d));
        assert(ns.map_values(|n: Node| read_desc(n)) =~= ds.push(d));
    }
}

/// Whether a graph is what the snapshot of another gives back: its nodes
/// described as that graph's are (see `read_desc`), in order; no more
/// edges than that graph has, each with the ends, type and weight of one
/// of them; no topics.
pub open spec fn read_back(g: Graph, g2: Graph) -> bool {
    &&& g2.nodes@.map_values(|m: Node| desc_of(m)) == g.nodes@.map_values(|n: Node| read_desc(n))
    &&& g2.edges@.len() <= g.edges@.len()
    &&& forall|k: int|
        0 <= k < g2.edges@.len() ==> exists|j: int|
            0 <= j < g.edges@.len() && edge_desc_of(#[trigger] g2.edges@[k]) == edge_desc_of(g.edges@[j])
    &&& g2.topics@.len() == 0
}

/// Where an edge chunk's attributes stand (see `chunk_offsets`).
pub open spec fn edge_offsets(e: Edge) -> (int, int, int, int) {
    let b1 = 4 + e.id@.len() as int;
    let b2 = b1 + 8 + e.from@.len();
    let b3 = b2 + 6 + e.to@.len();
    let b4 = b3 + 8 + edge_type_name(e.edge_type).len();
    (b1, b2, b3, b4)
}

/// Edge type names and weights lack quotes and equals signs.
pub proof fn lemma_edge_values_plain(e: Edge)
    ensures
        lacks(edge_type_name(e.edge_type), '"'),
        lacks(edge_type_name(e.edge_type), '='),
        lacks(fixed4(e.weight as nat), '"'),
        lacks(fixed4(e.weight as nat), '='),
{
    lemma_fixed4_reads_back(e.weight);
    reveal_strlit("Reasoning");
    reveal_strlit("Constraint");
    reveal_strlit("Divergence");
}

/// The characters of an edge chunk up to its weight, by place.
pub proof fn lemma_edge_chunk_layout(e: Edge, sep: Seq<char>)
    ensures
        ({
            let c = edge_rest(e) + sep;
            let (b1, b2, b3, b4) = edge_offsets(e);
            let w = fixed4(e.weight as nat);
            &&& c.subrange(0, 4) == "id=\""@
            &&& c.subrange(4, b1) == e.id@
            &&& c.subrange(b1, b1 + 8) == "\" from=\""@
            &&& c.subrange(b1 + 8, b2) == e.from@
            &&& c.subrange(b2, b2 + 6) == "\" to=\""@
            &&& c.subrange(b2 + 6, b3) == e.to@
            &&& c.subrange(b3, b3 + 8) == "\" type=\""@
            &&& c.subrange(b3 + 8, b4) == edge_type_name(e.edge_type)
            &&& c.subrange(b4, b4 + 10) == "\" weight=\""@
            &&& c.subrange(b4 + 10, b4 + 10 + w.len()) == w
            &&& c[b4 + 10 + w.len()] == '"'
            &&& b4 + 10 + w.len() < c.len()
        }),
{
    reveal_strlit("id=\"");
    reveal_strlit("\" from=\"");
    reveal_strlit("\" to=\"");
    reveal_strlit("\" type=\"");
    reveal_strlit("\" weight=\"");
    reveal_strlit("\" />\n");
    let c = edge_rest(e) + sep;
    let (b1, b2, b3, b4) = edge_offsets(e);
    let w = fixed4(e.weight as nat);
    assert(c.subrange(0, 4) =~= "id=\""@);
    assert(c.subrange(4, b1) =~= e.id@);
    assert(c.subrange(b1, b1 + 8) =~= "\" from=\""@);
    assert(c.subrange(b1 + 8, b2) =~= e.from@);
    assert(c.subrange(b2, b2 + 6) =~= "\" to=\""@);
    assert(c.subrange(b2 + 6, b3) =~= e.to@);
    assert(c.subrange(b3, b3 + 8) =~= "\" type=\""@);
    assert(c.subrange(b3 + 8, b4) =~= edge_type_name(e.edge_type));
    assert(c.subrange(b4, b4 + 10) =~= "\" weight=\""@);
    assert(c.subrange(b4 + 10, b4 + 10 + w.len()) =~= w);
}

/// The from of an edge chunk reads back as written.
#[verifier::spinoff_prover]
#[verifier::rlimit(100)]
pub proof fn lemma_edge_chunk_from(e: Edge, sep: Seq<char>)
    requires
        plain_id(e.id@),
        plain_id(e.from@),
        plain_id(e.to@),
    ensures
        xml_attr_spec(edge_rest(e) + sep, "from"@) == Some(e.from@),
{
    reveal_strlit("id=\"");
    reveal_strlit("\" from=\"");
    reveal_strlit("\" to=\"");
    reveal_strlit("\" type=\"");
    reveal_strlit("\" weight=\"");
    reveal_strlit("=\"");
    reveal_strlit("\"");
    reveal_strlit("from");
    lemma_edge_chunk_layout(e, sep);
    lemma_edge_values_plain(e);
    let c = edge_rest(e) + sep;
    let (b1, b2, b3, b4) = edge_offsets(e);
    let pat = "from"@ + "=\""@;
    let start = b1 + 2;
    assert forall|j: int| 0 <= j < start implies !#[trigger] matches_at(c, pat, j) by {
        if matches_at(c, pat, j) {
            let t = j + 4;
            assert(c.subrange(j, j + pat.len())[4] == pat[4]);
            assert(c.subrange(j, j + pat.len())[3] == pat[3]);
            assert(c[t] == '=');
            if t < 4 {
                assert(c[t] == c.subrange(0, 4)[t - (0)]);
                if t - 1 >= 0 {
                    assert(c[t - 1] == c.subrange(0, 4)[t - 1 - (0)]);
                }
            } else if t < b1 {
                assert(c[t] == c.subrange(4, b1)[t - (4)]);
                if t - 1 >= 4 {
                    assert(c[t - 1] == c.subrange(4, b1)[t - 1 - (4)]);
                }
            } else if t < b1 + 8 {
                assert(c[t] == c.subrange(b1, b1 + 8)[t - (b1)]);
                if t - 1 >= b1 {
                    assert(c[t - 1] == c.subrange(b1, b1 + 8)[t - 1 - (b1)]);
                }
            }
        }
    }
    assert(c.subrange(start, start + pat.len() as int) =~= pat);
    assert(c[b2] == c.subrange(b2, b2 + 6)[0]);
    lemma_attr_at(c, "from"@, start, e.from@);
}

/// The to of an edge chunk reads back as written.
#[verifier::spinoff_prover]
#[verifier::rlimit(100)]
pub proof fn lemma_edge_chunk_to(e: Edge, sep: Seq<char>)
    requires
        plain_id(e.id@),
        plain_id(e.from@),
        plain_id(e.to@),
    ensures
        xml_attr_spec(edge_rest(e) + sep, "to"@) == Some(e.to@),
{
    reveal_strlit("id=\"");
    reveal_strlit("\" from=\"");
    reveal_strlit("\" to=\"");
    reveal_strlit("\" type=\"");
    reveal_strlit("\" weight=\"");
    reveal_strlit("=\"");
    reveal_strlit("\"");
    reveal_strlit("to");
    lemma_edge_chunk_layout(e, sep);
    lemma_edge_values_plain(e);
    let c = edge_rest(e) + sep;
    let (b1, b2, b3, b4) = edge_offsets(e);
    let pat = "to"@ + "=\""@;
    let start = b2 + 2;
    assert forall|j: int| 0 <= j < start implies !#[trigger] matches_at(c, pat, j) by {
        if matches_at(c, pat, j) {
            let t = j + 2;
            assert(c.subrange(j, j + pat.len())[2] == pat[2]);
            assert(c.subrange(j, j + pat.len())[1] == pat[1]);
            assert(c[t] == '=');
            if t < 4 {
                assert(c[t] == c.subrange(0, 4)[t - (0)]);
                if t - 1 >= 0 {
                    assert(c[t - 1] == c.subrange(0, 4)[t - 1 - (0)]);
                }
            } else if t < b1 {
                assert(c[t] == c.subrange(4, b1)[t - (4)]);
                if t - 1 >= 4 {
                    assert(c[t - 1] == c.subrange(4, b1)[t - 1 - (4)]);
                }
            } else if t < b1 + 8 {
                assert(c[t] == c.subrange(b1, b1 + 8)[t - (b1)]);
                if t - 1 >= b1 {
                    assert(c[t - 1] == c.subrange(b1, b1 + 8)[t - 1 - (b1)]);
                }
            } else if t < b2 {
                assert(c[t] == c.subrange(b1 + 8, b2)[t - (b1 + 8)]);
                if t - 1 >= b1 + 8 {
                    assert(c[t - 1] == c.subrange(b1 + 8, b2)[t - 1 - (b1 + 8)]);
                }
            } else if t < b2 + 6 {
                assert(c[t] == c.subrange(b2, b2 + 6)[t - (b2)]);
                if t - 1 >= b2 {
                    assert(c[t - 1] == c.subrange(b2, b2 + 6)[t - 1 - (b2)]);
                }
            }
        }
    }
    assert(c.subrange(start, start + pat.len() as int) =~= pat);
    assert(c[b3] == c.subrange(b3, b3 + 8)[0]);
    lemma_attr_at(c, "to"@, start, e.to@);
}

/// The type of an edge chunk reads back as written.
#[verifier::spinoff_prover]
#[verifier::rlimit(100)]
pub proof fn lemma_edge_chunk_type(e: Edge, sep: Seq<char>)
    requires
        plain_id(e.id@),
        plain_id(e.from@),
        plain_id(e.to@),
    ensures
        xml_attr_spec(edge_rest(e) + sep, "type"@) == Some(edge_type_name(e.edge_type)),
{
    reveal_strlit("id=\"");
    reveal_strlit("\" from=\"");
    reveal_strlit("\" to=\"");
    reveal_strlit("\" type=\"");
    reveal_strlit("\" weight=\"");
    reveal_strlit("=\"");
    reveal_strlit("\"");
    reveal_strlit("type");
    lemma_edge_chunk_layout(e, sep);
    lemma_edge_values_plain(e);
    let c = edge_rest(e) + sep;
    let (b1, b2, b3, b4) = edge_offsets(e);
    let pat = "type"@ + "=\""@;
    let start = b3 + 2;
    assert forall|j: int| 0 <= j < start implies !#[trigger] matches_at(c, pat, j) by {
        if matches_at(c, pat, j) {
            let t = j + 4;
            assert(c.subrange(j, j + pat.len())[4] == pat[4]);
            assert(c.subrange(j, j + pat.len())[3] == pat[3]);
            assert(c[t] == '=');
            if t < 4 {
                assert(c[t] == c.subrange(0, 4)[t - (0)]);
                if t - 1 >= 0 {
                    assert(c[t - 1] == c.subrange(0, 4)[t - 1 - (0)]);
                }
            } else if t < b1 {
                assert(c[t] == c.subrange(4, b1)[t - (4)]);
                if t - 1 >= 4 {
                    assert(c[t - 1] == c.subrange(4, b1)[t - 1 - (4)]);
                }
            } else if t < b1 + 8 {
                assert(c[t] == c.subrange(b1, b1 + 8)[t - (b1)]);
                if t - 1 >= b1 {
                    assert(c[t - 1] == c.subrange(b1, b1 + 8)[t - 1 - (b1)]);
                }
            } else if t < b2 {
                assert(c[t] == c.subrange(b1 + 8, b2)[t - (b1 + 8)]);
                if t - 1 >= b1 + 8 {
                    assert(c[t - 1] == c.subrange(b1 + 8, b2)[t - 1 - (b1 + 8)]);
                }
            } else if t < b2 + 6 {
                assert(c[t] == c.subrange(b2, b2 + 6)[t - (b2)]);
                if t - 1 >= b2 {
                    assert(c[t - 1] == c.subrange(b2, b2 + 6)[t - 1 - (b2)]);
                }
            } else if t < b3 {
                assert(c[t] == c.subrange(b2 + 6, b3)[t - (b2 + 6)]);
                if t - 1 >= b2 + 6 {
                    assert(c[t - 1] == c.subrange(b2 + 6, b3)[t - 1 - (b2 + 6)]);
                }
            } else if t < b3 + 8 {
                assert(c[t] == c.subrange(b3, b3 + 8)[t - (b3)]);
                if t - 1 >= b3 {
                    assert(c[t - 1] == c.subrange(b3, b3 + 8)[t - 1 - (b3)]);
                }
            }
        }
    }
    assert(c.subrange(start, start + pat.len() as int) =~= pat);
    assert(c[b4] == c.subrange(b4, b4 + 10)[0]);
    lemma_attr_at(c, "type"@, start, edge_type_name(e.edge_type));
}

/// The weight of an edge chunk reads back as written.
#[verifier::spinoff_prover]
#[verifier::rlimit(100)]
pub proof fn lemma_edge_chunk_weight(e: Edge, sep: Seq<char>)
    requires
        plain_id(e.id@),
        plain_id(e.from@),
        plain_id(e.to@),
    ensures
        xml_attr_spec(edge_rest(e) + sep, "weight"@) == Some(fixed4(e.weight as nat)),
{
    reveal_strlit("id=\"");
    reveal_strlit("\" from=\"");
    reveal_strlit("\" to=\"");
    reveal_strlit("\" type=\"");
    reveal_strlit("\" weight=\"");
    reveal_strlit("=\"");
    reveal_strlit("\"");
    reveal_strlit("weight");
    lemma_edge_chunk_layout(e, sep);
    lemma_edge_values_plain(e);
    let c = edge_rest(e) + sep;
    let (b1, b2, b3, b4) = edge_offsets(e);
    let pat = "weight"@ + "=\""@;
    let start = b4 + 2;
    assert forall|j: int| 0 <= j < start implies !#[trigger] matches_at(c, pat, j) by {
        if matches_at(c, pat, j) {
            let t = j + 6;
            assert(c.subrange(j, j + pat.len())[6] == pat[6]);
            assert(c.subrange(j, j + pat.len())[5] == pat[5]);
            assert(c[t] == '=');
            if t < 4 {
                assert(c[t] == c.subrange(0, 4)[t - (0)]);
                if t - 1 >= 0 {
                    assert(c[t - 1] == c.subrange(0, 4)[t - 1 - (0)]);
                }
            } else if t < b1 {
                assert(c[t] == c.subrange(4, b1)[t - (4)]);
                if t - 1 >= 4 {
                    assert(c[t - 1] == c.subrange(4, b1)[t - 1 - (4)]);
                }
            } else if t < b1 + 8 {
                assert(c[t] == c.subrange(b1, b1 + 8)[t - (b1)]);
                if t - 1 >= b1 {
                    assert(c[t - 1] == c.subrange(b1, b1 + 8)[t - 1 - (b1)]);
                }
            } else if t < b2 {
                assert(c[t] == c.subrange(b1 + 8, b2)[t - (b1 + 8)]);
                if t - 1 >= b1 + 8 {
                    assert(c[t - 1] == c.subrange(b1 + 8, b2)[t - 1 - (b1 + 8)]);
                }
            } else if t < b2 + 6 {
                assert(c[t] == c.subrange(b2, b2 + 6)[t - (b2)]);
                if t - 1 >= b2 {
                    assert(c[t - 1] == c.subrange(b2, b2 + 6)[t - 1 - (b2)]);
                }
            } else if t < b3 {
                assert(c[t] == c.subrange(b2 + 6, b3)[t - (b2 + 6)]);
                if t - 1 >= b2 + 6 {
                    assert(c[t - 1] == c.subrange(b2 + 6, b3)[t - 1 - (b2 + 6)]);
                }
            } else if t < b3 + 8 {
                assert(c[t] == c.subrange(b3, b3 + 8)[t - (b3)]);
                if t - 1 >= b3 {
                    assert(c[t - 1] == c.subrange(b3, b3 + 8)[t - 1 - (b3)]);
                }
            } else if t < b4 {
                assert(c[t] == c.subrange(b3 + 8, b4)[t - (b3 + 8)]);
                if t - 1 >= b3 + 8 {
                    assert(c[t - 1] == c.subrange(b3 + 8, b4)[t - 1 - (b3 + 8)]);
                }
            } else if t < b4 + 10 {
                assert(c[t] == c.subrange(b4, b4 + 10)[t - (b4)]);
                if t - 1 >= b4 {
                    assert(c[t - 1] == c.subrange(b4, b4 + 10)[t - 1 - (b4)]);
                }
            }
        }
    }
    assert(c.subrange(start, start + pat.len() as int) =~= pat);
    lemma_attr_at(c, "weight"@, start, fixed4(e.weight as nat));
}

/// An edge chunk describes its edge: ends, type and weight.
pub proof fn lemma_edge_chunk_desc(e: Edge, sep: Seq<char>)
    requires
        plain_id(e.id@),
        plain_id(e.from@),
        plain_id(e.to@),
    ensures
        edge_desc(edge_rest(e) + sep) == edge_desc_of(e),
{
    lemma_edge_chunk_from(e, sep);
    lemma_edge_chunk_to(e, sep);
    lemma_edge_chunk_type(e, sep);
    lemma_edge_chunk_weight(e, sep);
    lemma_edge_type_reads_back(e.edge_type);
    lemma_fixed4_reads_back(e.weight);
}


/// The separators between chunks lack `<`.
proof fn lemma_sep_lacks_tag(last: bool)
    ensures
        lacks(node_sep(last), '<'),
{
    reveal_strlit("  ");
    reveal_strlit("    ");
}

/// Checkpoint, then restore: the snapshot of a well-formed graph whose
/// identifiers and contents can stand in it as they are (see
/// `snapshot_plain`) can always be read back, and every graph it reads as
/// gives that graph back as far as the snapshot holds it (see `read_back`):
/// the nodes with their identifiers, steps, weights, confidences, contents
/// and statuses, in order, and edges with the ends, types and weights of
/// the graph's edges.
pub proof fn lemma_snapshot_round_trip(g: Graph, g2: Graph)
    requires
        g.wf(),
        snapshot_plain(g),
    ensures
        graph_xml_error(graph_snapshot(g)) is None,
        reads_as(graph_snapshot(g), g2) ==> read_back(g, g2),
{
    let x = graph_snapshot(g);
    lemma_snapshot_readable(g);
    lemma_plain_parts(g);
    lemma_snapshot_sections(g);
    if reads_as(x, g2) {
        let ns = g.nodes@;
        let cs = node_chunk_texts(ns);
        assert forall|i: int| 0 <= i < cs.len() implies node_desc(#[trigger] cs[i]) == read_desc(ns[i]) by {
            assert(plain_id(ns[i].id@));
            lemma_sep_lacks_tag(i + 1 == ns.len());
            lemma_chunk_desc(ns[i], node_sep(i + 1 == ns.len()));
        }
        lemma_descs_of_chunks(cs, ns);
        let es = g.edges@;
        let ec = edge_chunk_texts(es);
        assert forall|k: int| 0 <= k < g2.edges@.len() implies exists|j: int|
            0 <= j < g.edges@.len() && edge_desc_of(#[trigger] g2.edges@[k]) == edge_desc_of(g.edges@[j]) by {
            let j = choose|j: int| 0 <= j < ec.len() && edge_desc_of(g2.edges@[k]) == edge_desc(ec[j]);
            assert(plain_id(es[j].id@));
            lemma_edge_chunk_desc(es[j], node_sep(j + 1 == es.len()));
        }
    }
}

} // verus!
