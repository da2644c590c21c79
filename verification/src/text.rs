//! Character-sequence utilities shared by the parsers and formatters.
//!
//! Text is handled as sequences of `char`; every search and cut below is
//! stated over `Seq<char>` so that the callers' contracts can speak of
//! substrings directly.
use vstd::prelude::*;

verus! {

/// `String::push` appends one character.
pub assume_specification[ std::string::String::push ](string: &mut std::string::String, ch: char)
    ensures
        final(string)@ == old(string)@.push(ch),
;

/// The characters that `char::is_whitespace` accepts (Unicode `White_Space`).
pub open spec fn is_ws(c: char) -> bool {
    ||| c == '\t' || c == '\n' || c == '\x0B' || c == '\x0C' || c == '\r' || c == ' '
    ||| c == '\u{85}' || c == '\u{A0}' || c == '\u{1680}'
    ||| ('\u{2000}' <= c && c <= '\u{200A}')
    ||| c == '\u{2028}' || c == '\u{2029}' || c == '\u{202F}' || c == '\u{205F}'
    ||| c == '\u{3000}'
}

/// `p` occurs in `s` starting at index `i`.
pub open spec fn matches_at(s: Seq<char>, p: Seq<char>, i: int) -> bool {
    0 <= i && i + p.len() <= s.len() && s.subrange(i, i + p.len()) =~= p
}

/// The first index at or after `k` where `p` occurs in `s`.
pub open spec fn find_from(s: Seq<char>, p: Seq<char>, k: int) -> Option<int>
    decreases s.len() - k,
{
    if k < 0 || k + p.len() > s.len() {
        None
    } else if matches_at(s, p, k) {
        Some(k)
    } else if k >= s.len() {
        None
    } else {
        find_from(s, p, k + 1)
    }
}

/// The first index where `p` occurs in `s` (what `str::find` returns, in chars).
pub open spec fn find(s: Seq<char>, p: Seq<char>) -> Option<int> {
    find_from(s, p, 0)
}

/// `p` occurs somewhere in `s`.
pub open spec fn contains(s: Seq<char>, p: Seq<char>) -> bool {
    find(s, p) is Some
}

/// The last index before `k` that holds `c`.
pub open spec fn rfind_char_before(s: Seq<char>, c: char, k: int) -> Option<int>
    decreases k,
{
    if k <= 0 || k > s.len() {
        None
    } else if s[k - 1] == c {
        Some(k - 1)
    } else {
        rfind_char_before(s, c, k - 1)
    }
}

/// The last index of `c` in `s` (what `str::rfind` returns for a char, in chars).
pub open spec fn rfind_char(s: Seq<char>, c: char) -> Option<int> {
    rfind_char_before(s, c, s.len() as int)
}

/// `s` begins with `p`.
pub open spec fn starts_with(s: Seq<char>, p: Seq<char>) -> bool {
    matches_at(s, p, 0)
}

/// What `str::strip_prefix` returns.
pub open spec fn strip_prefix(s: Seq<char>, p: Seq<char>) -> Option<Seq<char>> {
    if starts_with(s, p) {
        Some(s.subrange(p.len() as int, s.len() as int))
    } else {
        None
    }
}

/// `s` ends with `p`.
pub open spec fn ends_with(s: Seq<char>, p: Seq<char>) -> bool {
    p.len() <= s.len() && s.subrange(s.len() - p.len(), s.len() as int) =~= p
}

/// What `str::strip_suffix` returns.
pub open spec fn strip_suffix(s: Seq<char>, p: Seq<char>) -> Option<Seq<char>> {
    if ends_with(s, p) {
        Some(s.subrange(0, s.len() - p.len()))
    } else {
        None
    }
}

/// `s` without its leading whitespace.
pub open spec fn trim_start(s: Seq<char>) -> Seq<char>
    decreases s.len(),
{
    if s.len() > 0 && is_ws(s[0]) {
        trim_start(s.drop_first())
    } else {
        s
    }
}

/// `s` without its trailing whitespace.
pub open spec fn trim_end(s: Seq<char>) -> Seq<char>
    decreases s.len(),
{
    if s.len() > 0 && is_ws(s.last()) {
        trim_end(s.drop_last())
    } else {
        s
    }
}

/// What `str::trim` returns.
pub open spec fn trim(s: Seq<char>) -> Seq<char> {
    trim_end(trim_start(s))
}

/// The first `n` characters of `s` (all of them when it is shorter).
pub open spec fn take_chars(s: Seq<char>, n: nat) -> Seq<char> {
    if n < s.len() {
        s.take(n as int)
    } else {
        s
    }
}

/// The character of a decimal digit.
pub open spec fn digit_char(d: nat) -> char {
    if d == 0 {
        '0'
    } else if d == 1 {
        '1'
    } else if d == 2 {
        '2'
    } else if d == 3 {
        '3'
    } else if d == 4 {
        '4'
    } else if d == 5 {
        '5'
    } else if d == 6 {
        '6'
    } else if d == 7 {
        '7'
    } else if d == 8 {
        '8'
    } else {
        '9'
    }
}

/// The decimal notation of `n`, as `Display` writes it.
pub open spec fn decimal(n: nat) -> Seq<char>
    decreases n,
{
    if n < 10 {
        seq![digit_char(n)]
    } else {
        decimal(n / 10).push(digit_char(n % 10))
    }
}

/// The decimal notation of a signed integer, as `Display` writes it.
pub open spec fn signed_decimal(n: int) -> Seq<char> {
    if n < 0 {
        seq!['-'] + decimal((-n) as nat)
    } else {
        decimal(n as nat)
    }
}

/// Copies the characters of `s` into a vector.
pub fn chars_of(s: &str) -> (v: Vec<char>)
    ensures
        v@ == s@,
{
    let mut v: Vec<char> = Vec::new();
    for c in it: s.chars()
        invariant
            v@ == it.seq().take(it.index() as int),
    {
        v.push(c);
    }
    v
}

/// Builds a string from characters.
pub fn string_of(v: &[char]) -> (s: String)
    ensures
        s@ == v@,
{
    let mut s = String::new();
    let mut i: usize = 0;
    while i < v.len()
        invariant
            i <= v.len(),
            s@ == v@.take(i as int),
        decreases v.len() - i,
    {
        s.push(v[i]);
        i = i + 1;
        assert(s@ =~= v@.take(i as int));
    }
    assert(v@.take(v.len() as int) =~= v@);
    s
}

/// Appends characters to a string.
pub fn push_chars(s: &mut String, v: &[char])
    ensures
        final(s)@ == old(s)@ + v@,
{
    let mut i: usize = 0;
    while i < v.len()
        invariant
            i <= v.len(),
            s@ == old(s)@ + v@.take(i as int),
        decreases v.len() - i,
    {
        s.push(v[i]);
        i = i + 1;
        assert(s@ =~= old(s)@ + v@.take(i as int));
    }
    assert(v@.take(v.len() as int) =~= v@);
}

/// Appends a string slice to a string.
pub fn push_str(s: &mut String, t: &str)
    ensures
        final(s)@ == old(s)@ + t@,
{
    s.append(t);
}

/// Copies `s[a..b]`.
pub fn slice_vec(s: &[char], a: usize, b: usize) -> (r: Vec<char>)
    requires
        a <= b <= s.len(),
    ensures
        r@ == s@.subrange(a as int, b as int),
{
    let mut r: Vec<char> = Vec::new();
    let mut i: usize = a;
    while i < b
        invariant
            a <= i <= b <= s.len(),
            r@ == s@.subrange(a as int, i as int),
        decreases b - i,
    {
        r.push(s[i]);
        i = i + 1;
        assert(r@ =~= s@.subrange(a as int, i as int));
    }
    r
}

/// The string `s[a..b]`.
pub fn slice_string(s: &[char], a: usize, b: usize) -> (r: String)
    requires
        a <= b <= s.len(),
    ensures
        r@ == s@.subrange(a as int, b as int),
{
    let v = slice_vec(s, a, b);
    string_of(v.as_slice())
}

/// Whether `p` occurs in `s` at index `k`.
pub fn matches_at_exec(s: &[char], p: &[char], k: usize) -> (b: bool)
    ensures
        b == matches_at(s@, p@, k as int),
{
    if p.len() > s.len() || k > s.len() - p.len() {
        return false;
    }
    let mut j: usize = 0;
    while j < p.len()
        invariant
            j <= p.len(),
            k + p.len() <= s.len(),
            forall|t: int| 0 <= t < j ==> s@[k + t] == p@[t],
        decreases p.len() - j,
    {
        if s[k + j] != p[j] {
            assert(s@.subrange(k as int, k + p.len())[j as int] != p@[j as int]);
            return false;
        }
        j = j + 1;
    }
    assert(s@.subrange(k as int, k + p.len()) =~= p@);
    true
}

/// The first occurrence of `p` in `s` at or after `from`.
pub fn find_from_exec(s: &[char], p: &[char], from: usize) -> (r: Option<usize>)
    ensures
        match r {
            Some(i) => find_from(s@, p@, from as int) == Some(i as int),
            None => find_from(s@, p@, from as int) is None,
        },
{
    if p.len() > s.len() || from > s.len() - p.len() {
        return None;
    }
    let mut k: usize = from;
    while k <= s.len() - p.len()
        invariant
            from <= k,
            p.len() <= s.len(),
            k <= s.len() - p.len() + 1,
            find_from(s@, p@, from as int) == find_from(s@, p@, k as int),
        decreases s.len() - p.len() + 1 - k,
    {
        if matches_at_exec(s, p, k) {
            return Some(k);
        }
        if k >= s.len() {
            return None;
        }
        k = k + 1;
    }
    None
}

/// The first occurrence of `p` in `s`.
pub fn find_exec(s: &[char], p: &[char]) -> (r: Option<usize>)
    ensures
        match r {
            Some(i) => find(s@, p@) == Some(i as int),
            None => find(s@, p@) is None,
        },
{
    find_from_exec(s, p, 0)
}

/// Whether `p` occurs in `s`.
pub fn contains_exec(s: &[char], p: &[char]) -> (b: bool)
    ensures
        b == contains(s@, p@),
{
    find_exec(s, p).is_some()
}

/// Whether `s` begins with `p`.
pub fn starts_with_exec(s: &[char], p: &[char]) -> (b: bool)
    ensures
        b == starts_with(s@, p@),
{
    matches_at_exec(s, p, 0)
}

/// Whether `s` ends with `p`.
pub fn ends_with_exec(s: &[char], p: &[char]) -> (b: bool)
    ensures
        b == ends_with(s@, p@),
{
    if p.len() > s.len() {
        return false;
    }
    let r = matches_at_exec(s, p, s.len() - p.len());
    proof {
        if r {
            assert(s@.subrange(s@.len() - p@.len(), s@.len() as int) =~= p@);
        }
    }
    r
}

/// The last occurrence of `c` in `s`.
pub fn rfind_char_exec(s: &[char], c: char) -> (r: Option<usize>)
    ensures
        match r {
            Some(i) => rfind_char(s@, c) == Some(i as int),
            None => rfind_char(s@, c) is None,
        },
{
    let mut k: usize = s.len();
    while k > 0
        invariant
            k <= s.len(),
            rfind_char(s@, c) == rfind_char_before(s@, c, k as int),
        decreases k,
    {
        if s[k - 1] == c {
            return Some(k - 1);
        }
        k = k - 1;
    }
    None
}

/// The bounds of `trim(s)` inside `s`.
pub fn trim_bounds(s: &[char]) -> (r: (usize, usize))
    ensures
        r.0 <= r.1 <= s.len(),
        trim(s@) == s@.subrange(r.0 as int, r.1 as int),
{
    let mut i: usize = 0;
    assert(s@.subrange(0, s.len() as int) =~= s@);
    while i < s.len() && is_ws_exec(s[i])
        invariant
            i <= s.len(),
            trim_start(s@) == trim_start(s@.subrange(i as int, s.len() as int)),
        decreases s.len() - i,
    {
        assert(s@.subrange(i as int, s.len() as int).drop_first() =~= s@.subrange(
            i + 1,
            s.len() as int,
        ));
        i = i + 1;
    }
    let ghost t = s@.subrange(i as int, s.len() as int);
    assert(trim_start(s@) == t);
    let mut j: usize = s.len();
    while j > i && is_ws_exec(s[j - 1])
        invariant
            i <= j <= s.len(),
            t == s@.subrange(i as int, s.len() as int),
            trim_end(t) == trim_end(s@.subrange(i as int, j as int)),
        decreases j,
    {
        assert(s@.subrange(i as int, j as int).drop_last() =~= s@.subrange(
            i as int,
            j - 1,
        ));
        j = j - 1;
    }
    (i, j)
}

/// `trim(s)` as a vector.
pub fn trim_vec(s: &[char]) -> (r: Vec<char>)
    ensures
        r@ == trim(s@),
{
    let (a, b) = trim_bounds(s);
    slice_vec(s, a, b)
}

/// Whether `c` is whitespace in the sense of `char::is_whitespace`.
pub fn is_ws_exec(c: char) -> (b: bool)
    ensures
        b == is_ws(c),
{
    c == '\t' || c == '\n' || c == '\x0B' || c == '\x0C' || c == '\r' || c == ' ' || c == '\u{85}'
        || c == '\u{A0}' || c == '\u{1680}' || ('\u{2000}' <= c && c <= '\u{200A}') || c
        == '\u{2028}' || c == '\u{2029}' || c == '\u{202F}' || c == '\u{205F}' || c == '\u{3000}'
}

/// The characters of a decimal digit.
fn digit_exec(d: usize) -> (c: char)
    requires
        d < 10,
    ensures
        c == digit_char(d as nat),
{
    if d == 0 {
        '0'
    } else if d == 1 {
        '1'
    } else if d == 2 {
        '2'
    } else if d == 3 {
        '3'
    } else if d == 4 {
        '4'
    } else if d == 5 {
        '5'
    } else if d == 6 {
        '6'
    } else if d == 7 {
        '7'
    } else if d == 8 {
        '8'
    } else {
        '9'
    }
}

/// Appends the decimal notation of `n`.
pub fn push_decimal(s: &mut String, n: u64)
    ensures
        final(s)@ == old(s)@ + decimal(n as nat),
    decreases n,
{
    if n < 10 {
        s.push(digit_exec(n as usize));
        assert(decimal(n as nat) =~= seq![digit_char(n as nat)]);
    } else {
        push_decimal(s, n / 10);
        s.push(digit_exec((n % 10) as usize));
        assert(s@ =~= old(s)@ + decimal(n as nat)) by {
            assert(decimal(n as nat) == decimal((n / 10) as nat).push(digit_char((n % 10) as nat)));
        }
    }
}

/// The decimal notation of `n`.
pub fn decimal_string(n: u64) -> (s: String)
    ensures
        s@ == decimal(n as nat),
{
    let mut s = String::new();
    push_decimal(&mut s, n);
    assert(s@ =~= decimal(n as nat));
    s
}

/// Appends the decimal notation of a signed integer.
pub fn push_signed_decimal(s: &mut String, n: i64)
    ensures
        final(s)@ == old(s)@ + signed_decimal(n as int),
{
    if n < 0 {
        s.push('-');
        let m: u64 = (0i128 - n as i128) as u64;
        push_decimal(s, m);
        assert(s@ =~= old(s)@ + signed_decimal(n as int));
    } else {
        push_decimal(s, n as u64);
    }
}

} // verus!

verus! {

/// `find_from` lands on a match at or after its start, with no match in between.
pub proof fn lemma_find_from(s: Seq<char>, p: Seq<char>, k: int)
    requires
        0 <= k,
    ensures
        match find_from(s, p, k) {
            Some(i) => k <= i && matches_at(s, p, i) && i + p.len() <= s.len() && forall|j: int|
                k <= j < i ==> !matches_at(s, p, j),
            None => forall|j: int| k <= j ==> !matches_at(s, p, j),
        },
    decreases s.len() - k,
{
    if k + p.len() > s.len() {
    } else if matches_at(s, p, k) {
    } else if k >= s.len() {
    } else {
        lemma_find_from(s, p, k + 1);
    }
}

/// `rfind_char_before` lands on an index below its bound.
pub proof fn lemma_rfind_char(s: Seq<char>, c: char, k: int)
    ensures
        match rfind_char_before(s, c, k) {
            Some(i) => 0 <= i < k && k <= s.len() && s[i] == c,
            None => true,
        },
    decreases k,
{
    if k <= 0 || k > s.len() {
    } else if s[k - 1] == c {
    } else {
        lemma_rfind_char(s, c, k - 1);
    }
}

/// The contents between the first `open` and the next `close` after it.
pub open spec fn section(s: Seq<char>, open: Seq<char>, close: Seq<char>) -> Option<Seq<char>> {
    match find(s, open) {
        None => None,
        Some(a) => match find_from(s, close, a + open.len()) {
            None => None,
            Some(b) => Some(s.subrange(a + open.len(), b)),
        },
    }
}

/// The trimmed, non-empty texts of the `open ... close` items of `s` from
/// position `pos` on: each item starts at the next `open`, ends at the
/// following `close`, and the search goes on from that `close`.
pub open spec fn items_from(s: Seq<char>, open: Seq<char>, close: Seq<char>, pos: int) -> Seq<
    Seq<char>,
>
    decreases s.len() - pos,
{
    if pos < 0 || pos > s.len() || open.len() == 0 {
        Seq::empty()
    } else {
        match find_from(s, open, pos) {
            None => Seq::empty(),
            Some(st) => match find_from(s, close, st + open.len()) {
                None => Seq::empty(),
                Some(e) => {
                    proof {
                        lemma_find_from(s, open, pos);
                        lemma_find_from(s, close, st + open.len());
                    }
                    let text = trim(s.subrange(st + open.len(), e));
                    if text.len() > 0 {
                        seq![text] + items_from(s, open, close, e)
                    } else {
                        items_from(s, open, close, e)
                    }
                },
            },
        }
    }
}

/// The bounds of `section(s, open, close)`.
pub fn section_exec(s: &[char], open: &[char], close: &[char]) -> (r: Option<(usize, usize)>)
    ensures
        match r {
            Some((a, b)) => a <= b <= s.len() && section(s@, open@, close@) == Some(
                s@.subrange(a as int, b as int),
            ),
            None => section(s@, open@, close@) is None,
        },
{
    match find_exec(s, open) {
        None => None,
        Some(a) => {
            proof {
                assert(find_from(s@, open@, 0) == Some(a as int));
                lemma_find_from(s@, open@, 0);
            }
            let n: usize = s.len();
            assert(a + open.len() <= n);
            let start = a + open.len();
            match find_from_exec(s, close, start) {
                None => None,
                Some(b) => {
                    proof {
                        lemma_find_from(s@, close@, start as int);
                    }
                    Some((start, b))
                },
            }
        },
    }
}

/// The items of `s`, as `items_from(s, open, close, 0)` describes them.
pub fn items_exec(s: &[char], open: &[char], close: &[char]) -> (r: Vec<String>)
    ensures
        r@.map_values(|x: String| x@) == items_from(s@, open@, close@, 0),
{
    let mut r: Vec<String> = Vec::new();
    if open.len() == 0 {
        assert(r@.map_values(|x: String| x@) =~= Seq::<Seq<char>>::empty());
        return r;
    }
    let mut pos: usize = 0;
    let mut done = false;
    while !done
        invariant
            open.len() > 0,
            pos <= s.len(),
            !done ==> r@.map_values(|x: String| x@) + items_from(s@, open@, close@, pos as int)
                == items_from(s@, open@, close@, 0),
            done ==> r@.map_values(|x: String| x@) == items_from(s@, open@, close@, 0),
        decreases s.len() - pos + (if done { 0int } else { 1int }),
    {
        let ghost before = r@.map_values(|x: String| x@);
        match find_from_exec(s, open, pos) {
            None => {
                assert(before + items_from(s@, open@, close@, pos as int) =~= before);
                done = true;
            },
            Some(st) => {
                proof {
                    lemma_find_from(s@, open@, pos as int);
                }
                let a = st + open.len();
                match find_from_exec(s, close, a) {
                    None => {
                        assert(before + items_from(s@, open@, close@, pos as int) =~= before);
                        done = true;
                    },
                    Some(e) => {
                        proof {
                            lemma_find_from(s@, close@, a as int);
                        }
                        let sub = slice_vec(s, a, e);
                        let (ta, tb) = trim_bounds(sub.as_slice());
                        let ghost text = trim(s@.subrange(a as int, e as int));
                        if ta < tb {
                            let t = slice_string(sub.as_slice(), ta, tb);
                            assert(t@ =~= text);
                            r.push(t);
                            assert(r@.map_values(|x: String| x@) =~= before.push(text));
                            assert(before + items_from(s@, open@, close@, pos as int) =~= before
                                + seq![text] + items_from(s@, open@, close@, e as int));
                            assert(before.push(text) =~= before + seq![text]);
                        } else {
                            assert(text.len() == 0);
                        }
                        pos = e;
                    },
                }
            },
        }
    }
    r
}

} // verus!

verus! {

/// The pieces of `s[k..]` between occurrences of `sep` (what `str::split`
/// returns for a non-empty separator).
pub open spec fn split_from(s: Seq<char>, sep: Seq<char>, k: int) -> Seq<Seq<char>>
    decreases s.len() - k,
{
    if k < 0 || k > s.len() || sep.len() == 0 {
        Seq::empty()
    } else {
        match find_from(s, sep, k) {
            None => seq![s.subrange(k, s.len() as int)],
            Some(i) => {
                proof {
                    lemma_find_from(s, sep, k);
                }
                seq![s.subrange(k, i)] + split_from(s, sep, i + sep.len())
            },
        }
    }
}

/// What `str::split` returns for a non-empty separator.
pub open spec fn split(s: Seq<char>, sep: Seq<char>) -> Seq<Seq<char>> {
    split_from(s, sep, 0)
}

/// A line without its carriage return.
pub open spec fn strip_cr(x: Seq<char>) -> Seq<char> {
    if x.len() > 0 && x.last() == '\r' {
        x.drop_last()
    } else {
        x
    }
}

/// The lines of `s[k..]`, as `str::lines` gives them.
pub open spec fn lines_from(s: Seq<char>, k: int) -> Seq<Seq<char>>
    decreases s.len() - k,
{
    if k < 0 || k >= s.len() {
        Seq::empty()
    } else {
        match find_from(s, "\n"@, k) {
            None => seq![s.subrange(k, s.len() as int)],
            Some(i) => {
                proof {
                    lemma_find_from(s, "\n"@, k);
                    reveal_strlit("\n");
                }
                seq![strip_cr(s.subrange(k, i))] + lines_from(s, i + 1)
            },
        }
    }
}

/// What `str::lines` returns.
pub open spec fn lines(s: Seq<char>) -> Seq<Seq<char>> {
    lines_from(s, 0)
}

/// The pieces of `s` between occurrences of `sep`.
pub fn split_exec(s: &[char], sep: &[char]) -> (r: Vec<Vec<char>>)
    requires
        sep@.len() > 0,
    ensures
        r@.map_values(|x: Vec<char>| x@) == split(s@, sep@),
{
    let mut r: Vec<Vec<char>> = Vec::new();
    let mut k: usize = 0;
    let mut done = false;
    while !done
        invariant
            sep@.len() > 0,
            k <= s@.len(),
            !done ==> r@.map_values(|x: Vec<char>| x@) + split_from(s@, sep@, k as int) == split(s@, sep@),
            done ==> r@.map_values(|x: Vec<char>| x@) == split(s@, sep@),
        decreases s@.len() - k + (if done { 0int } else { 1int }),
    {
        let ghost before = r@.map_values(|x: Vec<char>| x@);
        match find_from_exec(s, sep, k) {
            None => {
                let piece = slice_vec(s, k, s.len());
                r.push(piece);
                assert(r@.map_values(|x: Vec<char>| x@) =~= before + split_from(s@, sep@, k as int));
                done = true;
            },
            Some(i) => {
                proof {
                    lemma_find_from(s@, sep@, k as int);
                }
                let piece = slice_vec(s, k, i);
                r.push(piece);
                assert(r@.map_values(|x: Vec<char>| x@) =~= before.push(s@.subrange(k as int, i as int)));
                assert(before + split_from(s@, sep@, k as int) =~= before.push(
                    s@.subrange(k as int, i as int),
                ) + split_from(s@, sep@, i + sep@.len()));
                let n: usize = s.len();
                assert(i + sep.len() <= n);
                k = i + sep.len();
            },
        }
    }
    r
}

/// The lines of `s`.
pub fn lines_exec(s: &[char]) -> (r: Vec<Vec<char>>)
    ensures
        r@.map_values(|x: Vec<char>| x@) == lines(s@),
{
    let nl = chars_of("\n");
    proof {
        reveal_strlit("\n");
    }
    let mut r: Vec<Vec<char>> = Vec::new();
    let mut k: usize = 0;
    let mut done = false;
    while !done
        invariant
            nl@ == "\n"@,
            nl@ == seq!['\n'],
            k <= s@.len(),
            !done ==> r@.map_values(|x: Vec<char>| x@) + lines_from(s@, k as int) == lines(s@),
            done ==> r@.map_values(|x: Vec<char>| x@) == lines(s@),
        decreases s@.len() - k + (if done { 0int } else { 1int }),
    {
        let ghost before = r@.map_values(|x: Vec<char>| x@);
        if k >= s.len() {
            assert(before + lines_from(s@, k as int) =~= before);
            done = true;
        } else {
            match find_from_exec(s, nl.as_slice(), k) {
                None => {
                    let piece = slice_vec(s, k, s.len());
                    r.push(piece);
                    assert(r@.map_values(|x: Vec<char>| x@) =~= before + lines_from(s@, k as int));
                    done = true;
                },
                Some(i) => {
                    proof {
                        lemma_find_from(s@, nl@, k as int);
                    }
                    let end = if i > k && s[i - 1] == '\r' {
                        i - 1
                    } else {
                        i
                    };
                    let piece = slice_vec(s, k, end);
                    let ghost line = strip_cr(s@.subrange(k as int, i as int));
                    assert(piece@ =~= line);
                    r.push(piece);
                    assert(r@.map_values(|x: Vec<char>| x@) =~= before.push(line));
                    assert(before + lines_from(s@, k as int) =~= before.push(line) + lines_from(
                        s@,
                        i + 1,
                    ));
                    k = i + 1;
                },
            }
        }
    }
    r
}

} // verus!

verus! {

/// The number of bytes UTF-8 takes for a character.
pub open spec fn utf8_width(c: char) -> nat {
    if (c as u32) < 0x80 {
        1
    } else if (c as u32) < 0x800 {
        2
    } else if (c as u32) < 0x10000 {
        3
    } else {
        4
    }
}

/// The number of bytes UTF-8 takes for a text (what `str::len` returns).
pub open spec fn utf8_len(s: Seq<char>) -> nat
    decreases s.len(),
{
    if s.len() == 0 {
        0
    } else {
        utf8_len(s.drop_last()) + utf8_width(s.last())
    }
}

/// The UTF-8 width of a character.
pub fn utf8_width_exec(c: char) -> (w: u64)
    ensures
        w == utf8_width(c),
{
    let v = c as u32;
    if v < 0x80 {
        1
    } else if v < 0x800 {
        2
    } else if v < 0x10000 {
        3
    } else {
        4
    }
}

/// `utf8_len` grows with the text.
pub proof fn lemma_utf8_len_monotone(s: Seq<char>, i: int)
    requires
        0 <= i <= s.len(),
    ensures
        utf8_len(s.take(i)) <= utf8_len(s),
        utf8_len(s.take(i)) <= 4 * i,
    decreases s.len(),
{
    if i < s.len() {
        assert(s.drop_last().take(i) =~= s.take(i));
        lemma_utf8_len_monotone(s.drop_last(), i);
    } else {
        assert(s.take(i) =~= s);
        lemma_utf8_len_bound(s);
    }
}

/// A text takes at most four bytes per character.
pub proof fn lemma_utf8_len_bound(s: Seq<char>)
    ensures
        utf8_len(s) <= 4 * s.len(),
    decreases s.len(),
{
    if s.len() > 0 {
        lemma_utf8_len_bound(s.drop_last());
    }
}

/// Whether a text takes more than `n` bytes of UTF-8.
pub fn utf8_len_exceeds(s: &[char], n: u64) -> (b: bool)
    ensures
        b == (utf8_len(s@) > n),
{
    let mut total: u64 = 0;
    let mut i: usize = 0;
    while i < s.len()
        invariant
            i <= s@.len(),
            total == utf8_len(s@.take(i as int)),
            total <= n,
        decreases s.len() - i,
    {
        assert(s@.take(i + 1).drop_last() =~= s@.take(i as int));
        let w = utf8_width_exec(s[i]);
        if w > n - total {
            proof {
                lemma_utf8_len_monotone(s@, i + 1);
            }
            return true;
        }
        total = total + w;
        i = i + 1;
    }
    assert(s@.take(s@.len() as int) =~= s@);
    false
}

} // verus!

verus! {

/// Whether a text is blank (empty once trimmed).
pub open spec fn is_blank(s: Seq<char>) -> bool {
    trim(s).len() == 0
}

/// The texts that are not blank.
pub open spec fn not_blank() -> spec_fn(Seq<char>) -> bool {
    |s: Seq<char>| !is_blank(s)
}

/// The texts joined with a separator between them.
pub open spec fn join(v: Seq<Seq<char>>, sep: Seq<char>) -> Seq<char>
    decreases v.len(),
{
    if v.len() == 0 {
        Seq::empty()
    } else if v.len() == 1 {
        v[0]
    } else {
        join(v.drop_last(), sep) + sep + v.last()
    }
}

/// Whether a text is blank.
pub fn is_blank_exec(s: &[char]) -> (b: bool)
    ensures
        b == is_blank(s@),
{
    let (a, e) = trim_bounds(s);
    a == e
}

/// The texts of `v` that are not blank, in order.
pub fn non_blank(v: &Vec<Vec<char>>) -> (r: Vec<Vec<char>>)
    ensures
        r@.map_values(|x: Vec<char>| x@) == v@.map_values(|x: Vec<char>| x@).filter(not_blank()),
{
    let ghost src = v@.map_values(|x: Vec<char>| x@);
    let mut r: Vec<Vec<char>> = Vec::new();
    let mut i: usize = 0;
    assert(src.take(0) =~= Seq::<Seq<char>>::empty());
    assert(Seq::<Seq<char>>::empty().filter(not_blank()) =~= Seq::<Seq<char>>::empty()) by {
        reveal(Seq::filter);
    }
    while i < v.len()
        invariant
            i <= v@.len(),
            src == v@.map_values(|x: Vec<char>| x@),
            r@.map_values(|x: Vec<char>| x@) == src.take(i as int).filter(not_blank()),
        decreases v.len() - i,
    {
        let ghost before = r@.map_values(|x: Vec<char>| x@);
        proof {
            assert(src.take(i + 1) =~= src.take(i as int).push(src[i as int]));
            src.take(i as int).lemma_filter_push(src[i as int], not_blank());
        }
        if !is_blank_exec(v[i].as_slice()) {
            let x = slice_vec(v[i].as_slice(), 0, v[i].len());
            assert(v[i as int]@.subrange(0, v[i as int]@.len() as int) =~= v[i as int]@);
            r.push(x);
            assert(r@.map_values(|x: Vec<char>| x@) =~= before.push(src[i as int]));
        }
        i = i + 1;
    }
    assert(src.take(v@.len() as int) =~= src);
    r
}

/// The texts joined with a separator between them.
pub fn join_exec(v: &Vec<Vec<char>>, sep: &str) -> (s: String)
    ensures
        s@ == join(v@.map_values(|x: Vec<char>| x@), sep@),
{
    let ghost src = v@.map_values(|x: Vec<char>| x@);
    let mut s = String::new();
    let mut i: usize = 0;
    while i < v.len()
        invariant
            i <= v@.len(),
            src == v@.map_values(|x: Vec<char>| x@),
            s@ == join(src.take(i as int), sep@),
        decreases v.len() - i,
    {
        let ghost before = s@;
        if i > 0 {
            push_str(&mut s, sep);
        }
        push_chars(&mut s, v[i].as_slice());
        proof {
            assert(src.take(i + 1).drop_last() =~= src.take(i as int));
            if i == 0 {
                assert(src.take(1)[0] == src[0]);
                assert(s@ =~= src[0]);
            } else {
                assert(s@ =~= join(src.take(i as int), sep@) + sep@ + src[i as int]);
            }
        }
        i = i + 1;
    }
    assert(src.take(v@.len() as int) =~= src);
    s
}

} // verus!

verus! {

/// The first index at or after `k` that is not whitespace (or the end).
pub open spec fn skip_ws(s: Seq<char>, k: int) -> int
    decreases s.len() - k,
{
    if 0 <= k < s.len() && is_ws(s[k]) {
        skip_ws(s, k + 1)
    } else {
        k
    }
}

/// The first index at or after `k` that is whitespace (or the end).
pub open spec fn next_ws(s: Seq<char>, k: int) -> int
    decreases s.len() - k,
{
    if 0 <= k < s.len() && !is_ws(s[k]) {
        next_ws(s, k + 1)
    } else {
        k
    }
}

/// `skip_ws` and `next_ws` stay within the text and only move forward.
pub proof fn lemma_ws_bounds(s: Seq<char>, k: int)
    requires
        0 <= k <= s.len(),
    ensures
        k <= skip_ws(s, k) <= s.len(),
        k <= next_ws(s, k) <= s.len(),
        skip_ws(s, k) < s.len() ==> !is_ws(s[skip_ws(s, k)]),
        k < s.len() && !is_ws(s[k]) ==> next_ws(s, k) > k,
    decreases s.len() - k,
{
    if k < s.len() {
        lemma_ws_bounds(s, k + 1);
    }
}

/// The whitespace-separated words of `s[k..]` (what `str::split_whitespace`
/// returns).
pub open spec fn words_from(s: Seq<char>, k: int) -> Seq<Seq<char>>
    decreases s.len() - k,
{
    if k < 0 || k > s.len() {
        Seq::empty()
    } else {
        let a = skip_ws(s, k);
        if a >= s.len() {
            Seq::empty()
        } else {
            let b = next_ws(s, a);
            proof {
                lemma_ws_bounds(s, k);
                lemma_ws_bounds(s, a);
            }
            seq![s.subrange(a, b)] + words_from(s, b)
        }
    }
}

/// The whitespace-separated words of `s`.
pub open spec fn words(s: Seq<char>) -> Seq<Seq<char>> {
    words_from(s, 0)
}

/// The second word of `s`, if it has one (what
/// `split_whitespace().nth(1)` gives).
pub fn second_word(s: &[char]) -> (r: Option<Vec<char>>)
    ensures
        match r {
            Some(w) => words(s@).len() >= 2 && w@ == words(s@)[1],
            None => words(s@).len() < 2,
        },
{
    let mut count: usize = 0;
    let mut k: usize = 0;
    while count < 2
        invariant
            k <= s@.len(),
            count < 2,
            words(s@).len() >= count,
            words(s@) == words(s@).take(count as int) + words_from(s@, k as int),
        decreases s@.len() - k + (2 - count),
    {
        let mut a = k;
        while a < s.len() && is_ws_exec(s[a])
            invariant
                k <= a <= s@.len(),
                skip_ws(s@, k as int) == skip_ws(s@, a as int),
            decreases s.len() - a,
        {
            a = a + 1;
        }
        if a >= s.len() {
            assert(words_from(s@, k as int) =~= Seq::<Seq<char>>::empty());
            assert(words(s@) =~= words(s@).take(count as int));
            return None;
        }
        let mut b = a;
        while b < s.len() && !is_ws_exec(s[b])
            invariant
                a <= b <= s@.len(),
                next_ws(s@, a as int) == next_ws(s@, b as int),
            decreases s.len() - b,
        {
            b = b + 1;
        }
        let ghost w = s@.subrange(a as int, b as int);
        proof {
            lemma_ws_bounds(s@, k as int);
            lemma_ws_bounds(s@, a as int);
        }
        assert(words_from(s@, k as int) == seq![w] + words_from(s@, b as int));
        if count == 1 {
            assert(words(s@)[1] == w) by {
                assert((words(s@).take(1) + (seq![w] + words_from(s@, b as int)))[1] == w);
            }
            return Some(slice_vec(s, a, b));
        }
        assert(words(s@) =~= words(s@).take(count + 1) + words_from(s@, b as int)) by {
            assert(words(s@).take(count as int) + (seq![w] + words_from(s@, b as int)) =~= words(s@).take(
                count as int,
            ).push(w) + words_from(s@, b as int));
            assert(words(s@).take(count + 1) =~= words(s@).take(count as int).push(w));
        }
        count = count + 1;
        k = b;
    }
    None
}

/// The whitespace-separated words of `s` (see `words`).
pub fn words_exec(s: &[char]) -> (r: Vec<Vec<char>>)
    ensures
        r@.map_values(|w: Vec<char>| w@) == words(s@),
{
    let mut r: Vec<Vec<char>> = Vec::new();
    let mut k: usize = 0;
    loop
        invariant
            k <= s@.len(),
            r@.map_values(|w: Vec<char>| w@) + words_from(s@, k as int) == words(s@),
        decreases s@.len() - k,
    {
        let mut a = k;
        while a < s.len() && is_ws_exec(s[a])
            invariant
                k <= a <= s@.len(),
                skip_ws(s@, k as int) == skip_ws(s@, a as int),
            decreases s.len() - a,
        {
            a = a + 1;
        }
        if a >= s.len() {
            assert(words_from(s@, k as int) =~= Seq::<Seq<char>>::empty());
            assert(r@.map_values(|w: Vec<char>| w@) =~= words(s@));
            return r;
        }
        let mut b = a;
        while b < s.len() && !is_ws_exec(s[b])
            invariant
                a <= b <= s@.len(),
                next_ws(s@, a as int) == next_ws(s@, b as int),
            decreases s.len() - b,
        {
            b = b + 1;
        }
        let ghost w = s@.subrange(a as int, b as int);
        proof {
            lemma_ws_bounds(s@, k as int);
            lemma_ws_bounds(s@, a as int);
        }
        assert(words_from(s@, k as int) == seq![w] + words_from(s@, b as int));
        let ghost before = r@.map_values(|w: Vec<char>| w@);
        r.push(slice_vec(s, a, b));
        assert(r@.map_values(|w: Vec<char>| w@) =~= before.push(w));
        assert(r@.map_values(|w: Vec<char>| w@) + words_from(s@, b as int) =~= before + words_from(s@, k as int));
        k = b;
    }
}

/// Whether two texts are the same.
pub fn same_text(a: &str, b: &str) -> (r: bool)
    ensures
        r == (a@ == b@),
{
    String::from_str(a) == String::from_str(b)
}

} // verus!
