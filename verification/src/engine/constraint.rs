//! Constraints on the reasoning: kept without duplicates, read from and
//! written to XML, and extracted from the model's replies.
use vstd::prelude::*;

use crate::engine::backtrack::{extract_xml_attr, xml_attr_spec};
use crate::stamp::{new_uuid, Timestamp};
use crate::text::{
    chars_of, decimal, find, find_exec, find_from, lemma_find_from, push_decimal, push_str,
    slice_vec, split, split_exec, string_of, trim, trim_vec, utf8_len, utf8_len_exceeds,
};

verus! {

/// Where a constraint came from.
#[derive(Debug, Clone, Copy, PartialEq, Eq, Structural)]
pub enum ConstraintSource {
    /// Entered by the user.
    User,
    /// Extracted from the model's reply.
    Gemma,
}

/// The text each source displays.
pub open spec fn source_text(s: ConstraintSource) -> Seq<char> {
    match s {
        ConstraintSource::User => "user"@,
        ConstraintSource::Gemma => "gemma"@,
    }
}

impl ConstraintSource {
    /// The text the source displays.
    pub fn to_text(&self) -> (s: &'static str)
        ensures
            s@ == source_text(*self),
    {
        match self {
            ConstraintSource::User => "user",
            ConstraintSource::Gemma => "gemma",
        }
    }
}

/// A constraint.
#[derive(Debug)]
pub struct Constraint {
    /// Its identifier.
    pub id: String,
    /// What it says.
    pub content: String,
    /// Where it came from.
    pub source: ConstraintSource,
    /// When it was made.
    pub created_at: Timestamp,
}

impl Constraint {
    /// A constraint with a fresh identifier, made now.
    pub fn new(content: &str, source: ConstraintSource) -> (c: Self)
        ensures
            c.content@ == content@,
            c.source == source,
            c.id@.len() == 36,
    {
        Constraint { id: new_uuid(), content: String::from_str(content), source, created_at: Timestamp::now() }
    }

    /// A constraint entered by the user.
    pub fn user(content: &str) -> (c: Self)
        ensures
            c.content@ == content@,
            c.source == ConstraintSource::User,
            c.id@.len() == 36,
    {
        Self::new(content, ConstraintSource::User)
    }

    /// A constraint extracted from the model's reply.
    pub fn gemma(content: &str) -> (c: Self)
        ensures
            c.content@ == content@,
            c.source == ConstraintSource::Gemma,
            c.id@.len() == 36,
    {
        Self::new(content, ConstraintSource::Gemma)
    }
}

/// The list of constraints.
#[derive(Debug)]
pub struct ConstraintManager {
    constraints: Vec<Constraint>,
}

/// The contents of a list of constraints.
pub open spec fn contents(v: Seq<Constraint>) -> Seq<Seq<char>> {
    v.map_values(|c: Constraint| c.content@)
}

/// The list after adding a constraint: unchanged when one of the same
/// content is already there, else with it appended.
pub open spec fn add_spec(v: Seq<Constraint>, c: Constraint) -> Seq<Constraint> {
    if contents(v).contains(c.content@) {
        v
    } else {
        v.push(c)
    }
}

/// The constraint record of one XML chunk (the text after a `<constraint `):
/// its `id` attribute (or a fresh one), its source (`gemma` when the
/// `source` attribute says so, else the user) and the text between
/// `<content><![CDATA[` and the next `]]></content>` (empty when missing).
pub open spec fn chunk_source(chunk: Seq<char>) -> ConstraintSource {
    if xml_attr_spec(chunk, "source"@) == Some("gemma"@) {
        ConstraintSource::Gemma
    } else {
        ConstraintSource::User
    }
}

/// The content of one XML chunk.
pub open spec fn chunk_content(chunk: Seq<char>) -> Seq<char> {
    let parts = split(chunk, "<content><![CDATA["@);
    if parts.len() >= 2 {
        split(parts[1], "]]></content>"@)[0]
    } else {
        Seq::empty()
    }
}

/// The XML chunks of the constraints: the pieces after each `<constraint `.
pub open spec fn constraint_chunks(xml: Seq<char>) -> Seq<Seq<char>> {
    split(xml, "<constraint "@).drop_first()
}

/// The line of a constraint in the prompt.
pub open spec fn constraint_prompt_line(i: int, c: Constraint) -> Seq<char> {
    decimal((i + 1) as nat) + ". "@ + (match c.source {
        ConstraintSource::User => "[用戶]"@,
        ConstraintSource::Gemma => "[自動]"@,
    }) + " "@ + c.content@ + "\n"@
}

/// The lines of the constraints from index `i` on.
pub open spec fn constraint_prompt_lines(v: Seq<Constraint>, i: int) -> Seq<char>
    decreases v.len() - i,
{
    if i < 0 || i >= v.len() {
        Seq::empty()
    } else {
        constraint_prompt_line(i, v[i]) + constraint_prompt_lines(v, i + 1)
    }
}

/// The XML element of a constraint.
pub open spec fn constraint_xml(c: Constraint) -> Seq<char> {
    "  <constraint id=\""@ + c.id@ + "\" source=\""@ + source_text(c.source) + "\" created_at=\""@
        + c.created_at.rfc3339@ + "\">\n"@ + "    <content><![CDATA["@ + c.content@
        + "]]></content>\n"@ + "  </constraint>\n"@
}

/// The XML elements of the constraints from index `i` on.
pub open spec fn constraints_xml(v: Seq<Constraint>, i: int) -> Seq<char>
    decreases v.len() - i,
{
    if i < 0 || i >= v.len() {
        Seq::empty()
    } else {
        constraint_xml(v[i]) + constraints_xml(v, i + 1)
    }
}

/// The reason that follows `pattern` in a reply: from just after the
/// pattern's first occurrence up to the next `。`, `，` or line break (or
/// the end), trimmed.
pub open spec fn reason_after(response: Seq<char>, pattern: Seq<char>) -> Option<Seq<char>> {
    match find(response, pattern) {
        None => None,
        Some(pos) => {
            let start = pos + pattern.len();
            let end = match first_stop(response, start) {
                Some(e) => e,
                None => response.len() as int,
            };
            Some(trim(response.subrange(start, end)))
        },
    }
}

/// The first index at or after `k` holding `。`, `，` or a line break.
pub open spec fn first_stop(s: Seq<char>, k: int) -> Option<int>
    decreases s.len() - k,
{
    if k < 0 || k >= s.len() {
        None
    } else if s[k] == '。' || s[k] == '，' || s[k] == '\n' {
        Some(k)
    } else {
        first_stop(s, k + 1)
    }
}

/// A reason is kept when it is longer than two bytes of UTF-8.
pub open spec fn kept_reason(r: Option<Seq<char>>) -> Seq<Seq<char>> {
    match r {
        Some(t) => if t.len() > 0 && utf8_len(t) > 2 {
            seq![t]
        } else {
            Seq::empty()
        },
        None => Seq::empty(),
    }
}

/// The reasons extracted from a reply, for the patterns 根據, 因為, 依據 and
/// 基於 in that order (at most one per pattern).
pub open spec fn extracted_reasons(response: Seq<char>) -> Seq<Seq<char>> {
    kept_reason(reason_after(response, "根據"@)) + kept_reason(reason_after(response, "因為"@))
        + kept_reason(reason_after(response, "依據"@)) + kept_reason(reason_after(response, "基於"@))
}

/// Contents with more contents added one by one, each unless already
/// there.
pub open spec fn add_contents(v: Seq<Seq<char>>, xs: Seq<Seq<char>>) -> Seq<Seq<char>>
    decreases xs.len(),
{
    if xs.len() == 0 {
        v
    } else {
        let w = add_contents(v, xs.drop_last());
        if w.contains(xs.last()) {
            w
        } else {
            w.push(xs.last())
        }
    }
}

/// The first stop at or after `k`.
fn first_stop_exec(s: &[char], k: usize) -> (r: Option<usize>)
    requires
        k <= s@.len(),
    ensures
        match r {
            Some(e) => first_stop(s@, k as int) == Some(e as int) && k <= e < s@.len(),
            None => first_stop(s@, k as int) is None,
        },
{
    let mut i: usize = k;
    while i < s.len()
        invariant
            k <= i <= s@.len(),
            first_stop(s@, k as int) == first_stop(s@, i as int),
        decreases s.len() - i,
    {
        if s[i] == '。' || s[i] == '，' || s[i] == '\n' {
            return Some(i);
        }
        i = i + 1;
    }
    None
}

/// The reason after a pattern (see `reason_after`).
fn reason_after_exec(response: &[char], pattern: &str) -> (r: Option<Vec<char>>)
    ensures
        match r {
            Some(t) => reason_after(response@, pattern@) == Some(t@),
            None => reason_after(response@, pattern@) is None,
        },
{
    let p = chars_of(pattern);
    match find_exec(response, p.as_slice()) {
        None => None,
        Some(pos) => {
            proof {
                assert(find_from(response@, p@, 0) == Some(pos as int));
                lemma_find_from(response@, p@, 0);
            }
            let n: usize = response.len();
            assert(pos + p.len() <= n);
            let start = pos + p.len();
            let end = match first_stop_exec(response, start) {
                Some(e) => e,
                None => n,
            };
            let body = slice_vec(response, start, end);
            Some(trim_vec(body.as_slice()))
        },
    }
}

/// Whether a reason is kept (see `kept_reason`).
fn keep_reason(r: Option<Vec<char>>, out: &mut Vec<String>)
    ensures
        final(out)@.map_values(|s: String| s@) == old(out)@.map_values(|s: String| s@) + kept_reason(
            match r {
                Some(t) => Some(t@),
                None => None,
            },
        ),
{
    let ghost before = out@.map_values(|s: String| s@);
    match r {
        Some(t) => {
            let s = string_of(t.as_slice());
            if t.len() > 0 && utf8_len_exceeds(t.as_slice(), 2) {
                out.push(s);
                assert(out@.map_values(|s: String| s@) =~= before + seq![t@]);
            } else {
                assert(out@.map_values(|s: String| s@) =~= before + Seq::<Seq<char>>::empty());
            }
        },
        None => {
            assert(out@.map_values(|s: String| s@) =~= before + Seq::<Seq<char>>::empty());
        },
    }
}

impl ConstraintManager {
    /// The constraints, in order.
    pub closed spec fn constraints(&self) -> Seq<Constraint> {
        self.constraints@
    }

    /// An empty list.
    pub fn new() -> (m: Self)
        ensures
            m.constraints() == Seq::<Constraint>::empty(),
    {
        ConstraintManager { constraints: Vec::new() }
    }

    /// Reads constraints from XML: one per `<constraint ` chunk (see
    /// `chunk_source` and `chunk_content`). The `id` attribute is kept,
    /// or a fresh one is made where it is missing; the `created_at`
    /// attribute is read as an RFC 3339 time, or the current time is taken.
    pub fn from_xml(xml: &str) -> (m: Self)
        ensures
            m.constraints().len() == constraint_chunks(xml@).len(),
            forall|i: int|
                0 <= i < m.constraints().len() ==> {
                    let chunk = #[trigger] constraint_chunks(xml@)[i];
                    let c = m.constraints()[i];
                    &&& c.content@ == chunk_content(chunk)
                    &&& c.source == chunk_source(chunk)
                    &&& match xml_attr_spec(chunk, "id"@) {
                        Some(id) => c.id@ == id,
                        None => c.id@.len() == 36,
                    }
                },
    {
        proof {
            reveal_strlit("<constraint ");
            reveal_strlit("<content><![CDATA[");
            reveal_strlit("]]></content>");
        }
        let x = chars_of(xml);
        let sep = chars_of("<constraint ");
        let chunks = split_exec(x.as_slice(), sep.as_slice());
        let ghost all = split(xml@, "<constraint "@);
        assert(chunks@.map_values(|v: Vec<char>| v@) == all);
        let mut constraints: Vec<Constraint> = Vec::new();
        let open = chars_of("<content><![CDATA[");
        let close = chars_of("]]></content>");
        let mut i: usize = 1;
        while i < chunks.len()
            invariant
                1 <= i <= chunks@.len() || chunks@.len() == 0,
                chunks@.map_values(|v: Vec<char>| v@) == all,
                all == split(xml@, "<constraint "@),
                open@ == "<content><![CDATA["@,
                close@ == "]]></content>"@,
                open@.len() > 0,
                close@.len() > 0,
                constraints@.len() == if i > 0 { i - 1 } else { 0 },
                forall|j: int|
                    0 <= j < constraints@.len() ==> {
                        let chunk = #[trigger] constraint_chunks(xml@)[j];
                        let c = constraints@[j];
                        &&& c.content@ == chunk_content(chunk)
                        &&& c.source == chunk_source(chunk)
                        &&& match xml_attr_spec(chunk, "id"@) {
                            Some(id) => c.id@ == id,
                            None => c.id@.len() == 36,
                        }
                    },
            decreases chunks.len() - i,
        {
            let chunk_chars = &chunks[i];
            let ghost chunk = all[i as int];
            assert(chunk_chars@ == chunk);
            assert(constraint_chunks(xml@)[i - 1] == chunk);
            let chunk_text = string_of(chunk_chars.as_slice());
            let id = match extract_xml_attr(chunk_text.as_str(), "id") {
                Some(id) => id,
                None => new_uuid(),
            };
            let source = match extract_xml_attr(chunk_text.as_str(), "source") {
                Some(s) => if s == String::from_str("gemma") {
                    ConstraintSource::Gemma
                } else {
                    ConstraintSource::User
                },
                None => ConstraintSource::User,
            };
            let created_text = match extract_xml_attr(chunk_text.as_str(), "created_at") {
                Some(t) => t,
                None => String::new(),
            };
            let created_at = Timestamp::parse_or_now(created_text.as_str());
            let parts = split_exec(chunk_chars.as_slice(), open.as_slice());
            let content = if parts.len() >= 2 {
                let inner = split_exec(parts[1].as_slice(), close.as_slice());
                assert(split(parts@[1]@, close@).len() >= 1);
                assert(inner@.map_values(|v: Vec<char>| v@)[0] == inner@[0]@);
                string_of(inner[0].as_slice())
            } else {
                String::new()
            };
            assert(parts@.map_values(|v: Vec<char>| v@) == split(chunk, "<content><![CDATA["@));
            proof {
                if parts@.len() >= 2 {
                    assert(parts@.map_values(|v: Vec<char>| v@)[1] == parts@[1]@);
                }
            }
            constraints.push(Constraint { id, content, source, created_at });
            i = i + 1;
        }
        ConstraintManager { constraints }
    }

    /// The constraints as XML (see `constraints_xml`).
    pub fn to_xml(&self) -> (s: String)
        ensures
            s@ == "<?xml version=\"1.0\" encoding=\"UTF-8\"?>\n"@ + "<constraints>\n"@ + constraints_xml(
                self.constraints(),
                0,
            ) + "</constraints>\n"@,
    {
        let mut xml = String::from_str("<?xml version=\"1.0\" encoding=\"UTF-8\"?>\n");
        push_str(&mut xml, "<constraints>\n");
        let ghost start = xml@;
        let mut i: usize = 0;
        while i < self.constraints.len()
            invariant
                i <= self.constraints@.len(),
                xml@ + constraints_xml(self.constraints@, i as int) == start + constraints_xml(
                    self.constraints@,
                    0,
                ),
            decreases self.constraints.len() - i,
        {
            let c = &self.constraints[i];
            let ghost before = xml@;
            push_str(&mut xml, "  <constraint id=\"");
            push_str(&mut xml, c.id.as_str());
            push_str(&mut xml, "\" source=\"");
            push_str(&mut xml, c.source.to_text());
            push_str(&mut xml, "\" created_at=\"");
            push_str(&mut xml, c.created_at.rfc3339.as_str());
            push_str(&mut xml, "\">\n");
            push_str(&mut xml, "    <content><![CDATA[");
            push_str(&mut xml, c.content.as_str());
            push_str(&mut xml, "]]></content>\n");
            push_str(&mut xml, "  </constraint>\n");
            assert(xml@ =~= before + constraint_xml(self.constraints@[i as int]));
            assert(xml@ + constraints_xml(self.constraints@, i + 1) =~= before + constraints_xml(
                self.constraints@,
                i as int,
            ));
            i = i + 1;
        }
        assert(xml@ =~= start + constraints_xml(self.constraints@, 0));
        push_str(&mut xml, "</constraints>\n");
        xml
    }

    /// Adds a constraint unless one of the same content is there.
    pub fn add(&mut self, constraint: Constraint)
        ensures
            final(self).constraints() == add_spec(old(self).constraints(), constraint),
    {
        let ghost c = constraint;
        let mut i: usize = 0;
        let mut found = false;
        while i < self.constraints.len() && !found
            invariant
                i <= self.constraints@.len(),
                self.constraints@ == old(self).constraints@,
                found ==> contents(self.constraints@).contains(constraint.content@),
                !found ==> forall|j: int| 0 <= j < i ==> contents(self.constraints@)[j] != constraint.content@,
            decreases self.constraints.len() - i + (if found { 0int } else { 1int }),
        {
            if self.constraints[i].content == constraint.content {
                assert(contents(self.constraints@)[i as int] == constraint.content@);
                found = true;
            } else {
                i = i + 1;
            }
        }
        if !found {
            self.constraints.push(constraint);
        }
    }

    /// Adds a user constraint (see `add`).
    pub fn add_user_constraint(&mut self, content: &str)
        ensures
            exists|c: Constraint|
                c.content@ == content@ && c.source == ConstraintSource::User && final(self).constraints()
                    == add_spec(old(self).constraints(), c),
    {
        let c = Constraint::user(content);
        let ghost g = c;
        self.add(c);
        assert(g.content@ == content@);
    }

    /// Extracts the reasons the reply gives (see `extracted_reasons`), adds
    /// each as a constraint of the model unless one of the same content is
    /// there, and returns them.
    pub fn extract_from_gemma_response(&mut self, response: &str) -> (r: Vec<String>)
        ensures
            r@.map_values(|s: String| s@) == extracted_reasons(response@),
            contents(final(self).constraints()) == add_contents(
                contents(old(self).constraints()),
                extracted_reasons(response@),
            ),
            final(self).constraints().take(old(self).constraints().len() as int) == old(self).constraints(),
            forall|j: int|
                old(self).constraints().len() <= j < final(self).constraints().len()
                    ==> (#[trigger] final(self).constraints()[j]).source == ConstraintSource::Gemma,
    {
        let chars = chars_of(response);
        let mut extracted: Vec<String> = Vec::new();
        assert(extracted@.map_values(|s: String| s@) =~= Seq::<Seq<char>>::empty());
        keep_reason(reason_after_exec(chars.as_slice(), "根據"), &mut extracted);
        keep_reason(reason_after_exec(chars.as_slice(), "因為"), &mut extracted);
        keep_reason(reason_after_exec(chars.as_slice(), "依據"), &mut extracted);
        keep_reason(reason_after_exec(chars.as_slice(), "基於"), &mut extracted);
        assert(extracted@.map_values(|s: String| s@) =~= extracted_reasons(response@));
        let ghost ex = extracted@.map_values(|s: String| s@);
        let ghost orig = self.constraints@;
        let mut i: usize = 0;
        assert(orig.take(orig.len() as int) =~= orig);
        assert(ex.take(0) =~= Seq::<Seq<char>>::empty());
        while i < extracted.len()
            invariant
                i <= extracted@.len(),
                ex == extracted@.map_values(|s: String| s@),
                orig == old(self).constraints@,
                contents(self.constraints@) == add_contents(contents(orig), ex.take(i as int)),
                orig.len() <= self.constraints@.len(),
                self.constraints@.take(orig.len() as int) == orig,
                forall|j: int|
                    orig.len() <= j < self.constraints@.len() ==> (#[trigger] self.constraints@[j]).source
                        == ConstraintSource::Gemma,
            decreases extracted.len() - i,
        {
            let c = Constraint::gemma(extracted[i].as_str());
            let ghost gc = c;
            let ghost before = self.constraints@;
            self.add(c);
            proof {
                assert(ex.take(i + 1).drop_last() =~= ex.take(i as int));
                assert(ex.take(i + 1).last() == ex[i as int]);
                assert(gc.content@ == ex[i as int]);
                if !contents(before).contains(ex[i as int]) {
                    assert(contents(self.constraints@) =~= contents(before).push(ex[i as int]));
                    assert(self.constraints@.take(orig.len() as int) =~= before.take(orig.len() as int));
                }
            }
            i = i + 1;
        }
        assert(ex.take(extracted@.len() as int) =~= ex);
        extracted
    }

    /// The constraints, in order.
    pub fn get_all(&self) -> (r: &[Constraint])
        ensures
            r@ == self.constraints(),
    {
        self.constraints.as_slice()
    }

    /// The number of constraints.
    pub fn len(&self) -> (n: usize)
        ensures
            n == self.constraints().len(),
    {
        self.constraints.len()
    }

    /// Whether there are none.
    pub fn is_empty(&self) -> (b: bool)
        ensures
            b == (self.constraints().len() == 0),
    {
        self.constraints.len() == 0
    }

    /// The constraints listed for the model's prompt.
    pub fn format_for_prompt(&self) -> (s: String)
        ensures
            s@ == if self.constraints().len() == 0 {
                "（目前無約束條件）"@
            } else {
                "當前約束條件：\n"@ + constraint_prompt_lines(self.constraints(), 0)
            },
    {
        if self.constraints.len() == 0 {
            return String::from_str("（目前無約束條件）");
        }
        let mut result = String::from_str("當前約束條件：\n");
        let ghost start = result@;
        let mut i: usize = 0;
        while i < self.constraints.len()
            invariant
                i <= self.constraints@.len(),
                result@ + constraint_prompt_lines(self.constraints@, i as int) == start
                    + constraint_prompt_lines(self.constraints@, 0),
            decreases self.constraints.len() - i,
        {
            let c = &self.constraints[i];
            let ghost before = result@;
            push_decimal(&mut result, (i + 1) as u64);
            push_str(&mut result, ". ");
            match c.source {
                ConstraintSource::User => push_str(&mut result, "[用戶]"),
                ConstraintSource::Gemma => push_str(&mut result, "[自動]"),
            }
            push_str(&mut result, " ");
            push_str(&mut result, c.content.as_str());
            push_str(&mut result, "\n");
            assert(result@ =~= before + constraint_prompt_line(i as int, self.constraints@[i as int]));
            assert(result@ + constraint_prompt_lines(self.constraints@, i + 1) =~= before
                + constraint_prompt_lines(self.constraints@, i as int));
            i = i + 1;
        }
        assert(result@ =~= start + constraint_prompt_lines(self.constraints@, 0));
        result
    }

    /// Removes all constraints.
    pub fn clear(&mut self)
        ensures
            final(self).constraints() == Seq::<Constraint>::empty(),
    {
        self.constraints.clear();
    }

    /// Removes the constraints of the given identifier; says whether any
    /// was removed.
    pub fn remove(&mut self, id: &str) -> (removed: bool)
        ensures
            final(self).constraints() == old(self).constraints().filter(other_id(id@)),
            removed == (final(self).constraints().len() < old(self).constraints().len()),
    {
        let key = String::from_str(id);
        let mut rest: Vec<Constraint> = Vec::new();
        std::mem::swap(&mut rest, &mut self.constraints);
        let ghost src = rest@;
        let old_len = rest.len();
        let mut kept: Vec<Constraint> = Vec::new();
        let ghost mut i: int = 0;
        assert(src.skip(0) =~= src);
        assert(src.take(0) =~= Seq::<Constraint>::empty());
        assert(Seq::<Constraint>::empty().filter(other_id(id@)) =~= Seq::<Constraint>::empty()) by {
            reveal(Seq::filter);
        }
        while rest.len() > 0
            invariant
                0 <= i <= src.len(),
                old_len == src.len(),
                rest@ == src.skip(i),
                kept@ == src.take(i).filter(other_id(id@)),
                key@ == id@,
            decreases rest.len(),
        {
            let c = rest.remove(0);
            proof {
                assert(src.take(i + 1) =~= src.take(i).push(c));
                src.take(i).lemma_filter_push(c, other_id(id@));
            }
            if c.id != key {
                kept.push(c);
            }
            proof {
                i = i + 1;
            }
            assert(rest@ =~= src.skip(i));
        }
        assert(src.take(i) =~= src);
        proof {
            src.lemma_filter_len(other_id(id@));
        }
        self.constraints = kept;
        self.constraints.len() < old_len
    }
}

/// Whether a constraint has another identifier than `id`.
pub open spec fn other_id(id: Seq<char>) -> spec_fn(Constraint) -> bool {
    |c: Constraint| c.id@ != id
}

impl Default for ConstraintManager {
    fn default() -> (m: Self)
        ensures
            m.constraints() == Seq::<Constraint>::empty(),
    {
        Self::new()
    }
}

/// The first stop from `k` on is the `e` that holds one with none before it.
proof fn lemma_first_stop_at(s: Seq<char>, k: int, e: int)
    requires
        0 <= k <= e <= s.len(),
        forall|i: int| k <= i < e ==> s[i] != '。' && s[i] != '，' && s[i] != '\n',
        e == s.len() || s[e] == '。' || s[e] == '，' || s[e] == '\n',
    ensures
        first_stop(s, k) == (if e == s.len() {
            None::<int>
        } else {
            Some(e)
        }),
    decreases e - k,
{
    if k < e {
        lemma_first_stop_at(s, k + 1, e);
    }
}

/// A reply that gives a reason after 根據, 因為, 依據 or 基於 has that reason
/// extracted: the text from just after the word's first occurrence up to
/// the next `。`, `，` or line break (or the end), trimmed, wherever it is
/// longer than two bytes of UTF-8.
pub proof fn lemma_reason_extracted(response: Seq<char>, p: Seq<char>, pos: int, e: int)
    requires
        p == "根據"@ || p == "因為"@ || p == "依據"@ || p == "基於"@,
        find(response, p) == Some(pos),
        pos + p.len() <= e <= response.len(),
        forall|k: int| pos + p.len() <= k < e ==> response[k] != '。' && response[k] != '，' && response[k] != '\n',
        e == response.len() || response[e] == '。' || response[e] == '，' || response[e] == '\n',
        trim(response.subrange(pos + p.len(), e)).len() > 0,
        utf8_len(trim(response.subrange(pos + p.len(), e))) > 2,
    ensures
        extracted_reasons(response).contains(trim(response.subrange(pos + p.len(), e))),
{
    let t = trim(response.subrange(pos + p.len(), e));
    crate::text::lemma_find_from(response, p, 0);
    lemma_first_stop_at(response, pos + p.len(), e);
    assert(reason_after(response, p) == Some(t));
    assert(kept_reason(reason_after(response, p)) == seq![t]);
    let a = kept_reason(reason_after(response, "根據"@));
    let b = kept_reason(reason_after(response, "因為"@));
    let c = kept_reason(reason_after(response, "依據"@));
    let d = kept_reason(reason_after(response, "基於"@));
    let all = extracted_reasons(response);
    assert(all == a + b + c + d);
    if p == "根據"@ {
        assert(all[0] == t);
    } else if p == "因為"@ {
        assert(all[a.len() as int] == t);
    } else if p == "依據"@ {
        assert(all[(a.len() + b.len()) as int] == t);
    } else {
        assert(all[(a.len() + b.len() + c.len()) as int] == t);
    }
}

/// Nothing else is extracted: at most one reason a word, each the reason
/// after one of 根據, 因為, 依據 and 基於, longer than two bytes of UTF-8.
pub proof fn lemma_only_reasons_extracted(response: Seq<char>)
    ensures
        extracted_reasons(response).len() <= 4,
        forall|x: Seq<char>| #[trigger] extracted_reasons(response).contains(x) ==> utf8_len(x) > 2 && (
            reason_after(response, "根據"@) == Some(x) || reason_after(response, "因為"@) == Some(x)
                || reason_after(response, "依據"@) == Some(x) || reason_after(response, "基於"@) == Some(x)),
{
    let a = kept_reason(reason_after(response, "根據"@));
    let b = kept_reason(reason_after(response, "因為"@));
    let c = kept_reason(reason_after(response, "依據"@));
    let d = kept_reason(reason_after(response, "基於"@));
    let all = extracted_reasons(response);
    assert(all == a + b + c + d);
    assert forall|x: Seq<char>| #[trigger] all.contains(x) implies utf8_len(x) > 2 && (
        reason_after(response, "根據"@) == Some(x) || reason_after(response, "因為"@) == Some(x)
            || reason_after(response, "依據"@) == Some(x) || reason_after(response, "基於"@) == Some(x)) by {
        let i = choose|i: int| 0 <= i < all.len() && all[i] == x;
        if i < a.len() {
            assert(a[i] == x);
        } else if i < a.len() + b.len() {
            assert(b[i - a.len()] == x);
        } else if i < a.len() + b.len() + c.len() {
            assert(c[i - a.len() - b.len()] == x);
        } else {
            assert(d[i - a.len() - b.len() - c.len()] == x);
        }
    }
}

/// Adding contents one by one keeps every content added.
pub proof fn lemma_added_contents_kept(v: Seq<Seq<char>>, xs: Seq<Seq<char>>, x: Seq<char>)
    requires
        xs.contains(x) || v.contains(x),
    ensures
        add_contents(v, xs).contains(x),
    decreases xs.len(),
{
    if xs.len() > 0 {
        let w = add_contents(v, xs.drop_last());
        if x == xs.last() {
            if !w.contains(x) {
                assert(w.push(x)[w.len() as int] == x);
            }
        } else {
            let i = choose|i: int| 0 <= i < xs.len() && xs[i] == x || v.contains(x);
            if !v.contains(x) {
                assert(xs.drop_last()[i] == x);
            }
            lemma_added_contents_kept(v, xs.drop_last(), x);
            if !w.contains(xs.last()) {
                let j = choose|j: int| 0 <= j < w.len() && w[j] == x;
                assert(w.push(xs.last())[j] == x);
            }
        }
    }
}

/// Adding never brings in a second constraint of the same content, and
/// keeps every constraint there was.
pub proof fn lemma_add_keeps_contents_unique(v: Seq<Constraint>, c: Constraint)
    requires
        contents(v).no_duplicates(),
    ensures
        contents(add_spec(v, c)).no_duplicates(),
        contents(add_spec(v, c)).contains(c.content@),
        forall|i: int| 0 <= i < v.len() ==> add_spec(v, c)[i] == v[i],
{
    if !contents(v).contains(c.content@) {
        assert(contents(v.push(c)) =~= contents(v).push(c.content@));
        assert(contents(add_spec(v, c))[v.len() as int] == c.content@);
    }
}

} // verus!
