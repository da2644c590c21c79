//! Node updates parsed from the `<node_update>` blocks of the model's replies.
use vstd::prelude::*;

use crate::json::{
    json_get, json_str, json_string_elements, json_strings, json_parse, parse_json, JsonValue,
};
use crate::text::{
    chars_of, ends_with_exec, strip_suffix, find, find_exec, find_from, find_from_exec, items_from, items_exec, lemma_find_from,
    section, section_exec, slice_string, slice_vec, starts_with, starts_with_exec, string_of,
    strip_prefix, trim, trim_vec,
};

verus! {

/// An update of one node, as the model reports it.
#[derive(Debug, Clone)]
pub struct NodeUpdate {
    /// The node to update (`None`: the active node).
    pub node_id: Option<String>,
    /// Key findings.
    pub findings: Vec<String>,
    /// The conclusion, if one was reached.
    pub conclusion: Option<String>,
    /// Related topics.
    pub topics: Vec<String>,
}

/// The plain-text contents of a node update: node id, findings, conclusion
/// and topics.
pub type NodeUpdateView = (Option<Seq<char>>, Seq<Seq<char>>, Option<Seq<char>>, Seq<Seq<char>>);

/// The text of an optional string.
pub open spec fn opt_view(o: Option<String>) -> Option<Seq<char>> {
    match o {
        Some(s) => Some(s@),
        None => None,
    }
}

/// The texts of a list of strings.
pub open spec fn strings_view(v: Seq<String>) -> Seq<Seq<char>> {
    v.map_values(|s: String| s@)
}

impl View for NodeUpdate {
    type V = NodeUpdateView;

    open spec fn view(&self) -> NodeUpdateView {
        (opt_view(self.node_id), strings_view(self.findings@), opt_view(self.conclusion), strings_view(self.topics@))
    }
}

impl Default for NodeUpdate {
    fn default() -> (u: Self)
        ensures
            u@ == (None::<Seq<char>>, Seq::<Seq<char>>::empty(), None::<Seq<char>>, Seq::<
                Seq<char>,
            >::empty()),
    {
        let u = NodeUpdate { node_id: None, findings: Vec::new(), conclusion: None, topics: Vec::new() };
        assert(strings_view(u.findings@) =~= Seq::<Seq<char>>::empty());
        assert(strings_view(u.topics@) =~= Seq::<Seq<char>>::empty());
        u
    }
}

/// What is left of a reply once a leading code fence is taken off: after
/// "```xml", a further "```" is taken off too; where that second "```" is
/// missing, nothing is taken off at all.
pub open spec fn unfenced(t: Seq<char>) -> Seq<char> {
    let c1 = match strip_prefix(t, "```xml"@) {
        Some(x) => x,
        None => t,
    };
    match strip_prefix(c1, "```"@) {
        Some(x) => x,
        None => t,
    }
}

/// The conclusion of the inner part of a `<node_update>` block: `None` when
/// it is marked null, missing, unterminated or blank.
pub open spec fn conclusion_spec(inner: Seq<char>) -> Option<Seq<char>> {
    match find(inner, "<conclusion"@) {
        None => None,
        Some(cs) => {
            let c_after = inner.subrange(cs, inner.len() as int);
            if starts_with(c_after, "<conclusion null=\"true\"/>"@) || starts_with(
                c_after,
                "<conclusion null='true'/>"@,
            ) {
                None
            } else {
                match find(c_after, ">"@) {
                    None => None,
                    Some(cc) => match find_from(c_after, "</conclusion>"@, cc + ">"@.len()) {
                        None => None,
                        Some(ce) => {
                            let text = trim(c_after.subrange(cc + ">"@.len(), ce));
                            if text.len() > 0 {
                                Some(text)
                            } else {
                                None
                            }
                        },
                    },
                }
            }
        },
    }
}

/// The items of a list section (`<findings>` with `<item>`s, `<topics>` with
/// `<topic>`s); empty when the section is missing or unterminated.
pub open spec fn list_spec(
    inner: Seq<char>,
    open: Seq<char>,
    close: Seq<char>,
    item_open: Seq<char>,
    item_close: Seq<char>,
) -> Seq<Seq<char>> {
    match section(inner, open, close) {
        None => Seq::empty(),
        Some(body) => items_from(body, item_open, item_close, 0),
    }
}

/// The node update that a reply's `<node_update ...> ... </node_update>`
/// block describes.
///
/// The reply is trimmed, a leading code fence is taken off (see `unfenced`)
/// and the rest trimmed again. The block starts at the first `<node_update`;
/// its opening tag ends at the next `>`, its body at the next
/// `</node_update>`. Without those three there is no update. The node id is
/// the text between `node_id="` and the next `"` within the opening tag.
pub open spec fn from_xml_spec(xml: Seq<char>) -> Option<NodeUpdateView> {
    let content = trim(unfenced(trim(xml)));
    match find(content, "<node_update"@) {
        None => None,
        Some(st) => match find_from(content, ">"@, st) {
            None => None,
            Some(cl) => match find_from(content, "</node_update>"@, cl + ">"@.len()) {
                None => None,
                Some(en) => {
                    let open_tag = content.subrange(st, cl + ">"@.len());
                    let inner = content.subrange(cl + ">"@.len(), en);
                    Some(
                        (
                            section(open_tag, "node_id=\""@, "\""@),
                            list_spec(inner, "<findings>"@, "</findings>"@, "<item>"@, "</item>"@),
                            conclusion_spec(inner),
                            list_spec(inner, "<topics>"@, "</topics>"@, "<topic>"@, "</topic>"@),
                        ),
                    )
                },
            },
        },
    }
}

/// The items of a list section, as `list_spec` describes them.
fn list_exec(inner: &[char], open: &str, close: &str, item_open: &str, item_close: &str) -> (r: Vec<
    String,
>)
    ensures
        strings_view(r@) == list_spec(inner@, open@, close@, item_open@, item_close@),
{
    let o = chars_of(open);
    let c = chars_of(close);
    match section_exec(inner, o.as_slice(), c.as_slice()) {
        None => {
            let r: Vec<String> = Vec::new();
            assert(strings_view(r@) =~= Seq::<Seq<char>>::empty());
            r
        },
        Some((a, b)) => {
            let body = slice_vec(inner, a, b);
            let io = chars_of(item_open);
            let ic = chars_of(item_close);
            items_exec(body.as_slice(), io.as_slice(), ic.as_slice())
        },
    }
}

/// The conclusion, as `conclusion_spec` describes it.
fn conclusion_exec(inner: &[char]) -> (r: Option<String>)
    ensures
        opt_view(r) == conclusion_spec(inner@),
{
    let tag = chars_of("<conclusion");
    match find_exec(inner, tag.as_slice()) {
        None => None,
        Some(cs) => {
            proof {
                assert(find_from(inner@, tag@, 0) == Some(cs as int));
                lemma_find_from(inner@, tag@, 0);
            }
            let c_after = slice_vec(inner, cs, inner.len());
            let null1 = chars_of("<conclusion null=\"true\"/>");
            let null2 = chars_of("<conclusion null='true'/>");
            if starts_with_exec(c_after.as_slice(), null1.as_slice()) || starts_with_exec(
                c_after.as_slice(),
                null2.as_slice(),
            ) {
                None
            } else {
                let gt = chars_of(">");
                match find_exec(c_after.as_slice(), gt.as_slice()) {
                    None => None,
                    Some(cc) => {
                        proof {
                            assert(find_from(c_after@, gt@, 0) == Some(cc as int));
                            lemma_find_from(c_after@, gt@, 0);
                        }
                        let end_tag = chars_of("</conclusion>");
                        let from = cc + gt.len();
                        match find_from_exec(c_after.as_slice(), end_tag.as_slice(), from) {
                            None => None,
                            Some(ce) => {
                                proof {
                                    lemma_find_from(c_after@, end_tag@, from as int);
                                }
                                let body = slice_vec(c_after.as_slice(), from, ce);
                                let t = trim_vec(body.as_slice());
                                if t.len() > 0 {
                                    Some(string_of(t.as_slice()))
                                } else {
                                    None
                                }
                            },
                        }
                    },
                }
            }
        },
    }
}

/// `unfenced(t)`.
fn unfenced_exec(t: &[char]) -> (r: Vec<char>)
    ensures
        r@ == unfenced(t@),
{
    let fence_xml = chars_of("```xml");
    let fence = chars_of("```");
    let c1 = if starts_with_exec(t, fence_xml.as_slice()) {
        slice_vec(t, fence_xml.len(), t.len())
    } else {
        slice_vec(t, 0, t.len())
    };
    assert(t@.subrange(0, t@.len() as int) =~= t@);
    if starts_with_exec(c1.as_slice(), fence.as_slice()) {
        slice_vec(c1.as_slice(), fence.len(), c1.len())
    } else {
        slice_vec(t, 0, t.len())
    }
}

/// What is left of a JSON reply once its code fences are taken off: a
/// leading "```json" and then "```", and a trailing "```"; where one of the
/// later two is missing, nothing is taken off at all.
pub open spec fn json_unfenced(t: Seq<char>) -> Seq<char> {
    let c1 = match strip_prefix(t, "```json"@) {
        Some(x) => x,
        None => t,
    };
    let c2 = match strip_prefix(c1, "```"@) {
        Some(x) => x,
        None => t,
    };
    match strip_suffix(c2, "```"@) {
        Some(x) => x,
        None => t,
    }
}

/// The string elements of an array member, or none.
pub open spec fn string_list(v: Option<JsonValue>) -> Seq<Seq<char>> {
    match v {
        Some(JsonValue::Array(a)) => json_strings(a@),
        _ => Seq::empty(),
    }
}

/// The node update that a JSON object describes: `node_id` and `conclusion`
/// where they are strings (a `null` conclusion is none), the string elements
/// of `findings`, and those of `topics`, or of `relevant_topics` where there
/// is no `topics` member.
pub open spec fn from_json_value_spec(v: JsonValue) -> NodeUpdateView {
    let node_id = match json_get(v, "node_id"@) {
        Some(x) => json_str(x),
        None => None,
    };
    let conclusion = match json_get(v, "conclusion"@) {
        Some(x) => if x is Null {
            None
        } else {
            json_str(x)
        },
        None => None,
    };
    let topics = match json_get(v, "topics"@) {
        Some(x) => Some(x),
        None => json_get(v, "relevant_topics"@),
    };
    (node_id, string_list(json_get(v, "findings"@)), conclusion, string_list(topics))
}

/// The node update of a JSON reply: its code fences taken off (see
/// `json_unfenced`) and what is left read as JSON; nothing where that is no
/// valid JSON.
pub open spec fn from_json_spec(text: Seq<char>) -> Option<NodeUpdateView> {
    match json_parse(trim(json_unfenced(trim(text)))) {
        Some(v) => Some(from_json_value_spec(v)),
        None => None,
    }
}

/// `json_unfenced(t)`.
fn json_unfenced_exec(t: &[char]) -> (r: Vec<char>)
    ensures
        r@ == json_unfenced(t@),
{
    let fence_json = chars_of("```json");
    let fence = chars_of("```");
    assert(t@.subrange(0, t@.len() as int) =~= t@);
    let c1 = if starts_with_exec(t, fence_json.as_slice()) {
        slice_vec(t, fence_json.len(), t.len())
    } else {
        slice_vec(t, 0, t.len())
    };
    let c2 = if starts_with_exec(c1.as_slice(), fence.as_slice()) {
        slice_vec(c1.as_slice(), fence.len(), c1.len())
    } else {
        slice_vec(t, 0, t.len())
    };
    if ends_with_exec(c2.as_slice(), fence.as_slice()) {
        slice_vec(c2.as_slice(), 0, c2.len() - fence.len())
    } else {
        slice_vec(t, 0, t.len())
    }
}

/// The string elements of an array member, or none.
fn string_list_exec(v: Option<&JsonValue>) -> (r: Vec<String>)
    ensures
        strings_view(r@) == string_list(match v {
            Some(x) => Some(*x),
            None => None,
        }),
{
    match v {
        Some(JsonValue::Array(a)) => json_string_elements(a),
        _ => {
            let r: Vec<String> = Vec::new();
            assert(strings_view(r@) =~= Seq::<Seq<char>>::empty());
            r
        },
    }
}

impl NodeUpdate {
    /// The node update that a parsed JSON value describes (see
    /// `from_json_value_spec`).
    pub fn from_json_value(v: &JsonValue) -> (u: Self)
        ensures
            u@ == from_json_value_spec(*v),
    {
        let node_id = match v.get("node_id") {
            Some(x) => match x.as_str() {
                Some(s) => Some(String::from_str(s)),
                None => None,
            },
            None => None,
        };
        let findings = string_list_exec(v.get("findings"));
        let conclusion = match v.get("conclusion") {
            Some(x) => if x.is_null() {
                None
            } else {
                match x.as_str() {
                    Some(s) => Some(String::from_str(s)),
                    None => None,
                }
            },
            None => None,
        };
        let topics_member = match v.get("topics") {
            Some(x) => Some(x),
            None => v.get("relevant_topics"),
        };
        let topics = string_list_exec(topics_member);
        NodeUpdate { node_id, findings, conclusion, topics }
    }

    /// Parses a JSON reply (see `from_json_spec`).
    pub fn from_json(json_str: &str) -> (r: Option<Self>)
        ensures
            match r {
                Some(u) => from_json_spec(json_str@) == Some(u@),
                None => from_json_spec(json_str@) is None,
            },
    {
        let raw = chars_of(json_str);
        let t = trim_vec(raw.as_slice());
        let u = json_unfenced_exec(t.as_slice());
        let content = trim_vec(u.as_slice());
        let text = string_of(content.as_slice());
        match parse_json(text.as_str()) {
            Some(v) => Some(Self::from_json_value(&v)),
            None => None,
        }
    }

    /// No findings, no conclusion and no topics.
    pub fn is_empty(&self) -> (b: bool)
        ensures
            b == (self.findings@.len() == 0 && self.conclusion is None && self.topics@.len() == 0),
    {
        self.findings.len() == 0 && self.conclusion.is_none() && self.topics.len() == 0
    }

    /// Some finding or a conclusion.
    pub fn has_content(&self) -> (b: bool)
        ensures
            b == (self.findings@.len() > 0 || self.conclusion is Some),
    {
        self.findings.len() > 0 || self.conclusion.is_some()
    }

    /// Parses a `<node_update>` block (see `from_xml_spec`).
    pub fn from_xml(xml_str: &str) -> (r: Option<Self>)
        ensures
            match r {
                Some(u) => from_xml_spec(xml_str@) == Some(u@),
                None => from_xml_spec(xml_str@) is None,
            },
    {
        let raw = chars_of(xml_str);
        let t = trim_vec(raw.as_slice());
        let u = unfenced_exec(t.as_slice());
        let content = trim_vec(u.as_slice());
        let start_tag = chars_of("<node_update");
        let st = match find_exec(content.as_slice(), start_tag.as_slice()) {
            None => return None,
            Some(st) => st,
        };
        proof {
            assert(find_from(content@, start_tag@, 0) == Some(st as int));
            lemma_find_from(content@, start_tag@, 0);
        }
        let gt = chars_of(">");
        let cl = match find_from_exec(content.as_slice(), gt.as_slice(), st) {
            None => return None,
            Some(cl) => cl,
        };
        proof {
            lemma_find_from(content@, gt@, st as int);
        }
        let after_open = cl + gt.len();
        let end_tag = chars_of("</node_update>");
        let en = match find_from_exec(content.as_slice(), end_tag.as_slice(), after_open) {
            None => return None,
            Some(en) => en,
        };
        proof {
            lemma_find_from(content@, end_tag@, after_open as int);
        }
        let open_tag = slice_vec(content.as_slice(), st, after_open);
        let inner = slice_vec(content.as_slice(), after_open, en);
        let id_open = chars_of("node_id=\"");
        let quote = chars_of("\"");
        let node_id = match section_exec(open_tag.as_slice(), id_open.as_slice(), quote.as_slice()) {
            None => None,
            Some((a, b)) => Some(slice_string(open_tag.as_slice(), a, b)),
        };
        let findings = list_exec(inner.as_slice(), "<findings>", "</findings>", "<item>", "</item>");
        let conclusion = conclusion_exec(inner.as_slice());
        let topics = list_exec(inner.as_slice(), "<topics>", "</topics>", "<topic>", "</topic>");
        Some(NodeUpdate { node_id, findings, conclusion, topics })
    }
}

} // verus!
