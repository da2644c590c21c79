//! Long-term memory: the user's profile, past discussions and explored
//! topics, kept as three Markdown files.
//!
//! The files are read and written by the application; this module decides
//! what they hold and how they are shown to the model.
use vstd::prelude::*;

use crate::paths::{is_workspace_root, joined_path, path_join, workspace_root};
use crate::fixed::{parse_usize, parse_usize_spec};
use crate::stamp::Timestamp;
use crate::text::{
    chars_of, decimal, is_blank, is_blank_exec, join, join_exec, lines, lines_exec, non_blank, not_blank,
    push_chars, push_decimal, push_str, split, split_exec, starts_with, starts_with_exec, string_of, trim,
    trim_vec,
};

verus! {

/// One memory file as read: whether it exists, and its text (empty when
/// missing or unreadable).
#[derive(Debug, Clone)]
pub struct MemoryFile {
    /// Whether the file exists.
    pub exists: bool,
    /// Its text.
    pub content: String,
}

impl MemoryFile {
    /// A file that does not exist.
    pub fn missing() -> (f: Self)
        ensures
            !f.exists,
            f.content@.len() == 0,
    {
        MemoryFile { exists: false, content: String::new() }
    }
}

/// The long-term memory of one directory.
#[derive(Debug, Clone)]
pub struct MemoryManager {
    root: std::path::PathBuf,
}

/// A past discussion.
#[derive(Debug)]
pub struct HistoryEntry {
    /// When it was.
    pub datetime: Timestamp,
    /// Its topic.
    pub topic: String,
    /// Its summary.
    pub summary: String,
    /// How many nodes it reached.
    pub node_count: usize,
}

/// An explored topic.
#[derive(Debug)]
pub struct ExploredTopic {
    /// Its name.
    pub name: String,
    /// Its tags.
    pub tags: Vec<String>,
    /// The conclusion reached.
    pub conclusion: String,
    /// When it was explored.
    pub explored_at: Timestamp,
}

/// `s` with every leading copy of `p` removed, as `str::trim_start_matches`
/// does.
pub open spec fn strip_all(s: Seq<char>, p: Seq<char>) -> Seq<char>
    decreases s.len(),
{
    if p.len() > 0 && starts_with(s, p) {
        strip_all(s.skip(p.len() as int), p)
    } else {
        s
    }
}

/// The value of a `key` line (already trimmed): what follows the key,
/// trimmed; `None` for a line of another key.
pub open spec fn field_value(line: Seq<char>, key: Seq<char>) -> Option<Seq<char>> {
    if starts_with(line, key) {
        Some(trim(strip_all(line, key)))
    } else {
        None
    }
}

/// The value of the last line of `ls` of a key whose value `accept` takes.
pub open spec fn last_value(ls: Seq<Seq<char>>, key: Seq<char>, accept: spec_fn(Seq<char>) -> bool) -> Option<
    Seq<char>,
>
    decreases ls.len(),
{
    if ls.len() == 0 {
        None
    } else {
        match field_value(trim(ls.last()), key) {
            Some(v) if accept(v) => Some(v),
            _ => last_value(ls.drop_last(), key, accept),
        }
    }
}

/// Any value.
pub open spec fn any_value() -> spec_fn(Seq<char>) -> bool {
    |v: Seq<char>| true
}

/// A value that is not empty.
pub open spec fn filled_value() -> spec_fn(Seq<char>) -> bool {
    |v: Seq<char>| v.len() > 0
}

/// A name: not empty and not `null`.
pub open spec fn name_value() -> spec_fn(Seq<char>) -> bool {
    |v: Seq<char>| v.len() > 0 && v != "null"@
}

/// A value, or a default where there is none.
pub open spec fn or_default(v: Option<Seq<char>>, d: Seq<char>) -> Seq<char> {
    match v {
        Some(x) => x,
        None => d,
    }
}

/// Removes every leading copy of a key (see `strip_all`).
pub(crate) fn strip_all_exec(s: &[char], p: &[char]) -> (r: Vec<char>)
    ensures
        r@ == strip_all(s@, p@),
{
    let mut k: usize = 0;
    if p.len() == 0 {
        return crate::text::slice_vec(s, 0, s.len());
    }
    assert(s@.skip(0) =~= s@);
    while p.len() <= s.len() - k && crate::text::matches_at_exec(s, p, k)
        invariant
            p@.len() > 0,
            k <= s@.len(),
            strip_all(s@.skip(k as int), p@) == strip_all(s@, p@),
        decreases s@.len() - k,
    {
        proof {
            assert(starts_with(s@.skip(k as int), p@)) by {
                assert(s@.skip(k as int).subrange(0, p@.len() as int) =~= s@.subrange(
                    k as int,
                    k + p@.len(),
                ));
            }
            assert(s@.skip(k as int).skip(p@.len() as int) =~= s@.skip(k + p@.len()));
        }
        k = k + p.len();
    }
    proof {
        if k + p@.len() <= s@.len() {
            assert(s@.skip(k as int).subrange(0, p@.len() as int) =~= s@.subrange(k as int, k + p@.len()));
        }
    }
    let r = crate::text::slice_vec(s, k, s.len());
    assert(r@ =~= s@.skip(k as int));
    r
}

/// The value of a line of a key (see `field_value`).
fn field_value_exec(line: &[char], key: &str) -> (r: Option<Vec<char>>)
    ensures
        match r {
            Some(v) => field_value(line@, key@) == Some(v@),
            None => field_value(line@, key@) is None,
        },
{
    let k = chars_of(key);
    if starts_with_exec(line, k.as_slice()) {
        let rest = strip_all_exec(line, k.as_slice());
        Some(trim_vec(rest.as_slice()))
    } else {
        None
    }
}

/// An optional vector of characters as text.
pub open spec fn opt_chars(v: Option<Vec<char>>) -> Option<Seq<char>> {
    match v {
        Some(x) => Some(x@),
        None => None,
    }
}

/// What a past discussion's block gives: the topic, the node count (zero
/// where the last count line does not read as a number) and the summary,
/// each from the last line of its key, empty or zero without one.
pub open spec fn history_fields(block: Seq<char>) -> (Seq<char>, usize, Seq<char>) {
    let ls = lines(block);
    (
        or_default(last_value(ls, "- topic:"@, any_value()), Seq::empty()),
        match last_value(ls, "- node_count:"@, any_value()) {
            Some(v) => match parse_usize_spec(v) {
                Some(n) => n,
                None => 0,
            },
            None => 0,
        },
        or_default(last_value(ls, "- summary:"@, any_value()), Seq::empty()),
    )
}

/// The tags of a tags line: its pieces between commas, trimmed.
pub open spec fn tags_of(v: Seq<char>) -> Seq<Seq<char>> {
    split(v, ","@).map_values(|x: Seq<char>| trim(x))
}

/// What an explored topic's block gives: the name, the tags and the
/// conclusion, each from the last line of its key, empty without one.
pub open spec fn topic_fields(block: Seq<char>) -> (Seq<char>, Seq<Seq<char>>, Seq<char>) {
    let ls = lines(block);
    (
        or_default(last_value(ls, "- name:"@, any_value()), Seq::empty()),
        match last_value(ls, "- tags:"@, any_value()) {
            Some(v) => tags_of(v),
            None => Seq::empty(),
        },
        or_default(last_value(ls, "- conclusion:"@, any_value()), Seq::empty()),
    )
}

/// The tags of a tags line (see `tags_of`).
fn comma_tags(v: &[char]) -> (r: Vec<String>)
    ensures
        r@.map_values(|s: String| s@) == tags_of(v@),
{
    let comma = chars_of(",");
    proof {
        reveal_strlit(",");
    }
    let pieces = split_exec(v, comma.as_slice());
    let ghost ps = pieces@.map_values(|x: Vec<char>| x@);
    let mut r: Vec<String> = Vec::new();
    let mut i: usize = 0;
    while i < pieces.len()
        invariant
            i <= pieces@.len(),
            ps == pieces@.map_values(|x: Vec<char>| x@),
            ps == split(v@, ","@),
            r@.len() == i,
            forall|j: int| 0 <= j < i ==> (#[trigger] r@[j])@ == trim(ps[j]),
        decreases pieces.len() - i,
    {
        let t = trim_vec(pieces[i].as_slice());
        r.push(string_of(t.as_slice()));
        i = i + 1;
    }
    assert(r@.map_values(|s: String| s@) =~= tags_of(v@));
    r
}

/// A user's profile.
#[derive(Debug)]
pub struct UserProfile {
    /// The user's name, if known.
    pub name: Option<String>,
    /// Preferences, as JSON text.
    pub preferences: String,
    /// When it was made.
    pub created_at: Timestamp,
    /// When it last changed.
    pub updated_at: Timestamp,
}

/// The name a profile's Markdown gives: the last `- name:` line that is
/// neither empty nor `null`.
pub open spec fn profile_name(content: Seq<char>) -> Option<Seq<char>> {
    last_value(lines(content), "- name:"@, name_value())
}

/// The preferences a profile's Markdown gives: the last non-empty
/// `- preferences:` line, `{}` without one.
pub open spec fn profile_preferences(content: Seq<char>) -> Seq<char> {
    or_default(last_value(lines(content), "- preferences:"@, filled_value()), "{}"@)
}

/// The Markdown of a profile.
pub open spec fn profile_md(p: UserProfile) -> Seq<char> {
    "# User Profile\n\n"@ + "- name: "@ + (match p.name {
        Some(n) => n@,
        None => "null"@,
    }) + "\n"@ + "- preferences: "@ + p.preferences@ + "\n"@ + "- created_at: "@ + p.created_at.rfc3339@
        + "\n"@ + "- updated_at: "@ + p.updated_at.rfc3339@ + "\n"@
}

impl UserProfile {
    /// An empty profile made now: no name, preferences `{}`.
    pub fn new() -> (p: Self)
        ensures
            p.name is None,
            p.preferences@ == "{}"@,
    {
        let now = Timestamp::now();
        let again = now.copy();
        UserProfile { name: None, preferences: String::from_str("{}"), created_at: now, updated_at: again }
    }

    /// Reads a profile's Markdown: the name and preferences of its last
    /// lines of those keys (see `profile_name`, `profile_preferences`); the
    /// times of its last `- created_at:` and `- updated_at:` lines that read
    /// as RFC 3339, now for the others.
    pub fn from_md(content: &str) -> (p: Self)
        ensures
            match p.name {
                Some(n) => profile_name(content@) == Some(n@),
                None => profile_name(content@) is None,
            },
            p.preferences@ == profile_preferences(content@),
    {
        let mut profile = UserProfile::new();
        let c = chars_of(content);
        let ls = lines_exec(c.as_slice());
        let ghost all = ls@.map_values(|x: Vec<char>| x@);
        let mut prefs: Option<Vec<char>> = None;
        let mut i: usize = 0;
        while i < ls.len()
            invariant
                i <= ls@.len(),
                all == ls@.map_values(|x: Vec<char>| x@),
                all == lines(content@),
                profile.preferences@ == "{}"@,
                match profile.name {
                    Some(n) => last_value(all.take(i as int), "- name:"@, name_value()) == Some(n@),
                    None => last_value(all.take(i as int), "- name:"@, name_value()) is None,
                },
                match prefs {
                    Some(v) => last_value(all.take(i as int), "- preferences:"@, filled_value()) == Some(v@),
                    None => last_value(all.take(i as int), "- preferences:"@, filled_value()) is None,
                },
            decreases ls.len() - i,
        {
            proof {
                assert(all.take(i + 1).drop_last() =~= all.take(i as int));
                assert(all.take(i + 1).last() == ls@[i as int]@);
                reveal_strlit("null");
            }
            let line = trim_vec(ls[i].as_slice());
            match field_value_exec(line.as_slice(), "- name:") {
                Some(v) => {
                    let is_null = v.len() == 4 && v[0] == 'n' && v[1] == 'u' && v[2] == 'l' && v[3] == 'l';
                    proof {
                        if v@.len() == 4 && !is_null {
                            assert(v@ != "null"@);
                        }
                        if is_null {
                            assert(v@ =~= "null"@);
                        }
                    }
                    if v.len() > 0 && !is_null {
                        profile.name = Some(string_of(v.as_slice()));
                    }
                },
                None => {},
            }
            match field_value_exec(line.as_slice(), "- preferences:") {
                Some(v) => {
                    if v.len() > 0 {
                        prefs = Some(v);
                    }
                },
                None => {},
            }
            match field_value_exec(line.as_slice(), "- created_at:") {
                Some(v) => {
                    let text = string_of(v.as_slice());
                    match Timestamp::parse(text.as_str()) {
                        Some(t) => {
                            profile.created_at = t;
                        },
                        None => {},
                    }
                },
                None => {},
            }
            match field_value_exec(line.as_slice(), "- updated_at:") {
                Some(v) => {
                    let text = string_of(v.as_slice());
                    match Timestamp::parse(text.as_str()) {
                        Some(t) => {
                            profile.updated_at = t;
                        },
                        None => {},
                    }
                },
                None => {},
            }
            i = i + 1;
        }
        proof {
            assert(all.take(all.len() as int) =~= all);
        }
        match prefs {
            Some(v) => {
                profile.preferences = string_of(v.as_slice());
            },
            None => {},
        }
        profile
    }

    /// The profile's Markdown (see `profile_md`).
    pub fn to_md(&self) -> (s: String)
        ensures
            s@ == profile_md(*self),
    {
        let mut md = String::from_str("# User Profile\n\n");
        push_str(&mut md, "- name: ");
        match &self.name {
            Some(n) => push_str(&mut md, n.as_str()),
            None => push_str(&mut md, "null"),
        }
        push_str(&mut md, "\n");
        push_str(&mut md, "- preferences: ");
        push_str(&mut md, self.preferences.as_str());
        push_str(&mut md, "\n");
        push_str(&mut md, "- created_at: ");
        push_str(&mut md, self.created_at.rfc3339.as_str());
        push_str(&mut md, "\n");
        push_str(&mut md, "- updated_at: ");
        push_str(&mut md, self.updated_at.rfc3339.as_str());
        push_str(&mut md, "\n");
        assert(md@ =~= profile_md(*self));
        md
    }
}

/// The Markdown block of a past discussion.
pub open spec fn history_block(e: HistoryEntry) -> Seq<char> {
    "- datetime: "@ + e.datetime.rfc3339@ + "\n- topic: "@ + e.topic@ + "\n- node_count: "@ + decimal(
        e.node_count as nat,
    ) + "\n- summary: "@ + e.summary@
}

/// The Markdown block of an explored topic.
pub open spec fn topic_block(t: ExploredTopic) -> Seq<char> {
    "- name: "@ + t.name@ + "\n- tags: "@ + join(t.tags@.map_values(|s: String| s@), ", "@)
        + "\n- explored_at: "@ + t.explored_at.rfc3339@ + "\n- conclusion: "@ + t.conclusion@
}

/// The separator between past discussions in the history file.
pub open spec fn history_separator() -> Seq<char> {
    "\n\n---\n\n"@
}

/// The history file with one more discussion appended.
pub open spec fn appended_history(existing: Seq<char>, block: Seq<char>) -> Seq<char> {
    if existing.len() == 0 {
        block
    } else {
        existing + history_separator() + block
    }
}

/// At most the last `n` elements, in order.
pub open spec fn keep_last<T>(v: Seq<T>, n: nat) -> Seq<T> {
    if v.len() > n {
        v.skip(v.len() - n)
    } else {
        v
    }
}

/// At most the first `n` elements.
pub open spec fn keep_first<T>(v: Seq<T>, n: nat) -> Seq<T> {
    if v.len() > n {
        v.take(n as int)
    } else {
        v
    }
}

/// The topic blocks of a topics file: its non-blank pieces between blank
/// lines.
pub open spec fn topic_blocks(topics: Seq<char>) -> Seq<Seq<char>> {
    split(topics, "\n\n"@).filter(not_blank())
}

/// The topics file with one more topic: the existing blocks and the new
/// one, of which the last 20 are kept, separated by blank lines.
pub open spec fn topics_with(existing: Seq<char>, block: Seq<char>) -> Seq<char> {
    join(keep_last(topic_blocks(existing).push(block), 20), "\n\n"@)
}

/// The bullet lines of the newest past discussions (at most three, newest
/// first, blank ones skipped), from the `j`-th newest on.
pub open spec fn history_bullets(entries: Seq<Seq<char>>, j: int) -> Seq<char>
    decreases 3 - j,
{
    if j < 0 || j >= 3 || j >= entries.len() {
        Seq::empty()
    } else {
        let e = entries[entries.len() - 1 - j];
        (if is_blank(e) {
            Seq::empty()
        } else {
            "- "@ + trim(e) + "\n"@
        }) + history_bullets(entries, j + 1)
    }
}

/// Bullet lines of trimmed texts, from index `i` on.
pub open spec fn bullets(v: Seq<Seq<char>>, i: int) -> Seq<char>
    decreases v.len() - i,
{
    if i < 0 || i >= v.len() {
        Seq::empty()
    } else {
        "- "@ + trim(v[i]) + "\n"@ + bullets(v, i + 1)
    }
}

/// The memory as shown to the model: the profile when it exists and is not
/// empty, the three newest past discussions, the first five explored
/// topics, between a heading and an end mark; nothing at all when there is
/// no profile file and both other files are empty.
pub open spec fn memory_prompt(profile_exists: bool, profile: Seq<char>, history: Seq<char>, topics: Seq<
    char,
>) -> Seq<char> {
    if !profile_exists && history.len() == 0 && topics.len() == 0 {
        Seq::empty()
    } else {
        "\n\n=== 長期記憶 ===\n"@ + (if profile_exists && profile.len() > 0 {
            "【用戶資料】\n"@ + profile + "\n"@
        } else {
            Seq::empty()
        }) + (if history.len() > 0 {
            "【歷史討論】\n"@ + history_bullets(split(history, history_separator()), 0) + "\n"@
        } else {
            Seq::empty()
        }) + (if topics.len() > 0 {
            "【已探索主題】\n"@ + bullets(keep_first(topic_blocks(topics), 5), 0) + "\n"@
        } else {
            Seq::empty()
        }) + "=== 長期記憶結束 ===\n"@
    }
}

impl HistoryEntry {
    /// A past discussion dated now.
    pub fn new(topic: &str, summary: &str, node_count: usize) -> (e: Self)
        ensures
            e.topic@ == topic@,
            e.summary@ == summary@,
            e.node_count == node_count,
    {
        HistoryEntry {
            datetime: Timestamp::now(),
            topic: String::from_str(topic),
            summary: String::from_str(summary),
            node_count,
        }
    }

    /// Reads a past discussion's Markdown block: topic, node count and
    /// summary of its last lines of those keys (an unreadable count is
    /// zero); the time of its last `- datetime:` line that reads as RFC
    /// 3339, now without one (see `history_fields`).
    pub fn from_md_block(block: &str) -> (e: Self)
        ensures
            (e.topic@, e.node_count, e.summary@) == history_fields(block@),
    {
        let mut entry = HistoryEntry::new("", "", 0);
        proof {
            reveal_strlit("");
        }
        let c = chars_of(block);
        let ls = lines_exec(c.as_slice());
        let ghost all = ls@.map_values(|x: Vec<char>| x@);
        let mut topic: Option<Vec<char>> = None;
        let mut count: Option<Vec<char>> = None;
        let mut summary: Option<Vec<char>> = None;
        let mut i: usize = 0;
        while i < ls.len()
            invariant
                i <= ls@.len(),
                all == ls@.map_values(|x: Vec<char>| x@),
                all == lines(block@),
                entry.topic@ == Seq::<char>::empty(),
                entry.summary@ == Seq::<char>::empty(),
                entry.node_count == 0,
                opt_chars(topic) == last_value(all.take(i as int), "- topic:"@, any_value()),
                opt_chars(count) == last_value(all.take(i as int), "- node_count:"@, any_value()),
                opt_chars(summary) == last_value(all.take(i as int), "- summary:"@, any_value()),
            decreases ls.len() - i,
        {
            proof {
                assert(all.take(i + 1).drop_last() =~= all.take(i as int));
                assert(all.take(i + 1).last() == ls@[i as int]@);
            }
            let line = trim_vec(ls[i].as_slice());
            match field_value_exec(line.as_slice(), "- datetime:") {
                Some(v) => {
                    let text = string_of(v.as_slice());
                    match Timestamp::parse(text.as_str()) {
                        Some(t) => {
                            entry.datetime = t;
                        },
                        None => {},
                    }
                },
                None => {},
            }
            match field_value_exec(line.as_slice(), "- topic:") {
                Some(v) => {
                    topic = Some(v);
                },
                None => {},
            }
            match field_value_exec(line.as_slice(), "- node_count:") {
                Some(v) => {
                    count = Some(v);
                },
                None => {},
            }
            match field_value_exec(line.as_slice(), "- summary:") {
                Some(v) => {
                    summary = Some(v);
                },
                None => {},
            }
            i = i + 1;
        }
        proof {
            assert(all.take(all.len() as int) =~= all);
        }
        match topic {
            Some(v) => {
                entry.topic = string_of(v.as_slice());
            },
            None => {},
        }
        match count {
            Some(v) => {
                let text = string_of(v.as_slice());
                entry.node_count = match parse_usize(text.as_str()) {
                    Some(n) => n,
                    None => 0,
                };
            },
            None => {},
        }
        match summary {
            Some(v) => {
                entry.summary = string_of(v.as_slice());
            },
            None => {},
        }
        assert(""@.len() == 0) by {
            reveal_strlit("");
        }
        assert(entry.topic@ == or_default(last_value(lines(block@), "- topic:"@, any_value()), Seq::empty()));
        assert(entry.summary@ == or_default(last_value(lines(block@), "- summary:"@, any_value()), Seq::empty()));
        entry
    }

    /// The entry's Markdown block.
    pub fn to_md_block(&self) -> (s: String)
        ensures
            s@ == history_block(*self),
    {
        let mut s = String::from_str("- datetime: ");
        push_str(&mut s, self.datetime.rfc3339.as_str());
        push_str(&mut s, "\n- topic: ");
        push_str(&mut s, self.topic.as_str());
        push_str(&mut s, "\n- node_count: ");
        push_decimal(&mut s, self.node_count as u64);
        push_str(&mut s, "\n- summary: ");
        push_str(&mut s, self.summary.as_str());
        assert(s@ =~= history_block(*self));
        s
    }
}

impl ExploredTopic {
    /// A topic explored now.
    pub fn new(name: &str, tags: Vec<String>, conclusion: &str) -> (t: Self)
        ensures
            t.name@ == name@,
            t.tags == tags,
            t.conclusion@ == conclusion@,
    {
        ExploredTopic {
            name: String::from_str(name),
            tags,
            conclusion: String::from_str(conclusion),
            explored_at: Timestamp::now(),
        }
    }

    /// Reads an explored topic's Markdown block: name, tags (the pieces
    /// between commas, trimmed) and conclusion of its last lines of those
    /// keys; the time of its last `- explored_at:` line that reads as RFC
    /// 3339, now without one (see `topic_fields`).
    pub fn from_md_block(block: &str) -> (t: Self)
        ensures
            (t.name@, t.tags@.map_values(|s: String| s@), t.conclusion@) == topic_fields(block@),
    {
        let mut topic = ExploredTopic::new("", Vec::new(), "");
        proof {
            reveal_strlit("");
        }
        let c = chars_of(block);
        let ls = lines_exec(c.as_slice());
        let ghost all = ls@.map_values(|x: Vec<char>| x@);
        let mut name: Option<Vec<char>> = None;
        let mut tags: Option<Vec<char>> = None;
        let mut conclusion: Option<Vec<char>> = None;
        let mut i: usize = 0;
        while i < ls.len()
            invariant
                i <= ls@.len(),
                all == ls@.map_values(|x: Vec<char>| x@),
                all == lines(block@),
                topic.name@ == Seq::<char>::empty(),
                topic.conclusion@ == Seq::<char>::empty(),
                topic.tags@.len() == 0,
                opt_chars(name) == last_value(all.take(i as int), "- name:"@, any_value()),
                opt_chars(tags) == last_value(all.take(i as int), "- tags:"@, any_value()),
                opt_chars(conclusion) == last_value(all.take(i as int), "- conclusion:"@, any_value()),
            decreases ls.len() - i,
        {
            proof {
                assert(all.take(i + 1).drop_last() =~= all.take(i as int));
                assert(all.take(i + 1).last() == ls@[i as int]@);
            }
            let line = trim_vec(ls[i].as_slice());
            match field_value_exec(line.as_slice(), "- name:") {
                Some(v) => {
                    name = Some(v);
                },
                None => {},
            }
            match field_value_exec(line.as_slice(), "- tags:") {
                Some(v) => {
                    tags = Some(v);
                },
                None => {},
            }
            match field_value_exec(line.as_slice(), "- explored_at:") {
                Some(v) => {
                    let text = string_of(v.as_slice());
                    match Timestamp::parse(text.as_str()) {
                        Some(t) => {
                            topic.explored_at = t;
                        },
                        None => {},
                    }
                },
                None => {},
            }
            match field_value_exec(line.as_slice(), "- conclusion:") {
                Some(v) => {
                    conclusion = Some(v);
                },
                None => {},
            }
            i = i + 1;
        }
        proof {
            assert(all.take(all.len() as int) =~= all);
        }
        match name {
            Some(v) => {
                topic.name = string_of(v.as_slice());
            },
            None => {},
        }
        match tags {
            Some(v) => {
                topic.tags = comma_tags(v.as_slice());
            },
            None => {
                assert(topic.tags@.map_values(|s: String| s@) =~= Seq::<Seq<char>>::empty());
            },
        }
        match conclusion {
            Some(v) => {
                topic.conclusion = string_of(v.as_slice());
            },
            None => {},
        }
        assert(""@.len() == 0) by {
            reveal_strlit("");
        }
        assert(topic.name@ == or_default(last_value(lines(block@), "- name:"@, any_value()), Seq::empty()));
        assert(topic.conclusion@ == or_default(
            last_value(lines(block@), "- conclusion:"@, any_value()),
            Seq::empty(),
        ));
        topic
    }

    /// The topic's Markdown block.
    pub fn to_md_block(&self) -> (s: String)
        ensures
            s@ == topic_block(*self),
    {
        let mut s = String::from_str("- name: ");
        push_str(&mut s, self.name.as_str());
        push_str(&mut s, "\n- tags: ");
        let mut tag_chars: Vec<Vec<char>> = Vec::new();
        let mut i: usize = 0;
        while i < self.tags.len()
            invariant
                i <= self.tags@.len(),
                tag_chars@.len() == i,
                forall|j: int| 0 <= j < i ==> (#[trigger] tag_chars@[j])@ == self.tags@[j]@,
            decreases self.tags.len() - i,
        {
            tag_chars.push(chars_of(self.tags[i].as_str()));
            i = i + 1;
        }
        assert(tag_chars@.map_values(|x: Vec<char>| x@) =~= self.tags@.map_values(|s: String| s@));
        let tags = join_exec(&tag_chars, ", ");
        push_str(&mut s, tags.as_str());
        push_str(&mut s, "\n- explored_at: ");
        push_str(&mut s, self.explored_at.rfc3339.as_str());
        push_str(&mut s, "\n- conclusion: ");
        push_str(&mut s, self.conclusion.as_str());
        assert(s@ =~= topic_block(*self));
        s
    }
}

/// The history file with one more block appended (see `appended_history`).
pub fn append_history_content(existing: &str, block: &str) -> (s: String)
    ensures
        s@ == appended_history(existing@, block@),
{
    if existing.is_empty() {
        String::from_str(block)
    } else {
        let mut s = String::from_str(existing);
        push_str(&mut s, "\n\n---\n\n");
        push_str(&mut s, block);
        s
    }
}

/// The topics file with one more block (see `topics_with`).
pub fn topics_content_with(existing: &str, block: &str) -> (s: String)
    ensures
        s@ == topics_with(existing@, block@),
{
    proof {
        reveal_strlit("\n\n");
    }
    let e = chars_of(existing);
    let sep = chars_of("\n\n");
    let pieces = split_exec(e.as_slice(), sep.as_slice());
    let mut blocks = non_blank(&pieces);
    blocks.push(chars_of(block));
    let ghost all = blocks@.map_values(|x: Vec<char>| x@);
    assert(all =~= topic_blocks(existing@).push(block@));
    let kept: Vec<Vec<char>> = if blocks.len() > 20 {
        let start = blocks.len() - 20;
        let mut k: Vec<Vec<char>> = Vec::new();
        let mut i: usize = start;
        while i < blocks.len()
            invariant
                start <= i <= blocks@.len(),
                start == blocks@.len() - 20,
                all == blocks@.map_values(|x: Vec<char>| x@),
                k@.len() == i - start,
                forall|j: int| 0 <= j < k@.len() ==> (#[trigger] k@[j])@ == all[start + j],
            decreases blocks.len() - i,
        {
            let x = chars_of(crate::text::string_of(blocks[i].as_slice()).as_str());
            k.push(x);
            i = i + 1;
        }
        assert(k@.map_values(|x: Vec<char>| x@) =~= all.subrange(start as int, blocks@.len() as int));
        assert(all.subrange(start as int, blocks@.len() as int) =~= keep_last(all, 20));
        k
    } else {
        blocks
    };
    join_exec(&kept, "\n\n")
}

impl MemoryManager {
    /// The memory directory.
    pub closed spec fn root_spec(&self) -> std::path::PathBuf {
        self.root
    }

    /// The memory of the workspace: its `memory` directory.
    pub fn new() -> (m: Self)
        ensures
            exists|root: std::path::PathBuf|
                is_workspace_root(root) && m.root_spec() == #[trigger] joined_path(root, "memory"@),
    {
        let root = workspace_root();
        MemoryManager { root: path_join(&root, "memory") }
    }

    /// The memory of the given directory.
    pub fn with_path(path: std::path::PathBuf) -> (m: Self)
        ensures
            m.root_spec() == path,
    {
        MemoryManager { root: path }
    }

    /// The memory directory.
    pub fn memory_path(&self) -> (p: &std::path::PathBuf)
        ensures
            *p == self.root_spec(),
    {
        &self.root
    }

    /// The profile file.
    pub fn profile_path(&self) -> (p: std::path::PathBuf)
        ensures
            p == joined_path(self.root_spec(), "profile.md"@),
    {
        path_join(&self.root, "profile.md")
    }

    /// The history file.
    pub fn history_path(&self) -> (p: std::path::PathBuf)
        ensures
            p == joined_path(self.root_spec(), "history.md"@),
    {
        path_join(&self.root, "history.md")
    }

    /// The topics file.
    pub fn topics_path(&self) -> (p: std::path::PathBuf)
        ensures
            p == joined_path(self.root_spec(), "topics.md"@),
    {
        path_join(&self.root, "topics.md")
    }

    /// The texts of the three files: profile, history and topics.
    pub fn read_all(&self, profile: &MemoryFile, history: &MemoryFile, topics: &MemoryFile) -> (r: (
        String,
        String,
        String,
    ))
        ensures
            r.0@ == profile.content@,
            r.1@ == history.content@,
            r.2@ == topics.content@,
    {
        (profile.content.clone(), history.content.clone(), topics.content.clone())
    }

    /// The memory as shown to the model (see `memory_prompt`).
    pub fn format_for_prompt(&self, profile: &MemoryFile, history: &MemoryFile, topics: &MemoryFile) -> (s:
        String)
        ensures
            s@ == memory_prompt(profile.exists, profile.content@, history.content@, topics.content@),
    {
        format_memory(profile.exists, profile.content.as_str(), history.content.as_str(), topics.content.as_str())
    }

    /// The profile with the user's name set, updated now, and its new text:
    /// the profile read from the file where it exists and is not empty, a
    /// new one otherwise.
    pub fn set_user_name(&self, profile: &MemoryFile, name: &str) -> (r: (UserProfile, String))
        ensures
            r.0.name matches Some(n) && n@ == name@,
            r.0.preferences@ == if profile.exists && profile.content@.len() > 0 {
                profile_preferences(profile.content@)
            } else {
                "{}"@
            },
            r.1@ == profile_md(r.0),
    {
        let mut p = if profile.exists && profile.content.unicode_len() > 0 {
            UserProfile::from_md(profile.content.as_str())
        } else {
            UserProfile::new()
        };
        p.name = Some(String::from_str(name));
        p.updated_at = Timestamp::now();
        let md = p.to_md();
        (p, md)
    }

    /// The history file's new text once a discussion dated now is added.
    pub fn add_history_entry(&self, existing: &str, topic: &str, summary: &str, node_count: usize) -> (r: (
        HistoryEntry,
        String,
    ))
        ensures
            r.0.topic@ == topic@,
            r.0.summary@ == summary@,
            r.0.node_count == node_count,
            r.1@ == appended_history(existing@, history_block(r.0)),
    {
        let entry = HistoryEntry::new(topic, summary, node_count);
        let block = entry.to_md_block();
        let content = append_history_content(existing, block.as_str());
        (entry, content)
    }

    /// The topics file's new text once a topic explored now is added: at
    /// most the 20 newest topics are kept.
    pub fn add_explored_topic(&self, existing: &str, name: &str, tags: Vec<String>, conclusion: &str) -> (r: (
        ExploredTopic,
        String,
    ))
        ensures
            r.0.name@ == name@,
            r.0.tags == tags,
            r.0.conclusion@ == conclusion@,
            r.1@ == topics_with(existing@, topic_block(r.0)),
    {
        let topic = ExploredTopic::new(name, tags, conclusion);
        let block = topic.to_md_block();
        let content = topics_content_with(existing, block.as_str());
        (topic, content)
    }
}

/// The bullets of the newest past discussions (see `history_bullets`).
fn push_history_bullets(s: &mut String, entries: &Vec<Vec<char>>)
    ensures
        final(s)@ == old(s)@ + history_bullets(entries@.map_values(|x: Vec<char>| x@), 0),
{
    let ghost v = entries@.map_values(|x: Vec<char>| x@);
    let n = entries.len();
    let mut j: usize = 0;
    while j < 3 && j < n
        invariant
            n == entries@.len(),
            v == entries@.map_values(|x: Vec<char>| x@),
            j <= n,
            s@ + history_bullets(v, j as int) == old(s)@ + history_bullets(v, 0),
        decreases n - j,
    {
        let e = &entries[n - 1 - j];
        let ghost before = s@;
        if !is_blank_exec(e.as_slice()) {
            push_str(s, "- ");
            let t = trim_vec(e.as_slice());
            push_chars(s, t.as_slice());
            push_str(s, "\n");
        }
        assert(v[n - 1 - j] == e@);
        assert(s@ + history_bullets(v, j + 1) =~= before + history_bullets(v, j as int));
        j = j + 1;
    }
    assert(history_bullets(v, j as int) == Seq::<char>::empty());
    assert(s@ =~= old(s)@ + history_bullets(v, 0));
}

/// Bullet lines of the first `limit` texts.
fn push_bullets(s: &mut String, v: &Vec<Vec<char>>, limit: usize)
    ensures
        final(s)@ == old(s)@ + bullets(keep_first(v@.map_values(|x: Vec<char>| x@), limit as nat), 0),
{
    let ghost all = v@.map_values(|x: Vec<char>| x@);
    let ghost w = keep_first(all, limit as nat);
    let n = if v.len() > limit {
        limit
    } else {
        v.len()
    };
    assert(w.len() == n);
    let mut i: usize = 0;
    while i < n
        invariant
            n == w.len(),
            n <= v@.len(),
            w == keep_first(all, limit as nat),
            all == v@.map_values(|x: Vec<char>| x@),
            i <= n,
            s@ + bullets(w, i as int) == old(s)@ + bullets(w, 0),
        decreases n - i,
    {
        let ghost before = s@;
        push_str(s, "- ");
        let t = trim_vec(v[i].as_slice());
        push_chars(s, t.as_slice());
        push_str(s, "\n");
        assert(w[i as int] == v@[i as int]@);
        assert(s@ + bullets(w, i + 1) =~= before + bullets(w, i as int));
        i = i + 1;
    }
    assert(s@ =~= old(s)@ + bullets(w, 0));
}

/// The memory as shown to the model (see `memory_prompt`).
pub fn format_memory(profile_exists: bool, profile: &str, history: &str, topics: &str) -> (s: String)
    ensures
        s@ == memory_prompt(profile_exists, profile@, history@, topics@),
{
    if !profile_exists && history.is_empty() && topics.is_empty() {
        return String::new();
    }
    proof {
        reveal_strlit("\n\n---\n\n");
        reveal_strlit("\n\n");
    }
    let mut result = String::from_str("\n\n=== 長期記憶 ===\n");
    let ghost a = result@;
    if profile_exists && !profile.is_empty() {
        push_str(&mut result, "【用戶資料】\n");
        push_str(&mut result, profile);
        push_str(&mut result, "\n");
    }
    let ghost b = result@;
    if !history.is_empty() {
        push_str(&mut result, "【歷史討論】\n");
        let h = chars_of(history);
        let sep = chars_of("\n\n---\n\n");
        let entries = split_exec(h.as_slice(), sep.as_slice());
        push_history_bullets(&mut result, &entries);
        push_str(&mut result, "\n");
    }
    let ghost c = result@;
    if !topics.is_empty() {
        push_str(&mut result, "【已探索主題】\n");
        let t = chars_of(topics);
        let sep = chars_of("\n\n");
        let pieces = split_exec(t.as_slice(), sep.as_slice());
        let blocks = non_blank(&pieces);
        push_bullets(&mut result, &blocks, 5);
        push_str(&mut result, "\n");
    }
    push_str(&mut result, "=== 長期記憶結束 ===\n");
    assert(result@ =~= memory_prompt(profile_exists, profile@, history@, topics@));
    result
}

impl Default for MemoryManager {
    fn default() -> (m: Self)
        ensures
            exists|root: std::path::PathBuf|
                is_workspace_root(root) && m.root_spec() == #[trigger] joined_path(root, "memory"@),
    {
        Self::new()
    }
}

/// The topics file keeps at most 20 topics, and the newest one is the last.
pub proof fn lemma_topics_bounded(existing: Seq<char>, block: Seq<char>)
    ensures
        keep_last(topic_blocks(existing).push(block), 20).len() <= 20,
        keep_last(topic_blocks(existing).push(block), 20).last() == block,
{
    let v = topic_blocks(existing).push(block);
    if v.len() > 20 {
        assert(v.skip(v.len() - 20).last() == v.last());
    }
}

} // verus!
