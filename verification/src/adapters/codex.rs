use vstd::prelude::*;
use vstd::string::*;
use crate::adapters::{ScanStep, is_hidden, is_hidden_name};
use crate::json::{JsonMember, json_field, json_field_of, json_lookup, json_member_of, member_view};
use crate::models::{
    AgentType, Message, MessageRole, MessageView, NormalizedSession, NormalizedSessionView, Session,
    SessionView, message_views, opt_text, opt_time,
};
use crate::ids::{is_v4_uuid_text, new_message_id};
use crate::text::{
    is_blank, join_text, is_blank_text, lines_of, prefix_chars, split_lines, string_views, take_chars,
    text_eq,
};
use crate::time::{UtcTime, rfc3339_instant, utc_timestamp_valid};

verus! {

/// Sessions of the Codex command-line agent, kept as JSON-lines files under
/// `~/.codex`.
#[derive(Clone, Copy, Debug)]
pub struct CodexAdapter;

/// One message line of a Codex session file, as read.
#[derive(Clone, Debug)]
pub struct CodexEntry {
    pub role: MessageRole,
    pub content: String,
    pub timestamp: Option<UtcTime>,
    pub tool_name: Option<String>,
    pub tool_input: Option<String>,
    pub tool_output: Option<String>,
}

pub struct CodexEntryView {
    pub role: MessageRole,
    pub content: Seq<char>,
    pub timestamp: Option<(i64, u32)>,
    pub tool_name: Option<Seq<char>>,
    pub tool_input: Option<Seq<char>>,
    pub tool_output: Option<Seq<char>>,
}

impl View for CodexEntry {
    type V = CodexEntryView;

    open spec fn view(&self) -> CodexEntryView {
        CodexEntryView {
            role: self.role,
            content: self.content@,
            timestamp: opt_time(self.timestamp),
            tool_name: opt_text(self.tool_name),
            tool_input: opt_text(self.tool_input),
            tool_output: opt_text(self.tool_output),
        }
    }
}

pub open spec fn entry_views(v: Seq<CodexEntry>) -> Seq<CodexEntryView> {
    v.map_values(|e: CodexEntry| e@)
}

/// The role a Codex `role` member names; other names mark lines that are
/// not messages.
pub open spec fn codex_role(r: Seq<char>) -> Option<MessageRole> {
    if r == "user"@ || r == "human"@ {
        Some(MessageRole::User)
    } else if r == "assistant"@ {
        Some(MessageRole::Assistant)
    } else if r == "system"@ {
        Some(MessageRole::System)
    } else if r == "tool"@ {
        Some(MessageRole::Tool)
    } else {
        None
    }
}

/// A member's string value, if it is a string.
pub open spec fn field_text(m: Option<(Option<Seq<char>>, Seq<char>)>) -> Option<Seq<char>> {
    match m {
        Some((t, _)) => t,
        None => None,
    }
}

/// A member written as JSON, if present.
pub open spec fn field_json(m: Option<(Option<Seq<char>>, Seq<char>)>) -> Option<Seq<char>> {
    match m {
        Some((_, j)) => Some(j),
        None => None,
    }
}

/// The content of a message: a string member as it is, any other member as
/// JSON, nothing when it is missing.
pub open spec fn field_content(m: Option<(Option<Seq<char>>, Seq<char>)>) -> Seq<char> {
    match m {
        Some((Some(t), _)) => t,
        Some((None, j)) => j,
        None => Seq::empty(),
    }
}

/// The message that one line of a Codex session file holds: none for a blank
/// line, a line that is not JSON, or one whose `role` is missing or unknown.
pub open spec fn codex_entry_of(line: Seq<char>) -> Option<CodexEntryView> {
    if is_blank_text(line) {
        None
    } else {
        match json_member_of(line, "role"@) {
            None => None,
            Some(role_member) => {
                let role_text = match field_text(role_member) {
                    Some(t) => t,
                    None => Seq::empty(),
                };
                match codex_role(role_text) {
                    None => None,
                    Some(role) => Some(
                        CodexEntryView {
                            role,
                            content: field_content(json_field(line, "content"@)),
                            timestamp: match field_text(json_field(line, "timestamp"@)) {
                                Some(t) => rfc3339_instant(t),
                                None => None,
                            },
                            tool_name: field_text(json_field(line, "tool_name"@)),
                            tool_input: field_json(json_field(line, "tool_input"@)),
                            tool_output: field_json(json_field(line, "tool_output"@)),
                        },
                    ),
                }
            },
        }
    }
}

/// The messages of a list of lines, in order, skipping lines that hold none.
pub open spec fn codex_entries(lines: Seq<Seq<char>>) -> Seq<CodexEntryView>
    decreases lines.len(),
{
    if lines.len() == 0 {
        Seq::empty()
    } else {
        let prev = codex_entries(lines.drop_last());
        match codex_entry_of(lines.last()) {
            Some(e) => prev.push(e),
            None => prev,
        }
    }
}

/// The title of a Codex session: the first 100 characters of the first
/// message when a user wrote it and it is not empty, else "Untitled".
pub open spec fn codex_title(entries: Seq<CodexEntryView>) -> Seq<char> {
    if entries.len() > 0 && entries[0].role == MessageRole::User && entries[0].content.len() > 0 {
        take_chars(entries[0].content, 100)
    } else {
        "Untitled"@
    }
}

/// The message numbered `i` of a session.
pub open spec fn codex_message(
    e: CodexEntryView,
    id: Seq<char>,
    session_id: Seq<char>,
    i: int,
) -> MessageView {
    MessageView {
        id,
        session_id,
        role: e.role,
        content: e.content,
        timestamp: e.timestamp,
        sequence: i as u32,
        tool_name: e.tool_name,
        tool_input: e.tool_input,
        tool_output: e.tool_output,
    }
}

/// The time of a message, or `now` when it has none.
pub open spec fn time_or(t: Option<(i64, u32)>, now: (i64, u32)) -> (i64, u32) {
    match t {
        Some(x) => x,
        None => now,
    }
}

/// The session that a Codex file named `stem` at `path` makes of its
/// messages, with message ids `ids`, where `now` stands for every reading of
/// the clock.
pub open spec fn codex_session(
    stem: Seq<char>,
    path: Seq<char>,
    entries: Seq<CodexEntryView>,
    ids: Seq<Seq<char>>,
    now: (i64, u32),
) -> NormalizedSessionView {
    NormalizedSessionView {
        session: SessionView {
            id: stem,
            agent: AgentType::Codex,
            title: codex_title(entries),
            project_path: Seq::empty(),
            created_at: if entries.len() > 0 {
                time_or(entries[0].timestamp, now)
            } else {
                now
            },
            updated_at: if entries.len() > 0 {
                time_or(entries.last().timestamp, now)
            } else {
                now
            },
            file_path: path,
            is_active: false,
            message_count: entries.len() as u32,
        },
        messages: Seq::new(entries.len(), |i: int| codex_message(entries[i], ids[i], stem, i)),
        attachments: Seq::empty(),
    }
}

/// Each message of `n`, in order, carries the role, content, timestamp and
/// tool fields of the message of the same place in `entries`, is numbered by
/// its place, and belongs to the session; there is one for each entry.
pub open spec fn carries_entries(n: NormalizedSessionView, entries: Seq<CodexEntryView>) -> bool {
    &&& n.messages.len() == entries.len()
    &&& forall|i: int|
        0 <= i < entries.len() ==> {
            let m = #[trigger] n.messages[i];
            &&& m.role == entries[i].role
            &&& m.content == entries[i].content
            &&& m.timestamp == entries[i].timestamp
            &&& m.tool_name == entries[i].tool_name
            &&& m.tool_input == entries[i].tool_input
            &&& m.tool_output == entries[i].tool_output
            &&& m.sequence == i
            &&& m.session_id == n.session.id
        }
}

pub open spec fn message_ids(n: NormalizedSessionView) -> Seq<Seq<char>> {
    n.messages.map_values(|m: MessageView| m.id)
}

fn member_text(m: &Option<JsonMember>) -> (res: Option<String>)
    ensures
        opt_text(res) == field_text(member_view(*m)),
{
    match m {
        Some(j) => match &j.text {
            Some(t) => Some(t.clone()),
            None => None,
        },
        None => None,
    }
}

fn member_json(m: &Option<JsonMember>) -> (res: Option<String>)
    ensures
        opt_text(res) == field_json(member_view(*m)),
{
    match m {
        Some(j) => Some(j.serialized.clone()),
        None => None,
    }
}

fn member_content(m: &Option<JsonMember>) -> (res: String)
    ensures
        res@ == field_content(member_view(*m)),
{
    match m {
        Some(j) => match &j.text {
            Some(t) => t.clone(),
            None => j.serialized.clone(),
        },
        None => String::new(),
    }
}

fn clone_text(o: &Option<String>) -> (res: Option<String>)
    ensures
        opt_text(res) == opt_text(*o),
{
    match o {
        Some(t) => Some(t.clone()),
        None => None,
    }
}

fn role_of_text(r: &str) -> (res: Option<MessageRole>)
    ensures
        res == codex_role(r@),
{
    if text_eq(r, "user") || text_eq(r, "human") {
        Some(MessageRole::User)
    } else if text_eq(r, "assistant") {
        Some(MessageRole::Assistant)
    } else if text_eq(r, "system") {
        Some(MessageRole::System)
    } else if text_eq(r, "tool") {
        Some(MessageRole::Tool)
    } else {
        None
    }
}

impl CodexAdapter {
    pub fn new() -> (res: Self) {
        CodexAdapter
    }

    pub fn id(&self) -> (res: &'static str)
        ensures
            res@ == "codex"@,
    {
        "codex"
    }

    pub fn name(&self) -> (res: &'static str)
        ensures
            res@ == "Codex"@,
    {
        "Codex"
    }

    /// The directory, under the home directory, that holds Codex's data.
    pub fn data_dir_name(&self) -> (res: &'static str)
        ensures
            res@ == ".codex"@,
    {
        ".codex"
    }

    /// What a scan of Codex's data does with a directory entry: hidden
    /// directories and `node_modules` are passed over, other directories are
    /// scanned, and files with the extension `jsonl` are sessions.
    pub fn scan_step(&self, name: &str, is_dir: bool, extension: Option<&str>) -> (res: ScanStep)
        ensures
            res == (if is_dir {
                if is_hidden(name@) || name@ == "node_modules"@ {
                    ScanStep::Skip
                } else {
                    ScanStep::Descend
                }
            } else {
                match extension {
                    Some(e) => if e@ == "jsonl"@ {
                        ScanStep::Collect
                    } else {
                        ScanStep::Skip
                    },
                    None => ScanStep::Skip,
                }
            }),
    {
        if is_dir {
            if is_hidden_name(name) || text_eq(name, "node_modules") {
                ScanStep::Skip
            } else {
                ScanStep::Descend
            }
        } else {
            match extension {
                Some(e) => if text_eq(e, "jsonl") {
                    ScanStep::Collect
                } else {
                    ScanStep::Skip
                },
                None => ScanStep::Skip,
            }
        }
    }

    /// The command that resumes a Codex session.
    pub fn resume_command(&self, session_id: &str, _project_path: &str) -> (res: String)
        ensures
            res@ == "codex --resume "@ + session_id@,
    {
        join_text("codex --resume ", session_id)
    }

    /// Codex sessions are never reported as running.
    pub fn is_active(&self, _session_path: &str) -> (res: bool)
        ensures
            !res,
    {
        false
    }

    /// The message on one line of a Codex session file, if it holds one.
    pub fn read_entry(line: &str) -> (res: Option<CodexEntry>)
        ensures
            match res {
                Some(e) => codex_entry_of(line@) == Some(e@),
                None => codex_entry_of(line@) is None,
            },
    {
        if is_blank(line) {
            return None;
        }
        let role_member = match json_lookup(line, "role") {
            None => {
                return None;
            },
            Some(m) => m,
        };
        let role_text = match member_text(&role_member) {
            Some(t) => t,
            None => String::new(),
        };
        let role = match role_of_text(role_text.as_str()) {
            None => {
                return None;
            },
            Some(r) => r,
        };
        let content = member_content(&json_field_of(line, "content"));
        let timestamp = match member_text(&json_field_of(line, "timestamp")) {
            Some(t) => UtcTime::parse_rfc3339(t.as_str()),
            None => None,
        };
        let tool_name = member_text(&json_field_of(line, "tool_name"));
        let tool_input = member_json(&json_field_of(line, "tool_input"));
        let tool_output = member_json(&json_field_of(line, "tool_output"));
        Some(CodexEntry { role, content, timestamp, tool_name, tool_input, tool_output })
    }
}

impl CodexAdapter {
    /// The session a Codex file makes of its messages (`entries`), given an id
    /// for each message and the time `now` to use where a time is missing.
    pub fn build_session(
        file_stem: &str,
        file_path: &str,
        entries: &Vec<CodexEntry>,
        ids: &Vec<String>,
        now: UtcTime,
    ) -> (res: NormalizedSession)
        requires
            entries.len() == ids.len(),
            entries.len() <= u32::MAX,
        ensures
            res@ == codex_session(
                file_stem@,
                file_path@,
                entry_views(entries@),
                string_views(ids@),
                now@,
            ),
    {
        let ghost ev = entry_views(entries@);
        let ghost idv = string_views(ids@);
        let n = entries.len();
        let stem = file_stem.to_string();
        let mut messages: Vec<Message> = Vec::new();
        let mut title = "Untitled".to_string();
        let mut created_at = now;
        let mut updated_at = now;
        for i in 0..n
            invariant
                n == entries.len(),
                n == ids.len(),
                n <= u32::MAX,
                ev == entry_views(entries@),
                idv == string_views(ids@),
                stem@ == file_stem@,
                message_views(messages@) =~= Seq::new(
                    i as nat,
                    |k: int| codex_message(ev[k], idv[k], file_stem@, k),
                ),
                title@ == (if i == 0 {
                    "Untitled"@
                } else {
                    codex_title(ev)
                }),
                created_at@ == (if i == 0 {
                    now@
                } else {
                    time_or(ev[0].timestamp, now@)
                }),
                updated_at@ == (if i == 0 {
                    now@
                } else {
                    time_or(ev[i - 1].timestamp, now@)
                }),
        {
            let ghost old_messages = messages@;
            let e = &entries[i];
            if i == 0 && e.role == MessageRole::User && e.content.as_str().unicode_len() > 0 {
                title = prefix_chars(e.content.as_str(), 100);
            }
            let t = match e.timestamp {
                Some(t) => t,
                None => now,
            };
            if i == 0 {
                created_at = t;
            }
            updated_at = t;
            let m = Message {
                id: ids[i].clone(),
                session_id: stem.clone(),
                role: e.role,
                content: e.content.clone(),
                timestamp: e.timestamp,
                sequence: i as u32,
                tool_name: clone_text(&e.tool_name),
                tool_input: clone_text(&e.tool_input),
                tool_output: clone_text(&e.tool_output),
            };
            assert(ev[i as int] == entries@[i as int]@);
            assert(idv[i as int] == ids@[i as int]@);
            assert(m@ == codex_message(ev[i as int], idv[i as int], file_stem@, i as int));
            messages.push(m);
            assert(message_views(messages@) =~= message_views(old_messages).push(m@));
        }
        let session = Session {
            id: stem,
            agent: AgentType::Codex,
            title,
            project_path: String::new(),
            created_at,
            updated_at,
            file_path: file_path.to_string(),
            is_active: false,
            message_count: n as u32,
        };
        let res = NormalizedSession { session, messages, attachments: Vec::new() };
        assert(res@.attachments =~= Seq::<crate::models::AttachmentView>::empty());
        res
    }

    /// The messages of the text of a Codex session file, in order.
    pub fn read_entries(content: &str) -> (res: Vec<CodexEntry>)
        ensures
            entry_views(res@) == codex_entries(lines_of(content@)),
    {
        let lines = split_lines(content);
        let ghost lv = string_views(lines@);
        let mut entries: Vec<CodexEntry> = Vec::new();
        for i in 0..lines.len()
            invariant
                lv == string_views(lines@),
                lv == lines_of(content@),
                entry_views(entries@) =~= codex_entries(lv.take(i as int)),
        {
            assert(lv.take(i + 1).drop_last() =~= lv.take(i as int));
            match CodexAdapter::read_entry(lines[i].as_str()) {
                Some(e) => {
                    entries.push(e);
                },
                None => {},
            }
        }
        assert(lv.take(lines.len() as int) =~= lv);
        entries
    }

    /// The session made of messages already read: each gets a fresh id, and
    /// one reading of the clock stands in for missing times.
    fn finish_session(file_stem: &str, file_path: &str, entries: &Vec<CodexEntry>) -> (res:
        NormalizedSession)
        requires
            entries.len() <= u32::MAX,
        ensures
            exists|now: (i64, u32)|
                utc_timestamp_valid(now.0, now.1) && res@ == codex_session(
                    file_stem@,
                    file_path@,
                    entry_views(entries@),
                    message_ids(res@),
                    now,
                ),
            forall|i: int|
                0 <= i < res@.messages.len() ==> is_v4_uuid_text(
                    (#[trigger] res@.messages[i]).id,
                ),
            carries_entries(res@, entry_views(entries@)),
    {
        let now = UtcTime::now();
        let mut ids: Vec<String> = Vec::new();
        for i in 0..entries.len()
            invariant
                ids.len() == i,
                forall|k: int| 0 <= k < i ==> is_v4_uuid_text((#[trigger] ids@[k])@),
        {
            ids.push(new_message_id());
        }
        let res = CodexAdapter::build_session(file_stem, file_path, entries, &ids, now);
        assert(message_ids(res@) =~= string_views(ids@));
        proof {
            lemma_codex_messages_carry_entries(
                file_stem@,
                file_path@,
                entry_views(entries@),
                string_views(ids@),
                now@,
            );
        }
        res
    }

    /// Reads a Codex session file named `file_stem` at `file_path` whose text
    /// is `content`: each line that holds a message becomes one, numbered in
    /// order, with a fresh random id; the clock stands in for missing times.
    /// Message numbers are `u32`, so the file may hold at most `u32::MAX`
    /// messages.
    pub fn parse_session(&self, file_stem: &str, file_path: &str, content: &str) -> (res:
        NormalizedSession)
        requires
            codex_entries(lines_of(content@)).len() <= u32::MAX,
        ensures
            exists|now: (i64, u32)|
                utc_timestamp_valid(now.0, now.1) && res@ == codex_session(
                    file_stem@,
                    file_path@,
                    codex_entries(lines_of(content@)),
                    message_ids(res@),
                    now,
                ),
            forall|i: int|
                0 <= i < res@.messages.len() ==> is_v4_uuid_text(
                    (#[trigger] res@.messages[i]).id,
                ),
            carries_entries(res@, codex_entries(lines_of(content@))),
    {
        let entries = CodexAdapter::read_entries(content);
        CodexAdapter::finish_session(file_stem, file_path, &entries)
    }

    /// Reads a Codex session file as `parse_session` does, or gives `None`
    /// when it holds more messages than `u32` can number.
    pub fn try_parse_session(&self, file_stem: &str, file_path: &str, content: &str) -> (res:
        Option<NormalizedSession>)
        ensures
            res is None <==> codex_entries(lines_of(content@)).len() > u32::MAX,
            res matches Some(n) ==> {
                &&& exists|now: (i64, u32)|
                    utc_timestamp_valid(now.0, now.1) && n@ == codex_session(
                        file_stem@,
                        file_path@,
                        codex_entries(lines_of(content@)),
                        message_ids(n@),
                        now,
                    )
                &&& forall|i: int|
                    0 <= i < n@.messages.len() ==> is_v4_uuid_text(
                        (#[trigger] n@.messages[i]).id,
                    )
                &&& carries_entries(n@, codex_entries(lines_of(content@)))
            },
    {
        let entries = CodexAdapter::read_entries(content);
        if entries.len() > u32::MAX as usize {
            return None;
        }
        Some(CodexAdapter::finish_session(file_stem, file_path, &entries))
    }
}


/// In a Codex session the messages are numbered from 0 in order, each
/// belongs to the session, their count is the session's message count, and
/// the title is "Untitled" or at most 100 characters.
pub proof fn lemma_codex_session_shape(
    stem: Seq<char>,
    path: Seq<char>,
    entries: Seq<CodexEntryView>,
    ids: Seq<Seq<char>>,
    now: (i64, u32),
)
    requires
        entries.len() <= u32::MAX,
    ensures
        ({
            let n = codex_session(stem, path, entries, ids, now);
            &&& n.messages.len() == entries.len()
            &&& n.session.message_count == n.messages.len()
            &&& forall|i: int|
                0 <= i < n.messages.len() ==> (#[trigger] n.messages[i]).sequence == i
                    && n.messages[i].session_id == n.session.id
            &&& n.session.title == "Untitled"@ || n.session.title.len() <= 100
        }),
{
}


/// The message numbered `i` of a Codex session carries the role, content,
/// timestamp and tool fields of the `i`-th message of the file, whatever the
/// ids and the clock reading, with the id given for it, and there is one
/// message for each entry.
pub proof fn lemma_codex_messages_carry_entries(
    stem: Seq<char>,
    path: Seq<char>,
    entries: Seq<CodexEntryView>,
    ids: Seq<Seq<char>>,
    now: (i64, u32),
)
    requires
        entries.len() <= u32::MAX,
    ensures
        carries_entries(codex_session(stem, path, entries, ids, now), entries),
        forall|i: int|
            0 <= i < entries.len() ==> (#[trigger] codex_session(
                stem,
                path,
                entries,
                ids,
                now,
            ).messages[i]).id == ids[i],
{
}

/// The messages of a file made of the lines `a` and then the lines `b` are
/// those of `a` followed by those of `b`: whether a line holds a message, and
/// which, depends on that line alone.
pub proof fn lemma_codex_entries_concat(a: Seq<Seq<char>>, b: Seq<Seq<char>>)
    ensures
        codex_entries(a + b) == codex_entries(a) + codex_entries(b),
    decreases b.len(),
{
    if b.len() == 0 {
        assert(a + b =~= a);
        assert(codex_entries(a) + codex_entries(b) =~= codex_entries(a));
    } else {
        lemma_codex_entries_concat(a, b.drop_last());
        assert((a + b).drop_last() =~= a + b.drop_last());
        assert((a + b).last() == b.last());
    }
}

/// A file of one line that holds a message gives a session of one message,
/// numbered 0, with that line's role and content, the instant its
/// `timestamp` member writes in RFC 3339 form (none when the member is
/// missing, not a string, or not RFC 3339), and its tool fields.
pub proof fn lemma_codex_one_line(
    stem: Seq<char>,
    path: Seq<char>,
    line: Seq<char>,
    ids: Seq<Seq<char>>,
    now: (i64, u32),
)
    requires
        codex_entry_of(line) is Some,
    ensures
        ({
            let n = codex_session(stem, path, codex_entries(seq![line]), ids, now);
            &&& n.messages.len() == 1
            &&& n.messages[0].sequence == 0
            &&& n.messages[0].role == codex_entry_of(line)->0.role
            &&& n.messages[0].content == field_content(json_field(line, "content"@))
            &&& n.messages[0].timestamp == match field_text(json_field(line, "timestamp"@)) {
                Some(t) => rfc3339_instant(t),
                None => None,
            }
            &&& n.messages[0].tool_name == field_text(json_field(line, "tool_name"@))
            &&& n.messages[0].tool_input == field_json(json_field(line, "tool_input"@))
            &&& n.messages[0].tool_output == field_json(json_field(line, "tool_output"@))
        }),
{
    let lines = seq![line];
    assert(lines.drop_last() =~= Seq::<Seq<char>>::empty());
    assert(lines.last() == line);
    assert(codex_entries(lines.drop_last()).len() == 0);
    let e = codex_entry_of(line)->0;
    assert(codex_entries(lines) =~= seq![e]);
    lemma_codex_messages_carry_entries(stem, path, seq![e], ids, now);
}

} // verus!
