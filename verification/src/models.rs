use vstd::prelude::*;
use crate::text::text_eq;
use crate::time::UtcTime;

verus! {

/// The coding agents whose sessions are indexed.
#[derive(Clone, Copy, Debug, PartialEq, Eq, Structural)]
pub enum AgentType {
    ClaudeCode,
    Codex,
    Cursor,
}

impl AgentType {
    /// The name under which an agent is stored.
    pub open spec fn name(self) -> Seq<char> {
        match self {
            AgentType::ClaudeCode => "claude_code"@,
            AgentType::Codex => "codex"@,
            AgentType::Cursor => "cursor"@,
        }
    }

    /// The agent stored under a name, if any.
    pub open spec fn from_name(s: Seq<char>) -> Option<AgentType> {
        if s == "claude_code"@ {
            Some(AgentType::ClaudeCode)
        } else if s == "codex"@ {
            Some(AgentType::Codex)
        } else if s == "cursor"@ {
            Some(AgentType::Cursor)
        } else {
            None
        }
    }

    pub fn as_str(&self) -> (res: &'static str)
        ensures
            res@ == self.name(),
    {
        match self {
            AgentType::ClaudeCode => "claude_code",
            AgentType::Codex => "codex",
            AgentType::Cursor => "cursor",
        }
    }

    pub fn from_str(s: &str) -> (res: Option<AgentType>)
        ensures
            res == AgentType::from_name(s@),
    {
        if text_eq(s, "claude_code") {
            Some(AgentType::ClaudeCode)
        } else if text_eq(s, "codex") {
            Some(AgentType::Codex)
        } else if text_eq(s, "cursor") {
            Some(AgentType::Cursor)
        } else {
            None
        }
    }

    /// Reading back the name of an agent gives the agent.
    pub proof fn lemma_name_round_trip(a: AgentType)
        ensures
            AgentType::from_name(a.name()) == Some(a),
    {
        reveal_strlit("claude_code");
        reveal_strlit("codex");
        reveal_strlit("cursor");
        assert("codex"@.len() != "claude_code"@.len());
        assert("cursor"@[1] != "claude_code"@[1]);
        assert("cursor"@.len() != "codex"@.len());
    }
}

/// Who wrote a message.
#[derive(Clone, Copy, Debug, PartialEq, Eq, Structural)]
pub enum MessageRole {
    User,
    Assistant,
    System,
    Tool,
}

impl MessageRole {
    /// The name under which a role is stored.
    pub open spec fn name(self) -> Seq<char> {
        match self {
            MessageRole::User => "user"@,
            MessageRole::Assistant => "assistant"@,
            MessageRole::System => "system"@,
            MessageRole::Tool => "tool"@,
        }
    }

    /// The role stored under a name, if any.
    pub open spec fn from_name(s: Seq<char>) -> Option<MessageRole> {
        if s == "user"@ {
            Some(MessageRole::User)
        } else if s == "assistant"@ {
            Some(MessageRole::Assistant)
        } else if s == "system"@ {
            Some(MessageRole::System)
        } else if s == "tool"@ {
            Some(MessageRole::Tool)
        } else {
            None
        }
    }

    pub fn as_str(&self) -> (res: &'static str)
        ensures
            res@ == self.name(),
    {
        match self {
            MessageRole::User => "user",
            MessageRole::Assistant => "assistant",
            MessageRole::System => "system",
            MessageRole::Tool => "tool",
        }
    }

    pub fn from_str(s: &str) -> (res: Option<MessageRole>)
        ensures
            res == MessageRole::from_name(s@),
    {
        if text_eq(s, "user") {
            Some(MessageRole::User)
        } else if text_eq(s, "assistant") {
            Some(MessageRole::Assistant)
        } else if text_eq(s, "system") {
            Some(MessageRole::System)
        } else if text_eq(s, "tool") {
            Some(MessageRole::Tool)
        } else {
            None
        }
    }

    /// Reading back the name of a role gives the role.
    pub proof fn lemma_name_round_trip(r: MessageRole)
        ensures
            MessageRole::from_name(r.name()) == Some(r),
    {
        reveal_strlit("user");
        reveal_strlit("assistant");
        reveal_strlit("system");
        reveal_strlit("tool");
        assert("assistant"@.len() != "user"@.len());
        assert("system"@.len() != "user"@.len());
        assert("system"@.len() != "assistant"@.len());
        assert("tool"@[0] != "user"@[0]);
        assert("tool"@.len() != "assistant"@.len());
        assert("tool"@.len() != "system"@.len());
    }
}

pub open spec fn opt_text(o: Option<String>) -> Option<Seq<char>> {
    match o {
        Some(s) => Some(s@),
        None => None,
    }
}

pub open spec fn opt_time(o: Option<UtcTime>) -> Option<(i64, u32)> {
    match o {
        Some(t) => Some(t@),
        None => None,
    }
}

/// An indexed conversation of one agent.
#[derive(Clone, Debug)]
pub struct Session {
    pub id: String,
    pub agent: AgentType,
    pub title: String,
    pub project_path: String,
    pub created_at: UtcTime,
    pub updated_at: UtcTime,
    pub file_path: String,
    pub is_active: bool,
    pub message_count: u32,
}

pub struct SessionView {
    pub id: Seq<char>,
    pub agent: AgentType,
    pub title: Seq<char>,
    pub project_path: Seq<char>,
    pub created_at: (i64, u32),
    pub updated_at: (i64, u32),
    pub file_path: Seq<char>,
    pub is_active: bool,
    pub message_count: u32,
}

impl View for Session {
    type V = SessionView;

    open spec fn view(&self) -> SessionView {
        SessionView {
            id: self.id@,
            agent: self.agent,
            title: self.title@,
            project_path: self.project_path@,
            created_at: self.created_at@,
            updated_at: self.updated_at@,
            file_path: self.file_path@,
            is_active: self.is_active,
            message_count: self.message_count,
        }
    }
}

/// One message of a session.
#[derive(Clone, Debug)]
pub struct Message {
    pub id: String,
    pub session_id: String,
    pub role: MessageRole,
    pub content: String,
    pub timestamp: Option<UtcTime>,
    pub sequence: u32,
    pub tool_name: Option<String>,
    pub tool_input: Option<String>,
    pub tool_output: Option<String>,
}

pub struct MessageView {
    pub id: Seq<char>,
    pub session_id: Seq<char>,
    pub role: MessageRole,
    pub content: Seq<char>,
    pub timestamp: Option<(i64, u32)>,
    pub sequence: u32,
    pub tool_name: Option<Seq<char>>,
    pub tool_input: Option<Seq<char>>,
    pub tool_output: Option<Seq<char>>,
}

impl View for Message {
    type V = MessageView;

    open spec fn view(&self) -> MessageView {
        MessageView {
            id: self.id@,
            session_id: self.session_id@,
            role: self.role,
            content: self.content@,
            timestamp: opt_time(self.timestamp),
            sequence: self.sequence,
            tool_name: opt_text(self.tool_name),
            tool_input: opt_text(self.tool_input),
            tool_output: opt_text(self.tool_output),
        }
    }
}

/// A file or other resource attached to a message.
#[derive(Clone, Debug)]
pub struct Attachment {
    pub id: String,
    pub message_id: String,
    pub attachment_type: String,
    pub path: String,
    pub mime_type: Option<String>,
}

pub struct AttachmentView {
    pub id: Seq<char>,
    pub message_id: Seq<char>,
    pub attachment_type: Seq<char>,
    pub path: Seq<char>,
    pub mime_type: Option<Seq<char>>,
}

impl View for Attachment {
    type V = AttachmentView;

    open spec fn view(&self) -> AttachmentView {
        AttachmentView {
            id: self.id@,
            message_id: self.message_id@,
            attachment_type: self.attachment_type@,
            path: self.path@,
            mime_type: opt_text(self.mime_type),
        }
    }
}

pub open spec fn message_views(v: Seq<Message>) -> Seq<MessageView> {
    v.map_values(|m: Message| m@)
}

pub open spec fn attachment_views(v: Seq<Attachment>) -> Seq<AttachmentView> {
    v.map_values(|a: Attachment| a@)
}

pub open spec fn session_views(v: Seq<Session>) -> Seq<SessionView> {
    v.map_values(|s: Session| s@)
}

/// A session read from an agent's files, in the common shape of all agents.
#[derive(Clone, Debug)]
pub struct NormalizedSession {
    pub session: Session,
    pub messages: Vec<Message>,
    pub attachments: Vec<Attachment>,
}

pub struct NormalizedSessionView {
    pub session: SessionView,
    pub messages: Seq<MessageView>,
    pub attachments: Seq<AttachmentView>,
}

impl View for NormalizedSession {
    type V = NormalizedSessionView;

    open spec fn view(&self) -> NormalizedSessionView {
        NormalizedSessionView {
            session: self.session@,
            messages: message_views(self.messages@),
            attachments: attachment_views(self.attachments@),
        }
    }
}

/// Which sessions a listing keeps; a field left `None` keeps all.
#[derive(Clone, Debug)]
pub struct SessionFilters {
    pub agent: Option<String>,
    pub project_path: Option<String>,
    pub is_active: Option<bool>,
    pub query: Option<String>,
}

pub struct SessionFiltersView {
    pub agent: Option<Seq<char>>,
    pub project_path: Option<Seq<char>>,
    pub is_active: Option<bool>,
    pub query: Option<Seq<char>>,
}

impl View for SessionFilters {
    type V = SessionFiltersView;

    open spec fn view(&self) -> SessionFiltersView {
        SessionFiltersView {
            agent: opt_text(self.agent),
            project_path: opt_text(self.project_path),
            is_active: self.is_active,
            query: opt_text(self.query),
        }
    }
}

} // verus!
