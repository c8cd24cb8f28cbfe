use vstd::prelude::*;
use crate::adapters::{ScanStep, is_hidden, is_hidden_name};
use crate::models::{
    AgentType, AttachmentView, MessageView, NormalizedSession, NormalizedSessionView, Session,
    SessionView,
};
use crate::text::{join_text, text_eq};
use crate::time::{UtcTime, utc_timestamp_valid};

verus! {

/// Sessions of the Cursor editor, kept in SQLite databases under `~/.cursor`.
#[derive(Clone, Copy, Debug)]
pub struct CursorAdapter;

/// The session a Cursor database file named `stem` at `path` stands for; its
/// messages are not read.
pub open spec fn cursor_session(
    stem: Seq<char>,
    path: Seq<char>,
    created_at: (i64, u32),
    updated_at: (i64, u32),
) -> NormalizedSessionView {
    NormalizedSessionView {
        session: SessionView {
            id: stem,
            agent: AgentType::Cursor,
            title: "Cursor Session ("@ + stem + ")"@,
            project_path: Seq::empty(),
            created_at,
            updated_at,
            file_path: path,
            is_active: false,
            message_count: 0,
        },
        messages: Seq::empty(),
        attachments: Seq::empty(),
    }
}

impl CursorAdapter {
    pub fn new() -> (res: Self) {
        CursorAdapter
    }

    pub fn id(&self) -> (res: &'static str)
        ensures
            res@ == "cursor"@,
    {
        "cursor"
    }

    pub fn name(&self) -> (res: &'static str)
        ensures
            res@ == "Cursor"@,
    {
        "Cursor"
    }

    /// The directory, under the home directory, that holds Cursor's data.
    pub fn data_dir_name(&self) -> (res: &'static str)
        ensures
            res@ == ".cursor"@,
    {
        ".cursor"
    }

    /// What a scan of Cursor's data does with a directory entry: hidden
    /// entries are passed over, directories are scanned, and files with the
    /// extension `db` or `sqlite` are sessions.
    pub fn scan_step(&self, name: &str, is_dir: bool, extension: Option<&str>) -> (res: ScanStep)
        ensures
            res == (if is_hidden(name@) {
                ScanStep::Skip
            } else if is_dir {
                ScanStep::Descend
            } else {
                match extension {
                    Some(e) => if e@ == "db"@ || e@ == "sqlite"@ {
                        ScanStep::Collect
                    } else {
                        ScanStep::Skip
                    },
                    None => ScanStep::Skip,
                }
            }),
    {
        if is_hidden_name(name) {
            ScanStep::Skip
        } else if is_dir {
            ScanStep::Descend
        } else {
            match extension {
                Some(e) => if text_eq(e, "db") || text_eq(e, "sqlite") {
                    ScanStep::Collect
                } else {
                    ScanStep::Skip
                },
                None => ScanStep::Skip,
            }
        }
    }

    /// The command that opens a Cursor session: Cursor on its project.
    pub fn resume_command(&self, _session_id: &str, project_path: &str) -> (res: String)
        ensures
            res@ == "cursor "@ + project_path@,
    {
        join_text("cursor ", project_path)
    }

    /// Cursor sessions are never reported as running.
    pub fn is_active(&self, _session_path: &str) -> (res: bool)
        ensures
            !res,
    {
        false
    }

    /// The session a Cursor database file stands for, created and updated at
    /// the given times.
    pub fn build_session(
        file_stem: &str,
        file_path: &str,
        created_at: UtcTime,
        updated_at: UtcTime,
    ) -> (res: NormalizedSession)
        ensures
            res@ == cursor_session(file_stem@, file_path@, created_at@, updated_at@),
            res.session.created_at == created_at,
            res.session.updated_at == updated_at,
    {
        let with_open = join_text("Cursor Session (", file_stem);
        let title = join_text(with_open.as_str(), ")");
        let session = Session {
            id: file_stem.to_string(),
            agent: AgentType::Cursor,
            title,
            project_path: String::new(),
            created_at,
            updated_at,
            file_path: file_path.to_string(),
            is_active: false,
            message_count: 0,
        };
        let res = NormalizedSession { session, messages: Vec::new(), attachments: Vec::new() };
        assert(res@.messages =~= Seq::<MessageView>::empty());
        assert(res@.attachments =~= Seq::<AttachmentView>::empty());
        res
    }

    /// Reads a Cursor database file named `file_stem` at `file_path`: a session
    /// without messages, whose creation and update times are each a reading
    /// of the system clock taken during the call.
    pub fn parse_session(&self, file_stem: &str, file_path: &str) -> (res: NormalizedSession)
        ensures
            res@ == cursor_session(
                file_stem@,
                file_path@,
                res@.session.created_at,
                res@.session.updated_at,
            ),
            utc_timestamp_valid(res@.session.created_at.0, res@.session.created_at.1),
            utc_timestamp_valid(res@.session.updated_at.0, res@.session.updated_at.1),
            res.session.created_at.is_clock_reading(),
            res.session.updated_at.is_clock_reading(),
    {
        let created_at = UtcTime::now();
        let updated_at = UtcTime::now();
        CursorAdapter::build_session(file_stem, file_path, created_at, updated_at)
    }
}

} // verus!
