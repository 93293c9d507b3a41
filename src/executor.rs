use vstd::prelude::*;
use vstd::string::*;

use std::sync::Arc;
use std::sync::Mutex;

use crate::history::str_eq;
use crate::manager::BackupManager;

verus! {

/// std's `Mutex`, through which tool calls share one `BackupManager`. It is
/// only carried here: nothing about its behaviour is assumed.
#[verifier::external_type_specification]
#[verifier::external_body]
#[verifier::reject_recursive_types(T)]
pub struct ExMutex<T: ?Sized>(Mutex<T>);

/// Where a tool call is sent, decided by the tool's name.
#[derive(Debug, Clone, Copy, PartialEq, Eq, Structural)]
pub enum ToolRoute {
    Mcp,
    Docker,
    ReadFile,
    WriteFile,
    EditFile,
    Bash,
    Glob,
    Grep,
    ListDir,
    MoveFile,
    DeleteFile,
    Unknown,
}

pub open spec fn has_prefix(s: Seq<char>, p: Seq<char>) -> bool {
    p.len() <= s.len() && s.subrange(0, p.len() as int) == p
}

/// The route of the tool called `name`: names starting `mcp_` go to a tool
/// server, names starting `docker_` to the container tools, the built-in names
/// to their tool, anything else nowhere.
pub open spec fn route_of(name: Seq<char>) -> ToolRoute {
    if has_prefix(name, "mcp_"@) {
        ToolRoute::Mcp
    } else if has_prefix(name, "docker_"@) {
        ToolRoute::Docker
    } else if name == "read_file"@ {
        ToolRoute::ReadFile
    } else if name == "write_file"@ {
        ToolRoute::WriteFile
    } else if name == "edit_file"@ {
        ToolRoute::EditFile
    } else if name == "bash"@ {
        ToolRoute::Bash
    } else if name == "glob"@ {
        ToolRoute::Glob
    } else if name == "grep"@ {
        ToolRoute::Grep
    } else if name == "list_dir"@ {
        ToolRoute::ListDir
    } else if name == "move_file"@ {
        ToolRoute::MoveFile
    } else if name == "delete_file"@ {
        ToolRoute::DeleteFile
    } else {
        ToolRoute::Unknown
    }
}

impl ToolRoute {
    /// Whether the tool overwrites a file's content, so that the file is
    /// snapshotted first.
    pub fn snapshots_before(&self) -> (r: bool)
        ensures
            r == (*self == ToolRoute::WriteFile || *self == ToolRoute::EditFile),
    {
        match self {
            ToolRoute::WriteFile | ToolRoute::EditFile => true,
            _ => false,
        }
    }

    /// Whether a successful call is registered as a move afterwards.
    pub fn registers_move(&self) -> (r: bool)
        ensures
            r == (*self == ToolRoute::MoveFile),
    {
        match self {
            ToolRoute::MoveFile => true,
            _ => false,
        }
    }

    /// Whether a successful call is registered as a delete afterwards.
    pub fn registers_delete(&self) -> (r: bool)
        ensures
            r == (*self == ToolRoute::DeleteFile),
    {
        match self {
            ToolRoute::DeleteFile => true,
            _ => false,
        }
    }
}

/// Whether `s` starts with `p`.
pub fn starts_with(s: &str, p: &str) -> (r: bool)
    ensures
        r == has_prefix(s@, p@),
{
    let n = s.unicode_len();
    let k = p.unicode_len();
    if k > n {
        return false;
    }
    let head = s.substring_char(0, k);
    str_eq(head, p)
}

/// The route of the tool called `name`.
pub fn route(name: &str) -> (r: ToolRoute)
    ensures
        r == route_of(name@),
{
    if starts_with(name, "mcp_") {
        ToolRoute::Mcp
    } else if starts_with(name, "docker_") {
        ToolRoute::Docker
    } else if str_eq(name, "read_file") {
        ToolRoute::ReadFile
    } else if str_eq(name, "write_file") {
        ToolRoute::WriteFile
    } else if str_eq(name, "edit_file") {
        ToolRoute::EditFile
    } else if str_eq(name, "bash") {
        ToolRoute::Bash
    } else if str_eq(name, "glob") {
        ToolRoute::Glob
    } else if str_eq(name, "grep") {
        ToolRoute::Grep
    } else if str_eq(name, "list_dir") {
        ToolRoute::ListDir
    } else if str_eq(name, "move_file") {
        ToolRoute::MoveFile
    } else if str_eq(name, "delete_file") {
        ToolRoute::DeleteFile
    } else {
        ToolRoute::Unknown
    }
}

/// `s` with every `-` and `:` turned into `_`.
pub open spec fn sanitized(s: Seq<char>) -> Seq<char> {
    s.map_values(|c: char| if c == '-' || c == ':' { '_' } else { c })
}

/// `s` with every `-` and `:` turned into `_`.
pub fn sanitize(s: &str) -> (r: String)
    ensures
        r@ == sanitized(s@),
{
    let n = s.unicode_len();
    let mut out = String::new();
    let mut i: usize = 0;
    while i < n
        invariant
            n == s@.len(),
            i <= n,
            out@ == sanitized(s@.subrange(0, i as int)),
        decreases n - i,
    {
        let c = s.get_char(i);
        let ghost before = out@;
        if c == '-' || c == ':' {
            out.append("_");
            proof { reveal_strlit("_"); }
        } else {
            out.append(s.substring_char(i, i + 1));
        }
        assert(sanitized(s@.subrange(0, i + 1)) =~= sanitized(s@.subrange(0, i as int)).push(
            sanitized(s@)[i as int],
        ));
        assert(out@ =~= sanitized(s@.subrange(0, i + 1)));
        i = i + 1;
    }
    assert(s@.subrange(0, n as int) =~= s@);
    out
}

/// The name under which the tool `tool_name` of the server `server_id` is
/// offered to the model.
pub open spec fn mcp_tool_name_of(server_id: Seq<char>, tool_name: Seq<char>) -> Seq<char> {
    "mcp_"@ + sanitized(server_id) + "_"@ + sanitized(tool_name)
}

/// The name under which the tool `tool_name` of the server `server_id` is
/// offered to the model.
pub fn mcp_tool_name(server_id: &str, tool_name: &str) -> (r: String)
    ensures
        r@ == mcp_tool_name_of(server_id@, tool_name@),
{
    let mut name = String::from_str("mcp_");
    let server = sanitize(server_id);
    name.append(server.as_str());
    name.append("_");
    let tool = sanitize(tool_name);
    name.append(tool.as_str());
    name
}

/// Runs tool calls for one project, and keeps the undo history of the
/// conversation it serves.
pub struct ToolExecutor {
    pub project_path: Option<String>,
    pub backup_manager: Option<Arc<Mutex<BackupManager>>>,
    pub conversation_id: Option<String>,
}

impl ToolExecutor {
    /// An executor for `project_path`, with no undo history attached.
    pub fn new(project_path: Option<String>) -> (r: Self)
        ensures
            r.project_path == project_path,
            r.backup_manager.is_none(),
            r.conversation_id == None::<String>,
    {
        ToolExecutor { project_path, backup_manager: None, conversation_id: None }
    }

    /// The same executor, recording undo history in `backup_manager`.
    pub fn with_backup_manager(self, backup_manager: Arc<Mutex<BackupManager>>) -> (r: Self)
        ensures
            r.project_path == self.project_path,
            r.backup_manager == Some(backup_manager),
            r.conversation_id == self.conversation_id,
    {
        ToolExecutor { backup_manager: Some(backup_manager), ..self }
    }

    /// The same executor, recording undo history under `conversation_id`.
    pub fn with_conversation_id(self, conversation_id: String) -> (r: Self)
        ensures
            r.project_path == self.project_path,
            r.backup_manager == self.backup_manager,
            r.conversation_id == Some(conversation_id),
    {
        ToolExecutor { conversation_id: Some(conversation_id), ..self }
    }

    /// Whether calls are recorded for undo: both a history and a conversation
    /// are attached.
    pub fn records_undo(&self) -> (r: bool)
        ensures
            r == (self.backup_manager.is_some() && self.conversation_id.is_some()),
    {
        self.backup_manager.is_some() && self.conversation_id.is_some()
    }
}

} // verus!
