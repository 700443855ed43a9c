use crate::text::{concat, join_with, joined};
use vstd::prelude::*;

verus! {

/// The tools the agent can call, each acting on the workspace directory.
#[derive(Clone, Copy, Debug, PartialEq, Eq, Structural)]
pub enum Tool {
    WriteFile,
    ReadFile,
    ListWorkspace,
}

/// The name a tool is called by.
pub open spec fn tool_name(t: Tool) -> Seq<char> {
    match t {
        Tool::WriteFile => "write_file"@,
        Tool::ReadFile => "read_file"@,
        Tool::ListWorkspace => "list_workspace"@,
    }
}

/// The tool called `name`, if there is one.
pub open spec fn tool_named(name: Seq<char>) -> Option<Tool> {
    if name == tool_name(Tool::WriteFile) {
        Some(Tool::WriteFile)
    } else if name == tool_name(Tool::ReadFile) {
        Some(Tool::ReadFile)
    } else if name == tool_name(Tool::ListWorkspace) {
        Some(Tool::ListWorkspace)
    } else {
        None
    }
}

/// The work a tool call asks for on the workspace.
#[derive(Debug, PartialEq, Eq)]
pub enum ToolRequest {
    /// Write `content` to the workspace file `file`.
    Write { file: String, content: String },
    /// Read the workspace file `file`.
    Read { file: String },
    /// List the files of the workspace.
    List,
    /// A write whose input is not `<file>|<content>`.
    InvalidFormat,
}

/// What calling `tool` with `input` asks for: a write splits its input at the
/// first `|` into file name and content.
pub open spec fn request_for(tool: Tool, input: Seq<char>, r: ToolRequest) -> bool {
    match tool {
        Tool::WriteFile => if input.contains('|') {
            &&& r matches ToolRequest::Write { file, content }
            &&& input == file@ + seq!['|'] + content@
            &&& !file@.contains('|')
        } else {
            r is InvalidFormat
        },
        Tool::ReadFile => r matches ToolRequest::Read { file } && file@ == input,
        Tool::ListWorkspace => r is List,
    }
}

/// Relies on str::split_once: splits at the first `|`, and gives `None` when
/// there is none.
#[verifier::external_body]
fn split_at_bar(s: &str) -> (r: Option<(String, String)>)
    ensures
        match r {
            None => !s@.contains('|'),
            Some((a, b)) => s@ == a@ + seq!['|'] + b@ && !a@.contains('|'),
        },
{
    s.split_once('|').map(|(a, b)| (a.to_owned(), b.to_owned()))
}

/// The registered tools, each under its name.
pub struct ToolRegistry {
    tools: Vec<(String, Tool)>,
}

impl ToolRegistry {
    /// Each entry is a tool under its own name, and every tool is there.
    pub open spec fn wf(&self) -> bool {
        forall|name: Seq<char>| #[trigger] self.lookup_spec(name) == tool_named(name)
    }

    /// The tool registered under `name`, if any.
    pub closed spec fn lookup_spec(&self, name: Seq<char>) -> Option<Tool> {
        first_named(self.tools@, name)
    }

    /// A registry holding the three workspace tools.
    pub fn new() -> (r: Self)
        ensures
            r.wf(),
    {
        proof {
            reveal_strlit("write_file");
            reveal_strlit("read_file");
            reveal_strlit("list_workspace");
        }
        let mut tools: Vec<(String, Tool)> = Vec::new();
        tools.push(("write_file".to_owned(), Tool::WriteFile));
        tools.push(("read_file".to_owned(), Tool::ReadFile));
        tools.push(("list_workspace".to_owned(), Tool::ListWorkspace));
        let r = ToolRegistry { tools };
        assert forall|name: Seq<char>| #[trigger] r.lookup_spec(name) == tool_named(name) by {
            let e = r.tools@;
            assert(e.drop_first().drop_first().drop_first() =~= Seq::<(String, Tool)>::empty());
            assert(e.drop_first().drop_first()[0] == e[2]);
            assert(e.drop_first()[0] == e[1]);
            reveal_with_fuel(first_named, 4);
        }
        r
    }

    /// Finds the tool registered under `name`.
    pub fn lookup(&self, name: &str) -> (r: Option<Tool>)
        ensures
            r == self.lookup_spec(name@),
    {
        let key = name.to_owned();
        let mut i: usize = 0;
        assert(self.tools@.subrange(0, self.tools@.len() as int) =~= self.tools@);
        while i < self.tools.len()
            invariant
                i <= self.tools@.len(),
                key@ == name@,
                first_named(self.tools@, name@) == first_named(self.tools@.subrange(i as int, self.tools@.len() as int), name@),
            decreases self.tools@.len() - i,
        {
            let ghost rest = self.tools@.subrange(i as int, self.tools@.len() as int);
            assert(rest.drop_first() =~= self.tools@.subrange(i + 1, self.tools@.len() as int));
            if self.tools[i].0 == key {
                return Some(self.tools[i].1);
            }
            i = i + 1;
        }
        assert(self.tools@.subrange(i as int, self.tools@.len() as int) =~= Seq::<(String, Tool)>::empty());
        None
    }

    /// Calls the tool registered under `name` with `input`: `None` when no
    /// tool has that name, else the work on the workspace that the call asks for.
    pub fn call(&self, name: &str, input: String) -> (r: Option<ToolRequest>)
        requires
            self.wf(),
        ensures
            match tool_named(name@) {
                None => r is None,
                Some(tool) => r matches Some(req) && request_for(tool, input@, req),
            },
    {
        match self.lookup(name) {
            None => None,
            Some(Tool::WriteFile) => match split_at_bar(input.as_str()) {
                Some((file, content)) => {
                    assert(input@[file@.len() as int] == '|');
                    Some(ToolRequest::Write { file, content })
                },
                None => Some(ToolRequest::InvalidFormat),
            },
            Some(Tool::ReadFile) => Some(ToolRequest::Read { file: input }),
            Some(Tool::ListWorkspace) => Some(ToolRequest::List),
        }
    }
}

/// The tool of the first entry in `entries` named `name`.
pub open spec fn first_named(entries: Seq<(String, Tool)>, name: Seq<char>) -> Option<Tool>
    decreases entries.len(),
{
    if entries.len() == 0 {
        None
    } else if entries[0].0@ == name {
        Some(entries[0].1)
    } else {
        first_named(entries.drop_first(), name)
    }
}

/// The directory every tool works in.
pub open spec fn workspace_dir() -> Seq<char> {
    "workspace/"@
}

/// Where the workspace file `file` lives.
pub fn workspace_path(file: &str) -> (r: String)
    ensures
        r@ == workspace_dir() + file@,
{
    proof {
        reveal_strlit("workspace/");
    }
    concat("workspace/", file)
}

/// The reply to a write whose input is not `<file>|<content>`.
pub fn invalid_format_reply() -> (r: String)
    ensures
        r@ == "Error: Invalid format. Use 'filename|content'"@,
{
    proof {
        reveal_strlit("Error: Invalid format. Use 'filename|content'");
    }
    "Error: Invalid format. Use 'filename|content'".to_owned()
}

/// The reply to a write of `file`, given how writing it went.
pub fn write_reply(file: &str, outcome: &Result<(), String>) -> (r: String)
    ensures
        r@ == match outcome {
            Ok(_) => "Success: '"@ + file@ + "' written to workspace."@,
            Err(e) => "Error: Failed to write file: "@ + e@,
        },
{
    proof {
        reveal_strlit("Success: '");
        reveal_strlit("' written to workspace.");
        reveal_strlit("Error: Failed to write file: ");
    }
    match outcome {
        Ok(_) => {
            let head = concat("Success: '", file);
            concat(head.as_str(), "' written to workspace.")
        },
        Err(e) => concat("Error: Failed to write file: ", e.as_str()),
    }
}

/// The reply to a read of `file`: its content, or why it could not be read.
pub fn read_reply(file: &str, outcome: Result<String, String>) -> (r: String)
    ensures
        r@ == match outcome {
            Ok(content) => content@,
            Err(e) => "Error: Could not read '"@ + file@ + "': "@ + e@,
        },
{
    proof {
        reveal_strlit("Error: Could not read '");
        reveal_strlit("': ");
    }
    match outcome {
        Ok(content) => content,
        Err(e) => {
            let head = concat("Error: Could not read '", file);
            let mid = concat(head.as_str(), "': ");
            concat(mid.as_str(), e.as_str())
        },
    }
}

/// The reply to a listing of the workspace, given the file names found in it.
pub fn list_reply(outcome: &Result<Vec<String>, String>) -> (r: String)
    ensures
        r@ == match outcome {
            Ok(files) => if files@.len() == 0 {
                "Workspace is empty."@
            } else {
                "Workspace files: "@ + joined(files@.map_values(|s: String| s@), ", "@)
            },
            Err(e) => "Error: Could not access workspace: "@ + e@,
        },
{
    proof {
        reveal_strlit("Workspace is empty.");
        reveal_strlit("Workspace files: ");
        reveal_strlit(", ");
        reveal_strlit("Error: Could not access workspace: ");
    }
    match outcome {
        Ok(files) => {
            if files.len() == 0 {
                "Workspace is empty.".to_owned()
            } else {
                let names = join_with(files, ", ");
                concat("Workspace files: ", names.as_str())
            }
        },
        Err(e) => concat("Error: Could not access workspace: ", e.as_str()),
    }
}

} // verus!
