//! The tools that the model may call: the registry that finds a tool by its
//! name, and what every tool needs to know of the project.

use vstd::prelude::*;
use crate::api::{Function, Tool, ToolView};
use crate::json::{json_error, spec_json_error};
use crate::plugins::PluginTool;
use crate::text::{concat, owned, same_str};

pub mod analysis;
pub mod backup_ops;
pub mod builtin;
pub mod external;
pub mod file_ops;
pub mod git_ops;
pub mod log;
pub mod merge;
pub mod search;
pub mod shell;
pub mod utils;

pub use builtin::{
    AnalyzeLog, BuiltinTool, CleanBackups, CreateCommit, CreateJiraTicket, DebugCode, EditFile,
    ListBackups, ListFiles, ReadFile, ResolveMergeConflict, RunLint, RunShellCommand,
    SearchCodebase, SubmitPR, WebSearch, WriteFile,
};

verus! {

/// What a tool is told of the project when it runs.
#[derive(Clone, Debug)]
pub struct ToolContext {
    /// The root of the project.
    pub project_root: String,
    /// Whether tools describe what they would do instead of doing it.
    pub dry_run: bool,
    /// Whether tools act without asking.
    pub no_confirm: bool,
}

impl ToolContext {
    /// The place that a path stands for: itself where it is absolute, below
    /// the root of the project otherwise.
    pub fn resolve_path(&self, path_str: &str) -> (out: String)
        ensures
            out@ == utils::joined_path(self.project_root@, path_str@),
    {
        utils::join_path(self.project_root.as_str(), path_str)
    }

    /// Whether what the user typed agrees to an action: trimmed and in lower
    /// case it is `y`.
    pub fn accepts(&self, answer: &str) -> (b: bool)
        ensures
            b == (crate::text::spec_lowercase(crate::text::trim(answer@)) == "y"@),
    {
        let chars = crate::text::to_chars(answer);
        let short = crate::text::trimmed(chars.as_slice());
        let text = crate::text::from_chars(short.as_slice());
        let lower = crate::text::lowercase(text.as_str());
        same_str(lower.as_str(), "y")
    }

    /// The question that asks the user to confirm an action.
    pub fn confirmation_prompt(&self, action: &str) -> (text: String)
        ensures
            text@ == "❓ Confirm "@ + action@ + "? (y/n): "@,
    {
        crate::text::concat3("❓ Confirm ", action, "? (y/n): ")
    }

    /// Whether an action goes ahead without a question to the user: when
    /// tools act without asking, and in a dry run.
    pub fn confirms_without_asking(&self) -> (b: bool)
        ensures
            b == (self.no_confirm || self.dry_run),
    {
        self.no_confirm || self.dry_run
    }
}

/// The kinds of refusal that tools tell apart.
#[derive(Clone, Copy, Debug, PartialEq, Eq, Structural)]
pub enum IoKind {
    /// What was asked for does not exist.
    NotFound,
    /// Access was denied.
    PermissionDenied,
    /// Anything else.
    Other,
}

/// Why the file system or the system refused: the kind of the refusal and
/// what the system said.
#[derive(Clone, Debug)]
pub struct IoFailure {
    pub kind: IoKind,
    pub detail: String,
}

/// A tool of the registry.
#[derive(Clone, Copy, Debug, PartialEq, Eq, Structural)]
pub enum ToolRef {
    /// A tool that comes with the assistant.
    Builtin(BuiltinTool),
    /// The plugin at this position among the plugins of the registry.
    Plugin(usize),
}

/// The tools that the model may call: those that come with the assistant,
/// then those of the plugins.
pub struct ToolRegistry {
    builtin: Vec<BuiltinTool>,
    plugins: Vec<PluginTool>,
}

/// The names of the plugins.
pub open spec fn plugin_names(plugins: Seq<PluginTool>) -> Seq<Seq<char>> {
    plugins.map_values(|p: PluginTool| p.config().name@)
}

/// The names of the tools of a registry, in order.
pub open spec fn tool_names(builtin: Seq<BuiltinTool>, plugins: Seq<PluginTool>) -> Seq<Seq<char>> {
    builtin.map_values(|t: BuiltinTool| t.spec_name()) + plugin_names(plugins)
}

/// The position of the first name that equals `name`, or the length.
pub open spec fn position_of(names: Seq<Seq<char>>, name: Seq<char>) -> int
    decreases names.len(),
{
    if names.len() == 0 {
        0
    } else if names[0] == name {
        0
    } else {
        1 + position_of(names.drop_first(), name)
    }
}

/// The tool at a position of the registry.
pub open spec fn tool_at(builtin: Seq<BuiltinTool>, at: int) -> ToolRef {
    if at < builtin.len() {
        ToolRef::Builtin(builtin[at])
    } else {
        ToolRef::Plugin((at - builtin.len()) as usize)
    }
}

/// What a call resolves to: the first tool of that name, unless the
/// arguments are not JSON or no tool has the name.
pub open spec fn resolved(
    builtin: Seq<BuiltinTool>,
    plugins: Seq<PluginTool>,
    name: Seq<char>,
    complaint: Option<Seq<char>>,
) -> Result<ToolRef, Seq<char>> {
    let names = tool_names(builtin, plugins);
    match complaint {
        Some(e) => Err("Invalid arguments: "@ + e),
        None => if position_of(names, name) < names.len() {
            Ok(tool_at(builtin, position_of(names, name)))
        } else {
            Err("Unknown tool."@)
        },
    }
}

/// A position that holds the name (or is the length), with no earlier
/// position that holds it, is the one that `position_of` finds.
pub proof fn lemma_position_of(names: Seq<Seq<char>>, name: Seq<char>, at: int)
    requires
        0 <= at <= names.len(),
        at < names.len() ==> names[at] == name,
        forall|j: int| 0 <= j < at ==> #[trigger] names[j] != name,
    ensures
        position_of(names, name) == at,
    decreases at,
{
    if at > 0 {
        let rest = names.drop_first();
        assert(names[0] != name);
        assert forall|j: int| 0 <= j < at - 1 implies #[trigger] rest[j] != name by {
            assert(rest[j] == names[j + 1]);
        }
        if at - 1 < rest.len() {
            assert(rest[at - 1] == names[at]);
        }
        lemma_position_of(rest, name, at - 1);
    }
}

impl ToolRegistry {
    /// The tools that come with the assistant, in the order of the registry.
    pub closed spec fn builtin(&self) -> Seq<BuiltinTool> {
        self.builtin@
    }

    /// The tools of the plugins, in the order of loading.
    pub closed spec fn plugins(&self) -> Seq<PluginTool> {
        self.plugins@
    }

    /// The registry of the tools that come with the assistant and the given
    /// plugins.
    pub fn new(plugins: Vec<PluginTool>) -> (registry: Self)
        ensures
            registry.builtin() == builtin::builtin_tools(),
            registry.plugins() == plugins@,
    {
        ToolRegistry { builtin: builtin::all_builtin_tools(), plugins }
    }

    /// The descriptor of a tool as it is offered to the model.
    pub open spec fn descriptor(name: Seq<char>, description: Seq<char>, parameters: Seq<char>)
        -> ToolView {
        ToolView { kind: "function"@, name, description, parameters }
    }

    /// The descriptors of all tools, in the order of the registry.
    pub fn get_tools(&self) -> (tools: Vec<Tool>)
        ensures
            tools@.len() == self.builtin().len() + self.plugins().len(),
            forall|i: int|
                0 <= i < self.builtin().len() ==> (#[trigger] tools@[i])@ == Self::descriptor(
                    self.builtin()[i].spec_name(),
                    self.builtin()[i].spec_description(),
                    self.builtin()[i].spec_parameters(),
                ),
            forall|i: int|
                self.builtin().len() <= i < tools@.len() ==> {
                    let p = self.plugins()[i - self.builtin().len()];
                    &&& (#[trigger] tools@[i])@.kind == "function"@
                    &&& tools@[i]@.name == p.config().name@
                    &&& tools@[i]@.description == p.config().description@
                    &&& (crate::json::is_json(p.config().parameters@) ==> tools@[i]@.parameters
                        == p.config().parameters@)
                    &&& (!crate::json::is_json(p.config().parameters@) ==> tools@[i]@.parameters
                        == crate::plugins::default_parameters())
                },
    {
        let mut tools: Vec<Tool> = Vec::new();
        let mut i: usize = 0;
        while i < self.builtin.len()
            invariant
                i <= self.builtin.len(),
                tools@.len() == i,
                forall|k: int|
                    0 <= k < i ==> (#[trigger] tools@[k])@ == Self::descriptor(
                        self.builtin()[k].spec_name(),
                        self.builtin()[k].spec_description(),
                        self.builtin()[k].spec_parameters(),
                    ),
            decreases self.builtin.len() - i,
        {
            let t = self.builtin[i];
            tools.push(
                Tool {
                    kind: owned("function"),
                    function: Function {
                        name: owned(t.name()),
                        description: owned(t.description()),
                        parameters: owned(t.parameters()),
                    },
                },
            );
            i += 1;
        }
        let mut j: usize = 0;
        let ghost n = self.builtin@.len();
        while j < self.plugins.len()
            invariant
                j <= self.plugins.len(),
                n == self.builtin@.len(),
                tools@.len() == n + j,
                forall|k: int|
                    0 <= k < n ==> (#[trigger] tools@[k])@ == Self::descriptor(
                        self.builtin()[k].spec_name(),
                        self.builtin()[k].spec_description(),
                        self.builtin()[k].spec_parameters(),
                    ),
                forall|k: int|
                    n <= k < n + j ==> {
                        let p = self.plugins()[k - n];
                        &&& (#[trigger] tools@[k])@.kind == "function"@
                        &&& tools@[k]@.name == p.config().name@
                        &&& tools@[k]@.description == p.config().description@
                        &&& (crate::json::is_json(p.config().parameters@) ==> tools@[k]@.parameters
                            == p.config().parameters@)
                        &&& (!crate::json::is_json(p.config().parameters@)
                            ==> tools@[k]@.parameters == crate::plugins::default_parameters())
                    },
            decreases self.plugins.len() - j,
        {
            let p = &self.plugins[j];
            tools.push(
                Tool {
                    kind: owned("function"),
                    function: Function {
                        name: owned(p.name()),
                        description: owned(p.description()),
                        parameters: p.parameters(),
                    },
                },
            );
            j += 1;
        }
        tools
    }

    /// The first tool of the given name, if there is one.
    pub fn find_tool(&self, name: &str) -> (found: Option<ToolRef>)
        ensures
            ({
                let names = tool_names(self.builtin(), self.plugins());
                let at = position_of(names, name@);
                match found {
                    Some(tool) => at < names.len() && tool == tool_at(self.builtin(), at),
                    None => at >= names.len(),
                }
            }),
    {
        let ghost names = tool_names(self.builtin(), self.plugins());
        let mut i: usize = 0;
        while i < self.builtin.len()
            invariant
                i <= self.builtin.len(),
                names == tool_names(self.builtin(), self.plugins()),
                forall|k: int| 0 <= k < i ==> #[trigger] names[k] != name@,
            decreases self.builtin.len() - i,
        {
            assert(names[i as int] == self.builtin@[i as int].spec_name());
            if same_str(self.builtin[i].name(), name) {
                proof {
                    lemma_position_of(names, name@, i as int);
                }
                return Some(ToolRef::Builtin(self.builtin[i]));
            }
            i += 1;
        }
        let ghost n = self.builtin@.len();
        let mut j: usize = 0;
        while j < self.plugins.len()
            invariant
                j <= self.plugins.len(),
                n == self.builtin@.len(),
                names == tool_names(self.builtin(), self.plugins()),
                forall|k: int| 0 <= k < n + j ==> #[trigger] names[k] != name@,
            decreases self.plugins.len() - j,
        {
            assert(names[n + j] == self.plugins@[j as int].config().name@);
            if same_str(self.plugins[j].name(), name) {
                proof {
                    lemma_position_of(names, name@, n + j);
                }
                return Some(ToolRef::Plugin(j));
            }
            j += 1;
        }
        proof {
            lemma_position_of(names, name@, names.len() as int);
        }
        None
    }

    /// The plugin at a position.
    pub fn plugin(&self, at: usize) -> (tool: Option<&PluginTool>)
        ensures
            at < self.plugins().len() ==> tool == Some(&self.plugins()[at as int]),
            at >= self.plugins().len() ==> tool is None,
    {
        if at < self.plugins.len() {
            Some(&self.plugins[at])
        } else {
            None
        }
    }

    /// Resolves a call from what the JSON parser said of its arguments:
    /// arguments with a complaint are refused with it, a name that no tool
    /// has is refused, and otherwise the first tool of the name is returned.
    pub fn resolve_call(&self, name: &str, complaint: Option<String>) -> (out: Result<
        ToolRef,
        String,
    >)
        ensures
            match resolved(self.builtin(), self.plugins(), name@, complaint.deep_view()) {
                Ok(tool) => out == Ok::<ToolRef, String>(tool),
                Err(text) => out matches Err(e) && e@ == text,
            },
    {
        match complaint {
            Some(e) => Err(concat("Invalid arguments: ", e.as_str())),
            None => match self.find_tool(name) {
                Some(tool) => Ok(tool),
                None => Err(owned("Unknown tool.")),
            },
        }
    }

    /// Resolves a call: the arguments must be JSON and the name must be that
    /// of a tool.
    pub fn execute_tool(&self, name: &str, args_str: &str) -> (out: Result<ToolRef, String>)
        ensures
            match resolved(self.builtin(), self.plugins(), name@, spec_json_error(args_str@)) {
                Ok(tool) => out == Ok::<ToolRef, String>(tool),
                Err(text) => out matches Err(e) && e@ == text,
            },
    {
        let complaint = json_error(args_str);
        self.resolve_call(name, complaint)
    }
}

} // verus!
