//! Tools that are added by configuration: each runs an external command that
//! reads the arguments of the call as JSON on its standard input.

use vstd::prelude::*;
use std::collections::HashMap;
use crate::error::GrokError;
use crate::json::{is_json, json_error};
use crate::text::{
    concat, concat3, extend_str, from_chars, owned, rows, same_str, split_words, to_chars, words,
};
use crate::tools::utils::{join_path, joined_path};

verus! {

/// How a plugin runs.
#[derive(Clone, Copy, Debug, PartialEq, Eq, Structural)]
pub enum PluginType {
    /// A script: an external command.
    Script,
    /// An executable.
    Binary,
}

/// The configuration of a plugin.
#[derive(Clone, Debug)]
pub struct PluginConfig {
    /// The name of the tool.
    pub name: String,
    /// What the tool does.
    pub description: String,
    /// How the plugin runs.
    pub plugin_type: PluginType,
    /// The command, with its arguments separated by white space.
    pub command: String,
    /// The JSON schema of the tool's arguments, as text.
    pub parameters: String,
    /// The directory to run in; the project's root where none is given.
    pub working_dir: Option<String>,
    /// The environment of the command.
    pub env: HashMap<String, String>,
}

/// A tool that a plugin provides.
pub struct PluginTool {
    config: PluginConfig,
}

/// What to do when a plugin is called.
#[derive(Clone, Debug)]
pub enum PluginPlan {
    /// Do nothing and return this text.
    Answer(String),
    /// Run the program with the arguments, in the directory, and hand it the
    /// arguments of the call on its standard input.
    Run { program: String, args: Vec<String>, working_dir: String },
}

/// A plan as contracts see it.
pub enum PlanView {
    Answer(Seq<char>),
    Run { program: Seq<char>, args: Seq<Seq<char>>, working_dir: Seq<char> },
}

impl View for PluginPlan {
    type V = PlanView;

    open spec fn view(&self) -> PlanView {
        match self {
            PluginPlan::Answer(t) => PlanView::Answer(t@),
            PluginPlan::Run { program, args, working_dir } => PlanView::Run {
                program: program@,
                args: crate::text::views(args@),
                working_dir: working_dir@,
            },
        }
    }
}

/// The schema of a tool that takes no arguments.
pub open spec fn default_parameters() -> Seq<char> {
    "{\"type\": \"object\", \"properties\": {}}"@
}

/// What to do when the plugin `name` with the command `command` is called.
///
/// A call that was not confirmed, or a dry run, or an empty command is
/// answered with a text. Otherwise the first word of the command is the
/// program and the other words are its arguments.
pub open spec fn planned(
    name: Seq<char>,
    command: Seq<char>,
    working_dir: Option<Seq<char>>,
    project_root: Seq<char>,
    confirmed: bool,
    dry_run: bool,
) -> PlanView {
    if !confirmed {
        PlanView::Answer("Plugin '"@ + name + "' execution not confirmed."@)
    } else if dry_run {
        PlanView::Answer(
            "Dry-run: Would execute plugin '"@ + name + "' with command: "@ + command,
        )
    } else if words(command).len() == 0 {
        PlanView::Answer("Error: Plugin command is empty"@)
    } else {
        PlanView::Run {
            program: words(command)[0],
            args: words(command).skip(1),
            working_dir: match working_dir {
                Some(d) => d,
                None => project_root,
            },
        }
    }
}

/// The text that a plugin's run becomes: its output where it succeeded, and
/// a report with both of its outputs where it failed.
pub open spec fn rendered(name: Seq<char>, success: bool, stdout: Seq<char>, stderr: Seq<char>)
    -> Seq<char> {
    if success {
        stdout
    } else {
        "Plugin '"@ + name + "' failed:\nstdout: "@ + stdout + "\nstderr: "@ + stderr
    }
}

impl PluginTool {
    /// The configuration of the plugin.
    pub closed spec fn config(&self) -> PluginConfig {
        self.config
    }

    /// The tool for a plugin's configuration.
    pub fn new(config: PluginConfig) -> (tool: Self)
        ensures
            tool.config() == config,
    {
        PluginTool { config }
    }

    /// The name of the tool.
    pub fn name(&self) -> (name: &str)
        ensures
            name@ == self.config().name@,
    {
        self.config.name.as_str()
    }

    /// What the tool does.
    pub fn description(&self) -> (text: &str)
        ensures
            text@ == self.config().description@,
    {
        self.config.description.as_str()
    }

    /// The JSON schema of the tool's arguments: the configured text where it
    /// is JSON, the schema of a tool without arguments where it is not.
    pub fn parameters(&self) -> (schema: String)
        ensures
            is_json(self.config().parameters@) ==> schema@ == self.config().parameters@,
            !is_json(self.config().parameters@) ==> schema@ == default_parameters(),
    {
        match json_error(self.config.parameters.as_str()) {
            None => self.config.parameters.clone(),
            Some(_) => owned("{\"type\": \"object\", \"properties\": {}}"),
        }
    }

    /// The environment that the command runs in.
    pub fn env(&self) -> (env: &HashMap<String, String>)
        ensures
            *env == self.config().env,
    {
        &self.config.env
    }

    /// Decides what a call of the plugin does. `confirmed` says whether the
    /// user agreed to the call, `dry_run` whether tools only describe what
    /// they would do.
    pub fn plan(&self, project_root: &str, confirmed: bool, dry_run: bool) -> (plan: PluginPlan)
        ensures
            plan@ == planned(
                self.config().name@,
                self.config().command@,
                self.config().working_dir.deep_view(),
                project_root@,
                confirmed,
                dry_run,
            ),
    {
        if !confirmed {
            return PluginPlan::Answer(
                concat3("Plugin '", self.config.name.as_str(), "' execution not confirmed."),
            );
        }
        if dry_run {
            let head = concat3(
                "Dry-run: Would execute plugin '",
                self.config.name.as_str(),
                "' with command: ",
            );
            return PluginPlan::Answer(concat(head.as_str(), self.config.command.as_str()));
        }
        let chars = to_chars(self.config.command.as_str());
        let parts = split_words(chars.as_slice());
        if parts.len() == 0 {
            return PluginPlan::Answer(owned("Error: Plugin command is empty"));
        }
        let program = from_chars(parts[0].as_slice());
        assert(rows(parts@)[0] == parts@[0]@);
        let mut args: Vec<String> = Vec::new();
        let mut i: usize = 1;
        while i < parts.len()
            invariant
                1 <= i <= parts.len(),
                args@.len() == i - 1,
                forall|k: int| 0 <= k < i - 1 ==> (#[trigger] args@[k])@ == parts@[k + 1]@,
            decreases parts.len() - i,
        {
            args.push(from_chars(parts[i].as_slice()));
            i += 1;
        }
        assert(crate::text::views(args@) =~= rows(parts@).skip(1));
        let working_dir = match &self.config.working_dir {
            Some(d) => d.clone(),
            None => owned(project_root),
        };
        PluginPlan::Run { program, args, working_dir }
    }

    /// The text that a run of the plugin becomes.
    pub fn render_output(&self, success: bool, stdout: &str, stderr: &str) -> (text: String)
        ensures
            text@ == rendered(self.config().name@, success, stdout@, stderr@),
    {
        if success {
            owned(stdout)
        } else {
            let mut out = to_chars("Plugin '");
            extend_str(&mut out, self.config.name.as_str());
            extend_str(&mut out, "' failed:\nstdout: ");
            extend_str(&mut out, stdout);
            extend_str(&mut out, "\nstderr: ");
            extend_str(&mut out, stderr);
            from_chars(out.as_slice())
        }
    }

    /// The text for a plugin that could not be started.
    pub fn start_failure(&self, reason: &str) -> (text: String)
        ensures
            text@ == "Error executing plugin '"@ + self.config().name@ + "': "@ + reason@,
    {
        let head = concat3("Error executing plugin '", self.config.name.as_str(), "': ");
        concat(head.as_str(), reason)
    }

    /// The text for a plugin whose end could not be awaited.
    pub fn wait_failure(&self, reason: &str) -> (text: String)
        ensures
            text@ == "Error waiting for plugin '"@ + self.config().name@ + "': "@ + reason@,
    {
        let head = concat3("Error waiting for plugin '", self.config.name.as_str(), "': ");
        concat(head.as_str(), reason)
    }
}

/// The formats of a file of plugin configurations.
#[derive(Clone, Copy, Debug, PartialEq, Eq, Structural)]
pub enum ConfigFormat {
    Toml,
    Json,
}

/// The format that a file extension stands for.
pub open spec fn format_of(extension: Seq<char>) -> Option<ConfigFormat> {
    if extension == "toml"@ {
        Some(ConfigFormat::Toml)
    } else if extension == "json"@ {
        Some(ConfigFormat::Json)
    } else {
        None
    }
}

/// The format of a file of plugin configurations, by its extension. Any
/// extension but `toml` and `json` is a configuration error.
pub fn config_format(extension: &str) -> (out: Result<ConfigFormat, GrokError>)
    ensures
        match format_of(extension@) {
            Some(f) => out == Ok::<ConfigFormat, GrokError>(f),
            None => out matches Err(e) && e is Config && e.detail()
                == "Plugin config must be .toml or .json"@,
        },
{
    if same_str(extension, "toml") {
        Ok(ConfigFormat::Toml)
    } else if same_str(extension, "json") {
        Ok(ConfigFormat::Json)
    } else {
        Err(GrokError::Config(owned("Plugin config must be .toml or .json")))
    }
}

/// The plugins that were loaded.
pub struct PluginLoader {
    plugins: Vec<PluginConfig>,
}

impl PluginLoader {
    /// The configurations that were loaded, in the order of loading.
    pub closed spec fn plugins(&self) -> Seq<PluginConfig> {
        self.plugins@
    }

    /// A loader without plugins.
    pub fn new() -> (loader: Self)
        ensures
            loader.plugins() == Seq::<PluginConfig>::empty(),
    {
        PluginLoader { plugins: Vec::new() }
    }

    /// The number of plugins that were loaded.
    pub fn len(&self) -> (n: usize)
        ensures
            n == self.plugins().len(),
    {
        self.plugins.len()
    }

    /// Takes the configurations of one file and returns how many they are.
    pub fn add(&mut self, configs: Vec<PluginConfig>) -> (count: usize)
        ensures
            count == configs@.len(),
            final(self).plugins() == old(self).plugins() + configs@,
    {
        let mut configs = configs;
        let count = configs.len();
        self.plugins.append(&mut configs);
        count
    }

    /// The tools of the loaded plugins, in the order of loading.
    pub fn create_tools(self) -> (tools: Vec<PluginTool>)
        ensures
            tools@.len() == self.plugins().len(),
            forall|i: int| 0 <= i < tools@.len() ==> (#[trigger] tools@[i]).config() == self.plugins()[i],
    {
        let mut plugins = self.plugins;
        let ghost all = plugins@;
        let mut reversed: Vec<PluginTool> = Vec::new();
        while plugins.len() > 0
            invariant
                plugins@ == all.take(plugins@.len() as int),
                reversed@.len() == all.len() - plugins@.len(),
                forall|k: int|
                    0 <= k < reversed@.len() ==> (#[trigger] reversed@[k]).config() == all[all.len()
                        - 1 - k],
            decreases plugins.len(),
        {
            let ghost n = plugins@.len();
            let last = plugins.pop();
            match last {
                Some(config) => {
                    assert(config == all[n - 1]);
                    reversed.push(PluginTool::new(config));
                    assert(plugins@ =~= all.take(n - 1));
                },
                None => {},
            }
        }
        let mut tools: Vec<PluginTool> = Vec::new();
        while reversed.len() > 0
            invariant
                reversed@.len() + tools@.len() == all.len(),
                forall|k: int|
                    0 <= k < reversed@.len() ==> (#[trigger] reversed@[k]).config() == all[all.len()
                        - 1 - k],
                forall|k: int| 0 <= k < tools@.len() ==> (#[trigger] tools@[k]).config() == all[k],
            decreases reversed.len(),
        {
            match reversed.pop() {
                Some(tool) => {
                    tools.push(tool);
                },
                None => {},
            }
        }
        tools
    }
}

impl Default for PluginLoader {
    fn default() -> (loader: Self)
        ensures
            loader.plugins() == Seq::<PluginConfig>::empty(),
    {
        PluginLoader::new()
    }
}

/// The directories that are searched for plugins: `plugins`,
/// `.grok-code/plugins`, and `grok-code/plugins` below the user's
/// configuration directory (the empty path where there is none).
pub open spec fn plugin_directories(config_dir: Option<Seq<char>>) -> Seq<Seq<char>> {
    seq![
        "plugins"@,
        ".grok-code/plugins"@,
        match config_dir {
            Some(d) => joined_path(joined_path(d, "grok-code"@), "plugins"@),
            None => Seq::empty(),
        },
    ]
}

/// The directories that are searched for plugins.
pub fn default_plugin_directories(config_dir: Option<&str>) -> (dirs: Vec<String>)
    ensures
        crate::text::views(dirs@) == plugin_directories(
            match config_dir {
                Some(d) => Some(d@),
                None => None,
            },
        ),
{
    let mut dirs: Vec<String> = Vec::new();
    dirs.push(owned("plugins"));
    dirs.push(owned(".grok-code/plugins"));
    match config_dir {
        Some(d) => {
            let base = join_path(d, "grok-code");
            dirs.push(join_path(base.as_str(), "plugins"));
        },
        None => {
            dirs.push(String::new());
        },
    }
    assert(crate::text::views(dirs@) =~= plugin_directories(
        match config_dir {
            Some(d) => Some(d@),
            None => None,
        },
    ));
    dirs
}

} // verus!
