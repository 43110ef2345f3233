//! The built-in tools as one type, and the registry that holds them all.

use vstd::prelude::*;
use crate::dispatcher::{
    Dispatch, DispatchView, FunctionExecutor, missing_command, resolution, ToolHandleView,
};
use crate::error::ChatErrorView;
use crate::function_calling::{FunctionCall, ToolDefinition, ToolDefinitionView};
use crate::json::{Json, JsonView};
use crate::keyed::{distinct_names, with_name};
use crate::mcp_client::call_arguments;
use crate::tools::{locations_view, Tool, ToolLocation, ToolLocationView, ToolRegistry};
use crate::tools::glob::GlobTool;
use crate::tools::google_web_search::GoogleWebSearchTool;
use crate::tools::list_directory::ListDirectoryTool;
use crate::tools::params::unit_view;
use crate::tools::read_file::ReadFileTool;
use crate::tools::read_many_files::ReadManyFilesTool;
use crate::tools::replace::ReplaceTool;
use crate::tools::run_shell_command::RunShellCommandTool;
use crate::tools::save_memory::SaveMemoryTool;
use crate::tools::search_file_content::SearchFileContentTool;
use crate::tools::web_fetch::WebFetchTool;
use crate::tools::write_file::WriteFileTool;

verus! {

/// One of the built-in tools.
#[derive(Debug, Clone, Copy, PartialEq, Eq, Structural)]
pub enum BuiltinTool {
    ListDirectory(ListDirectoryTool),
    ReadFile(ReadFileTool),
    SearchFileContent(SearchFileContentTool),
    Glob(GlobTool),
    Replace(ReplaceTool),
    WriteFile(WriteFileTool),
    WebFetch(WebFetchTool),
    ReadManyFiles(ReadManyFilesTool),
    RunShellCommand(RunShellCommandTool),
    SaveMemory(SaveMemoryTool),
    GoogleWebSearch(GoogleWebSearchTool),
}

impl BuiltinTool {
    /// The name under which the model calls the tool.
    pub open spec fn spec_name(self) -> Seq<char> {
        match self {
            BuiltinTool::ListDirectory(_) => crate::tools::list_directory::tool_name(),
            BuiltinTool::ReadFile(_) => crate::tools::read_file::tool_name(),
            BuiltinTool::SearchFileContent(_) => crate::tools::search_file_content::tool_name(),
            BuiltinTool::Glob(_) => crate::tools::glob::tool_name(),
            BuiltinTool::Replace(_) => crate::tools::replace::tool_name(),
            BuiltinTool::WriteFile(_) => crate::tools::write_file::tool_name(),
            BuiltinTool::WebFetch(_) => crate::tools::web_fetch::tool_name(),
            BuiltinTool::ReadManyFiles(_) => crate::tools::read_many_files::tool_name(),
            BuiltinTool::RunShellCommand(_) => crate::tools::run_shell_command::tool_name(),
            BuiltinTool::SaveMemory(_) => crate::tools::save_memory::tool_name(),
            BuiltinTool::GoogleWebSearch(_) => crate::tools::google_web_search::tool_name(),
        }
    }

    /// What the tool does, for the model.
    pub open spec fn spec_description(self) -> Seq<char> {
        match self {
            BuiltinTool::ListDirectory(_) => crate::tools::list_directory::tool_description(),
            BuiltinTool::ReadFile(_) => crate::tools::read_file::tool_description(),
            BuiltinTool::SearchFileContent(_) => crate::tools::search_file_content::tool_description(),
            BuiltinTool::Glob(_) => crate::tools::glob::tool_description(),
            BuiltinTool::Replace(_) => crate::tools::replace::tool_description(),
            BuiltinTool::WriteFile(_) => crate::tools::write_file::tool_description(),
            BuiltinTool::WebFetch(_) => crate::tools::web_fetch::tool_description(),
            BuiltinTool::ReadManyFiles(_) => crate::tools::read_many_files::tool_description(),
            BuiltinTool::RunShellCommand(_) => crate::tools::run_shell_command::tool_description(),
            BuiltinTool::SaveMemory(_) => crate::tools::save_memory::tool_description(),
            BuiltinTool::GoogleWebSearch(_) => crate::tools::google_web_search::tool_description(),
        }
    }

    /// The tool as it is advertised to the model.
    pub open spec fn spec_definition(self) -> ToolDefinitionView {
        match self {
            BuiltinTool::ListDirectory(_) => crate::tools::list_directory::definition(),
            BuiltinTool::ReadFile(_) => crate::tools::read_file::definition(),
            BuiltinTool::SearchFileContent(_) => crate::tools::search_file_content::definition(),
            BuiltinTool::Glob(_) => crate::tools::glob::definition(),
            BuiltinTool::Replace(_) => crate::tools::replace::definition(),
            BuiltinTool::WriteFile(_) => crate::tools::write_file::definition(),
            BuiltinTool::WebFetch(_) => crate::tools::web_fetch::definition(),
            BuiltinTool::ReadManyFiles(_) => crate::tools::read_many_files::definition(),
            BuiltinTool::RunShellCommand(_) => crate::tools::run_shell_command::definition(),
            BuiltinTool::SaveMemory(_) => crate::tools::save_memory::definition(),
            BuiltinTool::GoogleWebSearch(_) => crate::tools::google_web_search::definition(),
        }
    }

    /// The name under which the model calls the tool.
    pub fn tool_name(&self) -> (r: &'static str)
        ensures
            r@ == self.spec_name(),
    {
        match self {
            BuiltinTool::ListDirectory(tool) => tool.name(),
            BuiltinTool::ReadFile(tool) => tool.name(),
            BuiltinTool::SearchFileContent(tool) => tool.name(),
            BuiltinTool::Glob(tool) => tool.name(),
            BuiltinTool::Replace(tool) => tool.name(),
            BuiltinTool::WriteFile(tool) => tool.name(),
            BuiltinTool::WebFetch(tool) => tool.name(),
            BuiltinTool::ReadManyFiles(tool) => tool.name(),
            BuiltinTool::RunShellCommand(tool) => tool.name(),
            BuiltinTool::SaveMemory(tool) => tool.name(),
            BuiltinTool::GoogleWebSearch(tool) => tool.name(),
        }
    }

    /// Whether the tool accepts the arguments of a call, as far as the
    /// arguments alone decide.
    pub open spec fn spec_validated(self, params: JsonView) -> Result<(), Seq<char>> {
        match self {
            BuiltinTool::ListDirectory(_) => crate::tools::list_directory::validated(params),
            BuiltinTool::ReadFile(_) => crate::tools::read_file::validated(params),
            BuiltinTool::SearchFileContent(_) => crate::tools::search_file_content::validated(params),
            BuiltinTool::Glob(_) => crate::tools::glob::validated(params),
            BuiltinTool::Replace(_) => crate::tools::replace::validated(params),
            BuiltinTool::WriteFile(_) => crate::tools::write_file::validated(params),
            BuiltinTool::WebFetch(_) => crate::tools::web_fetch::validated(params),
            BuiltinTool::ReadManyFiles(_) => crate::tools::read_many_files::validated(params),
            BuiltinTool::RunShellCommand(_) => crate::tools::run_shell_command::validated(params),
            BuiltinTool::SaveMemory(_) => crate::tools::save_memory::validated(params),
            BuiltinTool::GoogleWebSearch(_) => crate::tools::google_web_search::validated(params),
        }
    }

    /// What a call is going to do, in words.
    pub open spec fn spec_described(self, params: JsonView) -> Seq<char> {
        match self {
            BuiltinTool::ListDirectory(_) => crate::tools::list_directory::described(params),
            BuiltinTool::ReadFile(_) => crate::tools::read_file::described(params),
            BuiltinTool::SearchFileContent(_) => crate::tools::search_file_content::described(params),
            BuiltinTool::Glob(_) => crate::tools::glob::described(params),
            BuiltinTool::Replace(_) => crate::tools::replace::described(params),
            BuiltinTool::WriteFile(_) => crate::tools::write_file::described(params),
            BuiltinTool::WebFetch(_) => crate::tools::web_fetch::described(params),
            BuiltinTool::ReadManyFiles(_) => crate::tools::read_many_files::described(params),
            BuiltinTool::RunShellCommand(_) => crate::tools::run_shell_command::described(params),
            BuiltinTool::SaveMemory(_) => crate::tools::save_memory::described(params),
            BuiltinTool::GoogleWebSearch(_) => crate::tools::google_web_search::described(params),
        }
    }

    /// The places that a call is going to touch.
    pub open spec fn spec_located(self, params: JsonView) -> Seq<ToolLocationView> {
        match self {
            BuiltinTool::ListDirectory(_) => crate::tools::list_directory::located(params),
            BuiltinTool::ReadFile(_) => crate::tools::read_file::located(params),
            BuiltinTool::SearchFileContent(_) => crate::tools::search_file_content::located(params),
            BuiltinTool::Glob(_) => crate::tools::glob::located(params),
            BuiltinTool::Replace(_) => crate::tools::replace::located(params),
            BuiltinTool::WriteFile(_) => crate::tools::write_file::located(params),
            BuiltinTool::WebFetch(_) => crate::tools::web_fetch::located(params),
            BuiltinTool::ReadManyFiles(_) => crate::tools::read_many_files::located(params),
            BuiltinTool::RunShellCommand(_) => crate::tools::run_shell_command::located(params),
            BuiltinTool::SaveMemory(_) => crate::tools::save_memory::located(params),
            BuiltinTool::GoogleWebSearch(_) => crate::tools::google_web_search::located(params),
        }
    }

    /// Whether the tool accepts the arguments of a call, as far as the
    /// arguments alone decide.
    pub fn validate(&self, params: &Json) -> (r: Result<(), String>)
        ensures
            unit_view(r) == self.spec_validated(params@),
    {
        match self {
            BuiltinTool::ListDirectory(tool) => tool.validate_params(params),
            BuiltinTool::ReadFile(tool) => tool.validate_params(params),
            BuiltinTool::SearchFileContent(tool) => tool.validate_params(params),
            BuiltinTool::Glob(tool) => tool.validate_params(params),
            BuiltinTool::Replace(tool) => tool.validate_params(params),
            BuiltinTool::WriteFile(tool) => tool.validate_params(params),
            BuiltinTool::WebFetch(tool) => tool.validate_params(params),
            BuiltinTool::ReadManyFiles(tool) => tool.validate_params(params),
            BuiltinTool::RunShellCommand(tool) => tool.validate_params(params),
            BuiltinTool::SaveMemory(tool) => tool.validate_params(params),
            BuiltinTool::GoogleWebSearch(tool) => tool.validate_params(params),
        }
    }

    /// What a call is going to do, in words.
    pub fn describe(&self, params: &Json) -> (r: String)
        ensures
            r@ == self.spec_described(params@),
    {
        match self {
            BuiltinTool::ListDirectory(tool) => tool.get_description(params),
            BuiltinTool::ReadFile(tool) => tool.get_description(params),
            BuiltinTool::SearchFileContent(tool) => tool.get_description(params),
            BuiltinTool::Glob(tool) => tool.get_description(params),
            BuiltinTool::Replace(tool) => tool.get_description(params),
            BuiltinTool::WriteFile(tool) => tool.get_description(params),
            BuiltinTool::WebFetch(tool) => tool.get_description(params),
            BuiltinTool::ReadManyFiles(tool) => tool.get_description(params),
            BuiltinTool::RunShellCommand(tool) => tool.get_description(params),
            BuiltinTool::SaveMemory(tool) => tool.get_description(params),
            BuiltinTool::GoogleWebSearch(tool) => tool.get_description(params),
        }
    }

    /// The places that a call is going to touch.
    pub fn locate(&self, params: &Json) -> (r: Vec<ToolLocation>)
        ensures
            locations_view(r@) == self.spec_located(params@),
    {
        match self {
            BuiltinTool::ListDirectory(tool) => tool.tool_locations(params),
            BuiltinTool::ReadFile(tool) => tool.tool_locations(params),
            BuiltinTool::SearchFileContent(tool) => tool.tool_locations(params),
            BuiltinTool::Glob(tool) => tool.tool_locations(params),
            BuiltinTool::Replace(tool) => tool.tool_locations(params),
            BuiltinTool::WriteFile(tool) => tool.tool_locations(params),
            BuiltinTool::WebFetch(tool) => tool.tool_locations(params),
            BuiltinTool::ReadManyFiles(tool) => tool.tool_locations(params),
            BuiltinTool::RunShellCommand(tool) => tool.tool_locations(params),
            BuiltinTool::SaveMemory(tool) => tool.tool_locations(params),
            BuiltinTool::GoogleWebSearch(tool) => tool.tool_locations(params),
        }
    }
}

impl Tool for BuiltinTool {
    open spec fn name_text(&self) -> Seq<char> {
        self.spec_name()
    }

    open spec fn description_text(&self) -> Seq<char> {
        self.spec_description()
    }

    open spec fn advertised(&self) -> ToolDefinitionView {
        self.spec_definition()
    }

    open spec fn validation(&self, params: JsonView) -> Result<(), Seq<char>> {
        self.spec_validated(params)
    }

    open spec fn call_description(&self, params: JsonView) -> Seq<char> {
        self.spec_described(params)
    }

    open spec fn call_locations(&self, params: JsonView) -> Seq<ToolLocationView> {
        self.spec_located(params)
    }

    fn name(&self) -> (r: &str)
        ensures
            r@ == self.spec_name(),
    {
        self.tool_name()
    }

    fn description(&self) -> (r: &str)
        ensures
            r@ == self.spec_description(),
    {
        match self {
            BuiltinTool::ListDirectory(tool) => tool.description(),
            BuiltinTool::ReadFile(tool) => tool.description(),
            BuiltinTool::SearchFileContent(tool) => tool.description(),
            BuiltinTool::Glob(tool) => tool.description(),
            BuiltinTool::Replace(tool) => tool.description(),
            BuiltinTool::WriteFile(tool) => tool.description(),
            BuiltinTool::WebFetch(tool) => tool.description(),
            BuiltinTool::ReadManyFiles(tool) => tool.description(),
            BuiltinTool::RunShellCommand(tool) => tool.description(),
            BuiltinTool::SaveMemory(tool) => tool.description(),
            BuiltinTool::GoogleWebSearch(tool) => tool.description(),
        }
    }

    fn get_tool_definition(&self) -> (r: ToolDefinition)
        ensures
            r@ == self.spec_definition(),
    {
        match self {
            BuiltinTool::ListDirectory(tool) => tool.get_tool_definition(),
            BuiltinTool::ReadFile(tool) => tool.get_tool_definition(),
            BuiltinTool::SearchFileContent(tool) => tool.get_tool_definition(),
            BuiltinTool::Glob(tool) => tool.get_tool_definition(),
            BuiltinTool::Replace(tool) => tool.get_tool_definition(),
            BuiltinTool::WriteFile(tool) => tool.get_tool_definition(),
            BuiltinTool::WebFetch(tool) => tool.get_tool_definition(),
            BuiltinTool::ReadManyFiles(tool) => tool.get_tool_definition(),
            BuiltinTool::RunShellCommand(tool) => tool.get_tool_definition(),
            BuiltinTool::SaveMemory(tool) => tool.get_tool_definition(),
            BuiltinTool::GoogleWebSearch(tool) => tool.get_tool_definition(),
        }
    }

    fn validate_params(&self, params: &Json) -> (r: Result<(), String>)
        ensures
            unit_view(r) == self.spec_validated(params@),
    {
        self.validate(params)
    }

    fn get_description(&self, params: &Json) -> (r: String)
        ensures
            r@ == self.spec_described(params@),
    {
        self.describe(params)
    }

    fn tool_locations(&self, params: &Json) -> (r: Vec<ToolLocation>)
        ensures
            locations_view(r@) == self.spec_located(params@),
    {
        self.locate(params)
    }
}

/// The built-in tools, in the order in which they are registered.
pub open spec fn builtin_tools() -> Seq<BuiltinTool> {
    seq![
        BuiltinTool::ListDirectory(ListDirectoryTool),
        BuiltinTool::ReadFile(ReadFileTool),
        BuiltinTool::SearchFileContent(SearchFileContentTool),
        BuiltinTool::Glob(GlobTool),
        BuiltinTool::Replace(ReplaceTool),
        BuiltinTool::WriteFile(WriteFileTool),
        BuiltinTool::WebFetch(WebFetchTool),
        BuiltinTool::ReadManyFiles(ReadManyFilesTool),
        BuiltinTool::RunShellCommand(RunShellCommandTool),
        BuiltinTool::SaveMemory(SaveMemoryTool),
        BuiltinTool::GoogleWebSearch(GoogleWebSearchTool),
    ]
}

/// The names after the first `n` built-in tools are registered.
pub open spec fn registered(n: nat) -> Seq<Seq<char>>
    decreases n,
{
    if n == 0 {
        Seq::empty()
    } else {
        with_name(registered((n - 1) as nat), builtin_tools()[n - 1].spec_name())
    }
}

/// The names under which the built-in tools are registered.
pub open spec fn builtin_names() -> Seq<Seq<char>> {
    registered(builtin_tools().len())
}

/// The names of the built-in tools differ from one another, so each tool
/// is registered under its own: the registry holds eleven names, in the
/// order of registration.
pub proof fn lemma_builtin_names()
    ensures
        builtin_names() == seq![
            "list_directory"@,
            "read_file"@,
            "search_file_content"@,
            "glob"@,
            "replace"@,
            "write_file"@,
            "web_fetch"@,
            "read_many_files"@,
            "run_shell_command"@,
            "save_memory"@,
            "google_web_search"@,
        ],
        distinct_names(builtin_names()),
{
    reveal_strlit("list_directory");
    reveal_strlit("read_file");
    reveal_strlit("search_file_content");
    reveal_strlit("glob");
    reveal_strlit("replace");
    reveal_strlit("write_file");
    reveal_strlit("web_fetch");
    reveal_strlit("read_many_files");
    reveal_strlit("run_shell_command");
    reveal_strlit("save_memory");
    reveal_strlit("google_web_search");
    let names = seq![
        "list_directory"@,
        "read_file"@,
        "search_file_content"@,
        "glob"@,
        "replace"@,
        "write_file"@,
        "web_fetch"@,
        "read_many_files"@,
        "run_shell_command"@,
        "save_memory"@,
        "google_web_search"@,
    ];
    assert forall|i: int, j: int| 0 <= i < j < names.len() implies names[i] != names[j] by {
        // Two names of one length differ in their first or their third
        // character.
        if names[i].len() == names[j].len() {
            assert(names[i][0] != names[j][0] || names[i][2] != names[j][2]);
        }
    }
    assert forall|n: nat| n <= 11 implies #[trigger] registered(n) == names.take(n as int) by {
        lemma_registered_prefix(names, n);
    }
    assert(names.take(11) =~= names);
}

proof fn lemma_registered_prefix(names: Seq<Seq<char>>, n: nat)
    requires
        n <= 11,
        names.len() == 11,
        distinct_names(names),
        forall|i: int| 0 <= i < 11 ==> names[i] == (#[trigger] builtin_tools()[i]).spec_name(),
    ensures
        registered(n) == names.take(n as int),
    decreases n,
{
    if n == 0 {
        assert(names.take(0) =~= Seq::<Seq<char>>::empty());
    } else {
        lemma_registered_prefix(names, (n - 1) as nat);
        let before = names.take(n - 1);
        let name = names[n - 1];
        crate::keyed::lemma_name_index(before, name);
        if before.contains(name) {
            let at = choose|at: int| 0 <= at < before.len() && before[at] == name;
            assert(names[at] == names[n - 1]);
        }
        assert(builtin_tools()[n - 1].spec_name() == name);
        assert(before.push(name) =~= names.take(n as int));
    }
}

/// The built-in tools, in the order in which they are registered.
pub fn all_builtin_tools() -> (r: Vec<BuiltinTool>)
    ensures
        r@ == builtin_tools(),
{
    let mut tools: Vec<BuiltinTool> = Vec::new();
    tools.push(BuiltinTool::ListDirectory(ListDirectoryTool::new()));
    tools.push(BuiltinTool::ReadFile(ReadFileTool::new()));
    tools.push(BuiltinTool::SearchFileContent(SearchFileContentTool::new()));
    tools.push(BuiltinTool::Glob(GlobTool::new()));
    tools.push(BuiltinTool::Replace(ReplaceTool::new()));
    tools.push(BuiltinTool::WriteFile(WriteFileTool::new()));
    tools.push(BuiltinTool::WebFetch(WebFetchTool::new()));
    tools.push(BuiltinTool::ReadManyFiles(ReadManyFilesTool::new()));
    tools.push(BuiltinTool::RunShellCommand(RunShellCommandTool::new()));
    tools.push(BuiltinTool::SaveMemory(SaveMemoryTool::new()));
    tools.push(BuiltinTool::GoogleWebSearch(GoogleWebSearchTool::new()));
    assert(tools@ =~= builtin_tools());
    tools
}

impl ToolRegistry<BuiltinTool> {
    /// The registry with every built-in tool, each under its own name.
    pub fn new() -> (r: Self)
        ensures
            r.wf(),
            r@ == builtin_names(),
            r.tools() == builtin_tools(),
    {
        proof {
            lemma_builtin_names();
        }
        let tools = all_builtin_tools();
        let mut registry = ToolRegistry::empty();
        let mut i: usize = 0;
        assert(registry@ =~= registered(0));
        while i < tools.len()
            invariant
                i <= tools.len(),
                tools@ == builtin_tools(),
                registry.wf(),
                registry@ == registered(i as nat),
                registry@ == builtin_names().take(i as int),
                registry.tools() == builtin_tools().take(i as int),
                distinct_names(builtin_names()),
                builtin_names().len() == 11,
                forall|k: int|
                    0 <= k < 11 ==> builtin_names()[k] == (#[trigger] builtin_tools()[k]).spec_name(),
            decreases tools.len() - i,
        {
            let tool = tools[i];
            proof {
                let before = builtin_names().take(i as int);
                let name = builtin_names()[i as int];
                crate::keyed::lemma_name_index(before, name);
                if before.contains(name) {
                    let at = choose|at: int| 0 <= at < before.len() && before[at] == name;
                    assert(builtin_names()[at] == builtin_names()[i as int]);
                }
                assert(before.push(name) =~= builtin_names().take(i + 1));
                assert(builtin_tools().take(i as int).push(tool) =~= builtin_tools().take(i + 1));
            }
            registry.register_as(tool.tool_name().to_string(), tool);
            i += 1;
        }
        assert(builtin_tools().take(11) =~= builtin_tools());
        registry
    }
}

/// What is to be run for a call to the built-in tool `tool`: the tool,
/// where it accepts the arguments; else nothing, and the call fails with
/// the report of the tool.
pub open spec fn builtin_dispatch(tool: BuiltinTool, at: int, args: JsonView) -> DispatchView {
    match tool.spec_validated(args) {
        Ok(()) => DispatchView::BuiltIn { index: at },
        Err(report) => DispatchView::Failed(ChatErrorView::ToolExecution(report)),
    }
}

impl FunctionExecutor<BuiltinTool> {
    /// A dispatcher for the built-in tools, without servers.
    pub fn new() -> (r: Self)
        ensures
            r.wf(),
            r.registry()@ == builtin_names(),
            r.registry().tools() == builtin_tools(),
            r.servers() is None,
    {
        FunctionExecutor::with_registry(ToolRegistry::new())
    }

    /// What is to be run for `call`, as `begin` says it, and for a call to
    /// a built-in tool exactly: the tool runs where it accepts the
    /// arguments, and else the call fails with the report of the tool.
    pub fn begin_call(&self, call: &FunctionCall) -> (r: Dispatch)
        requires
            self.wf(),
        ensures
            match resolution(self.registry()@, self.servers_view(), call@.name) {
                Some(ToolHandleView::Shell) => match call@.args.field("command"@) {
                    Some(JsonView::Str(command)) => r@ == (DispatchView::Shell { command }),
                    _ => r@ == DispatchView::Failed(
                        ChatErrorView::ToolExecution(missing_command()),
                    ),
                },
                Some(ToolHandleView::BuiltIn(at)) => r@ == builtin_dispatch(
                    self.registry().tools()[at],
                    at,
                    call@.args,
                ),
                Some(ToolHandleView::Mcp(server)) => r@ == (DispatchView::Mcp {
                    server,
                    arguments: call_arguments(call@),
                }),
                None => r@ == DispatchView::Failed(ChatErrorView::ToolResolution(call@.name)),
            },
    {
        self.begin(call)
    }
}

} // verus!
