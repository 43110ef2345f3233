//! The tool `run_shell_command`: how it is advertised, what it makes of the parameters
//! of a call before anything is run, and how it reports what the run
//! came to.

use vstd::prelude::*;
use crate::dispatcher::{CommandOutput, CommandOutputView, exit_code_text, parse_schema, schema_of};
use crate::function_calling::{ToolDefinition, ToolDefinitionView};
use crate::json::{Json, JsonNumber, JsonView, members_view, NumberView, push_member};
use crate::text::{append, join2, join3, opt_text, same_text, signed_decimal_text, strings_view};
use crate::tools::{
    locations_view, Tool, ToolLocation, ToolLocationView, ToolResult, ToolResultView,
};
use crate::tools::params::{
    is_blank, location, no_location, one_location, optional_text, read_optional_text, read_text,
    required_text, text_is_blank, unit_view,
};
use crate::tools::report::{push_line, stack, stacked};

verus! {

/// The tool that runs a shell command.
#[derive(Debug, Clone, Copy, PartialEq, Eq, Structural)]
pub struct RunShellCommandTool;

/// The name under which the model calls the tool.
pub open spec fn tool_name() -> Seq<char> {
    "run_shell_command"@
}

/// What the tool does, for the model.
pub open spec fn tool_description() -> Seq<char> {
    "This tool executes a given shell command as `bash -c <command>`. Command can start background processes using `&`. Command is executed as a subprocess that leads its own process group."@
}

/// The JSON schema of the parameters of the tool, as text.
pub open spec fn schema_text() -> Seq<char> {
    "{\"type\":\"object\",\"properties\":{\"command\":{\"description\":\"Exact bash command to execute as `bash -c <command>`\",\"type\":\"string\"},\"description\":{\"description\":\"Brief description of the command for the user. Be specific and concise. Ideally a single sentence. Can be up to 3 sentences for clarity. No line breaks.\",\"type\":\"string\"},\"directory\":{\"description\":\"(OPTIONAL) Directory to run the command in, if not the project root directory. Must be relative to the project root directory and must already exist.\",\"type\":\"string\"}},\"required\":[\"command\"]}"@
}

/// The tool as it is advertised.
pub open spec fn definition() -> ToolDefinitionView {
    ToolDefinitionView {
        name: tool_name(),
        description: tool_description(),
        parameters: schema_of(schema_text()),
    }
}

/// The parameters of a call.
#[derive(Debug, PartialEq, Eq)]
pub struct RunShellCommandParams {
    pub command: String,
    pub description: Option<String>,
    pub directory: Option<String>,
}

pub ghost struct RunShellCommandParamsView {
    pub command: Seq<char>,
    pub description: Option<Seq<char>>,
    pub directory: Option<Seq<char>>,
}

impl View for RunShellCommandParams {
    type V = RunShellCommandParamsView;

    open spec fn view(&self) -> RunShellCommandParamsView {
        RunShellCommandParamsView {
            command: self.command@,
            description: opt_text(self.description),
            directory: opt_text(self.directory),
        }
    }
}

/// The parameters that the arguments of a call spell out, or the report
/// of the first that is missing or of the wrong type.
pub open spec fn params_of(params: JsonView) -> Result<RunShellCommandParamsView, Seq<char>> {
    match required_text(params, "command"@) {
        Err(report) => Err(report),
        Ok(command) => match optional_text(params, "description"@) {
            Err(report) => Err(report),
            Ok(description) => match optional_text(params, "directory"@) {
                Err(report) => Err(report),
                Ok(directory) => Ok(
                    RunShellCommandParamsView {
                        command,
                        description,
                        directory,
                    },
                ),
            },
        },
    }
}

/// The value of parameters or a report.
pub open spec fn params_view(result: Result<RunShellCommandParams, String>) -> Result<
    RunShellCommandParamsView,
    Seq<char>,
> {
    match result {
        Ok(params) => Ok(params@),
        Err(report) => Err(report@),
    }
}

impl RunShellCommandParams {
    /// Reads the parameters out of the arguments of a call.
    pub fn read(params: &Json) -> (r: Result<RunShellCommandParams, String>)
        ensures
            params_view(r) == params_of(params@),
    {
        let command = match read_text(params, "command") {
            Ok(command) => command,
            Err(report) => { return Err(report); },
        };
        let description = match read_optional_text(params, "description") {
            Ok(description) => description,
            Err(report) => { return Err(report); },
        };
        let directory = match read_optional_text(params, "directory") {
            Ok(directory) => directory,
            Err(report) => { return Err(report); },
        };
        Ok(RunShellCommandParams { command, description, directory })
    }
}

/// Whether the tool accepts the arguments of a call, as far as the
/// arguments alone decide: `Ok`, or the report of what is wrong with them.
pub open spec fn validated(params: JsonView) -> Result<(), Seq<char>> {
    match params_of(params) {
        Err(report) => Err(report),
        Ok(read) => if is_blank(read.command) {
            Err("Command cannot be empty"@)
        } else {
            Ok(())
        },
    }
}

/// What a call is going to do, in words.
pub open spec fn described(params: JsonView) -> Seq<char> {
    match params_of(params) {
        Ok(read) => match read.description {
            Some(description) => description,
            None => "Execute: "@ + read.command,
        },
        Err(_) => "Execute shell command"@,
    }
}

/// The places that a call is going to touch.
pub open spec fn located(params: JsonView) -> Seq<ToolLocationView> {
    match params_of(params) {
        Ok(read) => one_location(
            match read.directory {
                Some(directory) => directory,
                None => "."@,
            },
            None,
        ),
        Err(_) => Seq::empty(),
    }
}

impl RunShellCommandTool {
    /// The tool.
    pub fn new() -> (r: Self)
        ensures
            r == RunShellCommandTool,
    {
        RunShellCommandTool
    }

    /// The name under which the model calls the tool.
    pub fn name(&self) -> (r: &'static str)
        ensures
            r@ == tool_name(),
    {
        "run_shell_command"
    }

    /// What the tool does, for the model.
    pub fn description(&self) -> (r: &'static str)
        ensures
            r@ == tool_description(),
    {
        "This tool executes a given shell command as `bash -c <command>`. Command can start background processes using `&`. Command is executed as a subprocess that leads its own process group."
    }

    /// The tool as it is advertised.
    pub fn get_tool_definition(&self) -> (r: ToolDefinition)
        ensures
            r@ == definition(),
    {
        ToolDefinition {
            name: self.name().to_string(),
            description: self.description().to_string(),
            parameters: parse_schema(
                "{\"type\":\"object\",\"properties\":{\"command\":{\"description\":\"Exact bash command to execute as `bash -c <command>`\",\"type\":\"string\"},\"description\":{\"description\":\"Brief description of the command for the user. Be specific and concise. Ideally a single sentence. Can be up to 3 sentences for clarity. No line breaks.\",\"type\":\"string\"},\"directory\":{\"description\":\"(OPTIONAL) Directory to run the command in, if not the project root directory. Must be relative to the project root directory and must already exist.\",\"type\":\"string\"}},\"required\":[\"command\"]}",
            ),
        }
    }

    /// Whether the tool accepts the arguments of a call, as far as the
    /// arguments alone decide.
    pub fn validate_params(&self, params: &Json) -> (r: Result<(), String>)
        ensures
            unit_view(r) == validated(params@),
    {
        match RunShellCommandParams::read(params) {
            Err(report) => Err(report),
            Ok(read) => {
                if text_is_blank(read.command.as_str()) {
                    Err("Command cannot be empty".to_string())
                } else {
                    Ok(())
                }
            },
        }
    }

    /// What a call is going to do, in words.
    pub fn get_description(&self, params: &Json) -> (r: String)
        ensures
            r@ == described(params@),
    {
        match RunShellCommandParams::read(params) {
            Ok(read) => {
                match read.description {
                    Some(description) => description,
                    None => join2("Execute: ", read.command.as_str()),
                }
            },
            Err(_) => "Execute shell command".to_string(),
        }
    }

    /// The places that a call is going to touch.
    pub fn tool_locations(&self, params: &Json) -> (r: Vec<ToolLocation>)
        ensures
            locations_view(r@) == located(params@),
    {
        match RunShellCommandParams::read(params) {
            Ok(read) => {
                let path = match read.directory {
                    Some(directory) => directory,
                    None => ".".to_string(),
                };
                location(path, None)
            },
            Err(_) => no_location(),
        }
    }
}

impl Tool for RunShellCommandTool {
    open spec fn name_text(&self) -> Seq<char> {
        tool_name()
    }

    open spec fn description_text(&self) -> Seq<char> {
        tool_description()
    }

    open spec fn advertised(&self) -> ToolDefinitionView {
        definition()
    }

    open spec fn validation(&self, params: JsonView) -> Result<(), Seq<char>> {
        validated(params)
    }

    open spec fn call_description(&self, params: JsonView) -> Seq<char> {
        described(params)
    }

    open spec fn call_locations(&self, params: JsonView) -> Seq<ToolLocationView> {
        located(params)
    }

    fn name(&self) -> (r: &str)
        ensures
            r@ == tool_name(),
    {
        RunShellCommandTool::name(self)
    }

    fn description(&self) -> (r: &str)
        ensures
            r@ == tool_description(),
    {
        RunShellCommandTool::description(self)
    }

    fn get_tool_definition(&self) -> (r: ToolDefinition)
        ensures
            r@ == definition(),
    {
        RunShellCommandTool::get_tool_definition(self)
    }

    fn validate_params(&self, params: &Json) -> (r: Result<(), String>)
        ensures
            unit_view(r) == validated(params@),
    {
        RunShellCommandTool::validate_params(self, params)
    }

    fn get_description(&self, params: &Json) -> (r: String)
        ensures
            r@ == described(params@),
    {
        RunShellCommandTool::get_description(self, params)
    }

    fn tool_locations(&self, params: &Json) -> (r: Vec<ToolLocation>)
        ensures
            locations_view(r@) == located(params@),
    {
        RunShellCommandTool::tool_locations(self, params)
    }
}

/// The directory that a command runs in: the one that the call names,
/// and else the current one.
pub open spec fn working_directory(directory: Option<Seq<char>>) -> Seq<char> {
    match directory {
        Some(directory) => directory,
        None => "."@,
    }
}

/// The sentence that sums up a run that took `seconds`.
pub open spec fn ran_summary(output: CommandOutputView, seconds: Seq<char>) -> Seq<char> {
    if output.success {
        "Command executed successfully in "@ + seconds + "s"@
    } else {
        "Command failed with exit code "@ + exit_code_text(output.exit_code) + " in "@ + seconds
            + "s"@
    }
}

/// What a run tells the model.
pub open spec fn ran_json(
    command: Seq<char>,
    directory: Option<Seq<char>>,
    output: CommandOutputView,
    duration: JsonView,
) -> JsonView {
    JsonView::Object(
        seq![
            ("command"@, JsonView::Str(command)),
            ("directory"@, JsonView::Str(working_directory(directory))),
            ("success"@, JsonView::Bool(output.success)),
            (
                "exit_code"@,
                match output.exit_code {
                    Some(code) => JsonView::Number(NumberView::Int(code as int)),
                    None => JsonView::Null,
                },
            ),
            ("stdout"@, JsonView::Str(output.stdout)),
            ("stderr"@, JsonView::Str(output.stderr)),
            ("duration_seconds"@, duration),
        ],
    )
}

/// What the process wrote, as it is shown: each of the two streams under
/// its heading, unless it is empty, and an empty line after the first.
pub open spec fn streams_lines(output: CommandOutputView) -> Seq<Seq<char>> {
    (if output.stdout.len() > 0 {
        seq!["Stdout:"@, output.stdout, ""@]
    } else {
        Seq::empty()
    }) + (if output.stderr.len() > 0 {
        seq!["Stderr:"@, output.stderr]
    } else {
        Seq::empty()
    })
}

/// What a run shows the user, line by line.
pub open spec fn ran_lines(
    command: Seq<char>,
    directory: Option<Seq<char>>,
    output: CommandOutputView,
    seconds: Seq<char>,
) -> Seq<Seq<char>> {
    seq![
        "Command: "@ + command,
        "Directory: "@ + (if working_directory(directory) == "."@ {
            "(root)"@
        } else {
            working_directory(directory)
        }),
        "Exit code: "@ + exit_code_text(output.exit_code),
        "Duration: "@ + seconds + "s"@,
        ""@,
    ] + streams_lines(output)
}

/// The result of running `command` in `directory`: the process ended as
/// `output` says, after the time that `seconds` gives in words and
/// `duration` as a number.
pub open spec fn ran(
    command: Seq<char>,
    directory: Option<Seq<char>>,
    output: CommandOutputView,
    seconds: Seq<char>,
    duration: JsonView,
) -> ToolResultView {
    ToolResultView {
        summary: Some(ran_summary(output, seconds)),
        llm_content: ran_json(command, directory, output, duration),
        return_display: stacked(ran_lines(command, directory, output, seconds)),
    }
}

/// An exit code as it is written into a sentence.
pub fn exit_code_words(exit_code: Option<i32>) -> (r: String)
    ensures
        r@ == exit_code_text(exit_code),
{
    match exit_code {
        Some(code) => {
            let digits = signed_decimal_text(code as i64);
            join3("Some(", digits.as_str(), ")")
        },
        None => "None".to_string(),
    }
}

impl RunShellCommandTool {
    /// The result of a run: the process that ran `command` in `directory`
    /// ended as `output` says.  The time that it took comes in words, as
    /// `seconds`, and as the number `duration`.
    pub fn report(
        &self,
        command: &str,
        directory: &Option<String>,
        output: &CommandOutput,
        seconds: &str,
        duration: Json,
    ) -> (r: ToolResult)
        ensures
            r@ == ran(command@, opt_text(*directory), output@, seconds@, duration@),
    {
        let place: &str = match directory {
            Some(directory) => directory.as_str(),
            None => ".",
        };
        let code = exit_code_words(output.exit_code);
        let summary = if output.success {
            join3("Command executed successfully in ", seconds, "s")
        } else {
            let mut summary = join3("Command failed with exit code ", code.as_str(), " in ");
            append(&mut summary, seconds);
            append(&mut summary, "s");
            summary
        };

        let mut members: Vec<(String, Json)> = Vec::new();
        assert(members_view(members@) =~= Seq::empty());
        push_member(&mut members, "command", Json::string(command));
        push_member(&mut members, "directory", Json::string(place));
        push_member(&mut members, "success", Json::Bool(output.success));
        push_member(
            &mut members,
            "exit_code",
            match output.exit_code {
                Some(code) => Json::Number(JsonNumber::Int(code as i64)),
                None => Json::Null,
            },
        );
        push_member(&mut members, "stdout", Json::string(output.stdout.as_str()));
        push_member(&mut members, "stderr", Json::string(output.stderr.as_str()));
        push_member(&mut members, "duration_seconds", duration);
        assert(members_view(members@) =~= ran_json(
            command@,
            opt_text(*directory),
            output@,
            duration@,
        )->Object_0);

        let mut display: Vec<String> = Vec::new();
        assert(strings_view(display@) =~= Seq::empty());
        push_line(&mut display, join2("Command: ", command));
        push_line(
            &mut display,
            join2(
                "Directory: ",
                if same_text(place, ".") {
                    "(root)"
                } else {
                    place
                },
            ),
        );
        push_line(&mut display, join2("Exit code: ", code.as_str()));
        push_line(&mut display, join3("Duration: ", seconds, "s"));
        push_line(&mut display, "".to_string());
        if output.stdout.as_str().unicode_len() > 0 {
            push_line(&mut display, "Stdout:".to_string());
            push_line(&mut display, output.stdout.clone());
            push_line(&mut display, "".to_string());
        }
        if output.stderr.as_str().unicode_len() > 0 {
            push_line(&mut display, "Stderr:".to_string());
            push_line(&mut display, output.stderr.clone());
        }
        assert(strings_view(display@) =~= ran_lines(
            command@,
            opt_text(*directory),
            output@,
            seconds@,
        ));
        ToolResult {
            summary: Some(summary),
            llm_content: Json::object(members),
            return_display: stack(&display),
        }
    }
}

} // verus!
