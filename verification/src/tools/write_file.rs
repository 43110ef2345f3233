//! The tool `write_file`: how it is advertised, what it makes of the parameters
//! of a call before anything is run, and how it reports what the run
//! came to.

use vstd::prelude::*;
use crate::dispatcher::{parse_schema, schema_of};
use crate::function_calling::{ToolDefinition, ToolDefinitionView};
use crate::json::{Json, JsonNumber, JsonView, members_view, push_member};
use crate::text::{append, byte_len, chars_of, decimal, decimal_text, join2, join3, strings_view};
use crate::tools::{
    locations_view, Tool, ToolLocation, ToolLocationView, ToolResult, ToolResultView,
};
use crate::tools::params::{
    location, no_location, one_location, read_text, required_text, unit_view,
};
use crate::tools::patterns::{file_name, file_name_of};
use crate::tools::report::{count_json, count_text, count_view, push_line, stack, stacked};

verus! {

/// The tool that writes a file.
#[derive(Debug, Clone, Copy, PartialEq, Eq, Structural)]
pub struct WriteFileTool;

/// The name under which the model calls the tool.
pub open spec fn tool_name() -> Seq<char> {
    "write_file"@
}

/// What the tool does, for the model.
pub open spec fn tool_description() -> Seq<char> {
    "Writes content to a specified file in the local filesystem."@
}

/// The JSON schema of the parameters of the tool, as text.
pub open spec fn schema_text() -> Seq<char> {
    "{\"type\":\"object\",\"properties\":{\"file_path\":{\"description\":\"The absolute path to the file to write to (e.g., '/home/user/project/file.txt'). Relative paths are not supported.\",\"type\":\"string\"},\"content\":{\"description\":\"The content to write to the file.\",\"type\":\"string\"}},\"required\":[\"file_path\",\"content\"]}"@
}

/// The tool as it is advertised.
pub open spec fn definition() -> ToolDefinitionView {
    ToolDefinitionView {
        name: tool_name(),
        description: tool_description(),
        parameters: schema_of(schema_text()),
    }
}

/// The parameters of a call.
#[derive(Debug, PartialEq, Eq)]
pub struct WriteFileParams {
    pub file_path: String,
    pub content: String,
}

pub ghost struct WriteFileParamsView {
    pub file_path: Seq<char>,
    pub content: Seq<char>,
}

impl View for WriteFileParams {
    type V = WriteFileParamsView;

    open spec fn view(&self) -> WriteFileParamsView {
        WriteFileParamsView {
            file_path: self.file_path@,
            content: self.content@,
        }
    }
}

/// The parameters that the arguments of a call spell out, or the report
/// of the first that is missing or of the wrong type.
pub open spec fn params_of(params: JsonView) -> Result<WriteFileParamsView, Seq<char>> {
    match required_text(params, "file_path"@) {
        Err(report) => Err(report),
        Ok(file_path) => match required_text(params, "content"@) {
            Err(report) => Err(report),
            Ok(content) => Ok(WriteFileParamsView { file_path, content }),
        },
    }
}

/// The value of parameters or a report.
pub open spec fn params_view(result: Result<WriteFileParams, String>) -> Result<
    WriteFileParamsView,
    Seq<char>,
> {
    match result {
        Ok(params) => Ok(params@),
        Err(report) => Err(report@),
    }
}

impl WriteFileParams {
    /// Reads the parameters out of the arguments of a call.
    pub fn read(params: &Json) -> (r: Result<WriteFileParams, String>)
        ensures
            params_view(r) == params_of(params@),
    {
        let file_path = match read_text(params, "file_path") {
            Ok(file_path) => file_path,
            Err(report) => { return Err(report); },
        };
        let content = match read_text(params, "content") {
            Ok(content) => content,
            Err(report) => { return Err(report); },
        };
        Ok(WriteFileParams { file_path, content })
    }
}

/// The number of line feeds in a text.
pub open spec fn line_feeds(text: Seq<char>) -> nat
    decreases text.len(),
{
    if text.len() == 0 {
        0
    } else if text.last() == '\n' {
        line_feeds(text.drop_last()) + 1
    } else {
        line_feeds(text.drop_last())
    }
}

/// The number of lines of a text: a line ends at a line feed or at the
/// end of the text.
pub open spec fn line_count(text: Seq<char>) -> nat {
    if text.len() > 0 && text.last() != '\n' {
        line_feeds(text) + 1
    } else {
        line_feeds(text)
    }
}

proof fn lemma_line_feeds_bound(text: Seq<char>)
    ensures
        line_feeds(text) <= text.len(),
        text.len() > 0 && text.last() != '\n' ==> line_feeds(text) < text.len(),
    decreases text.len(),
{
    if text.len() > 0 {
        lemma_line_feeds_bound(text.drop_last());
    }
}

/// The number of lines of a text.
pub fn count_lines(text: &str) -> (r: usize)
    ensures
        r == line_count(text@),
{
    let chars = chars_of(text);
    let mut feeds: usize = 0;
    let mut i: usize = 0;
    assert(chars@.take(0) =~= Seq::<char>::empty());
    while i < chars.len()
        invariant
            i <= chars.len(),
            feeds == line_feeds(chars@.take(i as int)),
            feeds <= i,
        decreases chars.len() - i,
    {
        proof {
            assert(chars@.take(i + 1).drop_last() =~= chars@.take(i as int));
        }
        if chars[i] == '\n' {
            feeds += 1;
        }
        i += 1;
    }
    assert(chars@.take(i as int) =~= chars@);
    proof {
        lemma_line_feeds_bound(chars@);
    }
    if chars.len() > 0 && chars[chars.len() - 1] != '\n' {
        feeds + 1
    } else {
        feeds
    }
}

/// Whether the tool accepts the arguments of a call, as far as the
/// arguments alone decide: `Ok`, or the report of what is wrong with them.
pub open spec fn validated(params: JsonView) -> Result<(), Seq<char>> {
    match params_of(params) {
        Err(report) => Err(report),
        Ok(read) => Ok(()),
    }
}

/// What a call is going to do, in words.
pub open spec fn described(params: JsonView) -> Seq<char> {
    match params_of(params) {
        Ok(read) => "Write "@ + decimal(byte_len(read.content) as nat) + " bytes ("@ + decimal(line_count(read.content)) + " lines) to "@ + file_name(read.file_path),
        Err(_) => "Write file"@,
    }
}

/// The places that a call is going to touch.
pub open spec fn located(params: JsonView) -> Seq<ToolLocationView> {
    match params_of(params) {
        Ok(read) => one_location(read.file_path, None),
        Err(_) => Seq::empty(),
    }
}

impl WriteFileTool {
    /// The tool.
    pub fn new() -> (r: Self)
        ensures
            r == WriteFileTool,
    {
        WriteFileTool
    }

    /// The name under which the model calls the tool.
    pub fn name(&self) -> (r: &'static str)
        ensures
            r@ == tool_name(),
    {
        "write_file"
    }

    /// What the tool does, for the model.
    pub fn description(&self) -> (r: &'static str)
        ensures
            r@ == tool_description(),
    {
        "Writes content to a specified file in the local filesystem."
    }

    /// The tool as it is advertised.
    pub fn get_tool_definition(&self) -> (r: ToolDefinition)
        ensures
            r@ == definition(),
    {
        ToolDefinition {
            name: self.name().to_string(),
            description: self.description().to_string(),
            parameters: parse_schema(
                "{\"type\":\"object\",\"properties\":{\"file_path\":{\"description\":\"The absolute path to the file to write to (e.g., '/home/user/project/file.txt'). Relative paths are not supported.\",\"type\":\"string\"},\"content\":{\"description\":\"The content to write to the file.\",\"type\":\"string\"}},\"required\":[\"file_path\",\"content\"]}",
            ),
        }
    }

    /// Whether the tool accepts the arguments of a call, as far as the
    /// arguments alone decide.
    pub fn validate_params(&self, params: &Json) -> (r: Result<(), String>)
        ensures
            unit_view(r) == validated(params@),
    {
        match WriteFileParams::read(params) {
            Err(report) => Err(report),
            Ok(read) => {
                Ok(())
            },
        }
    }

    /// What a call is going to do, in words.
    pub fn get_description(&self, params: &Json) -> (r: String)
        ensures
            r@ == described(params@),
    {
        match WriteFileParams::read(params) {
            Ok(read) => {
                let bytes = decimal_text(read.content.as_str().len() as u64);
                let lines = decimal_text(count_lines(read.content.as_str()) as u64);
                let name = file_name_of(read.file_path.as_str());
                let head = join3("Write ", bytes.as_str(), " bytes (");
                let counted = join3(head.as_str(), lines.as_str(), " lines) to ");
                join2(counted.as_str(), name.as_str())
            },
            Err(_) => "Write file".to_string(),
        }
    }

    /// The places that a call is going to touch.
    pub fn tool_locations(&self, params: &Json) -> (r: Vec<ToolLocation>)
        ensures
            locations_view(r@) == located(params@),
    {
        match WriteFileParams::read(params) {
            Ok(read) => {
                location(read.file_path, None)
            },
            Err(_) => no_location(),
        }
    }
}

impl Tool for WriteFileTool {
    open spec fn name_text(&self) -> Seq<char> {
        tool_name()
    }

    open spec fn description_text(&self) -> Seq<char> {
        tool_description()
    }

    open spec fn advertised(&self) -> ToolDefinitionView {
        definition()
    }

    open spec fn validation(&self, params: JsonView) -> Result<(), Seq<char>> {
        validated(params)
    }

    open spec fn call_description(&self, params: JsonView) -> Seq<char> {
        described(params)
    }

    open spec fn call_locations(&self, params: JsonView) -> Seq<ToolLocationView> {
        located(params)
    }

    fn name(&self) -> (r: &str)
        ensures
            r@ == tool_name(),
    {
        WriteFileTool::name(self)
    }

    fn description(&self) -> (r: &str)
        ensures
            r@ == tool_description(),
    {
        WriteFileTool::description(self)
    }

    fn get_tool_definition(&self) -> (r: ToolDefinition)
        ensures
            r@ == definition(),
    {
        WriteFileTool::get_tool_definition(self)
    }

    fn validate_params(&self, params: &Json) -> (r: Result<(), String>)
        ensures
            unit_view(r) == validated(params@),
    {
        WriteFileTool::validate_params(self, params)
    }

    fn get_description(&self, params: &Json) -> (r: String)
        ensures
            r@ == described(params@),
    {
        WriteFileTool::get_description(self, params)
    }

    fn tool_locations(&self, params: &Json) -> (r: Vec<ToolLocation>)
        ensures
            locations_view(r@) == located(params@),
    {
        WriteFileTool::tool_locations(self, params)
    }
}

/// The sentence that sums up a write: whether the file was there before,
/// its name, and how much was written.
pub open spec fn written_summary(path: Seq<char>, content: Seq<char>, existed: bool) -> Seq<char> {
    (if existed {
        "Updated "@
    } else {
        "Created "@
    }) + file_name(path) + " ("@ + decimal(byte_len(content) as nat) + " bytes, "@ + decimal(
        line_count(content),
    ) + " lines)"@
}

/// What a write tells the model.
pub open spec fn written_json(
    path: Seq<char>,
    content: Seq<char>,
    existed: bool,
    original_size: u64,
) -> JsonView {
    JsonView::Object(
        seq![
            ("file_path"@, JsonView::Str(path)),
            (
                "operation"@,
                JsonView::Str(
                    if existed {
                        "updated"@
                    } else {
                        "created"@
                    },
                ),
            ),
            ("bytes_written"@, count_view(byte_len(content) as int)),
            ("lines_written"@, count_view(line_count(content) as int)),
            ("original_size"@, count_view(original_size as int)),
        ],
    )
}

/// What a write shows the user, line by line.
pub open spec fn written_lines(
    path: Seq<char>,
    content: Seq<char>,
    existed: bool,
    original_size: u64,
) -> Seq<Seq<char>> {
    seq![
        "File: "@ + path,
        "Operation: "@ + (if existed {
            "Updated"@
        } else {
            "Created"@
        }),
        "Size: "@ + decimal(byte_len(content) as nat) + " bytes ("@ + decimal(line_count(content))
            + " lines)"@,
        if existed {
            "Previous size: "@ + decimal(original_size as nat) + " bytes"@
        } else {
            "New file created"@
        },
    ]
}

/// The result of writing `content` to the file at `path`, which was
/// there before or not and then held `original_size` bytes.
pub open spec fn written(path: Seq<char>, content: Seq<char>, existed: bool, original_size: u64)
    -> ToolResultView {
    ToolResultView {
        summary: Some(written_summary(path, content, existed)),
        llm_content: written_json(path, content, existed, original_size),
        return_display: stacked(written_lines(path, content, existed, original_size)),
    }
}

impl WriteFileTool {
    /// The result of a write that went through: `content` now stands in
    /// the file at `file_path`, which held `original_size` bytes before
    /// where it `existed`.
    pub fn report(&self, file_path: &str, content: &str, existed: bool, original_size: u64) -> (r:
        ToolResult)
        ensures
            r@ == written(file_path@, content@, existed, original_size),
    {
        let bytes = count_text(content.len());
        let lines = count_text(count_lines(content));
        let name = file_name_of(file_path);
        let before = decimal_text(original_size);

        let mut summary = (if existed {
            "Updated "
        } else {
            "Created "
        }).to_string();
        append(&mut summary, name.as_str());
        append(&mut summary, " (");
        append(&mut summary, bytes.as_str());
        append(&mut summary, " bytes, ");
        append(&mut summary, lines.as_str());
        append(&mut summary, " lines)");

        let mut members: Vec<(String, Json)> = Vec::new();
        assert(members_view(members@) =~= Seq::empty());
        push_member(&mut members, "file_path", Json::string(file_path));
        push_member(
            &mut members,
            "operation",
            Json::string(
                if existed {
                    "updated"
                } else {
                    "created"
                },
            ),
        );
        push_member(&mut members, "bytes_written", count_json(content.len()));
        push_member(&mut members, "lines_written", count_json(count_lines(content)));
        push_member(&mut members, "original_size", Json::Number(JsonNumber::UInt(original_size)));
        assert(members_view(members@) =~= written_json(
            file_path@,
            content@,
            existed,
            original_size,
        )->Object_0);

        let mut size = join3("Size: ", bytes.as_str(), " bytes (");
        append(&mut size, lines.as_str());
        append(&mut size, " lines)");
        let mut display: Vec<String> = Vec::new();
        assert(strings_view(display@) =~= Seq::empty());
        push_line(&mut display, join2("File: ", file_path));
        push_line(
            &mut display,
            join2(
                "Operation: ",
                if existed {
                    "Updated"
                } else {
                    "Created"
                },
            ),
        );
        push_line(&mut display, size);
        push_line(
            &mut display,
            if existed {
                join3("Previous size: ", before.as_str(), " bytes")
            } else {
                "New file created".to_string()
            },
        );
        assert(strings_view(display@) =~= written_lines(
            file_path@,
            content@,
            existed,
            original_size,
        ));
        ToolResult {
            summary: Some(summary),
            llm_content: Json::object(members),
            return_display: stack(&display),
        }
    }
}

} // verus!
