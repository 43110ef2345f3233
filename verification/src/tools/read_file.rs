//! The tool `read_file`: how it is advertised, what it makes of the parameters
//! of a call before anything is run, and how it reports what the run
//! came to.

use vstd::prelude::*;
use crate::dispatcher::{parse_schema, schema_of};
use crate::function_calling::{ToolDefinition, ToolDefinitionView};
use crate::json::{Json, JsonView, members_view, push_member};
use crate::text::{append, decimal, decimal_text, join2, join3, strings_view};
use crate::tools::{
    locations_view, Tool, ToolLocation, ToolLocationView, ToolResult, ToolResultView,
};
use crate::tools::params::{
    location, no_location, one_location, optional_count, read_optional_count, read_text,
    required_text, unit_view,
};
use crate::tools::patterns::{file_name, file_name_of, is_text_file, is_text_path};
use crate::tools::report::{
    align_right, copy_texts, count_json, count_text, count_view, lines_of, outcome_view, push_line,
    right_aligned, split_lines, stack, stacked,
};

verus! {

/// The tool that reads a file.
#[derive(Debug, Clone, Copy, PartialEq, Eq, Structural)]
pub struct ReadFileTool;

/// The name under which the model calls the tool.
pub open spec fn tool_name() -> Seq<char> {
    "read_file"@
}

/// What the tool does, for the model.
pub open spec fn tool_description() -> Seq<char> {
    "Reads and returns the content of a specified file from the local filesystem. Handles text, images (PNG, JPG, GIF, WEBP, SVG, BMP), and PDF files. For text files, it can read specific line ranges."@
}

/// The JSON schema of the parameters of the tool, as text.
pub open spec fn schema_text() -> Seq<char> {
    "{\"type\":\"object\",\"properties\":{\"absolute_path\":{\"description\":\"The absolute path to the file to read (e.g., '/home/user/project/file.txt'). Relative paths are not supported. You must provide an absolute path.\",\"type\":\"string\"},\"offset\":{\"description\":\"Optional: For text files, the 0-based line number to start reading from. Requires 'limit' to be set. Use for paginating through large files.\",\"type\":\"number\"},\"limit\":{\"description\":\"Optional: For text files, maximum number of lines to read. Use with 'offset' to paginate through large files. If omitted, reads the entire file (if feasible, up to a default limit).\",\"type\":\"number\"}},\"required\":[\"absolute_path\"]}"@
}

/// The tool as it is advertised.
pub open spec fn definition() -> ToolDefinitionView {
    ToolDefinitionView {
        name: tool_name(),
        description: tool_description(),
        parameters: schema_of(schema_text()),
    }
}

/// The parameters of a call.
#[derive(Debug, PartialEq, Eq)]
pub struct ReadFileParams {
    pub absolute_path: String,
    pub offset: Option<usize>,
    pub limit: Option<usize>,
}

pub ghost struct ReadFileParamsView {
    pub absolute_path: Seq<char>,
    pub offset: Option<usize>,
    pub limit: Option<usize>,
}

impl View for ReadFileParams {
    type V = ReadFileParamsView;

    open spec fn view(&self) -> ReadFileParamsView {
        ReadFileParamsView {
            absolute_path: self.absolute_path@,
            offset: self.offset,
            limit: self.limit,
        }
    }
}

/// The parameters that the arguments of a call spell out, or the report
/// of the first that is missing or of the wrong type.
pub open spec fn params_of(params: JsonView) -> Result<ReadFileParamsView, Seq<char>> {
    match required_text(params, "absolute_path"@) {
        Err(report) => Err(report),
        Ok(absolute_path) => match optional_count(params, "offset"@) {
            Err(report) => Err(report),
            Ok(offset) => match optional_count(params, "limit"@) {
                Err(report) => Err(report),
                Ok(limit) => Ok(ReadFileParamsView { absolute_path, offset, limit }),
            },
        },
    }
}

/// The value of parameters or a report.
pub open spec fn params_view(result: Result<ReadFileParams, String>) -> Result<
    ReadFileParamsView,
    Seq<char>,
> {
    match result {
        Ok(params) => Ok(params@),
        Err(report) => Err(report@),
    }
}

impl ReadFileParams {
    /// Reads the parameters out of the arguments of a call.
    pub fn read(params: &Json) -> (r: Result<ReadFileParams, String>)
        ensures
            params_view(r) == params_of(params@),
    {
        let absolute_path = match read_text(params, "absolute_path") {
            Ok(absolute_path) => absolute_path,
            Err(report) => { return Err(report); },
        };
        let offset = match read_optional_count(params, "offset") {
            Ok(offset) => offset,
            Err(report) => { return Err(report); },
        };
        let limit = match read_optional_count(params, "limit") {
            Ok(limit) => limit,
            Err(report) => { return Err(report); },
        };
        Ok(ReadFileParams { absolute_path, offset, limit })
    }
}

/// The number of the last line of a range of `limit` lines from line
/// `offset` on, or the greatest number that can be written where the range
/// goes beyond it.
pub open spec fn last_line(offset: usize, limit: usize) -> u64 {
    if offset + limit - 1 > u64::MAX {
        u64::MAX
    } else {
        (offset + limit - 1) as u64
    }
}

/// What reading the file `name` is going to read: a range of lines, the
/// first lines, or the whole file.
pub open spec fn lines_described(name: Seq<char>, offset: Option<usize>, limit: Option<usize>)
    -> Seq<char> {
    match (offset, limit) {
        (Some(offset), Some(limit)) if limit > 0 => "Read lines "@ + decimal(offset as nat)
            + "-"@ + decimal(last_line(offset, limit) as nat) + " from "@ + name,
        (None, Some(limit)) => "Read first "@ + decimal(limit as nat) + " lines from "@ + name,
        _ => "Read file: "@ + name,
    }
}

/// What reading the file `name` is going to read.
pub fn describe_lines(name: &str, offset: Option<usize>, limit: Option<usize>) -> (r: String)
    ensures
        r@ == lines_described(name@, offset, limit),
{
    match (offset, limit) {
        (Some(offset), Some(limit)) => {
            if limit > 0 {
                let more: u64 = (limit - 1) as u64;
                let last: u64 = if offset as u64 > u64::MAX - more {
                    u64::MAX
                } else {
                    offset as u64 + more
                };
                let first = decimal_text(offset as u64);
                let end = decimal_text(last);
                let head = join3("Read lines ", first.as_str(), "-");
                let range = join3(head.as_str(), end.as_str(), " from ");
                join2(range.as_str(), name)
            } else {
                join2("Read file: ", name)
            }
        },
        (None, Some(limit)) => {
            let count = decimal_text(limit as u64);
            let head = join3("Read first ", count.as_str(), " lines from ");
            join2(head.as_str(), name)
        },
        _ => join2("Read file: ", name),
    }
}

/// Whether the tool accepts the arguments of a call, as far as the
/// arguments alone decide: `Ok`, or the report of what is wrong with them.
pub open spec fn validated(params: JsonView) -> Result<(), Seq<char>> {
    match params_of(params) {
        Err(report) => Err(report),
        Ok(read) => if read.offset is Some && read.limit is None {
            Err("Offset requires limit to be set"@)
        } else if read.limit == Some(0usize) {
            Err("Limit must be greater than 0"@)
        } else {
            Ok(())
        },
    }
}

/// What a call is going to do, in words.
pub open spec fn described(params: JsonView) -> Seq<char> {
    match params_of(params) {
        Ok(read) => lines_described(file_name(read.absolute_path), read.offset, read.limit),
        Err(_) => "Read file"@,
    }
}

/// The places that a call is going to touch.
pub open spec fn located(params: JsonView) -> Seq<ToolLocationView> {
    match params_of(params) {
        Ok(read) => one_location(read.absolute_path, read.offset),
        Err(_) => Seq::empty(),
    }
}

impl ReadFileTool {
    /// The tool.
    pub fn new() -> (r: Self)
        ensures
            r == ReadFileTool,
    {
        ReadFileTool
    }

    /// The name under which the model calls the tool.
    pub fn name(&self) -> (r: &'static str)
        ensures
            r@ == tool_name(),
    {
        "read_file"
    }

    /// What the tool does, for the model.
    pub fn description(&self) -> (r: &'static str)
        ensures
            r@ == tool_description(),
    {
        "Reads and returns the content of a specified file from the local filesystem. Handles text, images (PNG, JPG, GIF, WEBP, SVG, BMP), and PDF files. For text files, it can read specific line ranges."
    }

    /// The tool as it is advertised.
    pub fn get_tool_definition(&self) -> (r: ToolDefinition)
        ensures
            r@ == definition(),
    {
        ToolDefinition {
            name: self.name().to_string(),
            description: self.description().to_string(),
            parameters: parse_schema(
                "{\"type\":\"object\",\"properties\":{\"absolute_path\":{\"description\":\"The absolute path to the file to read (e.g., '/home/user/project/file.txt'). Relative paths are not supported. You must provide an absolute path.\",\"type\":\"string\"},\"offset\":{\"description\":\"Optional: For text files, the 0-based line number to start reading from. Requires 'limit' to be set. Use for paginating through large files.\",\"type\":\"number\"},\"limit\":{\"description\":\"Optional: For text files, maximum number of lines to read. Use with 'offset' to paginate through large files. If omitted, reads the entire file (if feasible, up to a default limit).\",\"type\":\"number\"}},\"required\":[\"absolute_path\"]}",
            ),
        }
    }

    /// Whether the tool accepts the arguments of a call, as far as the
    /// arguments alone decide.
    pub fn validate_params(&self, params: &Json) -> (r: Result<(), String>)
        ensures
            unit_view(r) == validated(params@),
    {
        match ReadFileParams::read(params) {
            Err(report) => Err(report),
            Ok(read) => {
                if read.offset.is_some() && read.limit.is_none() {
                    Err("Offset requires limit to be set".to_string())
                } else if read.limit == Some(0) {
                    Err("Limit must be greater than 0".to_string())
                } else {
                    Ok(())
                }
            },
        }
    }

    /// What a call is going to do, in words.
    pub fn get_description(&self, params: &Json) -> (r: String)
        ensures
            r@ == described(params@),
    {
        match ReadFileParams::read(params) {
            Ok(read) => {
                let name = file_name_of(read.absolute_path.as_str());
                describe_lines(name.as_str(), read.offset, read.limit)
            },
            Err(_) => "Read file".to_string(),
        }
    }

    /// The places that a call is going to touch.
    pub fn tool_locations(&self, params: &Json) -> (r: Vec<ToolLocation>)
        ensures
            locations_view(r@) == located(params@),
    {
        match ReadFileParams::read(params) {
            Ok(read) => {
                location(read.absolute_path, read.offset)
            },
            Err(_) => no_location(),
        }
    }
}

impl Tool for ReadFileTool {
    open spec fn name_text(&self) -> Seq<char> {
        tool_name()
    }

    open spec fn description_text(&self) -> Seq<char> {
        tool_description()
    }

    open spec fn advertised(&self) -> ToolDefinitionView {
        definition()
    }

    open spec fn validation(&self, params: JsonView) -> Result<(), Seq<char>> {
        validated(params)
    }

    open spec fn call_description(&self, params: JsonView) -> Seq<char> {
        described(params)
    }

    open spec fn call_locations(&self, params: JsonView) -> Seq<ToolLocationView> {
        located(params)
    }

    fn name(&self) -> (r: &str)
        ensures
            r@ == tool_name(),
    {
        ReadFileTool::name(self)
    }

    fn description(&self) -> (r: &str)
        ensures
            r@ == tool_description(),
    {
        ReadFileTool::description(self)
    }

    fn get_tool_definition(&self) -> (r: ToolDefinition)
        ensures
            r@ == definition(),
    {
        ReadFileTool::get_tool_definition(self)
    }

    fn validate_params(&self, params: &Json) -> (r: Result<(), String>)
        ensures
            unit_view(r) == validated(params@),
    {
        ReadFileTool::validate_params(self, params)
    }

    fn get_description(&self, params: &Json) -> (r: String)
        ensures
            r@ == described(params@),
    {
        ReadFileTool::get_description(self, params)
    }

    fn tool_locations(&self, params: &Json) -> (r: Vec<ToolLocation>)
        ensures
            locations_view(r@) == located(params@),
    {
        ReadFileTool::tool_locations(self, params)
    }
}

/// The report that a file is no text.
pub open spec fn not_text(path: Seq<char>) -> Seq<char> {
    "Binary files are not supported yet. File: "@ + path
}

/// The report that the first line asked for is not there.
pub open spec fn beyond_end(offset: nat, total: nat) -> Seq<char> {
    "Offset "@ + decimal(offset) + " is beyond file length "@ + decimal(total)
}

/// The smaller of two numbers.
pub open spec fn smaller(a: int, b: int) -> int {
    if a <= b {
        a
    } else {
        b
    }
}

/// The lines of a file of `total` lines that a call selects, as the
/// index of the first and the index after the last.  With a limit alone
/// the selection begins with the first line; with an offset and a limit
/// it begins at the offset, which is reported where no line stands there;
/// else all lines are selected.
pub open spec fn selection(total: nat, offset: Option<usize>, limit: Option<usize>) -> Result<
    (int, int),
    Seq<char>,
> {
    match (offset, limit) {
        (Some(offset), Some(limit)) => if offset >= total {
            Err(beyond_end(offset as nat, total))
        } else {
            Ok((offset as int, smaller(offset + limit, total as int)))
        },
        (None, Some(limit)) => Ok((0, smaller(limit as int, total as int))),
        _ => Ok((0, total as int)),
    }
}

/// The index of the last line of a selection that ends before `end`; 0
/// where the selection is empty at the start.
pub open spec fn last_index(end: int) -> int {
    if end > 0 {
        end - 1
    } else {
        0
    }
}

/// Each of `lines` behind its number in a column four wide, the first
/// of them with the number `first`.
pub open spec fn numbered(lines: Seq<Seq<char>>, first: int) -> Seq<Seq<char>> {
    Seq::new(
        lines.len(),
        |i: int| right_aligned(decimal((first + i) as nat), 4) + " | "@ + lines[i],
    )
}

/// The sentence that sums up a read of the lines `start..end` of the
/// `total` lines of a file.
pub open spec fn read_summary(path: Seq<char>, total: nat, start: int, end: int) -> Seq<char> {
    if end - start == total {
        "Read "@ + decimal(total) + " lines from "@ + file_name(path)
    } else {
        "Read "@ + decimal((end - start) as nat) + " of "@ + decimal(total) + " lines from "@
            + file_name(path)
    }
}

/// What a read tells the model.
pub open spec fn read_json(path: Seq<char>, lines: Seq<Seq<char>>, start: int, end: int)
    -> JsonView {
    JsonView::Object(
        seq![
            ("file_path"@, JsonView::Str(path)),
            ("content"@, JsonView::Str(stacked(lines.subrange(start, end)))),
            ("total_lines"@, count_view(lines.len() as int)),
            ("selected_lines"@, count_view(end - start)),
            ("start_line"@, count_view(start)),
            ("end_line"@, count_view(last_index(end))),
        ],
    )
}

/// What a read shows the user, line by line.
pub open spec fn read_lines(path: Seq<char>, lines: Seq<Seq<char>>, start: int, end: int) -> Seq<
    Seq<char>,
> {
    seq![
        "File: "@ + path,
        "Lines: "@ + decimal(lines.len()) + " (showing "@ + decimal((start + 1) as nat) + "-"@
            + decimal((last_index(end) + 1) as nat) + ")"@,
        ""@,
    ] + numbered(lines.subrange(start, end), start + 1)
}

/// The result of reading the lines `start..end` of the file at `path`,
/// which holds `lines`.
pub open spec fn read_result(path: Seq<char>, lines: Seq<Seq<char>>, start: int, end: int)
    -> ToolResultView {
    ToolResultView {
        summary: Some(read_summary(path, lines.len(), start, end)),
        llm_content: read_json(path, lines, start, end),
        return_display: stacked(read_lines(path, lines, start, end)),
    }
}

/// What reading the file at `path` comes to, where the file holds
/// `content`: the lines that the call selects, or the report that the
/// offset is beyond them.
pub open spec fn read_outcome(
    path: Seq<char>,
    content: Seq<char>,
    offset: Option<usize>,
    limit: Option<usize>,
) -> Result<ToolResultView, Seq<char>> {
    match selection(lines_of(content).len(), offset, limit) {
        Ok((start, end)) => Ok(read_result(path, lines_of(content), start, end)),
        Err(report) => Err(report),
    }
}

/// Adds to `display` each of `lines` behind its number, the first of
/// them with the number `first`.
fn push_numbered(display: &mut Vec<String>, lines: &Vec<String>, first: usize)
    requires
        first + lines.len() <= usize::MAX + 1,
    ensures
        strings_view(final(display)@) == strings_view(old(display)@) + numbered(
            strings_view(lines@),
            first as int,
        ),
{
    let ghost start = strings_view(display@);
    let ghost all = numbered(strings_view(lines@), first as int);
    let mut i: usize = 0;
    assert(start + all.take(0) =~= start);
    while i < lines.len()
        invariant
            i <= lines.len(),
            first + lines.len() <= usize::MAX + 1,
            all == numbered(strings_view(lines@), first as int),
            strings_view(display@) == start + all.take(i as int),
        decreases lines.len() - i,
    {
        let number = align_right(count_text(first + i).as_str(), 4);
        let line = join3(number.as_str(), " | ", lines[i].as_str());
        push_line(display, line);
        assert((start + all.take(i as int)).push(all[i as int]) =~= start + all.take(i + 1));
        i += 1;
    }
    assert(all.take(i as int) =~= all);
}

impl ReadFileTool {
    /// Whether the file at `path` can be read: whether it is taken for
    /// text.
    pub fn check_kind(&self, path: &str) -> (r: Result<(), String>)
        ensures
            unit_view(r) == (if is_text_path(path@) {
                Ok(())
            } else {
                Err(not_text(path@))
            }),
    {
        if is_text_file(path) {
            Ok(())
        } else {
            Err(join2("Binary files are not supported yet. File: ", path))
        }
    }

    /// The result of a read: the file at `path` holds `content`, of
    /// which the call selects lines by `offset` and `limit`.
    pub fn report(&self, path: &str, content: &str, offset: Option<usize>, limit: Option<usize>)
        -> (r: Result<ToolResult, String>)
        ensures
            outcome_view(r) == read_outcome(path@, content@, offset, limit),
    {
        let lines = split_lines(content);
        let total: usize = lines.len();
        let (start, end): (usize, usize) = match (offset, limit) {
            (Some(offset), Some(limit)) => {
                if offset >= total {
                    let mut report = join3(
                        "Offset ",
                        count_text(offset).as_str(),
                        " is beyond file length ",
                    );
                    append(&mut report, count_text(total).as_str());
                    return Err(report);
                }
                (
                    offset,
                    if limit <= total - offset {
                        offset + limit
                    } else {
                        total
                    },
                )
            },
            (None, Some(limit)) => (
                0,
                if limit <= total {
                    limit
                } else {
                    total
                },
            ),
            _ => (0, total),
        };
        let last: usize = if end > 0 {
            end - 1
        } else {
            0
        };
        let selected = copy_texts(&lines, start, end);
        let name = file_name_of(path);
        let summary = if end - start == total {
            let head = join3("Read ", count_text(total).as_str(), " lines from ");
            join2(head.as_str(), name.as_str())
        } else {
            let mut summary = join3("Read ", count_text(end - start).as_str(), " of ");
            append(&mut summary, count_text(total).as_str());
            append(&mut summary, " lines from ");
            append(&mut summary, name.as_str());
            summary
        };

        let mut members: Vec<(String, Json)> = Vec::new();
        assert(members_view(members@) =~= Seq::empty());
        push_member(&mut members, "file_path", Json::string(path));
        push_member(&mut members, "content", Json::Str(stack(&selected)));
        push_member(&mut members, "total_lines", count_json(total));
        push_member(&mut members, "selected_lines", count_json(end - start));
        push_member(&mut members, "start_line", count_json(start));
        push_member(&mut members, "end_line", count_json(last));
        assert(members_view(members@) =~= read_json(
            path@,
            strings_view(lines@),
            start as int,
            end as int,
        )->Object_0);

        let mut shown = join3("Lines: ", count_text(total).as_str(), " (showing ");
        append(&mut shown, count_text(start + 1).as_str());
        append(&mut shown, "-");
        append(&mut shown, count_text(last + 1).as_str());
        append(&mut shown, ")");
        let mut display: Vec<String> = Vec::new();
        assert(strings_view(display@) =~= Seq::empty());
        push_line(&mut display, join2("File: ", path));
        push_line(&mut display, shown);
        push_line(&mut display, "".to_string());
        assert(strings_view(selected@).len() == end - start);
        push_numbered(&mut display, &selected, start + 1);
        assert(strings_view(display@) =~= read_lines(
            path@,
            strings_view(lines@),
            start as int,
            end as int,
        ));
        Ok(
            ToolResult {
                summary: Some(summary),
                llm_content: Json::object(members),
                return_display: stack(&display),
            },
        )
    }
}

} // verus!
