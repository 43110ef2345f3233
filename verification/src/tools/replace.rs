//! The tool `replace`: how it is advertised, what it makes of the parameters
//! of a call before anything is run, and how it reports what the run
//! came to.

use vstd::prelude::*;
use crate::dispatcher::{parse_schema, schema_of};
use crate::function_calling::{ToolDefinition, ToolDefinitionView};
use crate::json::{Json, JsonNumber, JsonView, members_view, push_member};
use crate::text::{
    append, byte_len, chars_of, decimal, decimal_text, join2, join3, matches_at, occurs_at,
    signed_decimal, signed_decimal_text, strings_view,
};
use crate::tools::{
    locations_view, Tool, ToolLocation, ToolLocationView, ToolResult, ToolResultView,
};
use crate::tools::params::{
    location, no_location, one_location, optional_count, read_optional_count, read_text,
    required_text, text_view, unit_view,
};
use crate::tools::patterns::{file_name, file_name_of};
use crate::tools::report::{count_json, count_text, count_view, push_line, stack, stacked};
use crate::tools::write_file::{count_lines, line_count};

verus! {

/// The tool that replaces text within a file.
#[derive(Debug, Clone, Copy, PartialEq, Eq, Structural)]
pub struct ReplaceTool;

/// The name under which the model calls the tool.
pub open spec fn tool_name() -> Seq<char> {
    "replace"@
}

/// What the tool does, for the model.
pub open spec fn tool_description() -> Seq<char> {
    "Replaces text within a file. By default, replaces a single occurrence, but can replace multiple occurrences when `expected_replacements` is specified. This tool requires providing significant context around the change to ensure precise targeting."@
}

/// The JSON schema of the parameters of the tool, as text.
pub open spec fn schema_text() -> Seq<char> {
    "{\"type\":\"object\",\"properties\":{\"file_path\":{\"description\":\"The absolute path to the file to modify. Must start with '/'.\",\"type\":\"string\"},\"old_string\":{\"description\":\"The exact literal text to replace, preferably unescaped. For single replacements (default), include at least 3 lines of context BEFORE and AFTER the target text, matching whitespace and indentation precisely. For multiple replacements, specify expected_replacements parameter. If this string is not the exact literal text (i.e. you escaped it) or does not match exactly, the tool will fail.\",\"type\":\"string\"},\"new_string\":{\"description\":\"The exact literal text to replace `old_string` with, preferably unescaped. Provide the EXACT text. Ensure the resulting code is correct and idiomatic.\",\"type\":\"string\"},\"expected_replacements\":{\"description\":\"Number of replacements expected. Defaults to 1 if not specified. Use when you want to replace multiple occurrences.\",\"type\":\"number\",\"minimum\":1}},\"required\":[\"file_path\",\"old_string\",\"new_string\"]}"@
}

/// The tool as it is advertised.
pub open spec fn definition() -> ToolDefinitionView {
    ToolDefinitionView {
        name: tool_name(),
        description: tool_description(),
        parameters: schema_of(schema_text()),
    }
}

/// The parameters of a call.
#[derive(Debug, PartialEq, Eq)]
pub struct ReplaceParams {
    pub file_path: String,
    pub old_string: String,
    pub new_string: String,
    pub expected_replacements: Option<usize>,
}

pub ghost struct ReplaceParamsView {
    pub file_path: Seq<char>,
    pub old_string: Seq<char>,
    pub new_string: Seq<char>,
    pub expected_replacements: Option<usize>,
}

impl View for ReplaceParams {
    type V = ReplaceParamsView;

    open spec fn view(&self) -> ReplaceParamsView {
        ReplaceParamsView {
            file_path: self.file_path@,
            old_string: self.old_string@,
            new_string: self.new_string@,
            expected_replacements: self.expected_replacements,
        }
    }
}

/// The parameters that the arguments of a call spell out, or the report
/// of the first that is missing or of the wrong type.
pub open spec fn params_of(params: JsonView) -> Result<ReplaceParamsView, Seq<char>> {
    match required_text(params, "file_path"@) {
        Err(report) => Err(report),
        Ok(file_path) => match required_text(params, "old_string"@) {
            Err(report) => Err(report),
            Ok(old_string) => match required_text(params, "new_string"@) {
                Err(report) => Err(report),
                Ok(new_string) => match optional_count(params, "expected_replacements"@) {
                    Err(report) => Err(report),
                    Ok(expected_replacements) => Ok(
                        ReplaceParamsView {
                            file_path,
                            old_string,
                            new_string,
                            expected_replacements,
                        },
                    ),
                },
            },
        },
    }
}

/// The value of parameters or a report.
pub open spec fn params_view(result: Result<ReplaceParams, String>) -> Result<
    ReplaceParamsView,
    Seq<char>,
> {
    match result {
        Ok(params) => Ok(params@),
        Err(report) => Err(report@),
    }
}

impl ReplaceParams {
    /// Reads the parameters out of the arguments of a call.
    pub fn read(params: &Json) -> (r: Result<ReplaceParams, String>)
        ensures
            params_view(r) == params_of(params@),
    {
        let file_path = match read_text(params, "file_path") {
            Ok(file_path) => file_path,
            Err(report) => { return Err(report); },
        };
        let old_string = match read_text(params, "old_string") {
            Ok(old_string) => old_string,
            Err(report) => { return Err(report); },
        };
        let new_string = match read_text(params, "new_string") {
            Ok(new_string) => new_string,
            Err(report) => { return Err(report); },
        };
        let expected_replacements = match read_optional_count(params, "expected_replacements") {
            Ok(expected_replacements) => expected_replacements,
            Err(report) => { return Err(report); },
        };
        Ok(ReplaceParams { file_path, old_string, new_string, expected_replacements })
    }
}

/// What replacing in the file `name` is going to do: one replacement
/// unless the call expects another number.
pub open spec fn replacement_described(name: Seq<char>, expected: Option<usize>) -> Seq<char> {
    match expected {
        Some(count) if count != 1 => "Replace "@ + decimal(count as nat) + " occurrences in "@
            + name,
        _ => "Replace text in "@ + name,
    }
}

/// What replacing in the file `name` is going to do.
pub fn describe_replacement(name: &str, expected: Option<usize>) -> (r: String)
    ensures
        r@ == replacement_described(name@, expected),
{
    match expected {
        Some(count) => {
            if count != 1 {
                let digits = decimal_text(count as u64);
                let head = join3("Replace ", digits.as_str(), " occurrences in ");
                join2(head.as_str(), name)
            } else {
                join2("Replace text in ", name)
            }
        },
        None => join2("Replace text in ", name),
    }
}

/// Whether the tool accepts the arguments of a call, as far as the
/// arguments alone decide: `Ok`, or the report of what is wrong with them.
pub open spec fn validated(params: JsonView) -> Result<(), Seq<char>> {
    match params_of(params) {
        Err(report) => Err(report),
        Ok(read) => if read.old_string.len() == 0 {
            Err("old_string cannot be empty"@)
        } else if read.expected_replacements == Some(0usize) {
            Err("expected_replacements must be greater than 0"@)
        } else {
            Ok(())
        },
    }
}

/// What a call is going to do, in words.
pub open spec fn described(params: JsonView) -> Seq<char> {
    match params_of(params) {
        Ok(read) => replacement_described(file_name(read.file_path), read.expected_replacements),
        Err(_) => "Replace text in file"@,
    }
}

/// The places that a call is going to touch.
pub open spec fn located(params: JsonView) -> Seq<ToolLocationView> {
    match params_of(params) {
        Ok(read) => one_location(read.file_path, None),
        Err(_) => Seq::empty(),
    }
}

impl ReplaceTool {
    /// The tool.
    pub fn new() -> (r: Self)
        ensures
            r == ReplaceTool,
    {
        ReplaceTool
    }

    /// The name under which the model calls the tool.
    pub fn name(&self) -> (r: &'static str)
        ensures
            r@ == tool_name(),
    {
        "replace"
    }

    /// What the tool does, for the model.
    pub fn description(&self) -> (r: &'static str)
        ensures
            r@ == tool_description(),
    {
        "Replaces text within a file. By default, replaces a single occurrence, but can replace multiple occurrences when `expected_replacements` is specified. This tool requires providing significant context around the change to ensure precise targeting."
    }

    /// The tool as it is advertised.
    pub fn get_tool_definition(&self) -> (r: ToolDefinition)
        ensures
            r@ == definition(),
    {
        ToolDefinition {
            name: self.name().to_string(),
            description: self.description().to_string(),
            parameters: parse_schema(
                "{\"type\":\"object\",\"properties\":{\"file_path\":{\"description\":\"The absolute path to the file to modify. Must start with '/'.\",\"type\":\"string\"},\"old_string\":{\"description\":\"The exact literal text to replace, preferably unescaped. For single replacements (default), include at least 3 lines of context BEFORE and AFTER the target text, matching whitespace and indentation precisely. For multiple replacements, specify expected_replacements parameter. If this string is not the exact literal text (i.e. you escaped it) or does not match exactly, the tool will fail.\",\"type\":\"string\"},\"new_string\":{\"description\":\"The exact literal text to replace `old_string` with, preferably unescaped. Provide the EXACT text. Ensure the resulting code is correct and idiomatic.\",\"type\":\"string\"},\"expected_replacements\":{\"description\":\"Number of replacements expected. Defaults to 1 if not specified. Use when you want to replace multiple occurrences.\",\"type\":\"number\",\"minimum\":1}},\"required\":[\"file_path\",\"old_string\",\"new_string\"]}",
            ),
        }
    }

    /// Whether the tool accepts the arguments of a call, as far as the
    /// arguments alone decide.
    pub fn validate_params(&self, params: &Json) -> (r: Result<(), String>)
        ensures
            unit_view(r) == validated(params@),
    {
        match ReplaceParams::read(params) {
            Err(report) => Err(report),
            Ok(read) => {
                if read.old_string.as_str().unicode_len() == 0 {
                    Err("old_string cannot be empty".to_string())
                } else if read.expected_replacements == Some(0) {
                    Err("expected_replacements must be greater than 0".to_string())
                } else {
                    Ok(())
                }
            },
        }
    }

    /// What a call is going to do, in words.
    pub fn get_description(&self, params: &Json) -> (r: String)
        ensures
            r@ == described(params@),
    {
        match ReplaceParams::read(params) {
            Ok(read) => {
                let name = file_name_of(read.file_path.as_str());
                describe_replacement(name.as_str(), read.expected_replacements)
            },
            Err(_) => "Replace text in file".to_string(),
        }
    }

    /// The places that a call is going to touch.
    pub fn tool_locations(&self, params: &Json) -> (r: Vec<ToolLocation>)
        ensures
            locations_view(r@) == located(params@),
    {
        match ReplaceParams::read(params) {
            Ok(read) => {
                location(read.file_path, None)
            },
            Err(_) => no_location(),
        }
    }
}

impl Tool for ReplaceTool {
    open spec fn name_text(&self) -> Seq<char> {
        tool_name()
    }

    open spec fn description_text(&self) -> Seq<char> {
        tool_description()
    }

    open spec fn advertised(&self) -> ToolDefinitionView {
        definition()
    }

    open spec fn validation(&self, params: JsonView) -> Result<(), Seq<char>> {
        validated(params)
    }

    open spec fn call_description(&self, params: JsonView) -> Seq<char> {
        described(params)
    }

    open spec fn call_locations(&self, params: JsonView) -> Seq<ToolLocationView> {
        located(params)
    }

    fn name(&self) -> (r: &str)
        ensures
            r@ == tool_name(),
    {
        ReplaceTool::name(self)
    }

    fn description(&self) -> (r: &str)
        ensures
            r@ == tool_description(),
    {
        ReplaceTool::description(self)
    }

    fn get_tool_definition(&self) -> (r: ToolDefinition)
        ensures
            r@ == definition(),
    {
        ReplaceTool::get_tool_definition(self)
    }

    fn validate_params(&self, params: &Json) -> (r: Result<(), String>)
        ensures
            unit_view(r) == validated(params@),
    {
        ReplaceTool::validate_params(self, params)
    }

    fn get_description(&self, params: &Json) -> (r: String)
        ensures
            r@ == described(params@),
    {
        ReplaceTool::get_description(self, params)
    }

    fn tool_locations(&self, params: &Json) -> (r: Vec<ToolLocation>)
        ensures
            locations_view(r@) == located(params@),
    {
        ReplaceTool::tool_locations(self, params)
    }
}

/// How often `needle` occurs in `hay` from `at` on, counted from the
/// left, no occurrence overlapping the one before.  The empty text
/// occurs nowhere.
pub open spec fn occurrences_from(hay: Seq<char>, needle: Seq<char>, at: int) -> nat
    decreases hay.len() - at,
{
    if needle.len() == 0 || at < 0 || at + needle.len() > hay.len() {
        0
    } else if occurs_at(hay, needle, at) {
        1 + occurrences_from(hay, needle, at + needle.len())
    } else {
        occurrences_from(hay, needle, at + 1)
    }
}

/// How often `needle` occurs in `hay`.
pub open spec fn occurrences(hay: Seq<char>, needle: Seq<char>) -> nat {
    occurrences_from(hay, needle, 0)
}

/// `hay` from `at` on, with `with` in place of each occurrence of
/// `needle` that is counted.
pub open spec fn replaced_from(hay: Seq<char>, needle: Seq<char>, with: Seq<char>, at: int)
    -> Seq<char>
    decreases hay.len() - at,
{
    if at < 0 || at > hay.len() {
        Seq::empty()
    } else if needle.len() == 0 || at + needle.len() > hay.len() {
        hay.skip(at)
    } else if occurs_at(hay, needle, at) {
        with + replaced_from(hay, needle, with, at + needle.len())
    } else {
        seq![hay[at]] + replaced_from(hay, needle, with, at + 1)
    }
}

/// `hay` with `with` in place of each occurrence of `needle`.
pub open spec fn replaced(hay: Seq<char>, needle: Seq<char>, with: Seq<char>) -> Seq<char> {
    replaced_from(hay, needle, with, 0)
}

/// `text` with `new` in place of each occurrence of `old`, and the number
/// of the occurrences.
pub fn replace_all(text: &str, old: &str, new: &str) -> (r: (String, usize))
    ensures
        r.0@ == replaced(text@, old@, new@),
        r.1 == occurrences(text@, old@),
{
    let hay = chars_of(text);
    let needle = chars_of(old);
    let mut out = String::new();
    let mut count: usize = 0;
    let mut at: usize = 0;
    if needle.len() == 0 {
        assert(text@.skip(0) =~= text@);
        return (text.to_string(), 0);
    }
    assert(out@ + replaced_from(text@, old@, new@, 0) =~= replaced(text@, old@, new@));
    while needle.len() <= hay.len() - at
        invariant
            at <= hay.len(),
            count <= at,
            hay@ == text@,
            needle@ == old@,
            needle.len() > 0,
            out@ + replaced_from(text@, old@, new@, at as int) == replaced(text@, old@, new@),
            count + occurrences_from(text@, old@, at as int) == occurrences(text@, old@),
        decreases hay.len() - at,
    {
        let ghost rest = replaced_from(text@, old@, new@, at as int);
        if matches_at(&hay, &needle, at) {
            let ghost before = out@;
            append(&mut out, new);
            proof {
                let tail = replaced_from(text@, old@, new@, at + needle.len());
                assert(rest == new@ + tail);
                assert((before + new@) + tail =~= before + (new@ + tail));
            }
            count += 1;
            at += needle.len();
        } else {
            let ghost before = out@;
            out.push(hay[at]);
            proof {
                let tail = replaced_from(text@, old@, new@, at + 1);
                assert(rest == seq![text@[at as int]] + tail);
                assert(before.push(text@[at as int]) + tail =~= before + (seq![text@[at as int]]
                    + tail));
            }
            at += 1;
        }
    }
    while at < hay.len()
        invariant
            at <= hay.len(),
            hay@ == text@,
            out@ + text@.skip(at as int) == replaced(text@, old@, new@),
        decreases hay.len() - at,
    {
        let ghost before = out@;
        out.push(hay[at]);
        proof {
            assert(before.push(text@[at as int]) + text@.skip(at + 1) =~= before + text@.skip(
                at as int,
            ));
        }
        at += 1;
    }
    assert(out@ + text@.skip(at as int) =~= out@);
    (out, count)
}

/// The report that nothing was found to replace.
pub open spec fn not_found(old: Seq<char>) -> Seq<char> {
    "String '"@ + old
        + "' not found in file. Please check the exact text including whitespace and line endings."@
}

/// The report that the text occurs `found` times where `expected` were
/// expected.
pub open spec fn miscounted(old: Seq<char>, expected: nat, found: nat) -> Seq<char> {
    "Expected "@ + decimal(expected) + " occurrences of '"@ + old + "' but found "@ + decimal(found)
        + ". Please verify the text and expected_replacements parameter."@
}

/// How many occurrences a call expects: one, unless it says otherwise.
pub open spec fn expected_count(expected: Option<usize>) -> usize {
    match expected {
        Some(count) => count,
        None => 1,
    }
}

/// What a replacement makes of the content of a file: the new content,
/// where the text to replace is not empty and occurs as often as the
/// call expects, and else the report of what is wrong.
pub open spec fn replacement(
    content: Seq<char>,
    old: Seq<char>,
    new: Seq<char>,
    expected: Option<usize>,
) -> Result<Seq<char>, Seq<char>> {
    if old.len() == 0 {
        Err("old_string cannot be empty"@)
    } else if occurrences(content, old) == 0 {
        Err(not_found(old))
    } else if occurrences(content, old) != expected_count(expected) {
        Err(miscounted(old, expected_count(expected) as nat, occurrences(content, old)))
    } else {
        Ok(replaced(content, old, new))
    }
}

/// A difference of two sizes as JSON and as text.
pub open spec fn size_change(original: Seq<char>, new: Seq<char>) -> int {
    byte_len(new) - byte_len(original)
}

/// A text on one line: `\n` written out for each line feed.
pub open spec fn on_one_line(text: Seq<char>) -> Seq<char> {
    replaced(text, "\n"@, "\\n"@)
}

/// What a replacement tells the model.
pub open spec fn replaced_json(
    path: Seq<char>,
    old: Seq<char>,
    new: Seq<char>,
    expected: Option<usize>,
    original: Seq<char>,
    content: Seq<char>,
) -> JsonView {
    JsonView::Object(
        seq![
            ("file_path"@, JsonView::Str(path)),
            ("replacements_made"@, count_view(expected_count(expected) as int)),
            ("old_string"@, JsonView::Str(old)),
            ("new_string"@, JsonView::Str(new)),
            ("original_size"@, count_view(byte_len(original) as int)),
            ("new_size"@, count_view(byte_len(content) as int)),
            ("size_change"@, count_view(size_change(original, content))),
            ("original_lines"@, count_view(line_count(original) as int)),
            ("new_lines"@, count_view(line_count(content) as int)),
        ],
    )
}

/// What a replacement shows the user, line by line.
pub open spec fn replaced_lines(
    path: Seq<char>,
    old: Seq<char>,
    new: Seq<char>,
    expected: Option<usize>,
    original: Seq<char>,
    content: Seq<char>,
) -> Seq<Seq<char>> {
    seq![
        "File: "@ + path,
        "Replacements made: "@ + decimal(expected_count(expected) as nat),
        "Size change: "@ + signed_decimal(size_change(original, content)) + " bytes"@,
        "Lines: "@ + decimal(line_count(original)) + " â†’ "@ + decimal(line_count(content)),
        ""@,
        "Replaced:"@,
        "  "@ + on_one_line(old),
        "With:"@,
        "  "@ + on_one_line(new),
    ]
}

/// The sentence that sums up a replacement.
pub open spec fn replaced_summary(path: Seq<char>, expected: Option<usize>) -> Seq<char> {
    if expected_count(expected) == 1 {
        "Replaced 1 occurrence in "@ + file_name(path)
    } else {
        "Replaced "@ + decimal(expected_count(expected) as nat) + " occurrences in "@ + file_name(
            path,
        )
    }
}

/// The result of replacing `old` by `new` in the file at `path`, whose
/// content was `original` and is now `content`.
pub open spec fn replaced_result(
    path: Seq<char>,
    old: Seq<char>,
    new: Seq<char>,
    expected: Option<usize>,
    original: Seq<char>,
    content: Seq<char>,
) -> ToolResultView {
    ToolResultView {
        summary: Some(replaced_summary(path, expected)),
        llm_content: replaced_json(path, old, new, expected, original, content),
        return_display: stacked(replaced_lines(path, old, new, expected, original, content)),
    }
}

impl ReplaceTool {
    /// What the replacement makes of the content of the file: the new
    /// content, or the report of why nothing is replaced.
    pub fn apply(&self, content: &str, old: &str, new: &str, expected: Option<usize>) -> (r: Result<
        String,
        String,
    >)
        ensures
            text_view(r) == replacement(content@, old@, new@, expected),
    {
        if old.unicode_len() == 0 {
            return Err("old_string cannot be empty".to_string());
        }
        let wanted: usize = match expected {
            Some(count) => count,
            None => 1,
        };
        let (replaced, found) = replace_all(content, old, new);
        if found == 0 {
            Err(
                join3(
                    "String '",
                    old,
                    "' not found in file. Please check the exact text including whitespace and line endings.",
                ),
            )
        } else if found != wanted {
            let mut report = join3("Expected ", count_text(wanted).as_str(), " occurrences of '");
            append(&mut report, old);
            append(&mut report, "' but found ");
            append(&mut report, count_text(found).as_str());
            append(&mut report, ". Please verify the text and expected_replacements parameter.");
            Err(report)
        } else {
            Ok(replaced)
        }
    }

    /// The result of a replacement that went through: the file at
    /// `file_path` held `original` and now holds `content`.  The sizes of
    /// the two are such that their difference can be written down.
    pub fn report(
        &self,
        file_path: &str,
        old: &str,
        new: &str,
        expected: Option<usize>,
        original: &str,
        content: &str,
    ) -> (r: ToolResult)
        requires
            byte_len(original@) <= i64::MAX,
            byte_len(content@) <= i64::MAX,
        ensures
            r@ == replaced_result(file_path@, old@, new@, expected, original@, content@),
    {
        let wanted: usize = match expected {
            Some(count) => count,
            None => 1,
        };
        let name = file_name_of(file_path);
        let summary = if wanted == 1 {
            join2("Replaced 1 occurrence in ", name.as_str())
        } else {
            let head = join3("Replaced ", count_text(wanted).as_str(), " occurrences in ");
            join2(head.as_str(), name.as_str())
        };
        let change: i64 = content.len() as i64 - original.len() as i64;
        let lines_before = count_lines(original);
        let lines_after = count_lines(content);

        let mut members: Vec<(String, Json)> = Vec::new();
        assert(members_view(members@) =~= Seq::empty());
        push_member(&mut members, "file_path", Json::string(file_path));
        push_member(&mut members, "replacements_made", count_json(wanted));
        push_member(&mut members, "old_string", Json::string(old));
        push_member(&mut members, "new_string", Json::string(new));
        push_member(&mut members, "original_size", count_json(original.len()));
        push_member(&mut members, "new_size", count_json(content.len()));
        push_member(&mut members, "size_change", Json::Number(JsonNumber::Int(change)));
        push_member(&mut members, "original_lines", count_json(lines_before));
        push_member(&mut members, "new_lines", count_json(lines_after));
        assert(members_view(members@) =~= replaced_json(
            file_path@,
            old@,
            new@,
            expected,
            original@,
            content@,
        )->Object_0);

        let mut lines = join3("Lines: ", count_text(lines_before).as_str(), " â†’ ");
        append(&mut lines, count_text(lines_after).as_str());
        let mut display: Vec<String> = Vec::new();
        assert(strings_view(display@) =~= Seq::empty());
        push_line(&mut display, join2("File: ", file_path));
        push_line(&mut display, join2("Replacements made: ", count_text(wanted).as_str()));
        push_line(
            &mut display,
            join3("Size change: ", signed_decimal_text(change).as_str(), " bytes"),
        );
        push_line(&mut display, lines);
        push_line(&mut display, "".to_string());
        push_line(&mut display, "Replaced:".to_string());
        push_line(&mut display, join2("  ", replace_all(old, "\n", "\\n").0.as_str()));
        push_line(&mut display, "With:".to_string());
        push_line(&mut display, join2("  ", replace_all(new, "\n", "\\n").0.as_str()));
        assert(strings_view(display@) =~= replaced_lines(
            file_path@,
            old@,
            new@,
            expected,
            original@,
            content@,
        ));
        ToolResult {
            summary: Some(summary),
            llm_content: Json::object(members),
            return_display: stack(&display),
        }
    }
}

} // verus!
