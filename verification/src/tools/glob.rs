//! The tool `glob`: how it is advertised, what it makes of the parameters
//! of a call before anything is run, and how it reports what the run
//! came to.

use vstd::prelude::*;
use crate::dispatcher::{parse_schema, schema_of};
use crate::function_calling::{ToolDefinition, ToolDefinitionView};
use crate::json::{Json, JsonView, members_view, push_member};
use crate::text::{decimal, join2, join3, opt_text, strings_view};
use crate::tools::{
    locations_view, Tool, ToolLocation, ToolLocationView, ToolResult, ToolResultView,
};
use crate::tools::params::{
    is_blank, location, no_location, one_location, optional_flag, optional_text, read_optional_flag,
    read_optional_text, read_text, required_text, text_is_blank, unit_view,
};
use crate::tools::report::{
    count_json, count_text, count_view, decorated, push_decorated, push_line, stack, stacked,
    texts_json, texts_view,
};

verus! {

/// The tool that finds files by a glob pattern.
#[derive(Debug, Clone, Copy, PartialEq, Eq, Structural)]
pub struct GlobTool;

/// The name under which the model calls the tool.
pub open spec fn tool_name() -> Seq<char> {
    "glob"@
}

/// What the tool does, for the model.
pub open spec fn tool_description() -> Seq<char> {
    "Efficiently finds files matching specific glob patterns (e.g., `src/**/*.ts`, `**/*.md`), returning absolute paths sorted by modification time (newest first). Ideal for quickly locating files based on their name or path structure, especially in large codebases."@
}

/// The JSON schema of the parameters of the tool, as text.
pub open spec fn schema_text() -> Seq<char> {
    "{\"type\":\"object\",\"properties\":{\"pattern\":{\"description\":\"The glob pattern to match against (e.g., '**/*.py', 'docs/*.md').\",\"type\":\"string\"},\"path\":{\"description\":\"Optional: The absolute path to the directory to search within. If omitted, searches the root directory.\",\"type\":\"string\"},\"case_sensitive\":{\"description\":\"Optional: Whether the search should be case-sensitive. Defaults to false.\",\"type\":\"boolean\"},\"respect_git_ignore\":{\"description\":\"Optional: Whether to respect .gitignore patterns when finding files. Only available in git repositories. Defaults to true.\",\"type\":\"boolean\"}},\"required\":[\"pattern\"]}"@
}

/// The tool as it is advertised.
pub open spec fn definition() -> ToolDefinitionView {
    ToolDefinitionView {
        name: tool_name(),
        description: tool_description(),
        parameters: schema_of(schema_text()),
    }
}

/// The parameters of a call.
#[derive(Debug, PartialEq, Eq)]
pub struct GlobParams {
    pub pattern: String,
    pub path: Option<String>,
    pub case_sensitive: Option<bool>,
    pub respect_git_ignore: Option<bool>,
}

pub ghost struct GlobParamsView {
    pub pattern: Seq<char>,
    pub path: Option<Seq<char>>,
    pub case_sensitive: Option<bool>,
    pub respect_git_ignore: Option<bool>,
}

impl View for GlobParams {
    type V = GlobParamsView;

    open spec fn view(&self) -> GlobParamsView {
        GlobParamsView {
            pattern: self.pattern@,
            path: opt_text(self.path),
            case_sensitive: self.case_sensitive,
            respect_git_ignore: self.respect_git_ignore,
        }
    }
}

/// The parameters that the arguments of a call spell out, or the report
/// of the first that is missing or of the wrong type.
pub open spec fn params_of(params: JsonView) -> Result<GlobParamsView, Seq<char>> {
    match required_text(params, "pattern"@) {
        Err(report) => Err(report),
        Ok(pattern) => match optional_text(params, "path"@) {
            Err(report) => Err(report),
            Ok(path) => match optional_flag(params, "case_sensitive"@) {
                Err(report) => Err(report),
                Ok(case_sensitive) => match optional_flag(params, "respect_git_ignore"@) {
                    Err(report) => Err(report),
                    Ok(respect_git_ignore) => Ok(
                        GlobParamsView {
                            pattern,
                            path,
                            case_sensitive,
                            respect_git_ignore,
                        },
                    ),
                },
            },
        },
    }
}

/// The value of parameters or a report.
pub open spec fn params_view(result: Result<GlobParams, String>) -> Result<
    GlobParamsView,
    Seq<char>,
> {
    match result {
        Ok(params) => Ok(params@),
        Err(report) => Err(report@),
    }
}

impl GlobParams {
    /// Reads the parameters out of the arguments of a call.
    pub fn read(params: &Json) -> (r: Result<GlobParams, String>)
        ensures
            params_view(r) == params_of(params@),
    {
        let pattern = match read_text(params, "pattern") {
            Ok(pattern) => pattern,
            Err(report) => { return Err(report); },
        };
        let path = match read_optional_text(params, "path") {
            Ok(path) => path,
            Err(report) => { return Err(report); },
        };
        let case_sensitive = match read_optional_flag(params, "case_sensitive") {
            Ok(case_sensitive) => case_sensitive,
            Err(report) => { return Err(report); },
        };
        let respect_git_ignore = match read_optional_flag(params, "respect_git_ignore") {
            Ok(respect_git_ignore) => respect_git_ignore,
            Err(report) => { return Err(report); },
        };
        Ok(GlobParams { pattern, path, case_sensitive, respect_git_ignore })
    }
}

/// Whether the tool accepts the arguments of a call, as far as the
/// arguments alone decide: `Ok`, or the report of what is wrong with them.
pub open spec fn validated(params: JsonView) -> Result<(), Seq<char>> {
    match params_of(params) {
        Err(report) => Err(report),
        Ok(read) => if is_blank(read.pattern) {
            Err("Pattern cannot be empty"@)
        } else {
            Ok(())
        },
    }
}

/// What a call is going to do, in words.
pub open spec fn described(params: JsonView) -> Seq<char> {
    match params_of(params) {
        Ok(read) => "Find files matching '"@ + read.pattern + "' in "@ + (match read.path {
            Some(path) => path,
            None => "current directory"@,
        }),
        Err(_) => "Find files with glob pattern"@,
    }
}

/// The places that a call is going to touch.
pub open spec fn located(params: JsonView) -> Seq<ToolLocationView> {
    match params_of(params) {
        Ok(read) => one_location(
            match read.path {
                Some(path) => path,
                None => "."@,
            },
            None,
        ),
        Err(_) => Seq::empty(),
    }
}

impl GlobTool {
    /// The tool.
    pub fn new() -> (r: Self)
        ensures
            r == GlobTool,
    {
        GlobTool
    }

    /// The name under which the model calls the tool.
    pub fn name(&self) -> (r: &'static str)
        ensures
            r@ == tool_name(),
    {
        "glob"
    }

    /// What the tool does, for the model.
    pub fn description(&self) -> (r: &'static str)
        ensures
            r@ == tool_description(),
    {
        "Efficiently finds files matching specific glob patterns (e.g., `src/**/*.ts`, `**/*.md`), returning absolute paths sorted by modification time (newest first). Ideal for quickly locating files based on their name or path structure, especially in large codebases."
    }

    /// The tool as it is advertised.
    pub fn get_tool_definition(&self) -> (r: ToolDefinition)
        ensures
            r@ == definition(),
    {
        ToolDefinition {
            name: self.name().to_string(),
            description: self.description().to_string(),
            parameters: parse_schema(
                "{\"type\":\"object\",\"properties\":{\"pattern\":{\"description\":\"The glob pattern to match against (e.g., '**/*.py', 'docs/*.md').\",\"type\":\"string\"},\"path\":{\"description\":\"Optional: The absolute path to the directory to search within. If omitted, searches the root directory.\",\"type\":\"string\"},\"case_sensitive\":{\"description\":\"Optional: Whether the search should be case-sensitive. Defaults to false.\",\"type\":\"boolean\"},\"respect_git_ignore\":{\"description\":\"Optional: Whether to respect .gitignore patterns when finding files. Only available in git repositories. Defaults to true.\",\"type\":\"boolean\"}},\"required\":[\"pattern\"]}",
            ),
        }
    }

    /// Whether the tool accepts the arguments of a call, as far as the
    /// arguments alone decide.
    pub fn validate_params(&self, params: &Json) -> (r: Result<(), String>)
        ensures
            unit_view(r) == validated(params@),
    {
        match GlobParams::read(params) {
            Err(report) => Err(report),
            Ok(read) => {
                if text_is_blank(read.pattern.as_str()) {
                    Err("Pattern cannot be empty".to_string())
                } else {
                    Ok(())
                }
            },
        }
    }

    /// What a call is going to do, in words.
    pub fn get_description(&self, params: &Json) -> (r: String)
        ensures
            r@ == described(params@),
    {
        match GlobParams::read(params) {
            Ok(read) => {
                let place = match read.path {
                    Some(path) => path,
                    None => "current directory".to_string(),
                };
                let head = join3("Find files matching '", read.pattern.as_str(), "' in ");
                join2(head.as_str(), place.as_str())
            },
            Err(_) => "Find files with glob pattern".to_string(),
        }
    }

    /// The places that a call is going to touch.
    pub fn tool_locations(&self, params: &Json) -> (r: Vec<ToolLocation>)
        ensures
            locations_view(r@) == located(params@),
    {
        match GlobParams::read(params) {
            Ok(read) => {
                let path = match read.path {
                    Some(path) => path,
                    None => ".".to_string(),
                };
                location(path, None)
            },
            Err(_) => no_location(),
        }
    }
}

impl Tool for GlobTool {
    open spec fn name_text(&self) -> Seq<char> {
        tool_name()
    }

    open spec fn description_text(&self) -> Seq<char> {
        tool_description()
    }

    open spec fn advertised(&self) -> ToolDefinitionView {
        definition()
    }

    open spec fn validation(&self, params: JsonView) -> Result<(), Seq<char>> {
        validated(params)
    }

    open spec fn call_description(&self, params: JsonView) -> Seq<char> {
        described(params)
    }

    open spec fn call_locations(&self, params: JsonView) -> Seq<ToolLocationView> {
        located(params)
    }

    fn name(&self) -> (r: &str)
        ensures
            r@ == tool_name(),
    {
        GlobTool::name(self)
    }

    fn description(&self) -> (r: &str)
        ensures
            r@ == tool_description(),
    {
        GlobTool::description(self)
    }

    fn get_tool_definition(&self) -> (r: ToolDefinition)
        ensures
            r@ == definition(),
    {
        GlobTool::get_tool_definition(self)
    }

    fn validate_params(&self, params: &Json) -> (r: Result<(), String>)
        ensures
            unit_view(r) == validated(params@),
    {
        GlobTool::validate_params(self, params)
    }

    fn get_description(&self, params: &Json) -> (r: String)
        ensures
            r@ == described(params@),
    {
        GlobTool::get_description(self, params)
    }

    fn tool_locations(&self, params: &Json) -> (r: Vec<ToolLocation>)
        ensures
            locations_view(r@) == located(params@),
    {
        GlobTool::tool_locations(self, params)
    }
}

/// How many of the files that were found are shown one by one.
pub open spec fn shown_limit() -> nat {
    50
}

/// `true` or `false`, in words.
pub open spec fn flag_text(flag: bool) -> Seq<char> {
    if flag {
        "true"@
    } else {
        "false"@
    }
}

/// Whether a call asks for case to count: it does not unless it says so.
pub open spec fn case_counts(case_sensitive: Option<bool>) -> bool {
    case_sensitive == Some(true)
}

/// What a search for files tells the model.
pub open spec fn found_json(
    pattern: Seq<char>,
    search_path: Seq<char>,
    case_sensitive: Option<bool>,
    files: Seq<Seq<char>>,
) -> JsonView {
    JsonView::Object(
        seq![
            ("pattern"@, JsonView::Str(pattern)),
            ("search_path"@, JsonView::Str(search_path)),
            ("case_sensitive"@, JsonView::Bool(case_counts(case_sensitive))),
            ("total_matches"@, count_view(files.len() as int)),
            ("files"@, texts_view(files)),
        ],
    )
}

/// The files as they are shown: the first fifty one by one, and the
/// number of the others; or that there is none.
pub open spec fn files_lines(files: Seq<Seq<char>>) -> Seq<Seq<char>> {
    if files.len() == 0 {
        seq!["No files found matching the pattern."@]
    } else if files.len() <= shown_limit() {
        seq!["Files (sorted by modification time, newest first):"@] + decorated(
            files,
            "  📄 "@,
            ""@,
        )
    } else {
        seq!["Files (sorted by modification time, newest first):"@] + decorated(
            files.take(shown_limit() as int),
            "  📄 "@,
            ""@,
        ) + seq!["  ... and "@ + decimal((files.len() - shown_limit()) as nat) + " more files"@]
    }
}

/// What a search for files shows the user, line by line.
pub open spec fn found_lines(
    pattern: Seq<char>,
    search_path: Seq<char>,
    case_sensitive: Option<bool>,
    files: Seq<Seq<char>>,
) -> Seq<Seq<char>> {
    seq![
        "Pattern: "@ + pattern,
        "Search path: "@ + search_path,
        "Case sensitive: "@ + flag_text(case_counts(case_sensitive)),
        "Total matches: "@ + decimal(files.len()),
        ""@,
    ] + files_lines(files)
}

/// The result of a search under `search_path` for the files that match
/// `pattern`: the `files`, in the order in which they are to be shown.
pub open spec fn found(
    pattern: Seq<char>,
    search_path: Seq<char>,
    case_sensitive: Option<bool>,
    files: Seq<Seq<char>>,
) -> ToolResultView {
    ToolResultView {
        summary: Some("Found "@ + decimal(files.len()) + " files matching pattern"@),
        llm_content: found_json(pattern, search_path, case_sensitive, files),
        return_display: stacked(found_lines(pattern, search_path, case_sensitive, files)),
    }
}

/// The first `n` of `texts`, or all of them where they are fewer.
pub fn first_texts(texts: &Vec<String>, n: usize) -> (r: Vec<String>)
    ensures
        strings_view(r@) == strings_view(texts@).take(
            if n <= texts.len() {
                n as int
            } else {
                texts.len() as int
            },
        ),
{
    let ghost all = strings_view(texts@);
    let mut out: Vec<String> = Vec::new();
    let mut i: usize = 0;
    assert(strings_view(out@) =~= all.take(0));
    while i < texts.len() && i < n
        invariant
            i <= texts.len(),
            i <= n,
            all == strings_view(texts@),
            strings_view(out@) == all.take(i as int),
        decreases texts.len() - i,
    {
        push_line(&mut out, texts[i].clone());
        assert(all.take(i as int).push(all[i as int]) =~= all.take(i + 1));
        i += 1;
    }
    out
}

impl GlobTool {
    /// The result of a search that went through: under `search_path`,
    /// the `files` match `pattern`; they come in the order in which they
    /// are to be shown.
    pub fn report(
        &self,
        pattern: &str,
        search_path: &str,
        case_sensitive: Option<bool>,
        files: &Vec<String>,
    ) -> (r: ToolResult)
        ensures
            r@ == found(pattern@, search_path@, case_sensitive, strings_view(files@)),
    {
        let case_counts = match case_sensitive {
            Some(flag) => flag,
            None => false,
        };
        let digits = count_text(files.len());

        let mut members: Vec<(String, Json)> = Vec::new();
        assert(members_view(members@) =~= Seq::empty());
        push_member(&mut members, "pattern", Json::string(pattern));
        push_member(&mut members, "search_path", Json::string(search_path));
        push_member(&mut members, "case_sensitive", Json::Bool(case_counts));
        push_member(&mut members, "total_matches", count_json(files.len()));
        push_member(&mut members, "files", texts_json(files));
        assert(members_view(members@) =~= found_json(
            pattern@,
            search_path@,
            case_sensitive,
            strings_view(files@),
        )->Object_0);

        let mut display: Vec<String> = Vec::new();
        assert(strings_view(display@) =~= Seq::empty());
        push_line(&mut display, join2("Pattern: ", pattern));
        push_line(&mut display, join2("Search path: ", search_path));
        push_line(
            &mut display,
            join2(
                "Case sensitive: ",
                if case_counts {
                    "true"
                } else {
                    "false"
                },
            ),
        );
        push_line(&mut display, join2("Total matches: ", digits.as_str()));
        push_line(&mut display, "".to_string());
        if files.len() == 0 {
            push_line(&mut display, "No files found matching the pattern.".to_string());
        } else {
            push_line(
                &mut display,
                "Files (sorted by modification time, newest first):".to_string(),
            );
            let shown = first_texts(files, 50);
            push_decorated(&mut display, &shown, "  📄 ", "");
            if files.len() > 50 {
                let others = count_text(files.len() - 50);
                push_line(&mut display, join3("  ... and ", others.as_str(), " more files"));
            } else {
                assert(strings_view(files@).take(files.len() as int) =~= strings_view(files@));
            }
        }
        assert(strings_view(display@) =~= found_lines(
            pattern@,
            search_path@,
            case_sensitive,
            strings_view(files@),
        ));
        ToolResult {
            summary: Some(join3("Found ", digits.as_str(), " files matching pattern")),
            llm_content: Json::object(members),
            return_display: stack(&display),
        }
    }
}

} // verus!
