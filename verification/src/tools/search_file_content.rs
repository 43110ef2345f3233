//! The tool `search_file_content`: how it is advertised, what it makes of the parameters
//! of a call before anything is run, and how it reports what the run
//! came to.

use vstd::prelude::*;
use crate::dispatcher::{parse_schema, schema_of};
use crate::function_calling::{ToolDefinition, ToolDefinitionView};
use crate::json::{items_view, Json, JsonView, members_view, push_item, push_member};
use crate::text::{append, chars_of, decimal, join2, join3, opt_text, same_text, strings_view};
use crate::tools::{
    locations_view, Tool, ToolLocation, ToolLocationView, ToolResult, ToolResultView,
};
use crate::tools::params::{
    location, no_location, one_location, optional_text, read_optional_text, read_text,
    required_text, texts_view as texts_result_view, unit_view,
};
use crate::tools::patterns::{
    compile_regex, file_name, file_name_of, flags_match, glob_to_regex, glob_to_regex_source,
    is_text_file, is_text_path, match_each, regex_error, regex_match, regex_source,
};
use crate::tools::report::{
    align_right, count_json, count_text, count_view, lines_of, push_line, push_lines, right_aligned,
    split_lines, stack, stacked,
};

verus! {

/// The tool that searches the content of files.
#[derive(Debug, Clone, Copy, PartialEq, Eq, Structural)]
pub struct SearchFileContentTool;

/// The name under which the model calls the tool.
pub open spec fn tool_name() -> Seq<char> {
    "search_file_content"@
}

/// What the tool does, for the model.
pub open spec fn tool_description() -> Seq<char> {
    "Searches for a regular expression pattern within the content of files in a specified directory (or current working directory). Can filter files by a glob pattern. Returns the lines containing matches, along with their file paths and line numbers."@
}

/// The JSON schema of the parameters of the tool, as text.
pub open spec fn schema_text() -> Seq<char> {
    "{\"type\":\"object\",\"properties\":{\"pattern\":{\"description\":\"The regular expression (regex) pattern to search for within file contents (e.g., 'function\\\\s+myFunction', 'import\\\\s+\\\\{.*\\\\}\\\\s+from\\\\s+.*').\",\"type\":\"string\"},\"path\":{\"description\":\"Optional: The absolute path to the directory to search within. If omitted, searches the current working directory.\",\"type\":\"string\"},\"include\":{\"description\":\"Optional: A glob pattern to filter which files are searched (e.g., '*.js', '*.{ts,tsx}', 'src/**'). If omitted, searches all files (respecting potential global ignores).\",\"type\":\"string\"}},\"required\":[\"pattern\"]}"@
}

/// The tool as it is advertised.
pub open spec fn definition() -> ToolDefinitionView {
    ToolDefinitionView {
        name: tool_name(),
        description: tool_description(),
        parameters: schema_of(schema_text()),
    }
}

/// The parameters of a call.
#[derive(Debug, PartialEq, Eq)]
pub struct SearchFileContentParams {
    pub pattern: String,
    pub path: Option<String>,
    pub included: Option<String>,
}

pub ghost struct SearchFileContentParamsView {
    pub pattern: Seq<char>,
    pub path: Option<Seq<char>>,
    pub included: Option<Seq<char>>,
}

impl View for SearchFileContentParams {
    type V = SearchFileContentParamsView;

    open spec fn view(&self) -> SearchFileContentParamsView {
        SearchFileContentParamsView {
            pattern: self.pattern@,
            path: opt_text(self.path),
            included: opt_text(self.included),
        }
    }
}

/// The parameters that the arguments of a call spell out, or the report
/// of the first that is missing or of the wrong type.
pub open spec fn params_of(params: JsonView) -> Result<SearchFileContentParamsView, Seq<char>> {
    match required_text(params, "pattern"@) {
        Err(report) => Err(report),
        Ok(pattern) => match optional_text(params, "path"@) {
            Err(report) => Err(report),
            Ok(path) => match optional_text(params, "include"@) {
                Err(report) => Err(report),
                Ok(included) => Ok(SearchFileContentParamsView { pattern, path, included }),
            },
        },
    }
}

/// The value of parameters or a report.
pub open spec fn params_view(result: Result<SearchFileContentParams, String>) -> Result<
    SearchFileContentParamsView,
    Seq<char>,
> {
    match result {
        Ok(params) => Ok(params@),
        Err(report) => Err(report@),
    }
}

impl SearchFileContentParams {
    /// Reads the parameters out of the arguments of a call.
    pub fn read(params: &Json) -> (r: Result<SearchFileContentParams, String>)
        ensures
            params_view(r) == params_of(params@),
    {
        let pattern = match read_text(params, "pattern") {
            Ok(pattern) => pattern,
            Err(report) => { return Err(report); },
        };
        let path = match read_optional_text(params, "path") {
            Ok(path) => path,
            Err(report) => { return Err(report); },
        };
        let included = match read_optional_text(params, "include") {
            Ok(included) => included,
            Err(report) => { return Err(report); },
        };
        Ok(SearchFileContentParams { pattern, path, included })
    }
}

/// Whether the tool accepts the arguments of a call, as far as the
/// arguments alone decide: `Ok`, or the report of what is wrong with them.
pub open spec fn validated(params: JsonView) -> Result<(), Seq<char>> {
    match params_of(params) {
        Err(report) => Err(report),
        Ok(read) => match regex_error(read.pattern) {
            Some(reason) => Err("Invalid regex pattern '"@ + read.pattern + "': "@ + reason),
            None => Ok(()),
        },
    }
}

/// What a call is going to do, in words.
pub open spec fn described(params: JsonView) -> Seq<char> {
    match params_of(params) {
        Ok(read) => "Search for '"@ + read.pattern + "' in "@ + (match read.path {
            Some(path) => path,
            None => "current directory"@,
        }) + " ("@ + (match read.included {
            Some(included) => included,
            None => "all files"@,
        }) + ")"@,
        Err(_) => "Search file content"@,
    }
}

/// The places that a call is going to touch.
pub open spec fn located(params: JsonView) -> Seq<ToolLocationView> {
    match params_of(params) {
        Ok(read) => one_location(
            match read.path {
                Some(path) => path,
                None => "."@,
            },
            None,
        ),
        Err(_) => Seq::empty(),
    }
}

impl SearchFileContentTool {
    /// The tool.
    pub fn new() -> (r: Self)
        ensures
            r == SearchFileContentTool,
    {
        SearchFileContentTool
    }

    /// The name under which the model calls the tool.
    pub fn name(&self) -> (r: &'static str)
        ensures
            r@ == tool_name(),
    {
        "search_file_content"
    }

    /// What the tool does, for the model.
    pub fn description(&self) -> (r: &'static str)
        ensures
            r@ == tool_description(),
    {
        "Searches for a regular expression pattern within the content of files in a specified directory (or current working directory). Can filter files by a glob pattern. Returns the lines containing matches, along with their file paths and line numbers."
    }

    /// The tool as it is advertised.
    pub fn get_tool_definition(&self) -> (r: ToolDefinition)
        ensures
            r@ == definition(),
    {
        ToolDefinition {
            name: self.name().to_string(),
            description: self.description().to_string(),
            parameters: parse_schema(
                "{\"type\":\"object\",\"properties\":{\"pattern\":{\"description\":\"The regular expression (regex) pattern to search for within file contents (e.g., 'function\\\\s+myFunction', 'import\\\\s+\\\\{.*\\\\}\\\\s+from\\\\s+.*').\",\"type\":\"string\"},\"path\":{\"description\":\"Optional: The absolute path to the directory to search within. If omitted, searches the current working directory.\",\"type\":\"string\"},\"include\":{\"description\":\"Optional: A glob pattern to filter which files are searched (e.g., '*.js', '*.{ts,tsx}', 'src/**'). If omitted, searches all files (respecting potential global ignores).\",\"type\":\"string\"}},\"required\":[\"pattern\"]}",
            ),
        }
    }

    /// Whether the file that a path leads to holds text.
    pub fn is_text_file(path: &str) -> (r: bool)
        ensures
            r == is_text_path(path@),
    {
        is_text_file(path)
    }

    /// Whether the tool accepts the arguments of a call, as far as the
    /// arguments alone decide.
    pub fn validate_params(&self, params: &Json) -> (r: Result<(), String>)
        ensures
            unit_view(r) == validated(params@),
    {
        match SearchFileContentParams::read(params) {
            Err(report) => Err(report),
            Ok(read) => {
                match compile_regex(read.pattern.as_str()) {
                    Ok(_) => Ok(()),
                    Err(reason) => {
                        let head = join3("Invalid regex pattern '", read.pattern.as_str(), "': ");
                        Err(join2(head.as_str(), reason.as_str()))
                    },
                }
            },
        }
    }

    /// What a call is going to do, in words.
    pub fn get_description(&self, params: &Json) -> (r: String)
        ensures
            r@ == described(params@),
    {
        match SearchFileContentParams::read(params) {
            Ok(read) => {
                let place = match read.path {
                    Some(path) => path,
                    None => "current directory".to_string(),
                };
                let files = match read.included {
                    Some(included) => included,
                    None => "all files".to_string(),
                };
                let head = join3("Search for '", read.pattern.as_str(), "' in ");
                let placed = join3(head.as_str(), place.as_str(), " (");
                join3(placed.as_str(), files.as_str(), ")")
            },
            Err(_) => "Search file content".to_string(),
        }
    }

    /// The places that a call is going to touch.
    pub fn tool_locations(&self, params: &Json) -> (r: Vec<ToolLocation>)
        ensures
            locations_view(r@) == located(params@),
    {
        match SearchFileContentParams::read(params) {
            Ok(read) => {
                let path = match read.path {
                    Some(path) => path,
                    None => ".".to_string(),
                };
                location(path, None)
            },
            Err(_) => no_location(),
        }
    }
}

impl Tool for SearchFileContentTool {
    open spec fn name_text(&self) -> Seq<char> {
        tool_name()
    }

    open spec fn description_text(&self) -> Seq<char> {
        tool_description()
    }

    open spec fn advertised(&self) -> ToolDefinitionView {
        definition()
    }

    open spec fn validation(&self, params: JsonView) -> Result<(), Seq<char>> {
        validated(params)
    }

    open spec fn call_description(&self, params: JsonView) -> Seq<char> {
        described(params)
    }

    open spec fn call_locations(&self, params: JsonView) -> Seq<ToolLocationView> {
        located(params)
    }

    fn name(&self) -> (r: &str)
        ensures
            r@ == tool_name(),
    {
        SearchFileContentTool::name(self)
    }

    fn description(&self) -> (r: &str)
        ensures
            r@ == tool_description(),
    {
        SearchFileContentTool::description(self)
    }

    fn get_tool_definition(&self) -> (r: ToolDefinition)
        ensures
            r@ == definition(),
    {
        SearchFileContentTool::get_tool_definition(self)
    }

    fn validate_params(&self, params: &Json) -> (r: Result<(), String>)
        ensures
            unit_view(r) == validated(params@),
    {
        SearchFileContentTool::validate_params(self, params)
    }

    fn get_description(&self, params: &Json) -> (r: String)
        ensures
            r@ == described(params@),
    {
        SearchFileContentTool::get_description(self, params)
    }

    fn tool_locations(&self, params: &Json) -> (r: Vec<ToolLocation>)
        ensures
            locations_view(r@) == located(params@),
    {
        SearchFileContentTool::tool_locations(self, params)
    }
}

/// Whether a directory is passed over in a search, by its name: a
/// hidden one, and one that holds what was built or fetched.
pub open spec fn is_passed_over(name: Seq<char>) -> bool {
    (name.len() > 0 && name[0] == '.') || name == "node_modules"@ || name == "target"@ || name
        == "build"@ || name == "dist"@ || name == "__pycache__"@
}

/// Whether a file is searched: it holds text, and its name matches the
/// pattern of the call where the call has one.
pub open spec fn is_searched(path: Seq<char>, included: Option<Seq<char>>) -> bool {
    is_text_path(path) && match included {
        Some(pattern) => regex_match(regex_source(pattern), file_name(path)),
        None => true,
    }
}

/// The files among `paths` that are searched, in order.
pub open spec fn searched_files(paths: Seq<Seq<char>>, included: Option<Seq<char>>) -> Seq<
    Seq<char>,
>
    decreases paths.len(),
{
    if paths.len() == 0 {
        Seq::empty()
    } else if is_searched(paths.last(), included) {
        searched_files(paths.drop_last(), included).push(paths.last())
    } else {
        searched_files(paths.drop_last(), included)
    }
}

/// The files that are searched, or the report of why the pattern of the
/// call for their names cannot be used.
pub open spec fn selected_files(paths: Seq<Seq<char>>, included: Option<Seq<char>>) -> Result<
    Seq<Seq<char>>,
    Seq<char>,
> {
    match included {
        Some(pattern) => match regex_error(regex_source(pattern)) {
            Some(message) => Err("Invalid regex pattern: "@ + message),
            None => Ok(searched_files(paths, included)),
        },
        None => Ok(searched_files(paths, included)),
    }
}

/// A file and its content.
#[derive(Debug, PartialEq, Eq)]
pub struct SourceFile {
    pub path: String,
    pub content: String,
}

/// A file and its content.
pub ghost struct SourceFileView {
    pub path: Seq<char>,
    pub content: Seq<char>,
}

impl View for SourceFile {
    type V = SourceFileView;

    open spec fn view(&self) -> SourceFileView {
        SourceFileView { path: self.path@, content: self.content@ }
    }
}

/// The files as values.
pub open spec fn sources_view(files: Seq<SourceFile>) -> Seq<SourceFileView> {
    Seq::new(files.len(), |i: int| files[i]@)
}

/// A line in which the pattern was found: its number, counted from 1,
/// and the line.
#[derive(Debug, PartialEq, Eq)]
pub struct Hit {
    pub line_number: usize,
    pub content: String,
}

/// A line in which the pattern was found.
pub ghost struct HitView {
    pub line_number: nat,
    pub content: Seq<char>,
}

impl View for Hit {
    type V = HitView;

    open spec fn view(&self) -> HitView {
        HitView { line_number: self.line_number as nat, content: self.content@ }
    }
}

/// The hits as values.
pub open spec fn hits_view(hits: Seq<Hit>) -> Seq<HitView> {
    Seq::new(hits.len(), |i: int| hits[i]@)
}

/// A file and the lines of it in which the pattern was found.
#[derive(Debug, PartialEq, Eq)]
pub struct FileHits {
    pub path: String,
    pub hits: Vec<Hit>,
}

/// A file and the lines of it in which the pattern was found.
pub ghost struct FileHitsView {
    pub path: Seq<char>,
    pub hits: Seq<HitView>,
}

impl View for FileHits {
    type V = FileHitsView;

    open spec fn view(&self) -> FileHitsView {
        FileHitsView { path: self.path@, hits: hits_view(self.hits@) }
    }
}

/// The files with their hits as values.
pub open spec fn found_view(found: Seq<FileHits>) -> Seq<FileHitsView> {
    Seq::new(found.len(), |i: int| found[i]@)
}

/// The lines among `lines` in which the pattern has a match, each with
/// its number.
pub open spec fn line_hits(pattern: Seq<char>, lines: Seq<Seq<char>>) -> Seq<HitView>
    decreases lines.len(),
{
    if lines.len() == 0 {
        Seq::empty()
    } else if regex_match(pattern, lines.last()) {
        line_hits(pattern, lines.drop_last()).push(
            HitView { line_number: lines.len(), content: lines.last() },
        )
    } else {
        line_hits(pattern, lines.drop_last())
    }
}

/// The files among `files` that hold a line in which the pattern has a
/// match, each with those lines.
pub open spec fn file_hits(pattern: Seq<char>, files: Seq<SourceFileView>) -> Seq<FileHitsView>
    decreases files.len(),
{
    if files.len() == 0 {
        Seq::empty()
    } else if line_hits(pattern, lines_of(files.last().content)).len() > 0 {
        file_hits(pattern, files.drop_last()).push(
            FileHitsView {
                path: files.last().path,
                hits: line_hits(pattern, lines_of(files.last().content)),
            },
        )
    } else {
        file_hits(pattern, files.drop_last())
    }
}

/// What a search finds in `files`, or the message that says why the
/// pattern is no regular expression.
pub open spec fn search_outcome(pattern: Seq<char>, files: Seq<SourceFileView>) -> Result<
    Seq<FileHitsView>,
    Seq<char>,
> {
    match regex_error(pattern) {
        Some(message) => Err(message),
        None => Ok(file_hits(pattern, files)),
    }
}

/// What a search came to, as values.
pub open spec fn search_view(outcome: Result<Vec<FileHits>, String>) -> Result<
    Seq<FileHitsView>,
    Seq<char>,
> {
    match outcome {
        Ok(found) => Ok(found_view(found@)),
        Err(message) => Err(message@),
    }
}

/// The number of the hits in all the files.
pub open spec fn hit_count(found: Seq<FileHitsView>) -> nat
    decreases found.len(),
{
    if found.len() == 0 {
        0
    } else {
        hit_count(found.drop_last()) + found.last().hits.len()
    }
}

/// What a hit tells the model.
pub open spec fn hit_json(hit: HitView) -> JsonView {
    JsonView::Object(
        seq![
            ("line_number"@, count_view(hit.line_number as int)),
            ("content"@, JsonView::Str(hit.content)),
        ],
    )
}

/// What the hits of a file tell the model.
pub open spec fn file_json(file: FileHitsView) -> JsonView {
    JsonView::Object(
        seq![
            ("file_path"@, JsonView::Str(file.path)),
            ("matches"@, JsonView::Array(Seq::new(file.hits.len(), |i: int| hit_json(file.hits[i])))),
        ],
    )
}

/// The line that shows a hit: its number in a column, and the line.
pub open spec fn hit_line(hit: HitView) -> Seq<char> {
    "  "@ + right_aligned(decimal(hit.line_number), 4) + ": "@ + hit.content
}

/// The lines that show the hits of a file: the file, its hits, and an
/// empty line.
pub open spec fn file_lines(file: FileHitsView) -> Seq<Seq<char>> {
    seq!["📄 "@ + file.path] + Seq::new(file.hits.len(), |i: int| hit_line(file.hits[i])) + seq![
        ""@,
    ]
}

/// The lines that show the hits of all the files.
pub open spec fn hits_lines(found: Seq<FileHitsView>) -> Seq<Seq<char>>
    decreases found.len(),
{
    if found.len() == 0 {
        Seq::empty()
    } else {
        hits_lines(found.drop_last()) + file_lines(found.last())
    }
}

/// What a search tells the model.
pub open spec fn search_json(
    pattern: Seq<char>,
    search_path: Seq<char>,
    included: Option<Seq<char>>,
    found: Seq<FileHitsView>,
) -> JsonView {
    JsonView::Object(
        seq![
            ("pattern"@, JsonView::Str(pattern)),
            ("search_path"@, JsonView::Str(search_path)),
            (
                "include_pattern"@,
                match included {
                    Some(included) => JsonView::Str(included),
                    None => JsonView::Null,
                },
            ),
            ("total_matches"@, count_view(hit_count(found) as int)),
            ("files_with_matches"@, count_view(found.len() as int)),
            ("matches"@, JsonView::Array(Seq::new(found.len(), |i: int| file_json(found[i])))),
        ],
    )
}

/// What a search shows the user, line by line.
pub open spec fn search_lines(
    pattern: Seq<char>,
    search_path: Seq<char>,
    included: Option<Seq<char>>,
    found: Seq<FileHitsView>,
) -> Seq<Seq<char>> {
    seq![
        "Search pattern: "@ + pattern,
        "Search path: "@ + search_path,
        match included {
            Some(included) => "Include pattern: "@ + included,
            None => "Include pattern: all files"@,
        },
        "Total matches: "@ + decimal(hit_count(found)) + " in "@ + decimal(found.len()) + " files"@,
        ""@,
    ] + hits_lines(found)
}

/// The result of a search under `search_path` for the lines in which
/// `pattern` has a match: the files that hold such lines, with them.
pub open spec fn search_result(
    pattern: Seq<char>,
    search_path: Seq<char>,
    included: Option<Seq<char>>,
    found: Seq<FileHitsView>,
) -> ToolResultView {
    ToolResultView {
        summary: Some(
            "Found "@ + decimal(hit_count(found)) + " matches in "@ + decimal(found.len())
                + " files"@,
        ),
        llm_content: search_json(pattern, search_path, included, found),
        return_display: stacked(search_lines(pattern, search_path, included, found)),
    }
}

/// The lines among `lines` in which `pattern` has a match, as `flags`
/// says it of each.
fn hits_among(lines: &Vec<String>, flags: &Vec<bool>, Ghost(pattern): Ghost<Seq<char>>) -> (r:
    Vec<Hit>)
    requires
        flags_match(pattern, strings_view(lines@), flags@),
    ensures
        hits_view(r@) == line_hits(pattern, strings_view(lines@)),
{
    let ghost all = strings_view(lines@);
    let mut hits: Vec<Hit> = Vec::new();
    let mut i: usize = 0;
    assert(hits_view(hits@) =~= Seq::empty());
    assert(all.take(0) =~= Seq::empty());
    while i < lines.len()
        invariant
            i <= lines.len(),
            all == strings_view(lines@),
            flags_match(pattern, all, flags@),
            hits_view(hits@) == line_hits(pattern, all.take(i as int)),
        decreases lines.len() - i,
    {
        proof {
            assert(all.take(i + 1).drop_last() =~= all.take(i as int));
            assert(flags@[i as int] == regex_match(pattern, all[i as int]));
        }
        if flags[i] {
            let ghost before = hits_view(hits@);
            let hit = Hit { line_number: i + 1, content: lines[i].clone() };
            hits.push(hit);
            assert(hits_view(hits@) =~= before.push(
                HitView { line_number: (i + 1) as nat, content: all[i as int] },
            ));
        }
        i += 1;
    }
    assert(all.take(i as int) =~= all);
    hits
}

/// What a hit tells the model.
pub fn hit_to_json(hit: &Hit) -> (r: Json)
    ensures
        r@ == hit_json(hit@),
{
    let mut members: Vec<(String, Json)> = Vec::new();
    assert(members_view(members@) =~= Seq::empty());
    push_member(&mut members, "line_number", count_json(hit.line_number));
    push_member(&mut members, "content", Json::string(hit.content.as_str()));
    assert(members_view(members@) =~= hit_json(hit@)->Object_0);
    Json::object(members)
}

/// What the hits of a file tell the model.
pub fn file_to_json(file: &FileHits) -> (r: Json)
    ensures
        r@ == file_json(file@),
{
    let ghost all = file@.hits;
    let mut items: Vec<Json> = Vec::new();
    let mut i: usize = 0;
    assert(items_view(items@) =~= Seq::new(0, |k: int| hit_json(all[k])));
    while i < file.hits.len()
        invariant
            i <= file.hits.len(),
            all == file@.hits,
            items_view(items@) == Seq::new(i as nat, |k: int| hit_json(all[k])),
        decreases file.hits.len() - i,
    {
        let ghost before = items_view(items@);
        push_item(&mut items, hit_to_json(&file.hits[i]));
        assert(before.push(hit_json(all[i as int])) =~= Seq::new(
            (i + 1) as nat,
            |k: int| hit_json(all[k]),
        ));
        i += 1;
    }
    let mut members: Vec<(String, Json)> = Vec::new();
    assert(members_view(members@) =~= Seq::empty());
    push_member(&mut members, "file_path", Json::string(file.path.as_str()));
    push_member(&mut members, "matches", Json::array(items));
    assert(members_view(members@) =~= file_json(file@)->Object_0);
    Json::object(members)
}

/// The lines that show the hits of a file.
pub fn file_to_lines(file: &FileHits) -> (r: Vec<String>)
    ensures
        strings_view(r@) == file_lines(file@),
{
    let ghost all = file@.hits;
    let ghost head = seq!["📄 "@ + file.path@];
    let mut lines: Vec<String> = Vec::new();
    assert(strings_view(lines@) =~= Seq::empty());
    push_line(&mut lines, join2("📄 ", file.path.as_str()));
    let mut i: usize = 0;
    assert(strings_view(lines@) =~= head + Seq::new(0, |k: int| hit_line(all[k])));
    while i < file.hits.len()
        invariant
            i <= file.hits.len(),
            all == file@.hits,
            strings_view(lines@) == head + Seq::new(i as nat, |k: int| hit_line(all[k])),
        decreases file.hits.len() - i,
    {
        let hit = &file.hits[i];
        let number = align_right(count_text(hit.line_number).as_str(), 4);
        let mut line = join3("  ", number.as_str(), ": ");
        append(&mut line, hit.content.as_str());
        let ghost before = strings_view(lines@);
        push_line(&mut lines, line);
        assert(before.push(hit_line(all[i as int])) =~= head + Seq::new(
            (i + 1) as nat,
            |k: int| hit_line(all[k]),
        ));
        i += 1;
    }
    push_line(&mut lines, "".to_string());
    lines
}

impl SearchFileContentTool {
    /// Whether a directory is passed over in a search, by its name.
    pub fn passes_over(name: &str) -> (r: bool)
        ensures
            r == is_passed_over(name@),
    {
        let chars = chars_of(name);
        (chars.len() > 0 && chars[0] == '.') || same_text(name, "node_modules") || same_text(
            name,
            "target",
        ) || same_text(name, "build") || same_text(name, "dist") || same_text(name, "__pycache__")
    }

    /// The files among `paths` that are searched, in order; or the
    /// report of why the pattern `included` cannot be used.
    pub fn select_files(&self, paths: &Vec<String>, included: &Option<String>) -> (r: Result<
        Vec<String>,
        String,
    >)
        ensures
            texts_result_view(r) == selected_files(strings_view(paths@), opt_text(*included)),
    {
        let ghost all = strings_view(paths@);
        let mut names: Vec<String> = Vec::new();
        let mut k: usize = 0;
        assert(strings_view(names@) =~= Seq::new(0, |j: int| file_name(all[j])));
        while k < paths.len()
            invariant
                k <= paths.len(),
                all == strings_view(paths@),
                strings_view(names@) == Seq::new(k as nat, |j: int| file_name(all[j])),
            decreases paths.len() - k,
        {
            let ghost before = strings_view(names@);
            push_line(&mut names, file_name_of(paths[k].as_str()));
            assert(before.push(file_name(all[k as int])) =~= Seq::new(
                (k + 1) as nat,
                |j: int| file_name(all[j]),
            ));
            k += 1;
        }
        let flags: Option<Vec<bool>> = match included {
            Some(pattern) => {
                match glob_to_regex(pattern.as_str()) {
                    Err(report) => { return Err(report); },
                    Ok(_) => {},
                }
                let source = glob_to_regex_source(pattern.as_str());
                match_each(source.as_str(), &names)
            },
            None => None,
        };
        let mut files: Vec<String> = Vec::new();
        let mut i: usize = 0;
        assert(strings_view(files@) =~= Seq::empty());
        assert(all.take(0) =~= Seq::empty());
        while i < paths.len()
            invariant
                i <= paths.len(),
                all == strings_view(paths@),
                strings_view(names@) == Seq::new(paths.len() as nat, |j: int| file_name(all[j])),
                *included is None ==> flags is None,
                *included matches Some(pattern) ==> flags is Some && flags_match(
                    regex_source(pattern@),
                    strings_view(names@),
                    flags->Some_0@,
                ),
                strings_view(files@) == searched_files(all.take(i as int), opt_text(*included)),
            decreases paths.len() - i,
        {
            proof {
                assert(all.take(i + 1).drop_last() =~= all.take(i as int));
                assert(strings_view(names@)[i as int] == file_name(all[i as int]));
            }
            let named = match &flags {
                Some(flags) => flags[i],
                None => true,
            };
            if is_text_file(paths[i].as_str()) && named {
                push_line(&mut files, paths[i].clone());
            }
            i += 1;
        }
        assert(all.take(i as int) =~= all);
        Ok(files)
    }

    /// The files among `files` that hold a line in which `pattern` has a
    /// match, each with those lines; or the message that says why
    /// `pattern` is no regular expression.
    pub fn search(&self, pattern: &str, files: &Vec<SourceFile>) -> (r: Result<
        Vec<FileHits>,
        String,
    >)
        ensures
            search_view(r) == search_outcome(pattern@, sources_view(files@)),
    {
        match compile_regex(pattern) {
            Err(message) => { return Err(message); },
            Ok(_) => {},
        }
        let ghost all = sources_view(files@);
        let mut found: Vec<FileHits> = Vec::new();
        let mut i: usize = 0;
        assert(found_view(found@) =~= Seq::empty());
        assert(all.take(0) =~= Seq::empty());
        while i < files.len()
            invariant
                i <= files.len(),
                all == sources_view(files@),
                regex_error(pattern@) is None,
                found_view(found@) == file_hits(pattern@, all.take(i as int)),
            decreases files.len() - i,
        {
            proof {
                assert(all.take(i + 1).drop_last() =~= all.take(i as int));
            }
            let file = &files[i];
            let lines = split_lines(file.content.as_str());
            match match_each(pattern, &lines) {
                Some(flags) => {
                    let hits = hits_among(&lines, &flags, Ghost(pattern@));
                    if hits.len() > 0 {
                        let ghost before = found_view(found@);
                        let entry = FileHits { path: file.path.clone(), hits };
                        found.push(entry);
                        assert(found_view(found@) =~= before.push(
                            FileHitsView {
                                path: all[i as int].path,
                                hits: line_hits(pattern@, lines_of(all[i as int].content)),
                            },
                        ));
                    }
                },
                None => {},
            }
            i += 1;
        }
        assert(all.take(i as int) =~= all);
        Ok(found)
    }

    /// The result of a search: under `search_path`, the files of `found`
    /// hold lines in which `pattern` has a match.  The lines are few
    /// enough to be counted.
    pub fn report(
        &self,
        pattern: &str,
        search_path: &str,
        included: &Option<String>,
        found: &Vec<FileHits>,
    ) -> (r: ToolResult)
        requires
            hit_count(found_view(found@)) <= usize::MAX,
        ensures
            r@ == search_result(pattern@, search_path@, opt_text(*included), found_view(found@)),
    {
        let ghost all = found_view(found@);
        let mut items: Vec<Json> = Vec::new();
        let mut lines: Vec<String> = Vec::new();
        let mut total: usize = 0;
        let mut i: usize = 0;
        assert(items_view(items@) =~= Seq::new(0, |k: int| file_json(all[k])));
        assert(strings_view(lines@) =~= Seq::empty());
        assert(all.take(0) =~= Seq::empty());
        while i < found.len()
            invariant
                i <= found.len(),
                all == found_view(found@),
                hit_count(all) <= usize::MAX,
                items_view(items@) == Seq::new(i as nat, |k: int| file_json(all[k])),
                strings_view(lines@) == hits_lines(all.take(i as int)),
                total == hit_count(all.take(i as int)),
            decreases found.len() - i,
        {
            proof {
                assert(all.take(i + 1).drop_last() =~= all.take(i as int));
                lemma_hit_count_grows(all, i + 1);
            }
            let file = &found[i];
            let ghost before = items_view(items@);
            push_item(&mut items, file_to_json(file));
            assert(before.push(file_json(all[i as int])) =~= Seq::new(
                (i + 1) as nat,
                |k: int| file_json(all[k]),
            ));
            push_lines(&mut lines, &file_to_lines(file));
            assert(all[i as int].hits.len() == file.hits.len());
            total += file.hits.len();
            i += 1;
        }
        assert(all.take(i as int) =~= all);
        let hits = count_text(total);
        let files = count_text(found.len());

        let mut summary = join3("Found ", hits.as_str(), " matches in ");
        append(&mut summary, files.as_str());
        append(&mut summary, " files");

        let mut members: Vec<(String, Json)> = Vec::new();
        assert(members_view(members@) =~= Seq::empty());
        push_member(&mut members, "pattern", Json::string(pattern));
        push_member(&mut members, "search_path", Json::string(search_path));
        push_member(
            &mut members,
            "include_pattern",
            match included {
                Some(included) => Json::string(included.as_str()),
                None => Json::Null,
            },
        );
        push_member(&mut members, "total_matches", count_json(total));
        push_member(&mut members, "files_with_matches", count_json(found.len()));
        push_member(&mut members, "matches", Json::array(items));
        assert(members_view(members@) =~= search_json(
            pattern@,
            search_path@,
            opt_text(*included),
            all,
        )->Object_0);

        let mut tally = join3("Total matches: ", hits.as_str(), " in ");
        append(&mut tally, files.as_str());
        append(&mut tally, " files");
        let mut display: Vec<String> = Vec::new();
        assert(strings_view(display@) =~= Seq::empty());
        push_line(&mut display, join2("Search pattern: ", pattern));
        push_line(&mut display, join2("Search path: ", search_path));
        push_line(
            &mut display,
            match included {
                Some(included) => join2("Include pattern: ", included.as_str()),
                None => "Include pattern: all files".to_string(),
            },
        );
        push_line(&mut display, tally);
        push_line(&mut display, "".to_string());
        push_lines(&mut display, &lines);
        assert(strings_view(display@) =~= search_lines(
            pattern@,
            search_path@,
            opt_text(*included),
            all,
        ));
        ToolResult {
            summary: Some(summary),
            llm_content: Json::object(members),
            return_display: stack(&display),
        }
    }
}

proof fn lemma_hit_count_grows(found: Seq<FileHitsView>, n: int)
    requires
        0 <= n <= found.len(),
    ensures
        hit_count(found.take(n)) <= hit_count(found),
    decreases found.len() - n,
{
    if n < found.len() {
        assert(found.take(n + 1).drop_last() =~= found.take(n));
        lemma_hit_count_grows(found, n + 1);
    } else {
        assert(found.take(n) =~= found);
    }
}

} // verus!
