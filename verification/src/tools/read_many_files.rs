//! The tool `read_many_files`: how it is advertised, what it makes of the parameters
//! of a call before anything is run, and how it reports what the run
//! came to.

use vstd::prelude::*;
use crate::dispatcher::{parse_schema, schema_of};
use crate::function_calling::{ToolDefinition, ToolDefinitionView};
use crate::json::{items_view, Json, JsonView, members_view, push_item, push_member};
use crate::text::{
    append, byte_len, clone_strings, contains, decimal, decimal_text, join2, join3, strings_view,
    text_contains,
};
use crate::tools::{
    locations_view, Tool, ToolLocation, ToolLocationView, ToolResult, ToolResultView,
};
use crate::tools::params::{
    is_blank, location, no_location, optional_flag, optional_texts, read_optional_flag,
    read_optional_texts, read_texts, required_texts, text_is_blank, unit_view,
};
use crate::tools::patterns::{
    any_matches, check_glob, check_pattern, glob_error, is_text_file, is_text_path, matches_any,
    pattern_checked,
};
use crate::tools::report::{
    count_json, count_text, count_view, push_line, push_lines, stack, stacked, texts_json,
    texts_view,
};
use crate::tools::write_file::{count_lines, line_count};

verus! {

/// The tool that reads many files at once.
#[derive(Debug, Clone, Copy, PartialEq, Eq, Structural)]
pub struct ReadManyFilesTool;

/// The name under which the model calls the tool.
pub open spec fn tool_name() -> Seq<char> {
    "read_many_files"@
}

/// What the tool does, for the model.
pub open spec fn tool_description() -> Seq<char> {
    "Reads content from multiple files specified by paths or glob patterns within a configured target directory. For text files, it concatenates their content into a single string."@
}

/// The JSON schema of the parameters of the tool, as text.
pub open spec fn schema_text() -> Seq<char> {
    "{\"type\":\"object\",\"properties\":{\"paths\":{\"type\":\"array\",\"items\":{\"type\":\"string\",\"minLength\":1},\"minItems\":1,\"description\":\"Required. An array of glob patterns or paths relative to the tool's target directory. Examples: ['src/**/*.ts'], ['README.md', 'docs/']\"},\"include\":{\"type\":\"array\",\"items\":{\"type\":\"string\",\"minLength\":1},\"description\":\"Optional. Additional glob patterns to include. These are merged with `paths`. Example: [\\\"*.test.ts\\\"] to specifically add test files if they were broadly excluded.\"},\"exclude\":{\"type\":\"array\",\"items\":{\"type\":\"string\",\"minLength\":1},\"description\":\"Optional. Glob patterns for files/directories to exclude. Added to default excludes if useDefaultExcludes is true. Example: [\\\"**/*.log\\\", \\\"temp/\\\"]\"},\"recursive\":{\"type\":\"boolean\",\"description\":\"Optional. Whether to search recursively (primarily controlled by `**` in glob patterns). Defaults to true.\"},\"useDefaultExcludes\":{\"type\":\"boolean\",\"description\":\"Optional. Whether to apply a list of default exclusion patterns (e.g., node_modules, .git, binary files). Defaults to true.\"},\"respect_git_ignore\":{\"type\":\"boolean\",\"description\":\"Optional. Whether to respect .gitignore patterns when discovering files. Only available in git repositories. Defaults to true.\"}},\"required\":[\"paths\"]}"@
}

/// The tool as it is advertised.
pub open spec fn definition() -> ToolDefinitionView {
    ToolDefinitionView {
        name: tool_name(),
        description: tool_description(),
        parameters: schema_of(schema_text()),
    }
}

/// The parameters of a call.
#[derive(Debug, PartialEq, Eq)]
pub struct ReadManyFilesParams {
    pub paths: Vec<String>,
    pub included: Option<Vec<String>>,
    pub exclude: Option<Vec<String>>,
    pub recursive: Option<bool>,
    pub use_default_excludes: Option<bool>,
    pub respect_git_ignore: Option<bool>,
}

pub ghost struct ReadManyFilesParamsView {
    pub paths: Seq<Seq<char>>,
    pub included: Option<Seq<Seq<char>>>,
    pub exclude: Option<Seq<Seq<char>>>,
    pub recursive: Option<bool>,
    pub use_default_excludes: Option<bool>,
    pub respect_git_ignore: Option<bool>,
}

/// The texts of an optional list of strings.
pub open spec fn opt_strings_view(texts: Option<Vec<String>>) -> Option<Seq<Seq<char>>> {
    match texts {
        Some(texts) => Some(strings_view(texts@)),
        None => None,
    }
}

impl View for ReadManyFilesParams {
    type V = ReadManyFilesParamsView;

    open spec fn view(&self) -> ReadManyFilesParamsView {
        ReadManyFilesParamsView {
            paths: strings_view(self.paths@),
            included: opt_strings_view(self.included),
            exclude: opt_strings_view(self.exclude),
            recursive: self.recursive,
            use_default_excludes: self.use_default_excludes,
            respect_git_ignore: self.respect_git_ignore,
        }
    }
}

/// The parameters that the arguments of a call spell out, or the report
/// of the first that is missing or of the wrong type.
pub open spec fn params_of(params: JsonView) -> Result<ReadManyFilesParamsView, Seq<char>> {
    match required_texts(params, "paths"@) {
        Err(report) => Err(report),
        Ok(paths) => match optional_texts(params, "include"@) {
            Err(report) => Err(report),
            Ok(included) => match optional_texts(params, "exclude"@) {
                Err(report) => Err(report),
                Ok(exclude) => match optional_flag(params, "recursive"@) {
                    Err(report) => Err(report),
                    Ok(recursive) => match optional_flag(params, "useDefaultExcludes"@) {
                        Err(report) => Err(report),
                        Ok(use_default_excludes) => match optional_flag(params, "respect_git_ignore"@) {
                            Err(report) => Err(report),
                            Ok(respect_git_ignore) => Ok(
                                ReadManyFilesParamsView {
                                    paths,
                                    included,
                                    exclude,
                                    recursive,
                                    use_default_excludes,
                                    respect_git_ignore,
                                },
                            ),
                        },
                    },
                },
            },
        },
    }
}

/// The value of parameters or a report.
pub open spec fn params_view(result: Result<ReadManyFilesParams, String>) -> Result<
    ReadManyFilesParamsView,
    Seq<char>,
> {
    match result {
        Ok(params) => Ok(params@),
        Err(report) => Err(report@),
    }
}

impl ReadManyFilesParams {
    /// Reads the parameters out of the arguments of a call.
    pub fn read(params: &Json) -> (r: Result<ReadManyFilesParams, String>)
        ensures
            params_view(r) == params_of(params@),
    {
        let paths = match read_texts(params, "paths") {
            Ok(paths) => paths,
            Err(report) => { return Err(report); },
        };
        let included = match read_optional_texts(params, "include") {
            Ok(included) => included,
            Err(report) => { return Err(report); },
        };
        let exclude = match read_optional_texts(params, "exclude") {
            Ok(exclude) => exclude,
            Err(report) => { return Err(report); },
        };
        let recursive = match read_optional_flag(params, "recursive") {
            Ok(recursive) => recursive,
            Err(report) => { return Err(report); },
        };
        let use_default_excludes = match read_optional_flag(params, "useDefaultExcludes") {
            Ok(use_default_excludes) => use_default_excludes,
            Err(report) => { return Err(report); },
        };
        let respect_git_ignore = match read_optional_flag(params, "respect_git_ignore") {
            Ok(respect_git_ignore) => respect_git_ignore,
            Err(report) => { return Err(report); },
        };
        Ok(
            ReadManyFilesParams {
                paths,
                included,
                exclude,
                recursive,
                use_default_excludes,
                respect_git_ignore,
            },
        )
    }
}

/// The patterns of the files that are left out unless the call asks
/// otherwise: what is built, what is fetched, what is binary.
pub open spec fn default_excludes() -> Seq<Seq<char>> {
    seq![
        "node_modules/**"@,
        "target/**"@,
        "build/**"@,
        "dist/**"@,
        ".git/**"@,
        "**/*.log"@,
        "**/*.tmp"@,
        "**/*.temp"@,
        "**/.DS_Store"@,
        "**/Thumbs.db"@,
        "**/__pycache__/**"@,
        "**/*.pyc"@,
        "**/*.pyo"@,
        "**/*.class"@,
        "**/*.o"@,
        "**/*.so"@,
        "**/*.dll"@,
        "**/*.exe"@,
        "**/*.bin"@,
        "**/*.zip"@,
        "**/*.tar.gz"@,
        "**/*.rar"@,
        "**/*.7z"@,
        "**/*.pdf"@,
        "**/*.jpg"@,
        "**/*.jpeg"@,
        "**/*.png"@,
        "**/*.gif"@,
        "**/*.bmp"@,
        "**/*.ico"@,
        "**/*.svg"@,
        "**/*.mp3"@,
        "**/*.mp4"@,
        "**/*.avi"@,
        "**/*.mov"@,
        "**/*.wmv"@,
    ]
}

/// Whether one of the texts holds nothing but white space.
fn any_blank(texts: &Vec<String>) -> (r: bool)
    ensures
        r == exists|i: int| 0 <= i < texts.len() && is_blank(#[trigger] strings_view(texts@)[i]),
{
    let ghost all = strings_view(texts@);
    let mut i: usize = 0;
    while i < texts.len()
        invariant
            i <= texts.len(),
            all == strings_view(texts@),
            forall|j: int| 0 <= j < i ==> !is_blank(#[trigger] all[j]),
        decreases texts.len() - i,
    {
        if text_is_blank(texts[i].as_str()) {
            assert(is_blank(all[i as int]));
            return true;
        }
        i += 1;
    }
    false
}

/// One location for each path.
fn locations_of(paths: Vec<String>) -> (r: Vec<ToolLocation>)
    ensures
        locations_view(r@) == Seq::new(
            paths.len() as nat,
            |i: int| ToolLocationView { path: strings_view(paths@)[i], line: None },
        ),
{
    let mut out: Vec<ToolLocation> = Vec::new();
    let mut i: usize = 0;
    while i < paths.len()
        invariant
            i <= paths.len(),
            out.len() == i,
            forall|k: int|
                0 <= k < i ==> (#[trigger] out@[k])@ == (ToolLocationView {
                    path: paths@[k]@,
                    line: None,
                }),
        decreases paths.len() - i,
    {
        out.push(ToolLocation { path: paths[i].clone(), line: None });
        i += 1;
    }
    assert(locations_view(out@) =~= Seq::new(
        paths.len() as nat,
        |i: int| ToolLocationView { path: strings_view(paths@)[i], line: None },
    ));
    out
}

/// Whether the tool accepts the arguments of a call, as far as the
/// arguments alone decide: `Ok`, or the report of what is wrong with them.
pub open spec fn validated(params: JsonView) -> Result<(), Seq<char>> {
    match params_of(params) {
        Err(report) => Err(report),
        Ok(read) => if read.paths.len() == 0 {
            Err("At least one path must be specified"@)
        } else if exists|i: int| 0 <= i < read.paths.len() && is_blank(#[trigger] read.paths[i]) {
            Err("Path cannot be empty"@)
        } else {
            Ok(())
        },
    }
}

/// What a call is going to do, in words.
pub open spec fn described(params: JsonView) -> Seq<char> {
    match params_of(params) {
        Ok(read) => "Read multiple files from "@ + decimal(read.paths.len()) + " path patterns"@,
        Err(_) => "Read multiple files"@,
    }
}

/// The places that a call is going to touch.
pub open spec fn located(params: JsonView) -> Seq<ToolLocationView> {
    match params_of(params) {
        Ok(read) => Seq::new(
            read.paths.len(),
            |i: int| ToolLocationView { path: read.paths[i], line: None },
        ),
        Err(_) => Seq::empty(),
    }
}

impl ReadManyFilesTool {
    /// The tool.
    pub fn new() -> (r: Self)
        ensures
            r == ReadManyFilesTool,
    {
        ReadManyFilesTool
    }

    /// The name under which the model calls the tool.
    pub fn name(&self) -> (r: &'static str)
        ensures
            r@ == tool_name(),
    {
        "read_many_files"
    }

    /// What the tool does, for the model.
    pub fn description(&self) -> (r: &'static str)
        ensures
            r@ == tool_description(),
    {
        "Reads content from multiple files specified by paths or glob patterns within a configured target directory. For text files, it concatenates their content into a single string."
    }

    /// The tool as it is advertised.
    pub fn get_tool_definition(&self) -> (r: ToolDefinition)
        ensures
            r@ == definition(),
    {
        ToolDefinition {
            name: self.name().to_string(),
            description: self.description().to_string(),
            parameters: parse_schema(
                "{\"type\":\"object\",\"properties\":{\"paths\":{\"type\":\"array\",\"items\":{\"type\":\"string\",\"minLength\":1},\"minItems\":1,\"description\":\"Required. An array of glob patterns or paths relative to the tool's target directory. Examples: ['src/**/*.ts'], ['README.md', 'docs/']\"},\"include\":{\"type\":\"array\",\"items\":{\"type\":\"string\",\"minLength\":1},\"description\":\"Optional. Additional glob patterns to include. These are merged with `paths`. Example: [\\\"*.test.ts\\\"] to specifically add test files if they were broadly excluded.\"},\"exclude\":{\"type\":\"array\",\"items\":{\"type\":\"string\",\"minLength\":1},\"description\":\"Optional. Glob patterns for files/directories to exclude. Added to default excludes if useDefaultExcludes is true. Example: [\\\"**/*.log\\\", \\\"temp/\\\"]\"},\"recursive\":{\"type\":\"boolean\",\"description\":\"Optional. Whether to search recursively (primarily controlled by `**` in glob patterns). Defaults to true.\"},\"useDefaultExcludes\":{\"type\":\"boolean\",\"description\":\"Optional. Whether to apply a list of default exclusion patterns (e.g., node_modules, .git, binary files). Defaults to true.\"},\"respect_git_ignore\":{\"type\":\"boolean\",\"description\":\"Optional. Whether to respect .gitignore patterns when discovering files. Only available in git repositories. Defaults to true.\"}},\"required\":[\"paths\"]}",
            ),
        }
    }

    /// The patterns of the files that are left out unless the call asks
    /// otherwise.
    pub fn get_default_excludes(&self) -> (r: Vec<String>)
        ensures
            strings_view(r@) == default_excludes(),
    {
        let mut patterns: Vec<String> = Vec::new();
        patterns.push("node_modules/**".to_string());
        patterns.push("target/**".to_string());
        patterns.push("build/**".to_string());
        patterns.push("dist/**".to_string());
        patterns.push(".git/**".to_string());
        patterns.push("**/*.log".to_string());
        patterns.push("**/*.tmp".to_string());
        patterns.push("**/*.temp".to_string());
        patterns.push("**/.DS_Store".to_string());
        patterns.push("**/Thumbs.db".to_string());
        patterns.push("**/__pycache__/**".to_string());
        patterns.push("**/*.pyc".to_string());
        patterns.push("**/*.pyo".to_string());
        patterns.push("**/*.class".to_string());
        patterns.push("**/*.o".to_string());
        patterns.push("**/*.so".to_string());
        patterns.push("**/*.dll".to_string());
        patterns.push("**/*.exe".to_string());
        patterns.push("**/*.bin".to_string());
        patterns.push("**/*.zip".to_string());
        patterns.push("**/*.tar.gz".to_string());
        patterns.push("**/*.rar".to_string());
        patterns.push("**/*.7z".to_string());
        patterns.push("**/*.pdf".to_string());
        patterns.push("**/*.jpg".to_string());
        patterns.push("**/*.jpeg".to_string());
        patterns.push("**/*.png".to_string());
        patterns.push("**/*.gif".to_string());
        patterns.push("**/*.bmp".to_string());
        patterns.push("**/*.ico".to_string());
        patterns.push("**/*.svg".to_string());
        patterns.push("**/*.mp3".to_string());
        patterns.push("**/*.mp4".to_string());
        patterns.push("**/*.avi".to_string());
        patterns.push("**/*.mov".to_string());
        patterns.push("**/*.wmv".to_string());
        assert(strings_view(patterns@) =~= default_excludes());
        patterns
    }

    /// Whether the file that a path leads to holds text.
    pub fn is_text_file(&self, path: &str) -> (r: bool)
        ensures
            r == is_text_path(path@),
    {
        is_text_file(path)
    }

    /// Whether a path is left out: whether one of the patterns matches it.
    pub fn should_exclude(&self, path: &str, exclude_patterns: &Vec<String>) -> (r: bool)
        ensures
            r == any_matches(strings_view(exclude_patterns@), path@),
    {
        matches_any(path, exclude_patterns)
    }

    /// Whether the tool accepts the arguments of a call, as far as the
    /// arguments alone decide.
    pub fn validate_params(&self, params: &Json) -> (r: Result<(), String>)
        ensures
            unit_view(r) == validated(params@),
    {
        match ReadManyFilesParams::read(params) {
            Err(report) => Err(report),
            Ok(read) => {
                if read.paths.len() == 0 {
                    return Err("At least one path must be specified".to_string());
                }
                if any_blank(&read.paths) {
                    Err("Path cannot be empty".to_string())
                } else {
                    Ok(())
                }
            },
        }
    }

    /// What a call is going to do, in words.
    pub fn get_description(&self, params: &Json) -> (r: String)
        ensures
            r@ == described(params@),
    {
        match ReadManyFilesParams::read(params) {
            Ok(read) => {
                let count = decimal_text(read.paths.len() as u64);
                join3("Read multiple files from ", count.as_str(), " path patterns")
            },
            Err(_) => "Read multiple files".to_string(),
        }
    }

    /// The places that a call is going to touch.
    pub fn tool_locations(&self, params: &Json) -> (r: Vec<ToolLocation>)
        ensures
            locations_view(r@) == located(params@),
    {
        match ReadManyFilesParams::read(params) {
            Ok(read) => {
                locations_of(read.paths)
            },
            Err(_) => no_location(),
        }
    }
}

impl Tool for ReadManyFilesTool {
    open spec fn name_text(&self) -> Seq<char> {
        tool_name()
    }

    open spec fn description_text(&self) -> Seq<char> {
        tool_description()
    }

    open spec fn advertised(&self) -> ToolDefinitionView {
        definition()
    }

    open spec fn validation(&self, params: JsonView) -> Result<(), Seq<char>> {
        validated(params)
    }

    open spec fn call_description(&self, params: JsonView) -> Seq<char> {
        described(params)
    }

    open spec fn call_locations(&self, params: JsonView) -> Seq<ToolLocationView> {
        located(params)
    }

    fn name(&self) -> (r: &str)
        ensures
            r@ == tool_name(),
    {
        ReadManyFilesTool::name(self)
    }

    fn description(&self) -> (r: &str)
        ensures
            r@ == tool_description(),
    {
        ReadManyFilesTool::description(self)
    }

    fn get_tool_definition(&self) -> (r: ToolDefinition)
        ensures
            r@ == definition(),
    {
        ReadManyFilesTool::get_tool_definition(self)
    }

    fn validate_params(&self, params: &Json) -> (r: Result<(), String>)
        ensures
            unit_view(r) == validated(params@),
    {
        ReadManyFilesTool::validate_params(self, params)
    }

    fn get_description(&self, params: &Json) -> (r: String)
        ensures
            r@ == described(params@),
    {
        ReadManyFilesTool::get_description(self, params)
    }

    fn tool_locations(&self, params: &Json) -> (r: Vec<ToolLocation>)
        ensures
            locations_view(r@) == located(params@),
    {
        ReadManyFilesTool::tool_locations(self, params)
    }
}

/// Whether a path of a call is a pattern rather than the path of one
/// file or directory: whether it holds `*` or `?`.
pub open spec fn is_pattern(path: Seq<char>) -> bool {
    contains(path, "*"@) || contains(path, "?"@)
}

/// The patterns of the paths that a call leaves out: its own, and the
/// default ones unless the call declines them.
pub open spec fn exclusions(exclude: Option<Seq<Seq<char>>>, use_default_excludes: Option<bool>)
    -> Seq<Seq<char>> {
    (match exclude {
        Some(own) => own,
        None => Seq::empty(),
    }) + (if use_default_excludes == Some(false) {
        Seq::empty()
    } else {
        default_excludes()
    })
}

/// Whether a file that was found is read: it holds text, and no pattern
/// leaves it out.
pub open spec fn is_taken(path: Seq<char>, excluded: Seq<Seq<char>>) -> bool {
    is_text_path(path) && !any_matches(excluded, path)
}

/// The report of a pattern of the member `include` that is no glob.
pub open spec fn invalid_included(pattern: Seq<char>, message: Seq<char>) -> Seq<char> {
    "Invalid include glob pattern '"@ + pattern + "': "@ + message
}

/// Whether a pattern of the member `include` is a glob: `Ok`, or the
/// report that it is none.
pub open spec fn included_checked(pattern: Seq<char>) -> Result<(), Seq<char>> {
    match glob_error(pattern) {
        Some(message) => Err(invalid_included(pattern, message)),
        None => Ok(()),
    }
}

/// A file that was to be read, and what came of it: its content, or the
/// error.
#[derive(Debug, PartialEq, Eq)]
pub struct Attempt {
    pub path: String,
    pub outcome: Result<String, String>,
}

/// A file that was to be read, and what came of it.
pub ghost struct AttemptView {
    pub path: Seq<char>,
    pub outcome: Result<Seq<char>, Seq<char>>,
}

impl View for Attempt {
    type V = AttemptView;

    open spec fn view(&self) -> AttemptView {
        AttemptView {
            path: self.path@,
            outcome: match self.outcome {
                Ok(content) => Ok(content@),
                Err(error) => Err(error@),
            },
        }
    }
}

/// The attempts as values.
pub open spec fn attempts_view(attempts: Seq<Attempt>) -> Seq<AttemptView> {
    Seq::new(attempts.len(), |i: int| attempts[i]@)
}

/// A file as it stands among the others in one text: its path between
/// marks on a line of its own, then its content.
pub open spec fn framed(path: Seq<char>, content: Seq<char>) -> Seq<char> {
    "\n=== "@ + path + " ===\n"@ + content + "\n"@
}

/// The contents of the files that were read, one after the other.
pub open spec fn all_content(attempts: Seq<AttemptView>) -> Seq<char>
    decreases attempts.len(),
{
    if attempts.len() == 0 {
        Seq::empty()
    } else {
        match attempts.last().outcome {
            Ok(content) => all_content(attempts.drop_last()) + framed(
                attempts.last().path,
                content,
            ),
            Err(_) => all_content(attempts.drop_last()),
        }
    }
}

/// The number of bytes of the files that were read.
pub open spec fn all_bytes(attempts: Seq<AttemptView>) -> nat
    decreases attempts.len(),
{
    if attempts.len() == 0 {
        0
    } else {
        match attempts.last().outcome {
            Ok(content) => all_bytes(attempts.drop_last()) + (byte_len(content) as nat),
            Err(_) => all_bytes(attempts.drop_last()),
        }
    }
}

/// How many of the files were read.
pub open spec fn read_count(attempts: Seq<AttemptView>) -> nat
    decreases attempts.len(),
{
    if attempts.len() == 0 {
        0
    } else if attempts.last().outcome is Ok {
        read_count(attempts.drop_last()) + 1
    } else {
        read_count(attempts.drop_last())
    }
}

/// What one attempt tells the model.
pub open spec fn attempt_json(attempt: AttemptView) -> JsonView {
    match attempt.outcome {
        Ok(content) => JsonView::Object(
            seq![
                ("path"@, JsonView::Str(attempt.path)),
                ("status"@, JsonView::Str("success"@)),
                ("size"@, count_view(byte_len(content) as int)),
                ("lines"@, count_view(line_count(content) as int)),
            ],
        ),
        Err(error) => JsonView::Object(
            seq![
                ("path"@, JsonView::Str(attempt.path)),
                ("status"@, JsonView::Str("error"@)),
                ("error"@, JsonView::Str(error)),
            ],
        ),
    }
}

/// The line that shows a file that was read.
pub open spec fn success_line(path: Seq<char>, content: Seq<char>) -> Seq<char> {
    "  ✅ "@ + path + " ("@ + decimal(byte_len(content) as nat) + " bytes, "@ + decimal(
        line_count(content),
    ) + " lines)"@
}

/// The line that shows a file that could not be read.
pub open spec fn failure_line(path: Seq<char>, error: Seq<char>) -> Seq<char> {
    "  ❌ "@ + path + ": "@ + error
}

/// The lines that show the files that were read, or, with `failed`,
/// those that could not be read.
pub open spec fn attempt_lines(attempts: Seq<AttemptView>, failed: bool) -> Seq<Seq<char>>
    decreases attempts.len(),
{
    if attempts.len() == 0 {
        Seq::empty()
    } else {
        match attempts.last().outcome {
            Ok(content) => if failed {
                attempt_lines(attempts.drop_last(), failed)
            } else {
                attempt_lines(attempts.drop_last(), failed).push(
                    success_line(attempts.last().path, content),
                )
            },
            Err(error) => if failed {
                attempt_lines(attempts.drop_last(), failed).push(
                    failure_line(attempts.last().path, error),
                )
            } else {
                attempt_lines(attempts.drop_last(), failed)
            },
        }
    }
}

/// What a round of reads tells the model.
pub open spec fn many_json(paths: Seq<Seq<char>>, attempts: Seq<AttemptView>) -> JsonView {
    JsonView::Object(
        seq![
            ("paths_requested"@, texts_view(paths)),
            ("files_found"@, count_view(attempts.len() as int)),
            ("successful_reads"@, count_view(read_count(attempts) as int)),
            ("failed_reads"@, count_view(attempts.len() - read_count(attempts))),
            ("total_size"@, count_view(all_bytes(attempts) as int)),
            ("concatenated_content"@, JsonView::Str(all_content(attempts))),
            (
                "file_info"@,
                JsonView::Array(Seq::new(attempts.len(), |i: int| attempt_json(attempts[i]))),
            ),
        ],
    )
}

/// What a round of reads shows the user, line by line.
pub open spec fn many_lines(attempts: Seq<AttemptView>) -> Seq<Seq<char>> {
    seq![
        "Read Many Files Results"@,
        "Files found: "@ + decimal(attempts.len()),
        "Successfully read: "@ + decimal(read_count(attempts)),
        "Failed to read: "@ + decimal((attempts.len() - read_count(attempts)) as nat),
        "Total content size: "@ + decimal(all_bytes(attempts)) + " bytes"@,
        ""@,
    ] + (if read_count(attempts) > 0 {
        seq!["Successfully read files:"@] + attempt_lines(attempts, false)
    } else {
        Seq::empty()
    }) + (if read_count(attempts) < attempts.len() {
        seq![""@, "Failed to read files:"@] + attempt_lines(attempts, true)
    } else {
        Seq::empty()
    })
}

/// The sentence that sums up a round of reads.
pub open spec fn many_summary(attempts: Seq<AttemptView>) -> Seq<char> {
    "Read "@ + decimal(attempts.len()) + " files ("@ + decimal(read_count(attempts))
        + " successful, "@ + decimal((attempts.len() - read_count(attempts)) as nat) + " failed, "@
        + decimal(all_bytes(attempts)) + " total bytes)"@
}

/// The result of reading the files that were found for the paths
/// `paths` of a call.
pub open spec fn many(paths: Seq<Seq<char>>, attempts: Seq<AttemptView>) -> ToolResultView {
    ToolResultView {
        summary: Some(many_summary(attempts)),
        llm_content: many_json(paths, attempts),
        return_display: stacked(many_lines(attempts)),
    }
}

proof fn lemma_counts_grow(attempts: Seq<AttemptView>, n: int)
    requires
        0 <= n <= attempts.len(),
    ensures
        read_count(attempts.take(n)) <= n,
        all_bytes(attempts.take(n)) <= all_bytes(attempts),
    decreases attempts.len() - n,
{
    if n < attempts.len() {
        assert(attempts.take(n + 1).drop_last() =~= attempts.take(n));
        lemma_counts_grow(attempts, n + 1);
        lemma_read_count_bound(attempts.take(n));
    } else {
        assert(attempts.take(n) =~= attempts);
        lemma_read_count_bound(attempts);
    }
}

proof fn lemma_read_count_bound(attempts: Seq<AttemptView>)
    ensures
        read_count(attempts) <= attempts.len(),
    decreases attempts.len(),
{
    if attempts.len() > 0 {
        lemma_read_count_bound(attempts.drop_last());
    }
}

/// What one attempt tells the model.
pub fn attempt_to_json(attempt: &Attempt) -> (r: Json)
    ensures
        r@ == attempt_json(attempt@),
{
    let mut members: Vec<(String, Json)> = Vec::new();
    assert(members_view(members@) =~= Seq::empty());
    push_member(&mut members, "path", Json::string(attempt.path.as_str()));
    match &attempt.outcome {
        Ok(content) => {
            push_member(&mut members, "status", Json::string("success"));
            push_member(&mut members, "size", count_json(content.as_str().len()));
            push_member(&mut members, "lines", count_json(count_lines(content.as_str())));
        },
        Err(error) => {
            push_member(&mut members, "status", Json::string("error"));
            push_member(&mut members, "error", Json::string(error.as_str()));
        },
    }
    assert(members_view(members@) =~= attempt_json(attempt@)->Object_0);
    Json::object(members)
}

/// The lines that show the files that were read, or, with `failed`,
/// those that could not be read.
pub fn attempts_to_lines(attempts: &Vec<Attempt>, failed: bool) -> (r: Vec<String>)
    ensures
        strings_view(r@) == attempt_lines(attempts_view(attempts@), failed),
{
    let ghost all = attempts_view(attempts@);
    let mut lines: Vec<String> = Vec::new();
    let mut i: usize = 0;
    assert(strings_view(lines@) =~= Seq::empty());
    assert(all.take(0) =~= Seq::empty());
    while i < attempts.len()
        invariant
            i <= attempts.len(),
            all == attempts_view(attempts@),
            strings_view(lines@) == attempt_lines(all.take(i as int), failed),
        decreases attempts.len() - i,
    {
        proof {
            assert(all.take(i + 1).drop_last() =~= all.take(i as int));
        }
        let attempt = &attempts[i];
        match &attempt.outcome {
            Ok(content) => {
                if !failed {
                    let mut line = join3("  ✅ ", attempt.path.as_str(), " (");
                    append(&mut line, count_text(content.as_str().len()).as_str());
                    append(&mut line, " bytes, ");
                    append(&mut line, count_text(count_lines(content.as_str())).as_str());
                    append(&mut line, " lines)");
                    push_line(&mut lines, line);
                }
            },
            Err(error) => {
                if failed {
                    let mut line = join3("  ❌ ", attempt.path.as_str(), ": ");
                    append(&mut line, error.as_str());
                    push_line(&mut lines, line);
                }
            },
        }
        i += 1;
    }
    assert(all.take(i as int) =~= all);
    lines
}

impl ReadManyFilesTool {
    /// Whether a path of a call is a pattern rather than the path of one
    /// file or directory.
    pub fn is_glob(&self, path: &str) -> (r: bool)
        ensures
            r == is_pattern(path@),
    {
        text_contains(path, "*") || text_contains(path, "?")
    }

    /// The patterns of the paths that the call leaves out.
    pub fn excluded(&self, exclude: &Option<Vec<String>>, use_default_excludes: Option<bool>) -> (r:
        Vec<String>)
        ensures
            strings_view(r@) == exclusions(opt_strings_view(*exclude), use_default_excludes),
    {
        let mut patterns: Vec<String> = match exclude {
            Some(own) => clone_strings(own),
            None => {
                let none: Vec<String> = Vec::new();
                assert(strings_view(none@) =~= Seq::empty());
                none
            },
        };
        let declined = match use_default_excludes {
            Some(flag) => !flag,
            None => false,
        };
        if declined {
            assert(strings_view(patterns@) + Seq::<Seq<char>>::empty() =~= strings_view(
                patterns@,
            ));
        } else {
            let defaults = self.get_default_excludes();
            push_lines(&mut patterns, &defaults);
        }
        patterns
    }

    /// Whether a file that was found is read: it holds text, and none of
    /// the patterns `excluded` leaves it out.
    pub fn takes(&self, path: &str, excluded: &Vec<String>) -> (r: bool)
        ensures
            r == is_taken(path@, strings_view(excluded@)),
    {
        is_text_file(path) && !self.should_exclude(path, excluded)
    }

    /// Whether a path of the call that is a pattern is a glob.
    pub fn check_path(&self, pattern: &str) -> (r: Result<(), String>)
        ensures
            unit_view(r) == pattern_checked(pattern@),
    {
        check_pattern(pattern)
    }

    /// Whether a pattern of the member `include` is a glob.
    pub fn check_included(&self, pattern: &str) -> (r: Result<(), String>)
        ensures
            unit_view(r) == included_checked(pattern@),
    {
        match check_glob(pattern) {
            Some(message) => {
                let mut report = join3("Invalid include glob pattern '", pattern, "': ");
                append(&mut report, message.as_str());
                Err(report)
            },
            None => Ok(()),
        }
    }

    /// The result of a round of reads: for the paths `paths` of the call
    /// the files of `attempts` were found, and read or not.  The files
    /// that were read are small enough for their bytes to be counted.
    pub fn report(&self, paths: &Vec<String>, attempts: &Vec<Attempt>) -> (r: ToolResult)
        requires
            all_bytes(attempts_view(attempts@)) <= usize::MAX,
        ensures
            r@ == many(strings_view(paths@), attempts_view(attempts@)),
    {
        let ghost all = attempts_view(attempts@);
        let mut content = String::new();
        let mut items: Vec<Json> = Vec::new();
        let mut read: usize = 0;
        let mut bytes: usize = 0;
        let mut i: usize = 0;
        assert(items_view(items@) =~= Seq::new(0, |k: int| attempt_json(all[k])));
        assert(all.take(0) =~= Seq::empty());
        while i < attempts.len()
            invariant
                i <= attempts.len(),
                all == attempts_view(attempts@),
                all_bytes(all) <= usize::MAX,
                items_view(items@) == Seq::new(i as nat, |k: int| attempt_json(all[k])),
                content@ == all_content(all.take(i as int)),
                read == read_count(all.take(i as int)),
                bytes == all_bytes(all.take(i as int)),
            decreases attempts.len() - i,
        {
            proof {
                assert(all.take(i + 1).drop_last() =~= all.take(i as int));
                lemma_counts_grow(all, i as int);
                lemma_counts_grow(all, i + 1);
            }
            let attempt = &attempts[i];
            let ghost items_before = items_view(items@);
            push_item(&mut items, attempt_to_json(attempt));
            assert(items_before.push(attempt_json(all[i as int])) =~= Seq::new(
                (i + 1) as nat,
                |k: int| attempt_json(all[k]),
            ));
            match &attempt.outcome {
                Ok(text) => {
                    let ghost before = content@;
                    append(&mut content, "\n=== ");
                    append(&mut content, attempt.path.as_str());
                    append(&mut content, " ===\n");
                    append(&mut content, text.as_str());
                    append(&mut content, "\n");
                    assert(content@ =~= before + framed(attempt.path@, text@));
                    read += 1;
                    bytes += text.as_str().len();
                },
                Err(_) => {},
            }
            i += 1;
        }
        assert(all.take(i as int) =~= all);
        proof {
            lemma_read_count_bound(all);
        }
        let failed: usize = attempts.len() - read;
        let found = count_text(attempts.len());
        let good = count_text(read);
        let bad = count_text(failed);
        let size = count_text(bytes);

        let mut summary = join3("Read ", found.as_str(), " files (");
        append(&mut summary, good.as_str());
        append(&mut summary, " successful, ");
        append(&mut summary, bad.as_str());
        append(&mut summary, " failed, ");
        append(&mut summary, size.as_str());
        append(&mut summary, " total bytes)");

        let mut members: Vec<(String, Json)> = Vec::new();
        assert(members_view(members@) =~= Seq::empty());
        push_member(&mut members, "paths_requested", texts_json(paths));
        push_member(&mut members, "files_found", count_json(attempts.len()));
        push_member(&mut members, "successful_reads", count_json(read));
        push_member(&mut members, "failed_reads", count_json(failed));
        push_member(&mut members, "total_size", count_json(bytes));
        push_member(&mut members, "concatenated_content", Json::Str(content));
        push_member(&mut members, "file_info", Json::array(items));
        assert(members_view(members@) =~= many_json(strings_view(paths@), all)->Object_0);

        let mut display: Vec<String> = Vec::new();
        assert(strings_view(display@) =~= Seq::empty());
        push_line(&mut display, "Read Many Files Results".to_string());
        push_line(&mut display, join2("Files found: ", found.as_str()));
        push_line(&mut display, join2("Successfully read: ", good.as_str()));
        push_line(&mut display, join2("Failed to read: ", bad.as_str()));
        push_line(&mut display, join3("Total content size: ", size.as_str(), " bytes"));
        push_line(&mut display, "".to_string());
        if read > 0 {
            push_line(&mut display, "Successfully read files:".to_string());
            push_lines(&mut display, &attempts_to_lines(attempts, false));
        }
        if failed > 0 {
            push_line(&mut display, "".to_string());
            push_line(&mut display, "Failed to read files:".to_string());
            push_lines(&mut display, &attempts_to_lines(attempts, true));
        }
        assert(strings_view(display@) =~= many_lines(all));
        ToolResult {
            summary: Some(summary),
            llm_content: Json::object(members),
            return_display: stack(&display),
        }
    }
}

} // verus!
