//! The tool `list_directory`: how it is advertised, what it makes of the parameters
//! of a call before anything is run, and how it reports what the run
//! came to.

use vstd::prelude::*;
use crate::dispatcher::{parse_schema, schema_of};
use crate::function_calling::{ToolDefinition, ToolDefinitionView};
use crate::json::{Json, JsonView, members_view, push_member};
use crate::text::{chars_of, clone_strings, decimal, join2, join3, opt_text, strings_view};
use crate::tools::{
    locations_view, Tool, ToolLocation, ToolLocationView, ToolResult, ToolResultView,
};
use crate::tools::params::{
    location, no_location, one_location, optional_flag, optional_texts, read_optional_flag,
    read_optional_texts, read_text, required_text, texts_view as texts_result_view, unit_view,
};
use crate::tools::patterns::{any_matches, check_pattern, glob_error, invalid_pattern, matches_any};
use crate::tools::report::{
    count_json, count_text, count_view, decorated, lines_of, push_decorated, push_line, push_lines,
    split_lines, stack, stacked, texts_json, texts_view, trim_text, trimmed,
};

verus! {

/// The tool that lists the entries of a directory.
#[derive(Debug, Clone, Copy, PartialEq, Eq, Structural)]
pub struct ListDirectoryTool;

/// The name under which the model calls the tool.
pub open spec fn tool_name() -> Seq<char> {
    "list_directory"@
}

/// What the tool does, for the model.
pub open spec fn tool_description() -> Seq<char> {
    "Lists the names of files and subdirectories directly within a specified directory path. Can optionally ignore entries matching provided glob patterns."@
}

/// The JSON schema of the parameters of the tool, as text.
pub open spec fn schema_text() -> Seq<char> {
    "{\"type\":\"object\",\"properties\":{\"path\":{\"description\":\"The absolute path to the directory to list (must be absolute, not relative)\",\"type\":\"string\"},\"ignore\":{\"description\":\"List of glob patterns to ignore\",\"type\":\"array\",\"items\":{\"type\":\"string\"}},\"respect_git_ignore\":{\"description\":\"Optional: Whether to respect .gitignore patterns when listing files. Only available in git repositories. Defaults to true.\",\"type\":\"boolean\"}},\"required\":[\"path\"]}"@
}

/// The tool as it is advertised.
pub open spec fn definition() -> ToolDefinitionView {
    ToolDefinitionView {
        name: tool_name(),
        description: tool_description(),
        parameters: schema_of(schema_text()),
    }
}

/// The parameters of a call.
#[derive(Debug, PartialEq, Eq)]
pub struct ListDirectoryParams {
    pub path: String,
    pub ignore: Option<Vec<String>>,
    pub respect_git_ignore: Option<bool>,
}

pub ghost struct ListDirectoryParamsView {
    pub path: Seq<char>,
    pub ignore: Option<Seq<Seq<char>>>,
    pub respect_git_ignore: Option<bool>,
}

/// The texts of an optional list of strings.
pub open spec fn opt_strings_view(texts: Option<Vec<String>>) -> Option<Seq<Seq<char>>> {
    match texts {
        Some(texts) => Some(strings_view(texts@)),
        None => None,
    }
}

impl View for ListDirectoryParams {
    type V = ListDirectoryParamsView;

    open spec fn view(&self) -> ListDirectoryParamsView {
        ListDirectoryParamsView {
            path: self.path@,
            ignore: opt_strings_view(self.ignore),
            respect_git_ignore: self.respect_git_ignore,
        }
    }
}

/// The parameters that the arguments of a call spell out, or the report
/// of the first that is missing or of the wrong type.
pub open spec fn params_of(params: JsonView) -> Result<ListDirectoryParamsView, Seq<char>> {
    match required_text(params, "path"@) {
        Err(report) => Err(report),
        Ok(path) => match optional_texts(params, "ignore"@) {
            Err(report) => Err(report),
            Ok(ignore) => match optional_flag(params, "respect_git_ignore"@) {
                Err(report) => Err(report),
                Ok(respect_git_ignore) => Ok(ListDirectoryParamsView { path, ignore, respect_git_ignore }),
            },
        },
    }
}

/// The value of parameters or a report.
pub open spec fn params_view(result: Result<ListDirectoryParams, String>) -> Result<
    ListDirectoryParamsView,
    Seq<char>,
> {
    match result {
        Ok(params) => Ok(params@),
        Err(report) => Err(report@),
    }
}

impl ListDirectoryParams {
    /// Reads the parameters out of the arguments of a call.
    pub fn read(params: &Json) -> (r: Result<ListDirectoryParams, String>)
        ensures
            params_view(r) == params_of(params@),
    {
        let path = match read_text(params, "path") {
            Ok(path) => path,
            Err(report) => { return Err(report); },
        };
        let ignore = match read_optional_texts(params, "ignore") {
            Ok(ignore) => ignore,
            Err(report) => { return Err(report); },
        };
        let respect_git_ignore = match read_optional_flag(params, "respect_git_ignore") {
            Ok(respect_git_ignore) => respect_git_ignore,
            Err(report) => { return Err(report); },
        };
        Ok(ListDirectoryParams { path, ignore, respect_git_ignore })
    }
}

/// Whether the tool accepts the arguments of a call, as far as the
/// arguments alone decide: `Ok`, or the report of what is wrong with them.
pub open spec fn validated(params: JsonView) -> Result<(), Seq<char>> {
    match params_of(params) {
        Err(report) => Err(report),
        Ok(read) => Ok(()),
    }
}

/// What a call is going to do, in words.
pub open spec fn described(params: JsonView) -> Seq<char> {
    match params_of(params) {
        Ok(read) => "List contents of directory: "@ + read.path,
        Err(_) => "List directory contents"@,
    }
}

/// The places that a call is going to touch.
pub open spec fn located(params: JsonView) -> Seq<ToolLocationView> {
    match params_of(params) {
        Ok(read) => one_location(read.path, None),
        Err(_) => Seq::empty(),
    }
}

impl ListDirectoryTool {
    /// The tool.
    pub fn new() -> (r: Self)
        ensures
            r == ListDirectoryTool,
    {
        ListDirectoryTool
    }

    /// The name under which the model calls the tool.
    pub fn name(&self) -> (r: &'static str)
        ensures
            r@ == tool_name(),
    {
        "list_directory"
    }

    /// What the tool does, for the model.
    pub fn description(&self) -> (r: &'static str)
        ensures
            r@ == tool_description(),
    {
        "Lists the names of files and subdirectories directly within a specified directory path. Can optionally ignore entries matching provided glob patterns."
    }

    /// The tool as it is advertised.
    pub fn get_tool_definition(&self) -> (r: ToolDefinition)
        ensures
            r@ == definition(),
    {
        ToolDefinition {
            name: self.name().to_string(),
            description: self.description().to_string(),
            parameters: parse_schema(
                "{\"type\":\"object\",\"properties\":{\"path\":{\"description\":\"The absolute path to the directory to list (must be absolute, not relative)\",\"type\":\"string\"},\"ignore\":{\"description\":\"List of glob patterns to ignore\",\"type\":\"array\",\"items\":{\"type\":\"string\"}},\"respect_git_ignore\":{\"description\":\"Optional: Whether to respect .gitignore patterns when listing files. Only available in git repositories. Defaults to true.\",\"type\":\"boolean\"}},\"required\":[\"path\"]}",
            ),
        }
    }

    /// Whether an entry of the directory is left out: whether one of the
    /// patterns matches its name.
    pub fn should_ignore(&self, entry_name: &str, ignore_patterns: &Vec<String>) -> (r: bool)
        ensures
            r == any_matches(strings_view(ignore_patterns@), entry_name@),
    {
        matches_any(entry_name, ignore_patterns)
    }

    /// Whether the tool accepts the arguments of a call, as far as the
    /// arguments alone decide.
    pub fn validate_params(&self, params: &Json) -> (r: Result<(), String>)
        ensures
            unit_view(r) == validated(params@),
    {
        match ListDirectoryParams::read(params) {
            Err(report) => Err(report),
            Ok(read) => {
                Ok(())
            },
        }
    }

    /// What a call is going to do, in words.
    pub fn get_description(&self, params: &Json) -> (r: String)
        ensures
            r@ == described(params@),
    {
        match ListDirectoryParams::read(params) {
            Ok(read) => {
                join2("List contents of directory: ", read.path.as_str())
            },
            Err(_) => "List directory contents".to_string(),
        }
    }

    /// The places that a call is going to touch.
    pub fn tool_locations(&self, params: &Json) -> (r: Vec<ToolLocation>)
        ensures
            locations_view(r@) == located(params@),
    {
        match ListDirectoryParams::read(params) {
            Ok(read) => {
                location(read.path, None)
            },
            Err(_) => no_location(),
        }
    }
}

impl Tool for ListDirectoryTool {
    open spec fn name_text(&self) -> Seq<char> {
        tool_name()
    }

    open spec fn description_text(&self) -> Seq<char> {
        tool_description()
    }

    open spec fn advertised(&self) -> ToolDefinitionView {
        definition()
    }

    open spec fn validation(&self, params: JsonView) -> Result<(), Seq<char>> {
        validated(params)
    }

    open spec fn call_description(&self, params: JsonView) -> Seq<char> {
        described(params)
    }

    open spec fn call_locations(&self, params: JsonView) -> Seq<ToolLocationView> {
        located(params)
    }

    fn name(&self) -> (r: &str)
        ensures
            r@ == tool_name(),
    {
        ListDirectoryTool::name(self)
    }

    fn description(&self) -> (r: &str)
        ensures
            r@ == tool_description(),
    {
        ListDirectoryTool::description(self)
    }

    fn get_tool_definition(&self) -> (r: ToolDefinition)
        ensures
            r@ == definition(),
    {
        ListDirectoryTool::get_tool_definition(self)
    }

    fn validate_params(&self, params: &Json) -> (r: Result<(), String>)
        ensures
            unit_view(r) == validated(params@),
    {
        ListDirectoryTool::validate_params(self, params)
    }

    fn get_description(&self, params: &Json) -> (r: String)
        ensures
            r@ == described(params@),
    {
        ListDirectoryTool::get_description(self, params)
    }

    fn tool_locations(&self, params: &Json) -> (r: Vec<ToolLocation>)
        ensures
            locations_view(r@) == located(params@),
    {
        ListDirectoryTool::tool_locations(self, params)
    }
}

/// Whether a line of an ignore file, without the white space at its
/// ends, is a rule: it is not empty and no comment.
pub open spec fn is_rule(line: Seq<char>) -> bool {
    line.len() > 0 && line[0] != '#'
}

/// The rules among the lines of an ignore file, each without the white
/// space at its ends.
pub open spec fn rules_of(lines: Seq<Seq<char>>) -> Seq<Seq<char>>
    decreases lines.len(),
{
    if lines.len() == 0 {
        Seq::empty()
    } else if is_rule(trimmed(lines.last())) {
        rules_of(lines.drop_last()).push(trimmed(lines.last()))
    } else {
        rules_of(lines.drop_last())
    }
}

/// The rules of an ignore file with the content `content`.
pub open spec fn ignore_rules(content: Seq<char>) -> Seq<Seq<char>> {
    rules_of(lines_of(content))
}

/// The rules of an ignore file with the content `content`.
pub fn read_ignore_rules(content: &str) -> (r: Vec<String>)
    ensures
        strings_view(r@) == ignore_rules(content@),
{
    let lines = split_lines(content);
    let ghost all = strings_view(lines@);
    let mut rules: Vec<String> = Vec::new();
    let mut i: usize = 0;
    assert(strings_view(rules@) =~= Seq::empty());
    assert(all.take(0) =~= Seq::empty());
    while i < lines.len()
        invariant
            i <= lines.len(),
            all == strings_view(lines@),
            strings_view(rules@) == rules_of(all.take(i as int)),
        decreases lines.len() - i,
    {
        proof {
            assert(all.take(i + 1).drop_last() =~= all.take(i as int));
        }
        let rule = trim_text(lines[i].as_str());
        let chars = chars_of(rule.as_str());
        if chars.len() > 0 && chars[0] != '#' {
            push_line(&mut rules, rule);
        }
        i += 1;
    }
    assert(all.take(i as int) =~= all);
    rules
}

/// The report of the first of the patterns that is no glob; `None` where
/// each of them is one.
pub open spec fn first_refused(patterns: Seq<Seq<char>>) -> Option<Seq<char>>
    decreases patterns.len(),
{
    if patterns.len() == 0 {
        None
    } else {
        match first_refused(patterns.drop_last()) {
            Some(report) => Some(report),
            None => match glob_error(patterns.last()) {
                Some(message) => Some(invalid_pattern(patterns.last(), message)),
                None => None,
            },
        }
    }
}

/// The report of the first of `patterns` that is no glob.
pub fn check_patterns(patterns: &Vec<String>) -> (r: Option<String>)
    ensures
        opt_text(r) == first_refused(strings_view(patterns@)),
{
    let ghost all = strings_view(patterns@);
    let mut i: usize = 0;
    assert(all.take(0) =~= Seq::empty());
    while i < patterns.len()
        invariant
            i <= patterns.len(),
            all == strings_view(patterns@),
            first_refused(all.take(i as int)) is None,
        decreases patterns.len() - i,
    {
        proof {
            assert(all.take(i + 1).drop_last() =~= all.take(i as int));
        }
        match check_pattern(patterns[i].as_str()) {
            Err(report) => {
                proof {
                    lemma_refused_stays(all, i + 1);
                }
                return Some(report);
            },
            Ok(()) => {},
        }
        i += 1;
    }
    assert(all.take(i as int) =~= all);
    None
}

/// A pattern that is refused among the first `n` is the one that is
/// refused among them all.
proof fn lemma_refused_stays(patterns: Seq<Seq<char>>, n: int)
    requires
        0 <= n <= patterns.len(),
        first_refused(patterns.take(n)) is Some,
    ensures
        first_refused(patterns) == first_refused(patterns.take(n)),
    decreases patterns.len() - n,
{
    if n < patterns.len() {
        assert(patterns.take(n + 1).drop_last() =~= patterns.take(n));
        lemma_refused_stays(patterns, n + 1);
    } else {
        assert(patterns.take(n) =~= patterns);
    }
}

/// The patterns by which entries are left out of a listing: those of
/// the call, then the rules of the ignore file of the directory where it
/// was read.  A pattern of the call that is no glob is reported.
pub open spec fn ignore_list(ignore: Option<Seq<Seq<char>>>, ignore_file: Option<Seq<char>>)
    -> Result<Seq<Seq<char>>, Seq<char>> {
    let given = match ignore {
        Some(given) => given,
        None => Seq::empty(),
    };
    match first_refused(given) {
        Some(report) => Err(report),
        None => Ok(
            given + (match ignore_file {
                Some(content) => ignore_rules(content),
                None => Seq::empty(),
            }),
        ),
    }
}

/// An entry of a directory: its name, and whether it is a directory
/// itself.
#[derive(Debug, PartialEq, Eq)]
pub struct Entry {
    pub name: String,
    pub is_directory: bool,
}

/// An entry of a directory.
pub ghost struct EntryView {
    pub name: Seq<char>,
    pub is_directory: bool,
}

impl View for Entry {
    type V = EntryView;

    open spec fn view(&self) -> EntryView {
        EntryView { name: self.name@, is_directory: self.is_directory }
    }
}

/// The entries as values.
pub open spec fn entries_view(entries: Seq<Entry>) -> Seq<EntryView> {
    Seq::new(entries.len(), |i: int| entries[i]@)
}

/// The names of the entries that are listed as directories, or as files:
/// those of the kind that no pattern matches, in the order of the entries.
pub open spec fn listed_names(
    entries: Seq<EntryView>,
    patterns: Seq<Seq<char>>,
    directories: bool,
) -> Seq<Seq<char>>
    decreases entries.len(),
{
    if entries.len() == 0 {
        Seq::empty()
    } else if entries.last().is_directory == directories && !any_matches(
        patterns,
        entries.last().name,
    ) {
        listed_names(entries.drop_last(), patterns, directories).push(entries.last().name)
    } else {
        listed_names(entries.drop_last(), patterns, directories)
    }
}

/// What a listing tells the model.
pub open spec fn listing_json(
    path: Seq<char>,
    directories: Seq<Seq<char>>,
    files: Seq<Seq<char>>,
) -> JsonView {
    JsonView::Object(
        seq![
            ("directory"@, JsonView::Str(path)),
            ("total_items"@, count_view((files.len() + directories.len()) as int)),
            ("directories"@, texts_view(directories)),
            ("files"@, texts_view(files)),
        ],
    )
}

/// What a listing shows the user, line by line: the directory and the
/// number of its entries, then the directories and the files, each kind
/// under its heading unless there is none of it.
pub open spec fn listing_lines(
    path: Seq<char>,
    directories: Seq<Seq<char>>,
    files: Seq<Seq<char>>,
) -> Seq<Seq<char>> {
    seq![
        "Directory: "@ + path,
        "Total items: "@ + decimal(files.len() + directories.len()),
        ""@,
    ] + (if directories.len() > 0 {
        seq!["Directories:"@] + decorated(directories, "  üìÅ "@, "/"@) + seq![""@]
    } else {
        Seq::empty()
    }) + (if files.len() > 0 {
        seq!["Files:"@] + decorated(files, "  üìÑ "@, ""@)
    } else {
        Seq::empty()
    })
}

/// The result of listing the directory at `path`, with the directories
/// and the files in it that are listed.
pub open spec fn listing(path: Seq<char>, directories: Seq<Seq<char>>, files: Seq<Seq<char>>)
    -> ToolResultView {
    ToolResultView {
        summary: Some(
            "Listed "@ + decimal(files.len() + directories.len()) + " items in directory"@,
        ),
        llm_content: listing_json(path, directories, files),
        return_display: stacked(listing_lines(path, directories, files)),
    }
}

impl ListDirectoryTool {
    /// The patterns by which entries are left out: those of the call,
    /// checked, and the rules of the ignore file, where `ignore_file`
    /// holds its content.
    pub fn ignore_patterns(&self, ignore: &Option<Vec<String>>, ignore_file: &Option<String>) -> (r:
        Result<Vec<String>, String>)
        ensures
            texts_result_view(r) == ignore_list(opt_strings_view(*ignore), opt_text(*ignore_file)),
    {
        let mut patterns: Vec<String> = match ignore {
            Some(given) => clone_strings(given),
            None => {
                let none: Vec<String> = Vec::new();
                assert(strings_view(none@) =~= Seq::empty());
                none
            },
        };
        match check_patterns(&patterns) {
            Some(report) => { return Err(report); },
            None => {},
        }
        match ignore_file {
            Some(content) => {
                let rules = read_ignore_rules(content.as_str());
                push_lines(&mut patterns, &rules);
            },
            None => {
                assert(strings_view(patterns@) + Seq::<Seq<char>>::empty() =~= strings_view(
                    patterns@,
                ));
            },
        }
        Ok(patterns)
    }

    /// The names of the entries that are listed as directories, or as
    /// files: those of the kind that none of `patterns` matches.
    pub fn select(&self, entries: &Vec<Entry>, patterns: &Vec<String>, directories: bool) -> (r:
        Vec<String>)
        ensures
            strings_view(r@) == listed_names(
                entries_view(entries@),
                strings_view(patterns@),
                directories,
            ),
    {
        let ghost all = entries_view(entries@);
        let mut names: Vec<String> = Vec::new();
        let mut i: usize = 0;
        assert(strings_view(names@) =~= Seq::empty());
        assert(all.take(0) =~= Seq::empty());
        while i < entries.len()
            invariant
                i <= entries.len(),
                all == entries_view(entries@),
                strings_view(names@) == listed_names(
                    all.take(i as int),
                    strings_view(patterns@),
                    directories,
                ),
            decreases entries.len() - i,
        {
            proof {
                assert(all.take(i + 1).drop_last() =~= all.take(i as int));
            }
            let entry = &entries[i];
            if entry.is_directory == directories && !self.should_ignore(
                entry.name.as_str(),
                patterns,
            ) {
                push_line(&mut names, entry.name.clone());
            }
            i += 1;
        }
        assert(all.take(i as int) =~= all);
        names
    }

    /// The result of a listing: the directory at `path` holds the
    /// `directories` and the `files`, each in the order in which it is to
    /// be shown.  The two are few enough to be counted.
    pub fn report(&self, path: &str, directories: &Vec<String>, files: &Vec<String>) -> (r:
        ToolResult)
        requires
            directories.len() + files.len() <= usize::MAX,
        ensures
            r@ == listing(path@, strings_view(directories@), strings_view(files@)),
    {
        let total: usize = files.len() + directories.len();
        let digits = count_text(total);

        let mut members: Vec<(String, Json)> = Vec::new();
        assert(members_view(members@) =~= Seq::empty());
        push_member(&mut members, "directory", Json::string(path));
        push_member(&mut members, "total_items", count_json(total));
        push_member(&mut members, "directories", texts_json(directories));
        push_member(&mut members, "files", texts_json(files));
        assert(members_view(members@) =~= listing_json(
            path@,
            strings_view(directories@),
            strings_view(files@),
        )->Object_0);

        let mut display: Vec<String> = Vec::new();
        assert(strings_view(display@) =~= Seq::empty());
        push_line(&mut display, join2("Directory: ", path));
        push_line(&mut display, join2("Total items: ", digits.as_str()));
        push_line(&mut display, "".to_string());
        if directories.len() > 0 {
            push_line(&mut display, "Directories:".to_string());
            push_decorated(&mut display, directories, "  üìÅ ", "/");
            push_line(&mut display, "".to_string());
        }
        if files.len() > 0 {
            push_line(&mut display, "Files:".to_string());
            push_decorated(&mut display, files, "  üìÑ ", "");
        }
        assert(strings_view(display@) =~= listing_lines(
            path@,
            strings_view(directories@),
            strings_view(files@),
        ));
        ToolResult {
            summary: Some(join3("Listed ", digits.as_str(), " items in directory")),
            llm_content: Json::object(members),
            return_display: stack(&display),
        }
    }
}

} // verus!
