//! The tool `save_memory`: how it is advertised, what it makes of the parameters
//! of a call before anything is run, and how it reports what the run
//! came to.

use vstd::prelude::*;
use crate::dispatcher::{parse_schema, schema_of};
use crate::function_calling::{ToolDefinition, ToolDefinitionView};
use crate::json::{Json, JsonNumber, JsonView, members_view, push_member};
use crate::text::{append, chars_of, decimal, decimal_text, join2, join3, string_of, strings_view};
use crate::tools::{
    locations_view, Tool, ToolLocation, ToolLocationView, ToolResult, ToolResultView,
};
use crate::tools::params::{
    is_blank, location, one_location, read_text, required_text, text_is_blank,
    unit_view,
};
use crate::tools::report::{count_view, push_line, stack, stacked};

verus! {

/// The tool that saves a fact for later conversations.
#[derive(Debug, Clone, Copy, PartialEq, Eq, Structural)]
pub struct SaveMemoryTool;

/// The name under which the model calls the tool.
pub open spec fn tool_name() -> Seq<char> {
    "save_memory"@
}

/// What the tool does, for the model.
pub open spec fn tool_description() -> Seq<char> {
    "Saves a specific piece of information or fact to your long-term memory. Use this tool when the user explicitly asks you to remember something or when the user states a clear, concise fact about themselves, their preferences, or their environment that seems important for you to retain for future interactions."@
}

/// The JSON schema of the parameters of the tool, as text.
pub open spec fn schema_text() -> Seq<char> {
    "{\"type\":\"object\",\"properties\":{\"fact\":{\"description\":\"The specific fact or piece of information to remember. Should be a clear, self-contained statement.\",\"type\":\"string\"}},\"required\":[\"fact\"]}"@
}

/// The tool as it is advertised.
pub open spec fn definition() -> ToolDefinitionView {
    ToolDefinitionView {
        name: tool_name(),
        description: tool_description(),
        parameters: schema_of(schema_text()),
    }
}

/// The parameters of a call.
#[derive(Debug, PartialEq, Eq)]
pub struct SaveMemoryParams {
    pub fact: String,
}

pub ghost struct SaveMemoryParamsView {
    pub fact: Seq<char>,
}

impl View for SaveMemoryParams {
    type V = SaveMemoryParamsView;

    open spec fn view(&self) -> SaveMemoryParamsView {
        SaveMemoryParamsView {
            fact: self.fact@,
        }
    }
}

/// The parameters that the arguments of a call spell out, or the report
/// of the first that is missing or of the wrong type.
pub open spec fn params_of(params: JsonView) -> Result<SaveMemoryParamsView, Seq<char>> {
    match required_text(params, "fact"@) {
        Err(report) => Err(report),
        Ok(fact) => Ok(SaveMemoryParamsView { fact }),
    }
}

/// The value of parameters or a report.
pub open spec fn params_view(result: Result<SaveMemoryParams, String>) -> Result<
    SaveMemoryParamsView,
    Seq<char>,
> {
    match result {
        Ok(params) => Ok(params@),
        Err(report) => Err(report@),
    }
}

impl SaveMemoryParams {
    /// Reads the parameters out of the arguments of a call.
    pub fn read(params: &Json) -> (r: Result<SaveMemoryParams, String>)
        ensures
            params_view(r) == params_of(params@),
    {
        let fact = match read_text(params, "fact") {
            Ok(fact) => fact,
            Err(report) => { return Err(report); },
        };
        Ok(SaveMemoryParams { fact })
    }
}

/// The number of characters of a fact that a description shows.
pub const PREVIEW_LEN: usize = 50;

/// A fact as a description shows it: as it is where it is short, and
/// else its first characters and three dots.
pub open spec fn preview(fact: Seq<char>) -> Seq<char> {
    if fact.len() > PREVIEW_LEN {
        fact.take(PREVIEW_LEN as int) + "..."@
    } else {
        fact
    }
}

/// A fact as a description shows it.
pub fn make_preview(fact: &str) -> (r: String)
    ensures
        r@ == preview(fact@),
{
    let chars = chars_of(fact);
    if chars.len() > PREVIEW_LEN {
        let mut head: Vec<char> = Vec::new();
        let mut i: usize = 0;
        while i < PREVIEW_LEN
            invariant
                i <= PREVIEW_LEN,
                PREVIEW_LEN < chars.len(),
                head@ == chars@.take(i as int),
            decreases PREVIEW_LEN - i,
        {
            head.push(chars[i]);
            i += 1;
        }
        let start = string_of(&head);
        join2(start.as_str(), "...")
    } else {
        fact.to_string()
    }
}

/// Whether the tool accepts the arguments of a call, as far as the
/// arguments alone decide: `Ok`, or the report of what is wrong with them.
pub open spec fn validated(params: JsonView) -> Result<(), Seq<char>> {
    match params_of(params) {
        Err(report) => Err(report),
        Ok(read) => if is_blank(read.fact) {
            Err("Fact cannot be empty"@)
        } else {
            Ok(())
        },
    }
}

/// What a call is going to do, in words.
pub open spec fn described(params: JsonView) -> Seq<char> {
    match params_of(params) {
        Ok(read) => "Save to memory: "@ + preview(read.fact),
        Err(_) => "Save fact to memory"@,
    }
}

/// The places that a call is going to touch.
pub open spec fn located(params: JsonView) -> Seq<ToolLocationView> {
    match params_of(params) {
        Ok(read) => one_location("chat_memory.txt"@, None),
        Err(_) => one_location("chat_memory.txt"@, None),
    }
}

impl SaveMemoryTool {
    /// The tool.
    pub fn new() -> (r: Self)
        ensures
            r == SaveMemoryTool,
    {
        SaveMemoryTool
    }

    /// The name under which the model calls the tool.
    pub fn name(&self) -> (r: &'static str)
        ensures
            r@ == tool_name(),
    {
        "save_memory"
    }

    /// What the tool does, for the model.
    pub fn description(&self) -> (r: &'static str)
        ensures
            r@ == tool_description(),
    {
        "Saves a specific piece of information or fact to your long-term memory. Use this tool when the user explicitly asks you to remember something or when the user states a clear, concise fact about themselves, their preferences, or their environment that seems important for you to retain for future interactions."
    }

    /// The tool as it is advertised.
    pub fn get_tool_definition(&self) -> (r: ToolDefinition)
        ensures
            r@ == definition(),
    {
        ToolDefinition {
            name: self.name().to_string(),
            description: self.description().to_string(),
            parameters: parse_schema(
                "{\"type\":\"object\",\"properties\":{\"fact\":{\"description\":\"The specific fact or piece of information to remember. Should be a clear, self-contained statement.\",\"type\":\"string\"}},\"required\":[\"fact\"]}",
            ),
        }
    }

    /// The file in which the facts are kept.
    pub fn get_memory_file_path(&self) -> (r: &'static str)
        ensures
            r@ == "chat_memory.txt"@,
    {
        "chat_memory.txt"
    }

    /// Whether the tool accepts the arguments of a call, as far as the
    /// arguments alone decide.
    pub fn validate_params(&self, params: &Json) -> (r: Result<(), String>)
        ensures
            unit_view(r) == validated(params@),
    {
        match SaveMemoryParams::read(params) {
            Err(report) => Err(report),
            Ok(read) => {
                if text_is_blank(read.fact.as_str()) {
                    Err("Fact cannot be empty".to_string())
                } else {
                    Ok(())
                }
            },
        }
    }

    /// What a call is going to do, in words.
    pub fn get_description(&self, params: &Json) -> (r: String)
        ensures
            r@ == described(params@),
    {
        match SaveMemoryParams::read(params) {
            Ok(read) => {
                let short = make_preview(read.fact.as_str());
                join2("Save to memory: ", short.as_str())
            },
            Err(_) => "Save fact to memory".to_string(),
        }
    }

    /// The places that a call is going to touch.
    pub fn tool_locations(&self, params: &Json) -> (r: Vec<ToolLocation>)
        ensures
            locations_view(r@) == located(params@),
    {
        match SaveMemoryParams::read(params) {
            Ok(read) => {
                location(self.get_memory_file_path().to_string(), None)
            },
            Err(_) => location(self.get_memory_file_path().to_string(), None),
        }
    }
}

impl Tool for SaveMemoryTool {
    open spec fn name_text(&self) -> Seq<char> {
        tool_name()
    }

    open spec fn description_text(&self) -> Seq<char> {
        tool_description()
    }

    open spec fn advertised(&self) -> ToolDefinitionView {
        definition()
    }

    open spec fn validation(&self, params: JsonView) -> Result<(), Seq<char>> {
        validated(params)
    }

    open spec fn call_description(&self, params: JsonView) -> Seq<char> {
        described(params)
    }

    open spec fn call_locations(&self, params: JsonView) -> Seq<ToolLocationView> {
        located(params)
    }

    fn name(&self) -> (r: &str)
        ensures
            r@ == tool_name(),
    {
        SaveMemoryTool::name(self)
    }

    fn description(&self) -> (r: &str)
        ensures
            r@ == tool_description(),
    {
        SaveMemoryTool::description(self)
    }

    fn get_tool_definition(&self) -> (r: ToolDefinition)
        ensures
            r@ == definition(),
    {
        SaveMemoryTool::get_tool_definition(self)
    }

    fn validate_params(&self, params: &Json) -> (r: Result<(), String>)
        ensures
            unit_view(r) == validated(params@),
    {
        SaveMemoryTool::validate_params(self, params)
    }

    fn get_description(&self, params: &Json) -> (r: String)
        ensures
            r@ == described(params@),
    {
        SaveMemoryTool::get_description(self, params)
    }

    fn tool_locations(&self, params: &Json) -> (r: Vec<ToolLocation>)
        ensures
            locations_view(r@) == located(params@),
    {
        SaveMemoryTool::tool_locations(self, params)
    }
}

/// The file that facts are kept in.
pub open spec fn memory_file() -> Seq<char> {
    "chat_memory.txt"@
}

/// The line that is added to the file for a fact: the time in brackets,
/// the fact, and a line feed.
pub open spec fn memory_entry(fact: Seq<char>, timestamp: Seq<char>) -> Seq<char> {
    "["@ + timestamp + "] "@ + fact + "\n"@
}

/// What saving a fact tells the model.
pub open spec fn saved_json(
    fact: Seq<char>,
    timestamp: Seq<char>,
    existed: bool,
    previous_size: u64,
    new_size: u64,
) -> JsonView {
    JsonView::Object(
        seq![
            ("fact"@, JsonView::Str(fact)),
            ("timestamp"@, JsonView::Str(timestamp)),
            ("memory_file"@, JsonView::Str(memory_file())),
            ("file_existed"@, JsonView::Bool(existed)),
            ("previous_size"@, count_view(previous_size as int)),
            ("new_size"@, count_view(new_size as int)),
            ("bytes_added"@, count_view(new_size - previous_size)),
        ],
    )
}

/// What saving a fact shows the user, line by line.
pub open spec fn saved_lines(
    fact: Seq<char>,
    timestamp: Seq<char>,
    previous_size: u64,
    new_size: u64,
) -> Seq<Seq<char>> {
    seq![
        "Memory saved successfully"@,
        "File: "@ + memory_file(),
        "Timestamp: "@ + timestamp,
        "Fact: "@ + fact,
        "File size: "@ + decimal(new_size as nat) + " bytes (was "@ + decimal(previous_size as nat)
            + " bytes)"@,
    ]
}

/// The result of saving `fact` at the time `timestamp` to the file, which
/// was there before or not, held `previous_size` bytes then and holds
/// `new_size` now.
pub open spec fn saved(
    fact: Seq<char>,
    timestamp: Seq<char>,
    existed: bool,
    previous_size: u64,
    new_size: u64,
) -> ToolResultView {
    ToolResultView {
        summary: Some(
            "Saved fact to memory ("@ + (if existed {
                "appended"@
            } else {
                "created new file"@
            }) + ")"@,
        ),
        llm_content: saved_json(fact, timestamp, existed, previous_size, new_size),
        return_display: stacked(saved_lines(fact, timestamp, previous_size, new_size)),
    }
}

impl SaveMemoryTool {
    /// The line that is added to the file for `fact`, saved at the time
    /// `timestamp`.
    pub fn entry(&self, fact: &str, timestamp: &str) -> (r: String)
        ensures
            r@ == memory_entry(fact@, timestamp@),
    {
        let mut entry = join3("[", timestamp, "] ");
        append(&mut entry, fact);
        append(&mut entry, "\n");
        entry
    }

    /// The result of a save that went through.  The file has not shrunk:
    /// it was only added to.
    pub fn report(
        &self,
        fact: &str,
        timestamp: &str,
        existed: bool,
        previous_size: u64,
        new_size: u64,
    ) -> (r: ToolResult)
        requires
            previous_size <= new_size,
        ensures
            r@ == saved(fact@, timestamp@, existed, previous_size, new_size),
    {
        let file = self.get_memory_file_path();
        let before = decimal_text(previous_size);
        let after = decimal_text(new_size);
        let summary = join3(
            "Saved fact to memory (",
            if existed {
                "appended"
            } else {
                "created new file"
            },
            ")",
        );

        let mut members: Vec<(String, Json)> = Vec::new();
        assert(members_view(members@) =~= Seq::empty());
        push_member(&mut members, "fact", Json::string(fact));
        push_member(&mut members, "timestamp", Json::string(timestamp));
        push_member(&mut members, "memory_file", Json::string(file));
        push_member(&mut members, "file_existed", Json::Bool(existed));
        push_member(&mut members, "previous_size", Json::Number(JsonNumber::UInt(previous_size)));
        push_member(&mut members, "new_size", Json::Number(JsonNumber::UInt(new_size)));
        push_member(
            &mut members,
            "bytes_added",
            Json::Number(JsonNumber::UInt(new_size - previous_size)),
        );
        assert(members_view(members@) =~= saved_json(
            fact@,
            timestamp@,
            existed,
            previous_size,
            new_size,
        )->Object_0);

        let mut size = join3("File size: ", after.as_str(), " bytes (was ");
        append(&mut size, before.as_str());
        append(&mut size, " bytes)");
        let mut display: Vec<String> = Vec::new();
        assert(strings_view(display@) =~= Seq::empty());
        push_line(&mut display, "Memory saved successfully".to_string());
        push_line(&mut display, join2("File: ", file));
        push_line(&mut display, join2("Timestamp: ", timestamp));
        push_line(&mut display, join2("Fact: ", fact));
        push_line(&mut display, size);
        assert(strings_view(display@) =~= saved_lines(fact@, timestamp@, previous_size, new_size));
        ToolResult {
            summary: Some(summary),
            llm_content: Json::object(members),
            return_display: stack(&display),
        }
    }
}

} // verus!
