//! The tool `google_web_search`: how it is advertised, what it makes of the parameters
//! of a call before anything is run, and how it reports what the run
//! came to.

use vstd::prelude::*;
use crate::dispatcher::{parse_schema, schema_of};
use crate::function_calling::{ToolDefinition, ToolDefinitionView};
use crate::json::{Json, JsonView, members_view, push_member};
use crate::text::{join2, join3};
use crate::tools::{
    locations_view, Tool, ToolLocation, ToolLocationView, ToolResult, ToolResultView,
};
use crate::tools::params::{
    is_blank, no_location, read_text, required_text, text_is_blank, unit_view,
};

verus! {

/// The tool that searches the web.
#[derive(Debug, Clone, Copy, PartialEq, Eq, Structural)]
pub struct GoogleWebSearchTool;

/// The name under which the model calls the tool.
pub open spec fn tool_name() -> Seq<char> {
    "google_web_search"@
}

/// What the tool does, for the model.
pub open spec fn tool_description() -> Seq<char> {
    "Performs a web search using Google Search (via the Gemini API) and returns the results. This tool is useful for finding information on the internet based on a query."@
}

/// The JSON schema of the parameters of the tool, as text.
pub open spec fn schema_text() -> Seq<char> {
    "{\"type\":\"object\",\"properties\":{\"query\":{\"description\":\"The search query to find information on the web.\",\"type\":\"string\"}},\"required\":[\"query\"]}"@
}

/// The tool as it is advertised.
pub open spec fn definition() -> ToolDefinitionView {
    ToolDefinitionView {
        name: tool_name(),
        description: tool_description(),
        parameters: schema_of(schema_text()),
    }
}

/// The parameters of a call.
#[derive(Debug, PartialEq, Eq)]
pub struct GoogleWebSearchParams {
    pub query: String,
}

pub ghost struct GoogleWebSearchParamsView {
    pub query: Seq<char>,
}

impl View for GoogleWebSearchParams {
    type V = GoogleWebSearchParamsView;

    open spec fn view(&self) -> GoogleWebSearchParamsView {
        GoogleWebSearchParamsView {
            query: self.query@,
        }
    }
}

/// The parameters that the arguments of a call spell out, or the report
/// of the first that is missing or of the wrong type.
pub open spec fn params_of(params: JsonView) -> Result<GoogleWebSearchParamsView, Seq<char>> {
    match required_text(params, "query"@) {
        Err(report) => Err(report),
        Ok(query) => Ok(GoogleWebSearchParamsView { query }),
    }
}

/// The value of parameters or a report.
pub open spec fn params_view(result: Result<GoogleWebSearchParams, String>) -> Result<
    GoogleWebSearchParamsView,
    Seq<char>,
> {
    match result {
        Ok(params) => Ok(params@),
        Err(report) => Err(report@),
    }
}

impl GoogleWebSearchParams {
    /// Reads the parameters out of the arguments of a call.
    pub fn read(params: &Json) -> (r: Result<GoogleWebSearchParams, String>)
        ensures
            params_view(r) == params_of(params@),
    {
        let query = match read_text(params, "query") {
            Ok(query) => query,
            Err(report) => { return Err(report); },
        };
        Ok(GoogleWebSearchParams { query })
    }
}

/// Whether the tool accepts the arguments of a call, as far as the
/// arguments alone decide: `Ok`, or the report of what is wrong with them.
pub open spec fn validated(params: JsonView) -> Result<(), Seq<char>> {
    match params_of(params) {
        Err(report) => Err(report),
        Ok(read) => if is_blank(read.query) {
            Err("Query cannot be empty"@)
        } else {
            Ok(())
        },
    }
}

/// What a call is going to do, in words.
pub open spec fn described(params: JsonView) -> Seq<char> {
    match params_of(params) {
        Ok(read) => "Search web for: "@ + read.query,
        Err(_) => "Web search"@,
    }
}

/// The places that a call is going to touch.
pub open spec fn located(params: JsonView) -> Seq<ToolLocationView> {
    match params_of(params) {
        Ok(read) => Seq::empty(),
        Err(_) => Seq::empty(),
    }
}

impl GoogleWebSearchTool {
    /// The tool.
    pub fn new() -> (r: Self)
        ensures
            r == GoogleWebSearchTool,
    {
        GoogleWebSearchTool
    }

    /// The name under which the model calls the tool.
    pub fn name(&self) -> (r: &'static str)
        ensures
            r@ == tool_name(),
    {
        "google_web_search"
    }

    /// What the tool does, for the model.
    pub fn description(&self) -> (r: &'static str)
        ensures
            r@ == tool_description(),
    {
        "Performs a web search using Google Search (via the Gemini API) and returns the results. This tool is useful for finding information on the internet based on a query."
    }

    /// The tool as it is advertised.
    pub fn get_tool_definition(&self) -> (r: ToolDefinition)
        ensures
            r@ == definition(),
    {
        ToolDefinition {
            name: self.name().to_string(),
            description: self.description().to_string(),
            parameters: parse_schema(
                "{\"type\":\"object\",\"properties\":{\"query\":{\"description\":\"The search query to find information on the web.\",\"type\":\"string\"}},\"required\":[\"query\"]}",
            ),
        }
    }

    /// Whether the tool accepts the arguments of a call, as far as the
    /// arguments alone decide.
    pub fn validate_params(&self, params: &Json) -> (r: Result<(), String>)
        ensures
            unit_view(r) == validated(params@),
    {
        match GoogleWebSearchParams::read(params) {
            Err(report) => Err(report),
            Ok(read) => {
                if text_is_blank(read.query.as_str()) {
                    Err("Query cannot be empty".to_string())
                } else {
                    Ok(())
                }
            },
        }
    }

    /// What a call is going to do, in words.
    pub fn get_description(&self, params: &Json) -> (r: String)
        ensures
            r@ == described(params@),
    {
        match GoogleWebSearchParams::read(params) {
            Ok(read) => {
                join2("Search web for: ", read.query.as_str())
            },
            Err(_) => "Web search".to_string(),
        }
    }

    /// The places that a call is going to touch.
    pub fn tool_locations(&self, params: &Json) -> (r: Vec<ToolLocation>)
        ensures
            locations_view(r@) == located(params@),
    {
        match GoogleWebSearchParams::read(params) {
            Ok(read) => {
                no_location()
            },
            Err(_) => no_location(),
        }
    }
}

impl Tool for GoogleWebSearchTool {
    open spec fn name_text(&self) -> Seq<char> {
        tool_name()
    }

    open spec fn description_text(&self) -> Seq<char> {
        tool_description()
    }

    open spec fn advertised(&self) -> ToolDefinitionView {
        definition()
    }

    open spec fn validation(&self, params: JsonView) -> Result<(), Seq<char>> {
        validated(params)
    }

    open spec fn call_description(&self, params: JsonView) -> Seq<char> {
        described(params)
    }

    open spec fn call_locations(&self, params: JsonView) -> Seq<ToolLocationView> {
        located(params)
    }

    fn name(&self) -> (r: &str)
        ensures
            r@ == tool_name(),
    {
        GoogleWebSearchTool::name(self)
    }

    fn description(&self) -> (r: &str)
        ensures
            r@ == tool_description(),
    {
        GoogleWebSearchTool::description(self)
    }

    fn get_tool_definition(&self) -> (r: ToolDefinition)
        ensures
            r@ == definition(),
    {
        GoogleWebSearchTool::get_tool_definition(self)
    }

    fn validate_params(&self, params: &Json) -> (r: Result<(), String>)
        ensures
            unit_view(r) == validated(params@),
    {
        GoogleWebSearchTool::validate_params(self, params)
    }

    fn get_description(&self, params: &Json) -> (r: String)
        ensures
            r@ == described(params@),
    {
        GoogleWebSearchTool::get_description(self, params)
    }

    fn tool_locations(&self, params: &Json) -> (r: Vec<ToolLocation>)
        ensures
            locations_view(r@) == located(params@),
    {
        GoogleWebSearchTool::tool_locations(self, params)
    }
}

/// What the tool has to say of every search: it has nothing to search
/// with.
pub open spec fn no_results() -> Seq<char> {
    "No results: no search backend is configured."@
}

/// What a search tells the model.
pub open spec fn searched_json(query: Seq<char>) -> JsonView {
    JsonView::Object(
        seq![
            ("query"@, JsonView::Str(query)),
            ("results"@, JsonView::Str(no_results())),
            ("note"@, JsonView::Str("No search backend is configured"@)),
        ],
    )
}

/// The result of a search for `query`.
pub open spec fn searched(query: Seq<char>) -> ToolResultView {
    ToolResultView {
        summary: Some("Searched for: "@ + query),
        llm_content: searched_json(query),
        return_display: "Web Search Query: "@ + query + "\n\n"@ + no_results(),
    }
}

impl GoogleWebSearchTool {
    /// The result of a search for `query`: the query, and that nothing
    /// was searched.
    pub fn report(&self, query: &str) -> (r: ToolResult)
        ensures
            r@ == searched(query@),
    {
        let mut members: Vec<(String, Json)> = Vec::new();
        assert(members_view(members@) =~= Seq::empty());
        push_member(&mut members, "query", Json::string(query));
        push_member(
            &mut members,
            "results",
            Json::string("No results: no search backend is configured."),
        );
        push_member(&mut members, "note", Json::string("No search backend is configured"));
        assert(members_view(members@) =~= searched_json(query@)->Object_0);
        let head = join3("Web Search Query: ", query, "\n\n");
        ToolResult {
            summary: Some(join2("Searched for: ", query)),
            llm_content: Json::object(members),
            return_display: join2(head.as_str(), "No results: no search backend is configured."),
        }
    }
}

} // verus!
