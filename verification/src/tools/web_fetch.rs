//! The tool `web_fetch`: how it is advertised, what it makes of the parameters
//! of a call before anything is run, and how it reports what the run
//! came to.

use vstd::prelude::*;
use vstd::utf8::{decode_utf8, encode_utf8, is_char_boundary};
use crate::dispatcher::{parse_schema, schema_of};
use crate::function_calling::{ToolDefinition, ToolDefinitionView};
use crate::json::{items_view, Json, JsonView, members_view, push_item, push_member};
use crate::text::{append, byte_len, decimal, decimal_text, join2, join3, strings_view};
use crate::tools::{
    locations_view, Tool, ToolLocation, ToolLocationView, ToolResult, ToolResultView,
};
use crate::tools::params::{no_location, read_text, required_text, unit_view};
use crate::tools::patterns::{find_all, regex_matches};
use crate::tools::report::{
    count_json, count_text, count_view, push_line, push_lines, stack, stacked, texts_json,
    texts_view,
};

verus! {

/// The tool that fetches what URLs point to.
#[derive(Debug, Clone, Copy, PartialEq, Eq, Structural)]
pub struct WebFetchTool;

/// The name under which the model calls the tool.
pub open spec fn tool_name() -> Seq<char> {
    "web_fetch"@
}

/// What the tool does, for the model.
pub open spec fn tool_description() -> Seq<char> {
    "Processes content from URL(s), including local and private network addresses (e.g., localhost), embedded in a prompt. Include up to 20 URLs and instructions (e.g., summarize, extract specific data) directly in the 'prompt' parameter."@
}

/// The JSON schema of the parameters of the tool, as text.
pub open spec fn schema_text() -> Seq<char> {
    "{\"type\":\"object\",\"properties\":{\"prompt\":{\"description\":\"A comprehensive prompt that includes the URL(s) (up to 20) to fetch and specific instructions on how to process their content (e.g., \\\"Summarize https://example.com/article and extract key points from https://another.com/data\\\"). Must contain as least one URL starting with http:// or https://.\",\"type\":\"string\"}},\"required\":[\"prompt\"]}"@
}

/// The tool as it is advertised.
pub open spec fn definition() -> ToolDefinitionView {
    ToolDefinitionView {
        name: tool_name(),
        description: tool_description(),
        parameters: schema_of(schema_text()),
    }
}

/// The parameters of a call.
#[derive(Debug, PartialEq, Eq)]
pub struct WebFetchParams {
    pub prompt: String,
}

pub ghost struct WebFetchParamsView {
    pub prompt: Seq<char>,
}

impl View for WebFetchParams {
    type V = WebFetchParamsView;

    open spec fn view(&self) -> WebFetchParamsView {
        WebFetchParamsView {
            prompt: self.prompt@,
        }
    }
}

/// The parameters that the arguments of a call spell out, or the report
/// of the first that is missing or of the wrong type.
pub open spec fn params_of(params: JsonView) -> Result<WebFetchParamsView, Seq<char>> {
    match required_text(params, "prompt"@) {
        Err(report) => Err(report),
        Ok(prompt) => Ok(WebFetchParamsView { prompt }),
    }
}

/// The value of parameters or a report.
pub open spec fn params_view(result: Result<WebFetchParams, String>) -> Result<
    WebFetchParamsView,
    Seq<char>,
> {
    match result {
        Ok(params) => Ok(params@),
        Err(report) => Err(report@),
    }
}

impl WebFetchParams {
    /// Reads the parameters out of the arguments of a call.
    pub fn read(params: &Json) -> (r: Result<WebFetchParams, String>)
        ensures
            params_view(r) == params_of(params@),
    {
        let prompt = match read_text(params, "prompt") {
            Ok(prompt) => prompt,
            Err(report) => { return Err(report); },
        };
        Ok(WebFetchParams { prompt })
    }
}

/// The most URLs that one prompt may hold.
pub const MAX_URLS: usize = 20;

/// The regular expression that finds the URLs in a prompt.
pub open spec fn url_pattern() -> Seq<char> {
    "https?://[^\\s]+"@
}

/// The URLs in a prompt, in the order in which they stand.
pub open spec fn urls_in(prompt: Seq<char>) -> Seq<Seq<char>> {
    match regex_matches(url_pattern(), prompt) {
        Some(found) => found,
        None => Seq::empty(),
    }
}

/// Whether the tool accepts the arguments of a call, as far as the
/// arguments alone decide: `Ok`, or the report of what is wrong with them.
pub open spec fn validated(params: JsonView) -> Result<(), Seq<char>> {
    match params_of(params) {
        Err(report) => Err(report),
        Ok(read) => if urls_in(read.prompt).len() == 0 {
            Err("Prompt must contain at least one URL starting with http:// or https://"@)
        } else if urls_in(read.prompt).len() > MAX_URLS {
            Err("Maximum 20 URLs allowed, found "@ + decimal(urls_in(read.prompt).len()))
        } else {
            Ok(())
        },
    }
}

/// What a call is going to do, in words.
pub open spec fn described(params: JsonView) -> Seq<char> {
    match params_of(params) {
        Ok(read) => "Fetch and process "@ + decimal(urls_in(read.prompt).len()) + " URL(s)"@,
        Err(_) => "Fetch web content"@,
    }
}

/// The places that a call is going to touch.
pub open spec fn located(params: JsonView) -> Seq<ToolLocationView> {
    match params_of(params) {
        Ok(read) => Seq::empty(),
        Err(_) => Seq::empty(),
    }
}

impl WebFetchTool {
    /// The tool.
    pub fn new() -> (r: Self)
        ensures
            r == WebFetchTool,
    {
        WebFetchTool
    }

    /// The name under which the model calls the tool.
    pub fn name(&self) -> (r: &'static str)
        ensures
            r@ == tool_name(),
    {
        "web_fetch"
    }

    /// What the tool does, for the model.
    pub fn description(&self) -> (r: &'static str)
        ensures
            r@ == tool_description(),
    {
        "Processes content from URL(s), including local and private network addresses (e.g., localhost), embedded in a prompt. Include up to 20 URLs and instructions (e.g., summarize, extract specific data) directly in the 'prompt' parameter."
    }

    /// The tool as it is advertised.
    pub fn get_tool_definition(&self) -> (r: ToolDefinition)
        ensures
            r@ == definition(),
    {
        ToolDefinition {
            name: self.name().to_string(),
            description: self.description().to_string(),
            parameters: parse_schema(
                "{\"type\":\"object\",\"properties\":{\"prompt\":{\"description\":\"A comprehensive prompt that includes the URL(s) (up to 20) to fetch and specific instructions on how to process their content (e.g., \\\"Summarize https://example.com/article and extract key points from https://another.com/data\\\"). Must contain as least one URL starting with http:// or https://.\",\"type\":\"string\"}},\"required\":[\"prompt\"]}",
            ),
        }
    }

    /// The URLs in a prompt, in the order in which they stand.
    pub fn extract_urls(&self, prompt: &str) -> (r: Vec<String>)
        ensures
            strings_view(r@) == urls_in(prompt@),
    {
        match find_all("https?://[^\\s]+", prompt) {
            Some(found) => found,
            None => {
                let none: Vec<String> = Vec::new();
                assert(strings_view(none@) =~= Seq::empty());
                none
            },
        }
    }

    /// Whether the tool accepts the arguments of a call, as far as the
    /// arguments alone decide.
    pub fn validate_params(&self, params: &Json) -> (r: Result<(), String>)
        ensures
            unit_view(r) == validated(params@),
    {
        match WebFetchParams::read(params) {
            Err(report) => Err(report),
            Ok(read) => {
                let urls = self.extract_urls(read.prompt.as_str());
                if urls.len() == 0 {
                    Err(
                        "Prompt must contain at least one URL starting with http:// or https://".to_string(),
                    )
                } else if urls.len() > MAX_URLS {
                    let count = decimal_text(urls.len() as u64);
                    Err(join2("Maximum 20 URLs allowed, found ", count.as_str()))
                } else {
                    Ok(())
                }
            },
        }
    }

    /// What a call is going to do, in words.
    pub fn get_description(&self, params: &Json) -> (r: String)
        ensures
            r@ == described(params@),
    {
        match WebFetchParams::read(params) {
            Ok(read) => {
                let urls = self.extract_urls(read.prompt.as_str());
                let count = decimal_text(urls.len() as u64);
                join3("Fetch and process ", count.as_str(), " URL(s)")
            },
            Err(_) => "Fetch web content".to_string(),
        }
    }

    /// The places that a call is going to touch.
    pub fn tool_locations(&self, params: &Json) -> (r: Vec<ToolLocation>)
        ensures
            locations_view(r@) == located(params@),
    {
        match WebFetchParams::read(params) {
            Ok(read) => {
                no_location()
            },
            Err(_) => no_location(),
        }
    }
}

impl Tool for WebFetchTool {
    open spec fn name_text(&self) -> Seq<char> {
        tool_name()
    }

    open spec fn description_text(&self) -> Seq<char> {
        tool_description()
    }

    open spec fn advertised(&self) -> ToolDefinitionView {
        definition()
    }

    open spec fn validation(&self, params: JsonView) -> Result<(), Seq<char>> {
        validated(params)
    }

    open spec fn call_description(&self, params: JsonView) -> Seq<char> {
        described(params)
    }

    open spec fn call_locations(&self, params: JsonView) -> Seq<ToolLocationView> {
        located(params)
    }

    fn name(&self) -> (r: &str)
        ensures
            r@ == tool_name(),
    {
        WebFetchTool::name(self)
    }

    fn description(&self) -> (r: &str)
        ensures
            r@ == tool_description(),
    {
        WebFetchTool::description(self)
    }

    fn get_tool_definition(&self) -> (r: ToolDefinition)
        ensures
            r@ == definition(),
    {
        WebFetchTool::get_tool_definition(self)
    }

    fn validate_params(&self, params: &Json) -> (r: Result<(), String>)
        ensures
            unit_view(r) == validated(params@),
    {
        WebFetchTool::validate_params(self, params)
    }

    fn get_description(&self, params: &Json) -> (r: String)
        ensures
            r@ == described(params@),
    {
        WebFetchTool::get_description(self, params)
    }

    fn tool_locations(&self, params: &Json) -> (r: Vec<ToolLocation>)
        ensures
            locations_view(r@) == located(params@),
    {
        WebFetchTool::tool_locations(self, params)
    }
}

/// What came of fetching one address.
#[derive(Debug, PartialEq, Eq)]
pub enum Fetched {
    /// The body of the answer.
    Body(String),
    /// An answer came, but its body could not be read: the error.
    Unread(String),
    /// No answer came: the error.
    Unreached(String),
}

/// What came of fetching one address.
pub ghost enum FetchedView {
    Body(Seq<char>),
    Unread(Seq<char>),
    Unreached(Seq<char>),
}

impl View for Fetched {
    type V = FetchedView;

    open spec fn view(&self) -> FetchedView {
        match self {
            Fetched::Body(body) => FetchedView::Body(body@),
            Fetched::Unread(error) => FetchedView::Unread(error@),
            Fetched::Unreached(error) => FetchedView::Unreached(error@),
        }
    }
}

/// An address and what came of fetching it.
#[derive(Debug, PartialEq, Eq)]
pub struct Fetch {
    pub url: String,
    pub outcome: Fetched,
}

/// An address and what came of fetching it.
pub ghost struct FetchView {
    pub url: Seq<char>,
    pub outcome: FetchedView,
}

impl View for Fetch {
    type V = FetchView;

    open spec fn view(&self) -> FetchView {
        FetchView { url: self.url@, outcome: self.outcome@ }
    }
}

/// The fetches as values.
pub open spec fn fetches_view(fetches: Seq<Fetch>) -> Seq<FetchView> {
    Seq::new(fetches.len(), |i: int| fetches[i]@)
}

/// How many bytes of a body are handed on.
pub open spec fn body_limit() -> usize {
    50000
}

/// The last place at or before `at` at which a text in UTF-8 can be cut
/// between two characters.
pub open spec fn cut_before(bytes: Seq<u8>, at: int) -> int
    decreases at,
{
    if at <= 0 || is_char_boundary(bytes, at) {
        at
    } else {
        cut_before(bytes, at - 1)
    }
}

/// The start of a text: the characters that lie wholly within its first
/// `limit` bytes in UTF-8.
pub open spec fn start_of(text: Seq<char>, limit: usize) -> Seq<char> {
    decode_utf8(encode_utf8(text).subrange(0, cut_before(encode_utf8(text), limit as int)))
}

/// A body as it is handed on: whole, or, where it is longer than the
/// limit, its start and a note of its length.
pub open spec fn handed_on(body: Seq<char>) -> Seq<char> {
    if byte_len(body) > body_limit() {
        start_of(body, body_limit()) + "...\n[Content truncated - original length: "@ + decimal(
            byte_len(body) as nat,
        ) + " characters]"@
    } else {
        body
    }
}

/// The error of a fetch, in words; `None` for a fetch that brought a
/// body.
pub open spec fn fetch_error(outcome: FetchedView) -> Option<Seq<char>> {
    match outcome {
        FetchedView::Body(_) => None,
        FetchedView::Unread(error) => Some("Failed to read response body: "@ + error),
        FetchedView::Unreached(error) => Some("Failed to fetch URL: "@ + error),
    }
}

/// What one fetch tells the model.
pub open spec fn fetch_json(fetch: FetchView) -> JsonView {
    match fetch.outcome {
        FetchedView::Body(body) => JsonView::Object(
            seq![
                ("url"@, JsonView::Str(fetch.url)),
                ("status"@, JsonView::Str("success"@)),
                ("content"@, JsonView::Str(handed_on(body))),
                ("content_length"@, count_view(byte_len(body) as int)),
            ],
        ),
        _ => JsonView::Object(
            seq![
                ("url"@, JsonView::Str(fetch.url)),
                ("status"@, JsonView::Str("error"@)),
                ("error"@, JsonView::Str(fetch_error(fetch.outcome)->Some_0)),
            ],
        ),
    }
}

/// What one fetch shows the user.
pub open spec fn fetch_line(fetch: FetchView) -> Seq<char> {
    match fetch.outcome {
        FetchedView::Body(body) => "✅ "@ + fetch.url + " ("@ + decimal(byte_len(body) as nat)
            + " characters)"@,
        _ => "❌ "@ + fetch.url + ": "@ + fetch_error(fetch.outcome)->Some_0,
    }
}

/// How many of the fetches brought a body.
pub open spec fn successes(fetches: Seq<FetchView>) -> nat
    decreases fetches.len(),
{
    if fetches.len() == 0 {
        0
    } else if fetches.last().outcome is Body {
        successes(fetches.drop_last()) + 1
    } else {
        successes(fetches.drop_last())
    }
}

/// The numbers of a round of fetches, in words.
pub open spec fn fetched_counts(fetches: Seq<FetchView>) -> Seq<char> {
    decimal(successes(fetches)) + " successful, "@ + decimal(
        (fetches.len() - successes(fetches)) as nat,
    ) + " failed"@
}

/// What a round of fetches tells the model.
pub open spec fn fetched_json(prompt: Seq<char>, fetches: Seq<FetchView>) -> JsonView {
    JsonView::Object(
        seq![
            ("prompt"@, JsonView::Str(prompt)),
            ("urls_found"@, texts_view(Seq::new(fetches.len(), |i: int| fetches[i].url))),
            ("total_urls"@, count_view(fetches.len() as int)),
            ("successful_fetches"@, count_view(successes(fetches) as int)),
            ("failed_fetches"@, count_view(fetches.len() - successes(fetches))),
            (
                "fetched_content"@,
                JsonView::Array(Seq::new(fetches.len(), |i: int| fetch_json(fetches[i]))),
            ),
        ],
    )
}

/// What a round of fetches shows the user, line by line.
pub open spec fn fetched_lines(fetches: Seq<FetchView>) -> Seq<Seq<char>> {
    seq![
        "Web Fetch Results"@,
        "URLs processed: "@ + decimal(fetches.len()),
        "Successful: "@ + decimal(successes(fetches)) + ", Failed: "@ + decimal(
            (fetches.len() - successes(fetches)) as nat,
        ),
        ""@,
    ] + Seq::new(fetches.len(), |i: int| fetch_line(fetches[i])) + (if successes(fetches) > 0 {
        seq![""@, "Note: Content has been fetched and is available for processing."@]
    } else {
        Seq::empty()
    })
}

/// The result of fetching the addresses of `prompt`, one fetch for each
/// address.
pub open spec fn fetched(prompt: Seq<char>, fetches: Seq<FetchView>) -> ToolResultView {
    ToolResultView {
        summary: Some(
            "Fetched "@ + decimal(fetches.len()) + " URLs ("@ + fetched_counts(fetches) + ")"@,
        ),
        llm_content: fetched_json(prompt, fetches),
        return_display: stacked(fetched_lines(fetches)),
    }
}

/// The body as it is handed on.
pub fn hand_on(body: &str) -> (r: String)
    ensures
        r@ == handed_on(body@),
{
    if body.len() > 50000 {
        let mut cut: usize = 50000;
        while cut > 0 && !body.is_char_boundary(cut)
            invariant
                cut <= 50000,
                cut_before(encode_utf8(body@), cut as int) == cut_before(
                    encode_utf8(body@),
                    50000,
                ),
            decreases cut,
        {
            cut -= 1;
        }
        proof {
            vstd::utf8::encode_utf8_valid_utf8(body@);
        }
        let (head, _) = body.split_at(cut);
        proof {
            vstd::utf8::encode_utf8_valid_utf8(head@);
            vstd::utf8::encode_utf8_decode_utf8(head@);
        }
        let mut out = join3(
            head,
            "...\n[Content truncated - original length: ",
            count_text(body.len()).as_str(),
        );
        append(&mut out, " characters]");
        out
    } else {
        body.to_string()
    }
}

/// What one fetch tells the model.
pub fn fetch_to_json(fetch: &Fetch) -> (r: Json)
    ensures
        r@ == fetch_json(fetch@),
{
    let mut members: Vec<(String, Json)> = Vec::new();
    assert(members_view(members@) =~= Seq::empty());
    push_member(&mut members, "url", Json::string(fetch.url.as_str()));
    match &fetch.outcome {
        Fetched::Body(body) => {
            push_member(&mut members, "status", Json::string("success"));
            push_member(&mut members, "content", Json::Str(hand_on(body.as_str())));
            push_member(&mut members, "content_length", count_json(body.as_str().len()));
        },
        Fetched::Unread(error) => {
            push_member(&mut members, "status", Json::string("error"));
            push_member(
                &mut members,
                "error",
                Json::Str(join2("Failed to read response body: ", error.as_str())),
            );
        },
        Fetched::Unreached(error) => {
            push_member(&mut members, "status", Json::string("error"));
            push_member(
                &mut members,
                "error",
                Json::Str(join2("Failed to fetch URL: ", error.as_str())),
            );
        },
    }
    assert(members_view(members@) =~= fetch_json(fetch@)->Object_0);
    Json::object(members)
}

/// What one fetch shows the user.
pub fn fetch_to_line(fetch: &Fetch) -> (r: String)
    ensures
        r@ == fetch_line(fetch@),
{
    match &fetch.outcome {
        Fetched::Body(body) => {
            let mut line = join3("✅ ", fetch.url.as_str(), " (");
            append(&mut line, count_text(body.as_str().len()).as_str());
            append(&mut line, " characters)");
            line
        },
        Fetched::Unread(error) => {
            let head = join3("❌ ", fetch.url.as_str(), ": ");
            let words = join2("Failed to read response body: ", error.as_str());
            join2(head.as_str(), words.as_str())
        },
        Fetched::Unreached(error) => {
            let head = join3("❌ ", fetch.url.as_str(), ": ");
            let words = join2("Failed to fetch URL: ", error.as_str());
            join2(head.as_str(), words.as_str())
        },
    }
}

impl WebFetchTool {
    /// The result of a round of fetches: one for each address of
    /// `prompt`, in their order.
    pub fn report(&self, prompt: &str, fetches: &Vec<Fetch>) -> (r: ToolResult)
        ensures
            r@ == fetched(prompt@, fetches_view(fetches@)),
    {
        let ghost all = fetches_view(fetches@);
        let mut urls: Vec<String> = Vec::new();
        let mut items: Vec<Json> = Vec::new();
        let mut lines: Vec<String> = Vec::new();
        let mut successful: usize = 0;
        let mut i: usize = 0;
        assert(strings_view(urls@) =~= Seq::new(0, |k: int| all[k].url));
        assert(items_view(items@) =~= Seq::new(0, |k: int| fetch_json(all[k])));
        assert(strings_view(lines@) =~= Seq::new(0, |k: int| fetch_line(all[k])));
        assert(all.take(0) =~= Seq::empty());
        while i < fetches.len()
            invariant
                i <= fetches.len(),
                all == fetches_view(fetches@),
                strings_view(urls@) == Seq::new(i as nat, |k: int| all[k].url),
                items_view(items@) == Seq::new(i as nat, |k: int| fetch_json(all[k])),
                strings_view(lines@) == Seq::new(i as nat, |k: int| fetch_line(all[k])),
                successful == successes(all.take(i as int)),
                successful <= i,
            decreases fetches.len() - i,
        {
            let fetch = &fetches[i];
            let ghost urls_before = strings_view(urls@);
            let ghost items_before = items_view(items@);
            let ghost lines_before = strings_view(lines@);
            push_line(&mut urls, fetch.url.clone());
            push_item(&mut items, fetch_to_json(fetch));
            push_line(&mut lines, fetch_to_line(fetch));
            match &fetch.outcome {
                Fetched::Body(_) => {
                    successful += 1;
                },
                _ => {},
            }
            proof {
                assert(all.take(i + 1).drop_last() =~= all.take(i as int));
                assert(urls_before.push(all[i as int].url) =~= Seq::new(
                    (i + 1) as nat,
                    |k: int| all[k].url,
                ));
                assert(items_before.push(fetch_json(all[i as int])) =~= Seq::new(
                    (i + 1) as nat,
                    |k: int| fetch_json(all[k]),
                ));
                assert(lines_before.push(fetch_line(all[i as int])) =~= Seq::new(
                    (i + 1) as nat,
                    |k: int| fetch_line(all[k]),
                ));
            }
            i += 1;
        }
        assert(all.take(i as int) =~= all);
        let failed: usize = fetches.len() - successful;
        let total = count_text(fetches.len());
        let good = count_text(successful);
        let bad = count_text(failed);

        let mut summary = join3("Fetched ", total.as_str(), " URLs (");
        let mut counts = join3(good.as_str(), " successful, ", bad.as_str());
        append(&mut counts, " failed");
        append(&mut summary, counts.as_str());
        append(&mut summary, ")");

        let mut members: Vec<(String, Json)> = Vec::new();
        assert(members_view(members@) =~= Seq::empty());
        push_member(&mut members, "prompt", Json::string(prompt));
        push_member(&mut members, "urls_found", texts_json(&urls));
        push_member(&mut members, "total_urls", count_json(fetches.len()));
        push_member(&mut members, "successful_fetches", count_json(successful));
        push_member(&mut members, "failed_fetches", count_json(failed));
        push_member(&mut members, "fetched_content", Json::array(items));
        assert(members_view(members@) =~= fetched_json(prompt@, all)->Object_0);

        let mut tally = join3("Successful: ", good.as_str(), ", Failed: ");
        append(&mut tally, bad.as_str());
        let mut display: Vec<String> = Vec::new();
        assert(strings_view(display@) =~= Seq::empty());
        push_line(&mut display, "Web Fetch Results".to_string());
        push_line(&mut display, join2("URLs processed: ", total.as_str()));
        push_line(&mut display, tally);
        push_line(&mut display, "".to_string());
        push_lines(&mut display, &lines);
        if successful > 0 {
            push_line(&mut display, "".to_string());
            push_line(
                &mut display,
                "Note: Content has been fetched and is available for processing.".to_string(),
            );
        }
        assert(strings_view(display@) =~= fetched_lines(all));
        ToolResult {
            summary: Some(summary),
            llm_content: Json::object(members),
            return_display: stack(&display),
        }
    }
}

} // verus!
