use chat_cli::dispatcher::{Dispatch, FunctionExecutor, ToolHandle};
use chat_cli::error::ChatError;
use chat_cli::function_calling::FunctionCall;
use chat_cli::json::{parse_json, Json};
use chat_cli::tools::builtin::{all_builtin_tools, BuiltinTool};
use chat_cli::tools::glob::GlobTool;
use chat_cli::tools::google_web_search::GoogleWebSearchTool;
use chat_cli::tools::list_directory::ListDirectoryTool;
use chat_cli::tools::params::{
    read_optional_count, read_optional_flag, read_optional_text, read_optional_texts, read_text,
    read_texts, text_is_blank,
};
use chat_cli::tools::patterns::{
    extension_of, file_name_of, glob_to_regex, glob_to_regex_source, is_text_file, matches_any,
};
use chat_cli::tools::read_file::{describe_lines, ReadFileParams, ReadFileTool};
use chat_cli::tools::read_many_files::ReadManyFilesTool;
use chat_cli::tools::replace::ReplaceTool;
use chat_cli::tools::run_shell_command::RunShellCommandTool;
use chat_cli::tools::save_memory::{make_preview, SaveMemoryTool};
use chat_cli::tools::search_file_content::SearchFileContentTool;
use chat_cli::tools::web_fetch::WebFetchTool;
use chat_cli::tools::write_file::{count_lines, WriteFileTool};
use chat_cli::tools::{Tool, ToolLocation, ToolRegistry};

fn json(text: &str) -> Json {
    parse_json(text.as_bytes()).unwrap()
}

fn at(path: &str, line: Option<usize>) -> Vec<ToolLocation> {
    vec![ToolLocation { path: path.to_string(), line }]
}

fn err(report: &str) -> Result<(), String> {
    Err(report.to_string())
}

#[test]
fn parameters_are_read_by_kind() {
    let params = json("{\"t\":\"x\",\"n\":null,\"f\":true,\"c\":3,\"neg\":-1,\"l\":[\"a\",\"b\"],\"mixed\":[\"a\",1]}");
    assert_eq!(read_text(&params, "t"), Ok("x".to_string()));
    assert_eq!(read_text(&params, "n"), Err("invalid type for field `n`".to_string()));
    assert_eq!(read_text(&params, "gone"), Err("missing field `gone`".to_string()));
    assert_eq!(read_optional_text(&params, "t"), Ok(Some("x".to_string())));
    assert_eq!(read_optional_text(&params, "n"), Ok(None));
    assert_eq!(read_optional_text(&params, "gone"), Ok(None));
    assert_eq!(read_optional_text(&params, "f"), Err("invalid type for field `f`".to_string()));
    assert_eq!(read_optional_flag(&params, "f"), Ok(Some(true)));
    assert_eq!(read_optional_flag(&params, "gone"), Ok(None));
    assert_eq!(read_optional_flag(&params, "t"), Err("invalid type for field `t`".to_string()));
    assert_eq!(read_optional_count(&params, "c"), Ok(Some(3)));
    assert_eq!(read_optional_count(&params, "n"), Ok(None));
    assert_eq!(read_optional_count(&params, "neg"), Err("invalid type for field `neg`".to_string()));
    assert_eq!(read_optional_count(&json("{\"c\":1.5}"), "c"), Err("invalid type for field `c`".to_string()));
    assert_eq!(read_texts(&params, "l"), Ok(vec!["a".to_string(), "b".to_string()]));
    assert_eq!(read_texts(&params, "mixed"), Err("invalid type for field `mixed`".to_string()));
    assert_eq!(read_texts(&params, "gone"), Err("missing field `gone`".to_string()));
    assert_eq!(read_optional_texts(&params, "gone"), Ok(None));
    assert_eq!(read_optional_texts(&params, "l"), Ok(Some(vec!["a".to_string(), "b".to_string()])));
    assert_eq!(read_optional_texts(&params, "t"), Err("invalid type for field `t`".to_string()));
    assert_eq!(read_text(&json("[1]"), "t"), Err("missing field `t`".to_string()));
    assert!(text_is_blank(" \t\n") && text_is_blank("") && !text_is_blank(" a "));
}

#[test]
fn glob_tool_reads_its_call() {
    let tool = GlobTool::new();
    assert_eq!(tool.validate_params(&json("{\"pattern\":\"**/*.rs\",\"path\":\"/src\"}")), Ok(()));
    assert_eq!(tool.validate_params(&json("{\"pattern\":\"  \"}")), err("Pattern cannot be empty"));
    assert_eq!(tool.validate_params(&json("{}")), err("missing field `pattern`"));
    assert_eq!(
        tool.validate_params(&json("{\"pattern\":\"a\",\"case_sensitive\":\"yes\"}")),
        err("invalid type for field `case_sensitive`")
    );
    assert_eq!(tool.get_description(&json("{\"pattern\":\"*.md\"}")), "Find files matching '*.md' in current directory");
    assert_eq!(tool.get_description(&json("{\"pattern\":\"*.md\",\"path\":\"/docs\"}")), "Find files matching '*.md' in /docs");
    assert_eq!(tool.get_description(&json("{}")), "Find files with glob pattern");
    assert_eq!(tool.tool_locations(&json("{\"pattern\":\"*\"}")), at(".", None));
    assert_eq!(tool.tool_locations(&json("{\"pattern\":\"*\",\"path\":\"/x\"}")), at("/x", None));
    assert!(tool.tool_locations(&json("{}")).is_empty());
}

#[test]
fn search_tools_read_their_calls() {
    let web = GoogleWebSearchTool::new();
    assert_eq!(web.validate_params(&json("{\"query\":\"rust\"}")), Ok(()));
    assert_eq!(web.validate_params(&json("{\"query\":\"\"}")), err("Query cannot be empty"));
    assert_eq!(web.get_description(&json("{\"query\":\"rust\"}")), "Search web for: rust");
    assert_eq!(web.get_description(&json("{\"query\":1}")), "Web search");
    assert!(web.tool_locations(&json("{\"query\":\"rust\"}")).is_empty());

    let grep = SearchFileContentTool::new();
    assert_eq!(grep.validate_params(&json("{\"pattern\":\"fn \\\\w+\"}")), Ok(()));
    let refused = grep.validate_params(&json("{\"pattern\":\"(\"}")).unwrap_err();
    assert!(refused.starts_with("Invalid regex pattern '(': "), "{}", refused);
    assert!(refused.contains("unclosed group"), "{}", refused);
    assert_eq!(
        grep.get_description(&json("{\"pattern\":\"x\",\"include\":\"*.rs\"}")),
        "Search for 'x' in current directory (*.rs)"
    );
    assert_eq!(
        grep.get_description(&json("{\"pattern\":\"x\",\"path\":\"/src\"}")),
        "Search for 'x' in /src (all files)"
    );
    assert_eq!(grep.get_description(&json("{}")), "Search file content");
    assert_eq!(grep.tool_locations(&json("{\"pattern\":\"x\"}")), at(".", None));
    assert!(SearchFileContentTool::is_text_file("/a/b.RS"));
}

#[test]
fn file_tools_read_their_calls() {
    let list = ListDirectoryTool::new();
    assert_eq!(list.validate_params(&json("{\"path\":\"/tmp\",\"ignore\":[\"*.log\"]}")), Ok(()));
    assert_eq!(list.validate_params(&json("{\"path\":\"/tmp\",\"ignore\":\"*.log\"}")), err("invalid type for field `ignore`"));
    assert_eq!(list.get_description(&json("{\"path\":\"/tmp\"}")), "List contents of directory: /tmp");
    assert_eq!(list.get_description(&json("{}")), "List directory contents");
    assert_eq!(list.tool_locations(&json("{\"path\":\"/tmp\"}")), at("/tmp", None));
    assert!(list.should_ignore("debug.log", &vec!["*.txt".to_string(), "*.log".to_string()]));
    assert!(!list.should_ignore("debug.log", &vec!["*.txt".to_string(), "[".to_string()]));
    assert!(!list.should_ignore("debug.log", &Vec::new()));

    let read = ReadFileTool::new();
    assert_eq!(read.validate_params(&json("{\"absolute_path\":\"/a\",\"offset\":2,\"limit\":3}")), Ok(()));
    assert_eq!(read.validate_params(&json("{\"absolute_path\":\"/a\",\"offset\":2}")), err("Offset requires limit to be set"));
    assert_eq!(read.validate_params(&json("{\"absolute_path\":\"/a\",\"limit\":0}")), err("Limit must be greater than 0"));
    assert_eq!(read.validate_params(&json("{\"absolute_path\":\"/a\",\"limit\":-1}")), err("invalid type for field `limit`"));
    assert_eq!(read.get_description(&json("{\"absolute_path\":\"/a/b.txt\",\"offset\":10,\"limit\":5}")), "Read lines 10-14 from b.txt");
    assert_eq!(read.get_description(&json("{\"absolute_path\":\"/a/b.txt\",\"limit\":5}")), "Read first 5 lines from b.txt");
    assert_eq!(read.get_description(&json("{\"absolute_path\":\"/a/b.txt\"}")), "Read file: b.txt");
    assert_eq!(read.get_description(&json("{\"absolute_path\":\"/a/b.txt\",\"offset\":3}")), "Read file: b.txt");
    assert_eq!(read.get_description(&json("[]")), "Read file");
    assert_eq!(describe_lines("f", Some(usize::MAX), Some(usize::MAX)), format!("Read lines {}-{} from f", usize::MAX, u64::MAX));
    assert_eq!(describe_lines("f", Some(0), Some(1)), "Read lines 0-0 from f");
    assert_eq!(describe_lines("f", Some(4), Some(0)), "Read file: f");
    assert_eq!(read.tool_locations(&json("{\"absolute_path\":\"/a/b.txt\",\"offset\":10}")), at("/a/b.txt", Some(10)));
    assert_eq!(
        ReadFileParams::read(&json("{\"absolute_path\":\"/a\",\"limit\":7,\"more\":1}")),
        Ok(ReadFileParams { absolute_path: "/a".to_string(), offset: None, limit: Some(7) })
    );

    let many = ReadManyFilesTool::new();
    assert_eq!(many.validate_params(&json("{\"paths\":[\"src/**\",\"README.md\"],\"useDefaultExcludes\":false}")), Ok(()));
    assert_eq!(many.validate_params(&json("{\"paths\":[]}")), err("At least one path must be specified"));
    assert_eq!(many.validate_params(&json("{\"paths\":[\"a\",\" \"]}")), err("Path cannot be empty"));
    assert_eq!(many.validate_params(&json("{\"paths\":\"a\"}")), err("invalid type for field `paths`"));
    assert_eq!(many.validate_params(&json("{\"paths\":[\"a\"],\"useDefaultExcludes\":1}")), err("invalid type for field `useDefaultExcludes`"));
    assert_eq!(many.get_description(&json("{\"paths\":[\"a\",\"b\",\"c\"]}")), "Read multiple files from 3 path patterns");
    assert_eq!(many.get_description(&json("{}")), "Read multiple files");
    assert_eq!(
        many.tool_locations(&json("{\"paths\":[\"a\",\"b\"]}")),
        vec![ToolLocation { path: "a".to_string(), line: None }, ToolLocation { path: "b".to_string(), line: None }]
    );
    assert!(many.should_exclude("target/debug/x", &many.get_default_excludes()));
    assert!(!many.should_exclude("src/main.rs", &many.get_default_excludes()));
    assert!(many.is_text_file("notes.MD") && !many.is_text_file("photo.png"));
}

#[test]
fn writing_tools_read_their_calls() {
    let replace = ReplaceTool::new();
    let good = "{\"file_path\":\"/a/b.rs\",\"old_string\":\"x\",\"new_string\":\"\"}";
    assert_eq!(replace.validate_params(&json(good)), Ok(()));
    assert_eq!(
        replace.validate_params(&json("{\"file_path\":\"/a\",\"old_string\":\"\",\"new_string\":\"y\"}")),
        err("old_string cannot be empty")
    );
    assert_eq!(
        replace.validate_params(&json("{\"file_path\":\"/a\",\"old_string\":\"x\",\"new_string\":\"y\",\"expected_replacements\":0}")),
        err("expected_replacements must be greater than 0")
    );
    assert_eq!(replace.validate_params(&json("{\"file_path\":\"/a\",\"old_string\":\"x\"}")), err("missing field `new_string`"));
    assert_eq!(replace.get_description(&json(good)), "Replace text in b.rs");
    assert_eq!(
        replace.get_description(&json("{\"file_path\":\"/a/b.rs\",\"old_string\":\"x\",\"new_string\":\"y\",\"expected_replacements\":3}")),
        "Replace 3 occurrences in b.rs"
    );
    assert_eq!(
        replace.get_description(&json("{\"file_path\":\"/a/b.rs\",\"old_string\":\"x\",\"new_string\":\"y\",\"expected_replacements\":1}")),
        "Replace text in b.rs"
    );
    assert_eq!(replace.get_description(&json("{}")), "Replace text in file");
    assert_eq!(replace.tool_locations(&json(good)), at("/a/b.rs", None));

    let write = WriteFileTool::new();
    let call = "{\"file_path\":\"/tmp/out/é.txt\",\"content\":\"one\\ntwo\\né\"}";
    assert_eq!(write.validate_params(&json(call)), Ok(()));
    assert_eq!(write.validate_params(&json("{\"file_path\":\"/tmp/a\"}")), err("missing field `content`"));
    assert_eq!(write.get_description(&json(call)), "Write 10 bytes (3 lines) to é.txt");
    assert_eq!(write.get_description(&json("{\"file_path\":\"/tmp/a\",\"content\":\"\"}")), "Write 0 bytes (0 lines) to a");
    assert_eq!(write.get_description(&json("{}")), "Write file");
    assert_eq!(write.tool_locations(&json(call)), at("/tmp/out/é.txt", None));
    assert_eq!(count_lines(""), 0);
    assert_eq!(count_lines("a"), 1);
    assert_eq!(count_lines("a\n"), 1);
    assert_eq!(count_lines("a\n\nb"), 3);
    assert_eq!(count_lines("\n\n"), 2);

    let memory = SaveMemoryTool::new();
    assert_eq!(memory.validate_params(&json("{\"fact\":\"likes tea\"}")), Ok(()));
    assert_eq!(memory.validate_params(&json("{\"fact\":\" \"}")), err("Fact cannot be empty"));
    assert_eq!(memory.get_description(&json("{\"fact\":\"likes tea\"}")), "Save to memory: likes tea");
    assert_eq!(memory.get_description(&json("{}")), "Save fact to memory");
    assert_eq!(make_preview(&"ab".repeat(25)), "ab".repeat(25));
    assert_eq!(make_preview(&"é".repeat(51)), format!("{}...", "é".repeat(50)));
    assert_eq!(memory.tool_locations(&json("{}")), at("chat_memory.txt", None));
    assert_eq!(memory.tool_locations(&json("{\"fact\":\"x\"}")), at("chat_memory.txt", None));
}

#[test]
fn running_tools_read_their_calls() {
    let shell = RunShellCommandTool::new();
    assert_eq!(shell.validate_params(&json("{\"command\":\"ls\"}")), Ok(()));
    assert_eq!(shell.validate_params(&json("{\"command\":\"\\n\"}")), err("Command cannot be empty"));
    assert_eq!(shell.get_description(&json("{\"command\":\"ls -l\"}")), "Execute: ls -l");
    assert_eq!(shell.get_description(&json("{\"command\":\"ls\",\"description\":\"List files\"}")), "List files");
    assert_eq!(shell.get_description(&json("{}")), "Execute shell command");
    assert_eq!(shell.tool_locations(&json("{\"command\":\"ls\"}")), at(".", None));
    assert_eq!(shell.tool_locations(&json("{\"command\":\"ls\",\"directory\":\"src\"}")), at("src", None));
    assert!(shell.tool_locations(&json("{}")).is_empty());

    let fetch = WebFetchTool::new();
    assert_eq!(
        fetch.extract_urls("see https://a.example/x?y=1, and http://b.example then ftp://c"),
        vec!["https://a.example/x?y=1,".to_string(), "http://b.example".to_string()]
    );
    assert!(fetch.extract_urls("no links here").is_empty());
    assert_eq!(fetch.validate_params(&json("{\"prompt\":\"read http://a.example\"}")), Ok(()));
    assert_eq!(
        fetch.validate_params(&json("{\"prompt\":\"read it\"}")),
        err("Prompt must contain at least one URL starting with http:// or https://")
    );
    let many = format!("{{\"prompt\":\"{}\"}}", "http://a.example ".repeat(21));
    assert_eq!(fetch.validate_params(&json(&many)), err("Maximum 20 URLs allowed, found 21"));
    let most = format!("{{\"prompt\":\"{}\"}}", "http://a.example ".repeat(20));
    assert_eq!(fetch.validate_params(&json(&most)), Ok(()));
    assert_eq!(fetch.get_description(&json(&many)), "Fetch and process 21 URL(s)");
    assert_eq!(fetch.get_description(&json("{}")), "Fetch web content");
    assert!(fetch.tool_locations(&json(&many)).is_empty());
}

#[test]
fn globs_become_regular_expressions() {
    assert_eq!(glob_to_regex_source("src/**/*.rs"), "src/.*/[^/]*.rs");
    assert_eq!(glob_to_regex_source("a?b"), "a[^/]b");
    assert_eq!(glob_to_regex_source("[abc]*.txt"), "[abc][^/]*.txt");
    assert_eq!(glob_to_regex_source("x[a-z"), "x[a-z");
    assert_eq!(glob_to_regex_source("[]"), "[]");
    assert_eq!(glob_to_regex_source("a+(b|c){2}^$\\"), "a\\+\\(b\\|c\\)\\{2\\}\\^\\$\\\\");
    assert_eq!(glob_to_regex_source("***"), ".*[^/]*");
    assert_eq!(glob_to_regex_source(""), "");
    let expression = glob_to_regex("*.rs").unwrap();
    assert!(expression.is_match("main.rs"));
    assert_eq!(expression.as_str(), "[^/]*.rs");
    let refused = glob_to_regex("[z-a]").unwrap_err();
    assert!(refused.starts_with("Invalid regex pattern: "), "{}", refused);
    assert!(refused.contains("invalid character class range"), "{}", refused);
}

#[test]
fn files_are_told_by_their_names() {
    assert_eq!(file_name_of("/a/b/c.txt"), "c.txt");
    assert_eq!(file_name_of("c.txt"), "c.txt");
    assert_eq!(file_name_of("/a/b/"), "");
    assert_eq!(file_name_of(""), "");
    assert_eq!(extension_of("c.tar.gz"), Some("gz".to_string()));
    assert_eq!(extension_of("Makefile"), None);
    assert_eq!(extension_of(".gitignore"), None);
    assert_eq!(extension_of(".config.yml"), Some("yml".to_string()));
    assert_eq!(extension_of("trailing."), Some(String::new()));
    assert!(is_text_file("/src/main.rs"));
    assert!(is_text_file("/src/Main.RS"));
    assert!(is_text_file("README"));
    assert!(is_text_file("/x/Dockerfile"));
    assert!(is_text_file("/x/makefile"));
    assert!(is_text_file("styles.styl"));
    assert!(!is_text_file("/x/photo.jpeg"));
    assert!(!is_text_file("/x/archive.tar.gz"));
    assert!(!is_text_file("/x/unknown"));
    assert!(!is_text_file("/x/.gitignore"));
    assert!(!is_text_file("/x/"));
    assert!(matches_any("a/b.rs", &vec!["*.md".to_string(), "a/*.rs".to_string()]));
    assert!(!matches_any("a/b.rs", &vec!["*.md".to_string()]));
}

#[test]
fn registry_of_built_in_tools_holds_them_all() {
    let registry = ToolRegistry::<BuiltinTool>::new();
    let definitions = registry.get_available_tools();
    let names: Vec<&str> = definitions.iter().map(|definition| definition.name.as_str()).collect();
    assert_eq!(
        names,
        vec![
            "list_directory",
            "read_file",
            "search_file_content",
            "glob",
            "replace",
            "write_file",
            "web_fetch",
            "read_many_files",
            "run_shell_command",
            "save_memory",
            "google_web_search",
        ]
    );
    assert_eq!(registry.find("glob"), Some(3));
    assert_eq!(registry.get_tool("save_memory"), Some(&BuiltinTool::SaveMemory(SaveMemoryTool::new())));
    assert_eq!(registry.get_tool("shell_command"), None);
    assert_eq!(all_builtin_tools().len(), 11);
    for tool in all_builtin_tools() {
        assert_eq!(Tool::name(&tool), tool.tool_name());
        assert_eq!(Tool::get_tool_definition(&tool).name, tool.tool_name());
        assert_eq!(Tool::get_tool_definition(&tool).description, Tool::description(&tool));
        assert!(Tool::validate_params(&tool, &Json::Null).is_err());
        assert!(!Tool::get_description(&tool, &Json::Null).is_empty());
    }
    let read = BuiltinTool::ReadFile(ReadFileTool::new());
    assert_eq!(Tool::get_description(&read, &json("{\"absolute_path\":\"/a/b\"}")), "Read file: b");
    assert_eq!(Tool::tool_locations(&read, &json("{\"absolute_path\":\"/a/b\"}")), at("/a/b", None));
}

#[test]
fn dispatcher_of_built_in_tools_checks_the_call() {
    let executor = FunctionExecutor::new();
    assert_eq!(executor.get_available_tools().len(), 12);
    assert_eq!(executor.resolve("read_file"), Some(ToolHandle::BuiltIn(1)));
    let good = FunctionCall { id: None, name: "read_file".to_string(), args: json("{\"absolute_path\":\"/a\"}") };
    assert_eq!(executor.begin(&good), Dispatch::BuiltIn { index: 1 });
    assert_eq!(executor.begin_call(&good), Dispatch::BuiltIn { index: 1 });
    let bad = FunctionCall { id: None, name: "read_file".to_string(), args: json("{\"absolute_path\":\"/a\",\"limit\":0}") };
    assert_eq!(
        executor.begin(&bad),
        Dispatch::Failed(ChatError::ToolExecution("Limit must be greater than 0".to_string()))
    );
    assert_eq!(
        executor.begin_call(&bad),
        Dispatch::Failed(ChatError::ToolExecution("Limit must be greater than 0".to_string()))
    );
    let shell = FunctionCall { id: None, name: "shell_command".to_string(), args: json("{\"command\":\"ls\"}") };
    assert_eq!(executor.begin_call(&shell), Dispatch::Shell { command: "ls".to_string() });
    let unknown = FunctionCall { id: None, name: "nothing".to_string(), args: json("{}") };
    assert_eq!(
        executor.begin_call(&unknown),
        Dispatch::Failed(ChatError::ToolResolution("nothing".to_string()))
    );
}

#[test]
fn built_in_tools_answer_as_their_own_rules_say() {
    let read = BuiltinTool::ReadFile(ReadFileTool::new());
    assert_eq!(read.validate(&json("{\"absolute_path\":\"/a\"}")), Ok(()));
    assert_eq!(
        read.validate(&json("{\"absolute_path\":\"/a\",\"limit\":0}")),
        Err("Limit must be greater than 0".to_string())
    );
    assert_eq!(read.describe(&json("{\"absolute_path\":\"/a/b\"}")), "Read file: b");
    assert_eq!(read.locate(&json("{\"absolute_path\":\"/a/b\"}")), at("/a/b", None));
}
