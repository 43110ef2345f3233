use chat_cli::dispatcher::CommandOutput;
use chat_cli::json::{parse_json, Json};
use chat_cli::tools::glob::GlobTool;
use chat_cli::tools::google_web_search::GoogleWebSearchTool;
use chat_cli::tools::list_directory::{check_patterns, read_ignore_rules, Entry, ListDirectoryTool};
use chat_cli::tools::patterns::check_pattern;
use chat_cli::tools::read_file::ReadFileTool;
use chat_cli::tools::read_many_files::{Attempt, ReadManyFilesTool};
use chat_cli::tools::replace::{replace_all, ReplaceTool};
use chat_cli::tools::report::{align_right, join_with, split_lines, stack, trim_text};
use chat_cli::tools::run_shell_command::{exit_code_words, RunShellCommandTool};
use chat_cli::tools::save_memory::SaveMemoryTool;
use chat_cli::tools::search_file_content::{FileHits, Hit, SearchFileContentTool, SourceFile};
use chat_cli::tools::web_fetch::{hand_on, Fetch, Fetched, WebFetchTool};
use chat_cli::tools::write_file::WriteFileTool;
use chat_cli::tools::ToolResult;

fn texts(items: &[&str]) -> Vec<String> {
    items.iter().map(|item| item.to_string()).collect()
}

fn shown(result: &ToolResult) -> (String, String, String) {
    (
        result.summary.clone().unwrap_or_default(),
        result.llm_content.to_text(),
        result.return_display.clone(),
    )
}

#[test]
fn lines_are_split_as_the_standard_library_splits_them() {
    for text in ["", "\n", "a", "a\n", "a\r\nb\n\nc", "a\r", "\r\n\r\n", "x\n\ny\r\r\n", "a\nb\r"] {
        let expected: Vec<String> = text.lines().map(|line| line.to_string()).collect();
        assert_eq!(split_lines(text), expected, "{:?}", text);
    }
    assert_eq!(split_lines("a\r\nb\n\nc"), texts(&["a", "b", "", "c"]));
}

#[test]
fn texts_are_joined_aligned_and_trimmed() {
    assert_eq!(join_with(&texts(&["a", "b", "c"]), ", "), "a, b, c");
    assert_eq!(join_with(&texts(&["a"]), ", "), "a");
    assert_eq!(join_with(&Vec::new(), ", "), "");
    assert_eq!(stack(&texts(&["a", "", "b"])), "a\n\nb");
    assert_eq!(align_right("7", 4), "   7");
    assert_eq!(align_right("1234", 4), "1234");
    assert_eq!(align_right("12345", 4), "12345");
    for text in ["  a b \t", "", "   ", "x", "\u{a0}x y\n\n", "x  "] {
        assert_eq!(trim_text(text), text.trim(), "{:?}", text);
    }
    assert_eq!(trim_text("  a b \t"), "a b");
}

#[test]
fn written_file_is_reported() {
    let tool = WriteFileTool::new();
    let created = tool.report("/tmp/x/notes.txt", "a\nb\n", false, 0);
    assert_eq!(
        shown(&created),
        (
            "Created notes.txt (4 bytes, 2 lines)".to_string(),
            "{\"bytes_written\":4,\"file_path\":\"/tmp/x/notes.txt\",\"lines_written\":2,\"operation\":\"created\",\"original_size\":0}".to_string(),
            "File: /tmp/x/notes.txt\nOperation: Created\nSize: 4 bytes (2 lines)\nNew file created".to_string(),
        )
    );
    let updated = tool.report("notes.txt", "héllo", true, 10);
    assert_eq!(
        shown(&updated),
        (
            "Updated notes.txt (6 bytes, 1 lines)".to_string(),
            "{\"bytes_written\":6,\"file_path\":\"notes.txt\",\"lines_written\":1,\"operation\":\"updated\",\"original_size\":10}".to_string(),
            "File: notes.txt\nOperation: Updated\nSize: 6 bytes (1 lines)\nPrevious size: 10 bytes".to_string(),
        )
    );
}

#[test]
fn saved_fact_is_reported() {
    let tool = SaveMemoryTool::new();
    let entry = tool.entry("likes tea", "2024-01-02 03:04:05 UTC");
    assert_eq!(entry, "[2024-01-02 03:04:05 UTC] likes tea\n");
    let appended = tool.report("likes tea", "2024-01-02 03:04:05 UTC", true, 10, 46);
    assert_eq!(
        shown(&appended),
        (
            "Saved fact to memory (appended)".to_string(),
            "{\"bytes_added\":36,\"fact\":\"likes tea\",\"file_existed\":true,\"memory_file\":\"chat_memory.txt\",\"new_size\":46,\"previous_size\":10,\"timestamp\":\"2024-01-02 03:04:05 UTC\"}".to_string(),
            "Memory saved successfully\nFile: chat_memory.txt\nTimestamp: 2024-01-02 03:04:05 UTC\nFact: likes tea\nFile size: 46 bytes (was 10 bytes)".to_string(),
        )
    );
    let created = tool.report("x", "t", false, 0, 6);
    assert_eq!(created.summary, Some("Saved fact to memory (created new file)".to_string()));
}

#[test]
fn web_search_says_that_nothing_was_searched() {
    let result = GoogleWebSearchTool::new().report("rust");
    assert_eq!(
        shown(&result),
        (
            "Searched for: rust".to_string(),
            "{\"note\":\"No search backend is configured\",\"query\":\"rust\",\"results\":\"No results: no search backend is configured.\"}".to_string(),
            "Web Search Query: rust\n\nNo results: no search backend is configured.".to_string(),
        )
    );
}

#[test]
fn occurrences_are_replaced_from_the_left() {
    assert_eq!(replace_all("a-b-a", "a", "xy"), ("xy-b-xy".to_string(), 2));
    assert_eq!(replace_all("aaa", "aa", "b"), ("ba".to_string(), 1));
    assert_eq!(replace_all("abc", "x", "y"), ("abc".to_string(), 0));
    assert_eq!(replace_all("abc", "", "y"), ("abc".to_string(), 0));
    assert_eq!(replace_all("", "a", "y"), ("".to_string(), 0));
    assert_eq!(replace_all("abc", "abcd", "y"), ("abc".to_string(), 0));
    assert_eq!(replace_all("l1\nl2\n", "\n", "\\n"), ("l1\\nl2\\n".to_string(), 2));
    for (text, old, new) in [("aXbXc", "X", ""), ("ééé", "é", "e"), ("abab", "ab", "abab"), ("xx", "xxx", "y")] {
        assert_eq!(replace_all(text, old, new).0, text.replace(old, new));
        assert_eq!(replace_all(text, old, new).1, text.matches(old).count());
    }
}

#[test]
fn replacement_is_made_only_where_the_count_is_as_expected() {
    let tool = ReplaceTool::new();
    assert_eq!(tool.apply("one two one", "two", "2", None), Ok("one 2 one".to_string()));
    assert_eq!(tool.apply("one two one", "one", "1", Some(2)), Ok("1 two 1".to_string()));
    assert_eq!(
        tool.apply("one two one", "z", "1", None),
        Err("String 'z' not found in file. Please check the exact text including whitespace and line endings.".to_string())
    );
    assert_eq!(
        tool.apply("one two one", "one", "1", None),
        Err("Expected 1 occurrences of 'one' but found 2. Please verify the text and expected_replacements parameter.".to_string())
    );
    assert_eq!(
        tool.apply("one two one", "one", "1", Some(0)),
        Err("Expected 0 occurrences of 'one' but found 2. Please verify the text and expected_replacements parameter.".to_string())
    );
    assert_eq!(tool.apply("one", "", "1", None), Err("old_string cannot be empty".to_string()));
}

#[test]
fn replacement_is_reported() {
    let tool = ReplaceTool::new();
    let result = tool.report("/w/f.txt", "two\n", "2", None, "one\ntwo\n", "one\n2");
    assert_eq!(
        shown(&result),
        (
            "Replaced 1 occurrence in f.txt".to_string(),
            "{\"file_path\":\"/w/f.txt\",\"new_lines\":2,\"new_size\":5,\"new_string\":\"2\",\"old_string\":\"two\\n\",\"original_lines\":2,\"original_size\":8,\"replacements_made\":1,\"size_change\":-3}".to_string(),
            "File: /w/f.txt\nReplacements made: 1\nSize change: -3 bytes\nLines: 2 â†’ 2\n\nReplaced:\n  two\\n\nWith:\n  2".to_string(),
        )
    );
    let many = tool.report("f.txt", "a", "bb", Some(3), "aaa", "bbbbbb");
    assert_eq!(many.summary, Some("Replaced 3 occurrences in f.txt".to_string()));
    assert!(many.return_display.contains("Size change: 3 bytes"));
}

#[test]
fn finished_command_is_reported() {
    let tool = RunShellCommandTool::new();
    let duration = parse_json(b"0.0123").unwrap();
    let output = CommandOutput {
        success: true,
        exit_code: Some(0),
        stdout: "hi".to_string(),
        stderr: String::new(),
    };
    let result = tool.report("ls", &None, &output, "0.01", duration);
    assert_eq!(
        shown(&result),
        (
            "Command executed successfully in 0.01s".to_string(),
            "{\"command\":\"ls\",\"directory\":\".\",\"duration_seconds\":0.0123,\"exit_code\":0,\"stderr\":\"\",\"stdout\":\"hi\",\"success\":true}".to_string(),
            "Command: ls\nDirectory: (root)\nExit code: Some(0)\nDuration: 0.01s\n\nStdout:\nhi\n".to_string(),
        )
    );
    let failed = CommandOutput {
        success: false,
        exit_code: None,
        stdout: String::new(),
        stderr: "boom".to_string(),
    };
    let result = tool.report("x", &Some("sub".to_string()), &failed, "1.50", Json::Null);
    assert_eq!(
        shown(&result),
        (
            "Command failed with exit code None in 1.50s".to_string(),
            "{\"command\":\"x\",\"directory\":\"sub\",\"duration_seconds\":null,\"exit_code\":null,\"stderr\":\"boom\",\"stdout\":\"\",\"success\":false}".to_string(),
            "Command: x\nDirectory: sub\nExit code: None\nDuration: 1.50s\n\nStderr:\nboom".to_string(),
        )
    );
    assert_eq!(exit_code_words(Some(-2)), "Some(-2)");
}

#[test]
fn ignore_rules_are_read_and_patterns_checked() {
    assert_eq!(read_ignore_rules("# c\n\n *.log \ntarget\n   \n#x\n"), texts(&["*.log", "target"]));
    assert!(read_ignore_rules("").is_empty());
    let refusal = glob::Pattern::new("[").unwrap_err().to_string();
    assert_eq!(check_pattern("*.rs"), Ok(()));
    assert_eq!(check_pattern("["), Err(format!("Invalid glob pattern '[': {}", refusal)));
    assert_eq!(check_patterns(&texts(&["*.rs", "a?"])), None);
    assert_eq!(
        check_patterns(&texts(&["*.rs", "[", "[z"])),
        Some(format!("Invalid glob pattern '[': {}", refusal))
    );
    let tool = ListDirectoryTool::new();
    assert_eq!(
        tool.ignore_patterns(&Some(texts(&["*.tmp"])), &Some("*.log\n# no\n".to_string())),
        Ok(texts(&["*.tmp", "*.log"]))
    );
    assert_eq!(tool.ignore_patterns(&None, &None), Ok(Vec::new()));
    assert_eq!(
        tool.ignore_patterns(&Some(texts(&["["])), &Some("*.log".to_string())),
        Err(format!("Invalid glob pattern '[': {}", refusal))
    );
}

#[test]
fn directory_is_listed_by_kind() {
    let tool = ListDirectoryTool::new();
    let entry = |name: &str, is_directory: bool| Entry { name: name.to_string(), is_directory };
    let entries =
        vec![entry("b.txt", false), entry("src", true), entry("a.log", false), entry("docs", true)];
    let patterns = texts(&["*.log", "["]);
    assert_eq!(tool.select(&entries, &patterns, true), texts(&["src", "docs"]));
    assert_eq!(tool.select(&entries, &patterns, false), texts(&["b.txt"]));
    let result = tool.report("/p", &texts(&["docs", "src"]), &texts(&["b.txt"]));
    assert_eq!(
        shown(&result),
        (
            "Listed 3 items in directory".to_string(),
            "{\"directories\":[\"docs\",\"src\"],\"directory\":\"/p\",\"files\":[\"b.txt\"],\"total_items\":3}".to_string(),
            "Directory: /p\nTotal items: 3\n\nDirectories:\n  üìÅ docs/\n  üìÅ src/\n\nFiles:\n  üìÑ b.txt".to_string(),
        )
    );
    let empty = tool.report("/p", &Vec::new(), &Vec::new());
    assert_eq!(empty.return_display, "Directory: /p\nTotal items: 0\n");
}

#[test]
fn found_files_are_reported_up_to_fifty() {
    let tool = GlobTool::new();
    let none = tool.report("*.rs", "/w", None, &Vec::new());
    assert_eq!(
        shown(&none),
        (
            "Found 0 files matching pattern".to_string(),
            "{\"case_sensitive\":false,\"files\":[],\"pattern\":\"*.rs\",\"search_path\":\"/w\",\"total_matches\":0}".to_string(),
            "Pattern: *.rs\nSearch path: /w\nCase sensitive: false\nTotal matches: 0\n\nNo files found matching the pattern.".to_string(),
        )
    );
    let two = tool.report("*.rs", "/w", Some(true), &texts(&["/w/b.rs", "/w/a.rs"]));
    assert_eq!(
        two.return_display,
        "Pattern: *.rs\nSearch path: /w\nCase sensitive: true\nTotal matches: 2\n\nFiles (sorted by modification time, newest first):\n  📄 /w/b.rs\n  📄 /w/a.rs"
    );
    let many: Vec<String> = (0..52).map(|i| format!("f{}", i)).collect();
    let result = tool.report("*", ".", Some(false), &many);
    let lines: Vec<&str> = result.return_display.split('\n').collect();
    assert_eq!(lines.len(), 5 + 1 + 50 + 1);
    assert_eq!(lines[6], "  📄 f0");
    assert_eq!(lines[55], "  📄 f49");
    assert_eq!(lines[56], "  ... and 2 more files");
    let fifty: Vec<String> = (0..50).map(|i| format!("f{}", i)).collect();
    let result = tool.report("*", ".", None, &fifty);
    assert_eq!(result.return_display.split('\n').count(), 5 + 1 + 50);
}

#[test]
fn read_lines_are_selected_and_numbered() {
    let tool = ReadFileTool::new();
    assert_eq!(tool.check_kind("/a/f.txt"), Ok(()));
    assert_eq!(
        tool.check_kind("/a/b.png"),
        Err("Binary files are not supported yet. File: /a/b.png".to_string())
    );
    let one = tool.report("/a/f.txt", "l1\nl2\nl3\n", Some(1), Some(1)).unwrap();
    assert_eq!(
        shown(&one),
        (
            "Read 1 of 3 lines from f.txt".to_string(),
            "{\"content\":\"l2\",\"end_line\":1,\"file_path\":\"/a/f.txt\",\"selected_lines\":1,\"start_line\":1,\"total_lines\":3}".to_string(),
            "File: /a/f.txt\nLines: 3 (showing 2-2)\n\n   2 | l2".to_string(),
        )
    );
    let all = tool.report("/a/f.txt", "l1\nl2\nl3", None, None).unwrap();
    assert_eq!(
        shown(&all),
        (
            "Read 3 lines from f.txt".to_string(),
            "{\"content\":\"l1\\nl2\\nl3\",\"end_line\":2,\"file_path\":\"/a/f.txt\",\"selected_lines\":3,\"start_line\":0,\"total_lines\":3}".to_string(),
            "File: /a/f.txt\nLines: 3 (showing 1-3)\n\n   1 | l1\n   2 | l2\n   3 | l3".to_string(),
        )
    );
    let offset_alone = tool.report("/a/f.txt", "l1\nl2\nl3", Some(2), None).unwrap();
    assert_eq!(offset_alone.summary, Some("Read 3 lines from f.txt".to_string()));
    let head = tool.report("/a/f.txt", "l1\nl2\nl3", None, Some(2)).unwrap();
    assert_eq!(head.summary, Some("Read 2 of 3 lines from f.txt".to_string()));
    assert!(head.return_display.ends_with("(showing 1-2)\n\n   1 | l1\n   2 | l2"));
    let past = tool.report("/a/f.txt", "l1\nl2\nl3", Some(1), Some(usize::MAX)).unwrap();
    assert_eq!(past.summary, Some("Read 2 of 3 lines from f.txt".to_string()));
    assert_eq!(
        tool.report("/a/f.txt", "l1\nl2\nl3", Some(5), Some(1)),
        Err("Offset 5 is beyond file length 3".to_string())
    );
    let nothing = tool.report("/a/f.txt", "", None, Some(3)).unwrap();
    assert_eq!(nothing.summary, Some("Read 0 lines from f.txt".to_string()));
    assert_eq!(nothing.return_display, "File: /a/f.txt\nLines: 0 (showing 1-1)\n");
}

#[test]
fn long_body_is_cut_between_characters() {
    assert_eq!(hand_on("short"), "short");
    let exact = "a".repeat(50000);
    assert_eq!(hand_on(&exact), exact);
    let long = "a".repeat(50001);
    assert_eq!(
        hand_on(&long),
        format!("{}...\n[Content truncated - original length: 50001 characters]", "a".repeat(50000))
    );
    let split = format!("{}é", "a".repeat(49999));
    assert_eq!(
        hand_on(&split),
        format!("{}...\n[Content truncated - original length: 50001 characters]", "a".repeat(49999))
    );
}

#[test]
fn fetches_are_reported_one_by_one() {
    let tool = WebFetchTool::new();
    let fetches = vec![
        Fetch { url: "https://a.example".to_string(), outcome: Fetched::Body("hello".to_string()) },
        Fetch { url: "https://b.example".to_string(), outcome: Fetched::Unreached("refused".to_string()) },
        Fetch { url: "https://c.example".to_string(), outcome: Fetched::Unread("cut".to_string()) },
    ];
    let result = tool.report("see them", &fetches);
    assert_eq!(
        shown(&result),
        (
            "Fetched 3 URLs (1 successful, 2 failed)".to_string(),
            "{\"failed_fetches\":2,\"fetched_content\":[{\"content\":\"hello\",\"content_length\":5,\"status\":\"success\",\"url\":\"https://a.example\"},{\"error\":\"Failed to fetch URL: refused\",\"status\":\"error\",\"url\":\"https://b.example\"},{\"error\":\"Failed to read response body: cut\",\"status\":\"error\",\"url\":\"https://c.example\"}],\"prompt\":\"see them\",\"successful_fetches\":1,\"total_urls\":3,\"urls_found\":[\"https://a.example\",\"https://b.example\",\"https://c.example\"]}".to_string(),
            "Web Fetch Results\nURLs processed: 3\nSuccessful: 1, Failed: 2\n\n✅ https://a.example (5 characters)\n❌ https://b.example: Failed to fetch URL: refused\n❌ https://c.example: Failed to read response body: cut\n\nNote: Content has been fetched and is available for processing.".to_string(),
        )
    );
    let none = tool.report("nothing", &Vec::new());
    assert_eq!(none.summary, Some("Fetched 0 URLs (0 successful, 0 failed)".to_string()));
    assert_eq!(none.return_display, "Web Fetch Results\nURLs processed: 0\nSuccessful: 0, Failed: 0\n");
}

#[test]
fn files_to_read_are_chosen_by_the_rules_of_the_call() {
    let tool = ReadManyFilesTool::new();
    assert!(tool.is_glob("src/*.rs") && tool.is_glob("a?") && !tool.is_glob("src/main.rs"));
    let defaults = tool.get_default_excludes();
    let mut both = texts(&["*.tmp"]);
    both.extend(defaults.clone());
    assert_eq!(tool.excluded(&Some(texts(&["*.tmp"])), None), both);
    assert_eq!(tool.excluded(&Some(texts(&["*.tmp"])), Some(true)), both);
    assert_eq!(tool.excluded(&Some(texts(&["*.tmp"])), Some(false)), texts(&["*.tmp"]));
    assert_eq!(tool.excluded(&None, None), defaults);
    assert!(tool.excluded(&None, Some(false)).is_empty());
    assert!(tool.takes("src/main.rs", &texts(&["*.md"])));
    assert!(!tool.takes("src/main.rs", &texts(&["src/*"])));
    assert!(!tool.takes("src/logo.png", &Vec::new()));
    let refusal = glob::Pattern::new("[").unwrap_err().to_string();
    assert_eq!(tool.check_path("*.rs"), Ok(()));
    assert_eq!(tool.check_path("["), Err(format!("Invalid glob pattern '[': {}", refusal)));
    assert_eq!(tool.check_included("*.rs"), Ok(()));
    assert_eq!(
        tool.check_included("["),
        Err(format!("Invalid include glob pattern '[': {}", refusal))
    );
}

#[test]
fn read_files_are_put_together() {
    let tool = ReadManyFilesTool::new();
    let attempts = vec![
        Attempt { path: "a.txt".to_string(), outcome: Ok("one\ntwo\n".to_string()) },
        Attempt { path: "b.txt".to_string(), outcome: Err("denied".to_string()) },
        Attempt { path: "c.txt".to_string(), outcome: Ok("x".to_string()) },
    ];
    let result = tool.report(&texts(&["*.txt"]), &attempts);
    assert_eq!(
        shown(&result),
        (
            "Read 3 files (2 successful, 1 failed, 9 total bytes)".to_string(),
            "{\"concatenated_content\":\"\\n=== a.txt ===\\none\\ntwo\\n\\n\\n=== c.txt ===\\nx\\n\",\"failed_reads\":1,\"file_info\":[{\"lines\":2,\"path\":\"a.txt\",\"size\":8,\"status\":\"success\"},{\"error\":\"denied\",\"path\":\"b.txt\",\"status\":\"error\"},{\"lines\":1,\"path\":\"c.txt\",\"size\":1,\"status\":\"success\"}],\"files_found\":3,\"paths_requested\":[\"*.txt\"],\"successful_reads\":2,\"total_size\":9}".to_string(),
            "Read Many Files Results\nFiles found: 3\nSuccessfully read: 2\nFailed to read: 1\nTotal content size: 9 bytes\n\nSuccessfully read files:\n  ✅ a.txt (8 bytes, 2 lines)\n  ✅ c.txt (1 bytes, 1 lines)\n\nFailed to read files:\n  ❌ b.txt: denied".to_string(),
        )
    );
    let none = tool.report(&texts(&["x"]), &Vec::new());
    assert_eq!(
        none.return_display,
        "Read Many Files Results\nFiles found: 0\nSuccessfully read: 0\nFailed to read: 0\nTotal content size: 0 bytes\n"
    );
}

#[test]
fn files_to_search_are_chosen_by_name() {
    let tool = SearchFileContentTool::new();
    assert!(SearchFileContentTool::passes_over(".git"));
    assert!(SearchFileContentTool::passes_over("node_modules"));
    assert!(SearchFileContentTool::passes_over("target"));
    assert!(SearchFileContentTool::passes_over("build"));
    assert!(SearchFileContentTool::passes_over("dist"));
    assert!(SearchFileContentTool::passes_over("__pycache__"));
    assert!(!SearchFileContentTool::passes_over("src"));
    assert!(!SearchFileContentTool::passes_over(""));
    let paths = texts(&["a/x.rs", "a/y.md", "a/z.png", "rs/notes.txt"]);
    assert_eq!(tool.select_files(&paths, &Some("*.rs".to_string())), Ok(texts(&["a/x.rs"])));
    assert_eq!(
        tool.select_files(&paths, &None),
        Ok(texts(&["a/x.rs", "a/y.md", "rs/notes.txt"]))
    );
    let refusal = regex::Regex::new("[z-a]").unwrap_err().to_string();
    assert_eq!(
        tool.select_files(&paths, &Some("[z-a]".to_string())),
        Err(format!("Invalid regex pattern: {}", refusal))
    );
}

#[test]
fn lines_with_a_match_are_found_and_reported() {
    let tool = SearchFileContentTool::new();
    let files = vec![
        SourceFile { path: "a.rs".to_string(), content: "use x;\nfn one() {}\n\nfn two() {}\n".to_string() },
        SourceFile { path: "b.rs".to_string(), content: "struct B;\n".to_string() },
        SourceFile { path: "c.rs".to_string(), content: "  fn three()".to_string() },
    ];
    let hit = |line_number: usize, content: &str| Hit { line_number, content: content.to_string() };
    let expected = vec![
        FileHits { path: "a.rs".to_string(), hits: vec![hit(2, "fn one() {}"), hit(4, "fn two() {}")] },
        FileHits { path: "c.rs".to_string(), hits: vec![hit(1, "  fn three()")] },
    ];
    let found = tool.search("fn \\w+", &files).unwrap();
    assert_eq!(found, expected);
    assert_eq!(tool.search("zzz", &files), Ok(Vec::new()));
    let refusal = regex::Regex::new("(").unwrap_err().to_string();
    assert_eq!(tool.search("(", &files), Err(refusal.clone()));
    assert_eq!(tool.search("(", &Vec::new()), Err(refusal));
    let result = tool.report("fn \\w+", "src", &Some("*.rs".to_string()), &found);
    assert_eq!(
        shown(&result),
        (
            "Found 3 matches in 2 files".to_string(),
            "{\"files_with_matches\":2,\"include_pattern\":\"*.rs\",\"matches\":[{\"file_path\":\"a.rs\",\"matches\":[{\"content\":\"fn one() {}\",\"line_number\":2},{\"content\":\"fn two() {}\",\"line_number\":4}]},{\"file_path\":\"c.rs\",\"matches\":[{\"content\":\"  fn three()\",\"line_number\":1}]}],\"pattern\":\"fn \\\\w+\",\"search_path\":\"src\",\"total_matches\":3}".to_string(),
            "Search pattern: fn \\w+\nSearch path: src\nInclude pattern: *.rs\nTotal matches: 3 in 2 files\n\n📄 a.rs\n     2: fn one() {}\n     4: fn two() {}\n\n📄 c.rs\n     1:   fn three()\n".to_string(),
        )
    );
    let none = tool.report("x", ".", &None, &Vec::new());
    assert_eq!(
        shown(&none),
        (
            "Found 0 matches in 0 files".to_string(),
            "{\"files_with_matches\":0,\"include_pattern\":null,\"matches\":[],\"pattern\":\"x\",\"search_path\":\".\",\"total_matches\":0}".to_string(),
            "Search pattern: x\nSearch path: .\nInclude pattern: all files\nTotal matches: 0 in 0 files\n".to_string(),
        )
    );
}
