use chat_cli::json::Json;
use chat_cli::tools::glob::GlobTool;
use chat_cli::tools::google_web_search::GoogleWebSearchTool;
use chat_cli::tools::list_directory::ListDirectoryTool;
use chat_cli::tools::read_file::ReadFileTool;
use chat_cli::tools::read_many_files::ReadManyFilesTool;
use chat_cli::tools::replace::ReplaceTool;
use chat_cli::tools::run_shell_command::RunShellCommandTool;
use chat_cli::tools::save_memory::SaveMemoryTool;
use chat_cli::tools::search_file_content::SearchFileContentTool;
use chat_cli::tools::web_fetch::WebFetchTool;
use chat_cli::tools::write_file::WriteFileTool;
use chat_cli::tools::ToolLocation;

fn required(schema: &Json) -> Vec<String> {
    match schema.get("required") {
        Some(Json::Array(names)) => names.iter().map(|name| name.as_str().unwrap().clone()).collect(),
        other => panic!("{:?}", other),
    }
}

#[test]
fn built_in_tools_are_advertised_under_their_names() {
    let definitions = vec![
        (GlobTool::new().get_tool_definition(), "glob", vec!["pattern"]),
        (GoogleWebSearchTool::new().get_tool_definition(), "google_web_search", vec!["query"]),
        (ListDirectoryTool::new().get_tool_definition(), "list_directory", vec!["path"]),
        (ReadFileTool::new().get_tool_definition(), "read_file", vec!["absolute_path"]),
        (ReadManyFilesTool::new().get_tool_definition(), "read_many_files", vec!["paths"]),
        (ReplaceTool::new().get_tool_definition(), "replace", vec!["file_path", "old_string", "new_string"]),
        (RunShellCommandTool::new().get_tool_definition(), "run_shell_command", vec!["command"]),
        (SaveMemoryTool::new().get_tool_definition(), "save_memory", vec!["fact"]),
        (SearchFileContentTool::new().get_tool_definition(), "search_file_content", vec!["pattern"]),
        (WebFetchTool::new().get_tool_definition(), "web_fetch", vec!["prompt"]),
        (WriteFileTool::new().get_tool_definition(), "write_file", vec!["file_path", "content"]),
    ];
    for (definition, name, needed) in definitions {
        assert_eq!(definition.name, name);
        assert!(definition.description.len() > 20);
        assert_eq!(definition.parameters.get("type"), Some(&Json::Str("object".to_string())));
        assert!(definition.parameters.get("properties").unwrap().is_object());
        assert_eq!(required(&definition.parameters), needed);
        for param in needed {
            assert!(definition.parameters.get("properties").unwrap().get(param).is_some());
        }
    }
}

#[test]
fn tools_say_what_they_are() {
    assert_eq!(ReadFileTool::new().name(), "read_file");
    assert_eq!(WriteFileTool::new().description(), "Writes content to a specified file in the local filesystem.");
    assert_eq!(GlobTool::new().get_tool_definition().description, GlobTool::new().description());
    assert_eq!(SaveMemoryTool::new().get_memory_file_path(), "chat_memory.txt");
    assert_eq!(
        ReadFileTool::new().get_tool_definition().parameters.get("properties").unwrap().get("limit").unwrap().get("type"),
        Some(&Json::Str("number".to_string()))
    );
}

#[test]
fn default_excludes_are_the_usual_suspects() {
    let excludes = ReadManyFilesTool::new().get_default_excludes();
    assert_eq!(excludes.len(), 36);
    assert_eq!(excludes[0], "node_modules/**");
    assert_eq!(excludes[4], ".git/**");
    assert_eq!(excludes[35], "**/*.wmv");
    assert!(excludes.contains(&"**/__pycache__/**".to_string()));
}

#[test]
fn location_is_copied() {
    let location = ToolLocation { path: "/tmp/a".to_string(), line: Some(3) };
    assert_eq!(location.clone(), location);
}
