use chat_cli::input_manager::{read_placeholder, InputManager, McpInput};
use chat_cli::loading_animation::{AnimationStyle, LoadingAnimation, ProgressSteps};
use chat_cli::prompt_input::PromptInput;
use chat_cli::ui::input_box::InputBox;
use chat_cli::ui::{InputMode, MessageType};

#[test]
fn input_box_takes_characters_and_lines() {
    let mut input = InputBox::new("Ask");
    assert_eq!(input.lines(), &vec![String::new()]);
    assert_eq!(input.current_line(), 0);
    assert_eq!(input.title(), "Ask");
    input.add_char('h');
    input.add_char('i');
    input.add_newline();
    input.add_char('!');
    assert_eq!(input.lines(), &vec!["hi".to_string(), "!".to_string()]);
    assert_eq!(input.current_line(), 1);
    assert_eq!(input.text(), "hi\n!\n");
    input.remove_char();
    assert_eq!(input.lines(), &vec!["hi".to_string(), String::new()]);
    input.remove_char();
    assert_eq!(input.lines(), &vec!["hi".to_string()]);
    assert_eq!(input.current_line(), 0);
    input.remove_char();
    input.remove_char();
    input.remove_char();
    assert_eq!(input.lines(), &vec![String::new()]);
    assert_eq!(input.current_line(), 0);
    input.add_char('x');
    input.clear();
    assert_eq!(input.lines(), &vec![String::new()]);
    assert_eq!(input.text(), "\n");
}

#[test]
fn full_line_is_followed_by_a_new_one() {
    let mut input = InputBox::new("Ask");
    for _ in 0..119 {
        input.add_char('a');
    }
    assert_eq!(input.current_line(), 0);
    input.add_char('a');
    assert_eq!(input.current_line(), 1);
    assert_eq!(input.lines()[0].len(), 120);
    assert_eq!(input.lines()[1], "");
    let mut wide = InputBox::new("Ask");
    for _ in 0..59 {
        wide.add_char('é');
    }
    wide.add_char('a');
    wide.add_char('é');
    assert_eq!(wide.current_line(), 0);
    assert_eq!(wide.lines()[0].len(), 121);
}

#[test]
fn box_is_as_wide_as_its_content_asks() {
    let mut input = InputBox::new("Ask");
    assert_eq!(input.width(), Some(45));
    for _ in 0..50 {
        input.add_char('a');
    }
    assert_eq!(input.width(), Some(54));
    let titled = InputBox::new(&"t".repeat(40));
    assert_eq!(titled.width(), Some(48));
}

#[test]
fn prompt_is_a_box_with_help() {
    let prompt = PromptInput::new();
    assert_eq!(prompt.width, 120);
    assert_eq!(prompt.prompt_text, "> ");
    let narrow = PromptInput::new().with_width(10);
    assert_eq!(
        narrow.box_lines(),
        vec![
            "╭────────╮".to_string(),
            "│ >      │".to_string(),
            "╰────────╯".to_string(),
            "Type \"/\" for available commands.                                                Uses AI. Verify results.".to_string(),
        ]
    );
    assert_eq!(PromptInput::new().with_width(0).box_lines()[1], "│ >  │");
    assert_eq!(PromptInput::default(), PromptInput::new());
}

#[test]
fn animation_frames_follow_the_style() {
    let docker = LoadingAnimation::new("Pulling");
    assert_eq!(docker.style, AnimationStyle::Docker);
    assert_eq!(docker.frame_text(0), "◐ Pulling 0s");
    assert_eq!(docker.frame_text(9), "◓ Pulling 2s");
    let spinner = LoadingAnimation::new("Connecting...").with_style(AnimationStyle::Spinner);
    assert_eq!(spinner.frame_text(0), "⠋ Connecting...");
    assert_eq!(spinner.frame_text(19), "⠏ Connecting...");
    let dots = LoadingAnimation::new("Wait").with_style(AnimationStyle::Dots);
    assert_eq!(dots.frame_text(0), "Wait.   ");
    assert_eq!(dots.frame_text(7), "Wait....");
    let bar = LoadingAnimation::new("Load").with_style(AnimationStyle::Progress);
    assert_eq!(bar.frame_text(0), "Load [░░░░░░░░░░░░░░░░░░░░]");
    assert_eq!(bar.frame_text(25), "Load [█████░░░░░░░░░░░░░░░]");
    assert_eq!(bar.frame_text(usize::MAX).chars().count(), 27);
}

#[test]
fn steps_are_reported() {
    let mut steps = ProgressSteps::new(vec!["fetch".to_string(), "build".to_string()]);
    assert_eq!(steps.current_step, 0);
    assert_eq!(steps.start_step(1), Some("Step 2/2: build".to_string()));
    assert_eq!(steps.current_step, 1);
    assert_eq!(steps.start_step(2), None);
    assert_eq!(steps.current_step, 1);
    assert_eq!(steps.complete_step(0), Some("✓ Step 1/2: fetch - DONE".to_string()));
    assert_eq!(steps.complete_step(5), None);
    assert_eq!(steps.fail_step(1, "no disk"), Some("✗ Step 2/2: build - FAILED: no disk".to_string()));
    assert_eq!(steps.fail_step(2, "x"), None);
}

#[test]
fn kinds_and_modes() {
    assert_eq!(MessageType::User.label(), "You");
    assert_eq!(MessageType::Assistant.label(), "Assistant");
    assert_eq!(MessageType::Error.label(), "Error");
    assert_eq!(InputMode::Normal.toggled(), InputMode::Editing);
    assert_eq!(InputMode::Editing.toggled(), InputMode::Normal);
}

fn input(id: &str, required: bool) -> McpInput {
    McpInput {
        input_type: "promptString".to_string(),
        id: id.to_string(),
        description: format!("The {}", id),
        password: false,
        required,
    }
}

#[test]
fn placeholder_names_an_input() {
    assert_eq!(read_placeholder("${input:token}"), Some("token".to_string()));
    assert_eq!(read_placeholder("${input:}"), Some(String::new()));
    assert_eq!(read_placeholder("${input:a}b}"), Some("a}b".to_string()));
    assert_eq!(read_placeholder("${input:token"), None);
    assert_eq!(read_placeholder("${input:"), None);
    assert_eq!(read_placeholder("x${input:token}"), None);
    assert_eq!(read_placeholder("${INPUT:token}"), None);
    assert_eq!(read_placeholder("plain"), None);
    assert_eq!(read_placeholder(""), None);
}

#[test]
fn values_take_the_place_of_placeholders() {
    let mut manager = InputManager::new();
    manager.register_inputs(vec![input("token", true), input("region", false), input("token", false)]);
    assert!(!manager.input_is_required("token"));
    manager.register_inputs(vec![input("token", true)]);
    assert!(manager.input_is_required("token"));
    assert!(!manager.input_is_required("unknown"));
    assert_eq!(manager.resolve_env_vars("plain"), Ok("plain".to_string()));
    assert_eq!(
        manager.resolve_env_vars("${input:token}"),
        Err("Required input 'token' was not provided".to_string())
    );
    assert_eq!(manager.resolve_env_vars("${input:region}"), Ok(String::new()));
    assert_eq!(manager.resolve_env_vars("${input:unknown}"), Ok(String::new()));
    manager.set_input_value("token", "first".to_string());
    manager.set_input_value("region", "eu".to_string());
    manager.set_input_value("token", "second".to_string());
    assert_eq!(manager.get_input_value("token"), Some("second".to_string()));
    assert_eq!(manager.resolve_env_vars("${input:token}"), Ok("second".to_string()));
    assert_eq!(manager.resolve_env_vars("${input:region}"), Ok("eu".to_string()));
    assert_eq!(
        manager.get_resolved_values(),
        (&vec!["token".to_string(), "region".to_string()], &vec!["second".to_string(), "eu".to_string()])
    );
    manager.clear_resolved_values();
    assert_eq!(manager.get_input_value("token"), None);
    assert!(manager.input_is_required("token"));
    assert_eq!(InputManager::default().get_resolved_values(), (&Vec::new(), &Vec::new()));
}

#[test]
fn missing_inputs_are_listed_in_order() {
    let mut manager = InputManager::new();
    manager.set_input_value("known", "v".to_string());
    let values = vec![
        "${input:b}".to_string(),
        "plain".to_string(),
        "${input:known}".to_string(),
        "${input:a}".to_string(),
        "${input:b}".to_string(),
    ];
    assert_eq!(manager.check_dependencies(&values), vec!["b", "a", "b"]);
    assert!(manager.check_dependencies(&Vec::new()).is_empty());
}
