//! The prompt: a bordered box with a marker, and a line of help under it.

use vstd::prelude::*;
use crate::response_card::{minus, saturating_minus};
use crate::text::{join3, repeat, repeated, strings_view};

verus! {

/// A prompt of some width.
#[derive(Debug, PartialEq, Eq)]
pub struct PromptInput {
    pub width: usize,
    pub prompt_text: String,
}

pub ghost struct PromptInputView {
    pub width: usize,
    pub prompt_text: Seq<char>,
}

impl View for PromptInput {
    type V = PromptInputView;

    open spec fn view(&self) -> PromptInputView {
        PromptInputView { width: self.width, prompt_text: self.prompt_text@ }
    }
}

/// The line of help under the box.
pub open spec fn help_text() -> Seq<char> {
    "Type \"/\" for available commands.                                                Uses AI. Verify results."@
}

/// The top border of the box.
pub open spec fn top_border(width: usize) -> Seq<char> {
    "╭"@ + repeated("─"@, minus(width, 2) as nat) + "╮"@
}

/// The line of the box that is typed into: the marker, and room up to the
/// border.
pub open spec fn input_row(width: usize) -> Seq<char> {
    "│ > "@ + repeated(" "@, minus(minus(width, 4), 2) as nat) + " │"@
}

/// The bottom border of the box.
pub open spec fn bottom_border(width: usize) -> Seq<char> {
    "╰"@ + repeated("─"@, minus(width, 2) as nat) + "╯"@
}

/// The box and the help, line by line.
pub open spec fn prompt_lines(width: usize) -> Seq<Seq<char>> {
    seq![top_border(width), input_row(width), bottom_border(width), help_text()]
}

impl PromptInput {
    /// A prompt 120 wide, with the marker `> `.
    pub fn new() -> (r: Self)
        ensures
            r@ == (PromptInputView { width: 120, prompt_text: "> "@ }),
    {
        PromptInput { width: 120, prompt_text: "> ".to_string() }
    }

    /// The same prompt, `width` wide.
    pub fn with_width(self, width: usize) -> (r: Self)
        ensures
            r@ == (PromptInputView { width, ..self@ }),
    {
        let mut prompt = self;
        prompt.width = width;
        prompt
    }

    /// The box and the help, line by line, as they are drawn before the
    /// user types.
    pub fn box_lines(&self) -> (r: Vec<String>)
        ensures
            strings_view(r@) == prompt_lines(self@.width),
    {
        let border = repeat("─", saturating_minus(self.width, 2));
        let room = repeat(" ", saturating_minus(saturating_minus(self.width, 4), 2));
        let mut lines: Vec<String> = Vec::new();
        lines.push(join3("╭", border.as_str(), "╮"));
        lines.push(join3("│ > ", room.as_str(), " │"));
        lines.push(join3("╰", border.as_str(), "╯"));
        lines.push(
            "Type \"/\" for available commands.                                                Uses AI. Verify results.".to_string(),
        );
        assert(strings_view(lines@) =~= prompt_lines(self@.width));
        lines
    }
}

impl Default for PromptInput {
    fn default() -> (r: Self)
        ensures
            r@ == (PromptInputView { width: 120, prompt_text: "> "@ }),
    {
        PromptInput::new()
    }
}

} // verus!
