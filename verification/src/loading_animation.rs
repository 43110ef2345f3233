//! What is shown while something takes its time: the frames of an
//! animation, and the lines that report the steps of a longer job.

use vstd::prelude::*;
use crate::text::{decimal, decimal_text, join2, join3, repeat, repeated, strings_view};

verus! {

/// How the animation looks.
#[derive(Debug, Clone, Copy, PartialEq, Eq, Structural)]
pub enum AnimationStyle {
    Spinner,
    Dots,
    Progress,
    Docker,
}

/// An animation beside a message.
#[derive(Debug, PartialEq, Eq)]
pub struct LoadingAnimation {
    pub message: String,
    pub style: AnimationStyle,
}

pub ghost struct LoadingAnimationView {
    pub message: Seq<char>,
    pub style: AnimationStyle,
}

impl View for LoadingAnimation {
    type V = LoadingAnimationView;

    open spec fn view(&self) -> LoadingAnimationView {
        LoadingAnimationView { message: self.message@, style: self.style }
    }
}

/// The glyphs of the spinner, in the order in which they are shown.
pub open spec fn spinner_glyphs() -> Seq<Seq<char>> {
    seq!["⠋"@, "⠙"@, "⠹"@, "⠸"@, "⠼"@, "⠴"@, "⠦"@, "⠧"@, "⠇"@, "⠏"@]
}

/// The glyphs of the turning disc, in the order in which they are shown.
pub open spec fn docker_glyphs() -> Seq<Seq<char>> {
    seq!["◐"@, "◓"@, "◑"@, "◒"@]
}

/// The text of frame number `frame`.
///
/// The spinner and the disc show their next glyph before the message, the
/// disc with the seconds gone by after it, at four frames to the second.
/// The dots follow the message, one to four of them, in a room of four.
/// The bar follows the message, twenty cells long, and fills up cell by
/// cell.
pub open spec fn frame(animation: LoadingAnimationView, frame: usize) -> Seq<char> {
    match animation.style {
        AnimationStyle::Spinner => spinner_glyphs()[(frame % 10) as int] + " "@ + animation.message,
        AnimationStyle::Dots => animation.message + repeated("."@, (frame % 4 + 1) as nat)
            + repeated(" "@, (3 - frame % 4) as nat),
        AnimationStyle::Progress => animation.message + " ["@ + repeated(
            "█"@,
            (frame % 20) as nat,
        ) + repeated("░"@, (20 - frame % 20) as nat) + "]"@,
        AnimationStyle::Docker => docker_glyphs()[(frame % 4) as int] + " "@ + animation.message + " "@
            + decimal((frame / 4) as nat) + "s"@,
    }
}

fn spinner_glyph(at: usize) -> (r: &'static str)
    requires
        at < 10,
    ensures
        r@ == spinner_glyphs()[at as int],
{
    if at == 0 {
        "⠋"
    } else if at == 1 {
        "⠙"
    } else if at == 2 {
        "⠹"
    } else if at == 3 {
        "⠸"
    } else if at == 4 {
        "⠼"
    } else if at == 5 {
        "⠴"
    } else if at == 6 {
        "⠦"
    } else if at == 7 {
        "⠧"
    } else if at == 8 {
        "⠇"
    } else {
        "⠏"
    }
}

fn docker_glyph(at: usize) -> (r: &'static str)
    requires
        at < 4,
    ensures
        r@ == docker_glyphs()[at as int],
{
    if at == 0 {
        "◐"
    } else if at == 1 {
        "◓"
    } else if at == 2 {
        "◑"
    } else {
        "◒"
    }
}

impl LoadingAnimation {
    /// An animation of a turning disc beside `message`.
    pub fn new(message: &str) -> (r: Self)
        ensures
            r@ == (LoadingAnimationView { message: message@, style: AnimationStyle::Docker }),
    {
        LoadingAnimation { message: message.to_string(), style: AnimationStyle::Docker }
    }

    /// The same animation, in another style.
    pub fn with_style(self, style: AnimationStyle) -> (r: Self)
        ensures
            r@ == (LoadingAnimationView { style, ..self@ }),
    {
        let mut animation = self;
        animation.style = style;
        animation
    }

    /// The text of frame number `frame`.
    pub fn frame_text(&self, frame: usize) -> (r: String)
        ensures
            r@ == crate::loading_animation::frame(self@, frame),
    {
        match self.style {
            AnimationStyle::Spinner => join3(spinner_glyph(frame % 10), " ", self.message.as_str()),
            AnimationStyle::Dots => {
                let dots = repeat(".", frame % 4 + 1);
                let room = repeat(" ", 3 - frame % 4);
                join3(self.message.as_str(), dots.as_str(), room.as_str())
            },
            AnimationStyle::Progress => {
                let filled = repeat("█", frame % 20);
                let empty = repeat("░", 20 - frame % 20);
                let start = join3(self.message.as_str(), " [", filled.as_str());
                join3(start.as_str(), empty.as_str(), "]")
            },
            AnimationStyle::Docker => {
                let seconds = decimal_text((frame / 4) as u64);
                let start = join3(docker_glyph(frame % 4), " ", self.message.as_str());
                let timed = join3(start.as_str(), " ", seconds.as_str());
                join2(timed.as_str(), "s")
            },
        }
    }
}

/// The steps of a job, and the step that it is at.
#[derive(Debug, PartialEq, Eq)]
pub struct ProgressSteps {
    pub steps: Vec<String>,
    pub current_step: usize,
}

pub ghost struct ProgressStepsView {
    pub steps: Seq<Seq<char>>,
    pub current_step: usize,
}

impl View for ProgressSteps {
    type V = ProgressStepsView;

    open spec fn view(&self) -> ProgressStepsView {
        ProgressStepsView { steps: strings_view(self.steps@), current_step: self.current_step }
    }
}

/// `Step N/M: NAME`, for the step at `index` of `steps`.
pub open spec fn step_label(steps: Seq<Seq<char>>, index: int) -> Seq<char> {
    "Step "@ + decimal((index + 1) as nat) + "/"@ + decimal(steps.len()) + ": "@ + steps[index]
}

/// The line that reports that a step begins.
pub open spec fn started_line(steps: Seq<Seq<char>>, index: int) -> Option<Seq<char>> {
    if 0 <= index < steps.len() {
        Some(step_label(steps, index))
    } else {
        None
    }
}

/// The line that reports that a step is done.
pub open spec fn completed_line(steps: Seq<Seq<char>>, index: int) -> Option<Seq<char>> {
    if 0 <= index < steps.len() {
        Some("✓ "@ + step_label(steps, index) + " - DONE"@)
    } else {
        None
    }
}

/// The line that reports that a step failed.
pub open spec fn failed_line(steps: Seq<Seq<char>>, index: int, error: Seq<char>) -> Option<
    Seq<char>,
> {
    if 0 <= index < steps.len() {
        Some("✗ "@ + step_label(steps, index) + " - FAILED: "@ + error)
    } else {
        None
    }
}

impl ProgressSteps {
    /// A job of these steps, at its first step.
    pub fn new(steps: Vec<String>) -> (r: Self)
        ensures
            r@ == (ProgressStepsView { steps: strings_view(steps@), current_step: 0 }),
    {
        ProgressSteps { steps, current_step: 0 }
    }

    fn label(&self, step_index: usize) -> (r: String)
        requires
            step_index < self.steps.len(),
        ensures
            r@ == step_label(self@.steps, step_index as int),
    {
        let number = decimal_text((step_index + 1) as u64);
        let count = decimal_text(self.steps.len() as u64);
        let start = join3("Step ", number.as_str(), "/");
        let counted = join3(start.as_str(), count.as_str(), ": ");
        join2(counted.as_str(), self.steps[step_index].as_str())
    }

    /// Goes to the step at `step_index` and returns the line that reports
    /// it; does nothing where there is no such step.
    pub fn start_step(&mut self, step_index: usize) -> (r: Option<String>)
        ensures
            crate::text::opt_text(r) == started_line(old(self)@.steps, step_index as int),
            final(self)@.steps == old(self)@.steps,
            final(self)@.current_step == (if step_index < old(self)@.steps.len() {
                step_index
            } else {
                old(self)@.current_step
            }),
    {
        if step_index < self.steps.len() {
            self.current_step = step_index;
            Some(self.label(step_index))
        } else {
            None
        }
    }

    /// The line that reports that the step at `step_index` is done.
    pub fn complete_step(&self, step_index: usize) -> (r: Option<String>)
        ensures
            crate::text::opt_text(r) == completed_line(self@.steps, step_index as int),
    {
        if step_index < self.steps.len() {
            let label = self.label(step_index);
            Some(join3("✓ ", label.as_str(), " - DONE"))
        } else {
            None
        }
    }

    /// The line that reports that the step at `step_index` failed.
    pub fn fail_step(&self, step_index: usize, error: &str) -> (r: Option<String>)
        ensures
            crate::text::opt_text(r) == failed_line(self@.steps, step_index as int, error@),
    {
        if step_index < self.steps.len() {
            let label = self.label(step_index);
            let start = join3("✗ ", label.as_str(), " - FAILED: ");
            Some(join2(start.as_str(), error))
        } else {
            None
        }
    }
}

} // verus!
