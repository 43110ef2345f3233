//! The inputs that the configuration of tool servers asks the user for.
//!
//! A server's environment may hold placeholders of the form
//! `${input:ID}`.  The manager knows the inputs that were declared and the
//! values that were found for them, and puts the values in place of the
//! placeholders.  Finding a value, in the environment or by asking, is left
//! to whoever holds the terminal.

use vstd::prelude::*;
use crate::keyed::{
    distinct_names, find_name, lemma_name_index, lemma_with_name_distinct, name_index, names_view,
    with_name,
};
use crate::text::{chars_of, join3, string_of, strings_view};

verus! {

/// An input as the configuration declares it.
#[derive(Debug, PartialEq, Eq)]
pub struct McpInput {
    pub input_type: String,
    pub id: String,
    pub description: String,
    pub password: bool,
    pub required: bool,
}

pub ghost struct McpInputView {
    pub input_type: Seq<char>,
    pub id: Seq<char>,
    pub description: Seq<char>,
    pub password: bool,
    pub required: bool,
}

impl View for McpInput {
    type V = McpInputView;

    open spec fn view(&self) -> McpInputView {
        McpInputView {
            input_type: self.input_type@,
            id: self.id@,
            description: self.description@,
            password: self.password,
            required: self.required,
        }
    }
}

impl Clone for McpInput {
    fn clone(&self) -> (r: Self)
        ensures
            r@ == self@,
    {
        McpInput {
            input_type: self.input_type.clone(),
            id: self.id.clone(),
            description: self.description.clone(),
            password: self.password,
            required: self.required,
        }
    }
}

/// The values of a list of inputs.
pub open spec fn inputs_view(inputs: Seq<McpInput>) -> Seq<McpInputView> {
    Seq::new(inputs.len(), |i: int| inputs[i]@)
}

/// The ids of a list of inputs.
pub open spec fn input_ids(inputs: Seq<McpInputView>) -> Seq<Seq<char>> {
    Seq::new(inputs.len(), |i: int| inputs[i].id)
}

/// The inputs after `input` is declared: it replaces the input with its
/// id where there is one, and else comes last.
pub open spec fn with_input(inputs: Seq<McpInputView>, input: McpInputView) -> Seq<McpInputView> {
    match name_index(input_ids(inputs), input.id) {
        Some(at) => inputs.update(at, input),
        None => inputs.push(input),
    }
}

/// The inputs after each of `more` is declared, in order.
pub open spec fn with_inputs(inputs: Seq<McpInputView>, more: Seq<McpInputView>) -> Seq<
    McpInputView,
>
    decreases more.len(),
{
    if more.len() == 0 {
        inputs
    } else {
        with_input(with_inputs(inputs, more.drop_last()), more.last())
    }
}

/// The start of a placeholder.
pub open spec fn placeholder_start() -> Seq<char> {
    "${input:"@
}

/// The id that a value asks for, where the value is a placeholder
/// `${input:ID}`.
pub open spec fn placeholder_id(value: Seq<char>) -> Option<Seq<char>> {
    if value.len() >= 9 && value.take(8) == placeholder_start() && value.last() == '}' {
        Some(value.subrange(8, value.len() - 1))
    } else {
        None
    }
}

/// The value found for `id`, where one was.
pub open spec fn resolved_value(ids: Seq<Seq<char>>, values: Seq<Seq<char>>, id: Seq<char>)
    -> Option<Seq<char>> {
    match name_index(ids, id) {
        Some(at) => Some(values[at]),
        None => None,
    }
}

/// Whether the input `id` is declared as required.
pub open spec fn is_required(inputs: Seq<McpInputView>, id: Seq<char>) -> bool {
    match name_index(input_ids(inputs), id) {
        Some(at) => inputs[at].required,
        None => false,
    }
}

/// The report of a required input without a value.
pub open spec fn missing_input(id: Seq<char>) -> Seq<char> {
    "Required input '"@ + id + "' was not provided"@
}

/// What a value of the environment resolves to: itself where it is no
/// placeholder; the value found for the input where it is one; the empty
/// text where none was found and the input is not required; and else the
/// report that the input is missing.
pub open spec fn resolution(manager: InputManagerView, value: Seq<char>) -> Result<
    Seq<char>,
    Seq<char>,
> {
    match placeholder_id(value) {
        None => Ok(value),
        Some(id) => match resolved_value(manager.resolved_ids, manager.resolved_values, id) {
            Some(found) => Ok(found),
            None => if is_required(manager.inputs, id) {
                Err(missing_input(id))
            } else {
                Ok(Seq::empty())
            },
        },
    }
}

/// The ids that the values ask for and that have no value yet, in the
/// order of the values.
pub open spec fn missing_ids(manager: InputManagerView, values: Seq<Seq<char>>) -> Seq<Seq<char>>
    decreases values.len(),
{
    if values.len() == 0 {
        Seq::empty()
    } else {
        let before = missing_ids(manager, values.drop_last());
        match placeholder_id(values.last()) {
            Some(id) => if name_index(manager.resolved_ids, id) is None {
                before.push(id)
            } else {
                before
            },
            None => before,
        }
    }
}

/// The inputs that were declared and the values that were found.
pub struct InputManager {
    inputs: Vec<McpInput>,
    ids: Vec<String>,
    resolved_ids: Vec<String>,
    resolved_values: Vec<String>,
}

pub ghost struct InputManagerView {
    /// The declared inputs, each id once.
    pub inputs: Seq<McpInputView>,
    /// The ids for which a value was found, each once.
    pub resolved_ids: Seq<Seq<char>>,
    /// The values found, in the order of `resolved_ids`.
    pub resolved_values: Seq<Seq<char>>,
}

impl View for InputManager {
    type V = InputManagerView;

    closed spec fn view(&self) -> InputManagerView {
        InputManagerView {
            inputs: inputs_view(self.inputs@),
            resolved_ids: names_view(self.resolved_ids@),
            resolved_values: strings_view(self.resolved_values@),
        }
    }
}

/// The id that a value asks for, where the value is a placeholder.
pub fn read_placeholder(value: &str) -> (r: Option<String>)
    ensures
        crate::text::opt_text(r) == placeholder_id(value@),
{
    let chars = chars_of(value);
    if chars.len() < 9 {
        return None;
    }
    proof {
        reveal_strlit("${input:");
    }
    let starts = chars[0] == '$' && chars[1] == '{' && chars[2] == 'i' && chars[3] == 'n'
        && chars[4] == 'p' && chars[5] == 'u' && chars[6] == 't' && chars[7] == ':';
    proof {
        let head = value@.take(8);
        let start = placeholder_start();
        if starts {
            assert(head =~= start);
        } else {
            assert(head[0] == chars@[0] && head[1] == chars@[1] && head[2] == chars@[2] && head[3]
                == chars@[3] && head[4] == chars@[4] && head[5] == chars@[5] && head[6]
                == chars@[6] && head[7] == chars@[7]);
            assert(start[0] == '$' && start[1] == '{' && start[2] == 'i' && start[3] == 'n'
                && start[4] == 'p' && start[5] == 'u' && start[6] == 't' && start[7] == ':');
        }
    }
    if !starts || chars[chars.len() - 1] != '}' {
        return None;
    }
    let mut id: Vec<char> = Vec::new();
    let mut i: usize = 8;
    while i < chars.len() - 1
        invariant
            8 <= i <= chars.len() - 1,
            id@ == chars@.subrange(8, i as int),
        decreases chars.len() - i,
    {
        id.push(chars[i]);
        i += 1;
    }
    Some(string_of(&id))
}

impl InputManager {
    /// Whether the manager is as it should be: no input is declared
    /// twice, no id has two values, and every id that has a value has one.
    pub closed spec fn wf(&self) -> bool {
        &&& names_view(self.ids@) == input_ids(self@.inputs)
        &&& distinct_names(input_ids(self@.inputs))
        &&& distinct_names(self@.resolved_ids)
        &&& self@.resolved_ids.len() == self@.resolved_values.len()
    }

    /// A manager without inputs and without values.
    pub fn new() -> (r: Self)
        ensures
            r.wf(),
            r@.inputs.len() == 0,
            r@.resolved_ids.len() == 0,
            r@.resolved_values.len() == 0,
    {
        let manager = InputManager {
            inputs: Vec::new(),
            ids: Vec::new(),
            resolved_ids: Vec::new(),
            resolved_values: Vec::new(),
        };
        assert(names_view(manager.ids@) =~= input_ids(manager@.inputs));
        manager
    }

    /// Declares one input.
    pub fn register_input(&mut self, input: McpInput)
        requires
            old(self).wf(),
        ensures
            final(self).wf(),
            final(self)@ == (InputManagerView {
                inputs: with_input(old(self)@.inputs, input@),
                ..old(self)@
            }),
    {
        let ghost before = inputs_view(self.inputs@);
        proof {
            lemma_name_index(input_ids(before), input.id@);
            lemma_with_name_distinct(input_ids(before), input.id@);
        }
        match find_name(&self.ids, input.id.as_str()) {
            Some(at) => {
                let id = input.id.clone();
                self.ids.set(at, id);
                self.inputs.set(at, input);
                assert(inputs_view(self.inputs@) =~= before.update(at as int, input@));
                assert(names_view(self.ids@) =~= input_ids(before));
                assert(input_ids(before.update(at as int, input@)) =~= input_ids(before));
            },
            None => {
                self.ids.push(input.id.clone());
                self.inputs.push(input);
                assert(inputs_view(self.inputs@) =~= before.push(input@));
                assert(names_view(self.ids@) =~= input_ids(before).push(input.id@));
                assert(input_ids(before.push(input@)) =~= input_ids(before).push(input.id@));
            },
        }
    }

    /// Declares the inputs, in order.  An input that is declared again
    /// replaces the earlier declaration.
    pub fn register_inputs(&mut self, inputs: Vec<McpInput>)
        requires
            old(self).wf(),
        ensures
            final(self).wf(),
            final(self)@ == (InputManagerView {
                inputs: with_inputs(old(self)@.inputs, inputs_view(inputs@)),
                ..old(self)@
            }),
    {
        let ghost all = inputs_view(inputs@);
        let mut i: usize = 0;
        assert(all.take(0) =~= Seq::empty());
        while i < inputs.len()
            invariant
                i <= inputs.len(),
                self.wf(),
                all == inputs_view(inputs@),
                self@ == (InputManagerView {
                    inputs: with_inputs(old(self)@.inputs, all.take(i as int)),
                    ..old(self)@
                }),
            decreases inputs.len() - i,
        {
            proof {
                assert(all.take(i + 1).drop_last() =~= all.take(i as int));
                assert(all.take(i + 1).last() == inputs@[i as int]@);
            }
            self.register_input(inputs[i].clone());
            i += 1;
        }
        assert(all.take(i as int) =~= all);
    }

    /// The value found for the input `id`.
    pub fn get_input_value(&self, input_id: &str) -> (r: Option<String>)
        requires
            self.wf(),
        ensures
            crate::text::opt_text(r) == resolved_value(
                self@.resolved_ids,
                self@.resolved_values,
                input_id@,
            ),
    {
        match find_name(&self.resolved_ids, input_id) {
            Some(at) => Some(self.resolved_values[at].clone()),
            None => None,
        }
    }

    /// Records the value found for the input `id`.  A value recorded
    /// before is replaced.
    pub fn set_input_value(&mut self, input_id: &str, value: String)
        requires
            old(self).wf(),
        ensures
            final(self).wf(),
            final(self)@.inputs == old(self)@.inputs,
            final(self)@.resolved_ids == with_name(old(self)@.resolved_ids, input_id@),
            resolved_value(final(self)@.resolved_ids, final(self)@.resolved_values, input_id@)
                == Some(value@),
            forall|other: Seq<char>|
                other != input_id@ ==> resolved_value(
                    final(self)@.resolved_ids,
                    final(self)@.resolved_values,
                    other,
                ) == resolved_value(old(self)@.resolved_ids, old(self)@.resolved_values, other),
    {
        let ghost ids = names_view(self.resolved_ids@);
        let ghost values = strings_view(self.resolved_values@);
        proof {
            lemma_name_index(ids, input_id@);
            lemma_with_name_distinct(ids, input_id@);
        }
        match find_name(&self.resolved_ids, input_id) {
            Some(at) => {
                self.resolved_values.set(at, value);
                assert(strings_view(self.resolved_values@) =~= values.update(at as int, value@));
                assert forall|other: Seq<char>| other != input_id@ implies resolved_value(
                    ids,
                    values.update(at as int, value@),
                    other,
                ) == resolved_value(ids, values, other) by {
                    lemma_name_index(ids, other);
                }
            },
            None => {
                self.resolved_ids.push(input_id.to_string());
                self.resolved_values.push(value);
                assert(names_view(self.resolved_ids@) =~= ids.push(input_id@));
                assert(strings_view(self.resolved_values@) =~= values.push(value@));
                assert(ids.push(input_id@).drop_last() =~= ids);
                assert forall|other: Seq<char>| other != input_id@ implies resolved_value(
                    ids.push(input_id@),
                    values.push(value@),
                    other,
                ) == resolved_value(ids, values, other) by {
                    lemma_name_index(ids, other);
                }
            },
        }
    }

    /// The declaration of the input `id`.
    pub fn get_input(&self, input_id: &str) -> (r: Option<&McpInput>)
        requires
            self.wf(),
        ensures
            match name_index(input_ids(self@.inputs), input_id@) {
                Some(at) => r matches Some(input) && input@ == self@.inputs[at],
                None => r is None,
            },
    {
        match find_name(&self.ids, input_id) {
            Some(at) => Some(&self.inputs[at]),
            None => None,
        }
    }

    /// Whether the input `id` is declared as required.
    pub fn input_is_required(&self, input_id: &str) -> (r: bool)
        requires
            self.wf(),
        ensures
            r == is_required(self@.inputs, input_id@),
    {
        match find_name(&self.ids, input_id) {
            Some(at) => self.inputs[at].required,
            None => false,
        }
    }

    /// Puts the value found for an input in the place of its placeholder.
    pub fn resolve_env_vars(&self, value: &str) -> (r: Result<String, String>)
        requires
            self.wf(),
        ensures
            crate::openai::reason_result_view(r) == resolution(self@, value@),
    {
        match read_placeholder(value) {
            None => Ok(value.to_string()),
            Some(id) => match self.get_input_value(id.as_str()) {
                Some(found) => Ok(found),
                None => {
                    if self.input_is_required(id.as_str()) {
                        Err(join3("Required input '", id.as_str(), "' was not provided"))
                    } else {
                        Ok(String::new())
                    }
                },
            },
        }
    }

    /// The ids that the values of an environment ask for and that have no
    /// value yet.
    pub fn check_dependencies(&self, env_values: &Vec<String>) -> (r: Vec<String>)
        requires
            self.wf(),
        ensures
            strings_view(r@) == missing_ids(self@, strings_view(env_values@)),
    {
        let ghost all = strings_view(env_values@);
        let mut missing: Vec<String> = Vec::new();
        let mut i: usize = 0;
        assert(all.take(0) =~= Seq::empty());
        assert(strings_view(missing@) =~= Seq::empty());
        while i < env_values.len()
            invariant
                i <= env_values.len(),
                self.wf(),
                all == strings_view(env_values@),
                strings_view(missing@) == missing_ids(self@, all.take(i as int)),
            decreases env_values.len() - i,
        {
            proof {
                assert(all.take(i + 1).drop_last() =~= all.take(i as int));
                assert(all.take(i + 1).last() == env_values@[i as int]@);
            }
            match read_placeholder(env_values[i].as_str()) {
                Some(id) => {
                    if find_name(&self.resolved_ids, id.as_str()).is_none() {
                        let ghost before = strings_view(missing@);
                        let ghost held = id@;
                        missing.push(id);
                        assert(strings_view(missing@) =~= before.push(held));
                    }
                },
                None => {},
            }
            i += 1;
        }
        assert(all.take(i as int) =~= all);
        missing
    }

    /// The ids for which a value was found, and the values, in the same
    /// order.
    pub fn get_resolved_values(&self) -> (r: (&Vec<String>, &Vec<String>))
        ensures
            names_view(r.0@) == self@.resolved_ids,
            strings_view(r.1@) == self@.resolved_values,
    {
        (&self.resolved_ids, &self.resolved_values)
    }

    /// Forgets the values that were found.  The declarations stay.
    pub fn clear_resolved_values(&mut self)
        requires
            old(self).wf(),
        ensures
            final(self).wf(),
            final(self)@ == (InputManagerView {
                resolved_ids: Seq::empty(),
                resolved_values: Seq::empty(),
                ..old(self)@
            }),
    {
        self.resolved_ids.clear();
        self.resolved_values.clear();
        assert(names_view(self.resolved_ids@) =~= Seq::empty());
        assert(strings_view(self.resolved_values@) =~= Seq::empty());
    }
}

impl Default for InputManager {
    fn default() -> (r: Self)
        ensures
            r.wf(),
            r@.inputs.len() == 0,
            r@.resolved_ids.len() == 0,
    {
        InputManager::new()
    }
}

} // verus!
