//! Requests for new controllers: a loop name, the name of its input series, an output target and
//! a controller, with the rule that neither name is blank.
use vstd::prelude::*;

use crate::process_control::control_loop::is_blank;
use crate::text::whitespace;

verus! {

/// A refused request for a new controller, with its description.
#[derive(Clone, Debug, PartialEq, Eq)]
pub struct NewControllerError {
    message: String,
}

impl View for NewControllerError {
    type V = Seq<char>;

    closed spec fn view(&self) -> Seq<char> {
        self.message@
    }
}

impl NewControllerError {
    pub(crate) fn new(message: &str) -> (error: Self)
        ensures
            error@ == message@,
    {
        NewControllerError { message: message.to_owned() }
    }

    pub fn to_string(&self) -> (text: String)
        ensures
            text@ == self@,
    {
        self.message.clone()
    }
}

/// Whether every character of the text is whitespace (also true of the empty text).
pub fn blank(text: &str) -> (result: bool)
    ensures
        result == is_blank(text@),
{
    let length = text.unicode_len();
    let mut index: usize = 0;
    while index < length
        invariant
            length == text@.len(),
            index <= length,
            forall|i: int| 0 <= i < index ==> crate::text::is_whitespace(#[trigger] text@[i]),
        decreases length - index,
    {
        if !whitespace(text.get_char(index)) {
            return false;
        }
        index += 1;
    }
    true
}

/// A request for a new control loop. `C` is the controller that the loop will run.
#[derive(Debug)]
pub struct NewController<OutputTarget, C> {
    name: String,
    input_name: String,
    output_target: OutputTarget,
    controller: C,
}

/// The description of the refusal of a request with these names, if it is refused.
pub open spec fn new_controller_problem(name: Seq<char>, input_name: Seq<char>) -> Option<Seq<char>> {
    if is_blank(name) {
        Some("Controller name cannot be empty"@)
    } else if is_blank(input_name) {
        Some("Controller input series name cannot be empty"@)
    } else {
        None
    }
}

impl<OutputTarget, C> NewController<OutputTarget, C> {
    pub closed spec fn name_spec(&self) -> Seq<char> {
        self.name@
    }

    pub closed spec fn input_name_spec(&self) -> Seq<char> {
        self.input_name@
    }

    pub closed spec fn output_target_spec(&self) -> OutputTarget {
        self.output_target
    }

    pub closed spec fn controller_spec(&self) -> C {
        self.controller
    }

    /// A request, refused when the loop name or the input name is empty or only whitespace. The
    /// names are kept as given.
    pub fn new(name: &str, input_name: &str, output_target: OutputTarget, controller: C) -> (result: Result<Self, NewControllerError>)
        ensures
            match new_controller_problem(name@, input_name@) {
                Some(problem) => result matches Err(error) && error@ == problem,
                None => result matches Ok(request) && request.name_spec() == name@
                    && request.input_name_spec() == input_name@ && request.output_target_spec()
                    == output_target && request.controller_spec() == controller,
            },
    {
        if blank(name) {
            return Err(NewControllerError::new("Controller name cannot be empty"));
        }
        if blank(input_name) {
            return Err(NewControllerError::new("Controller input series name cannot be empty"));
        }
        Ok(NewController {
            name: name.to_owned(),
            input_name: input_name.to_owned(),
            output_target,
            controller,
        })
    }

    pub fn name(&self) -> (name: &str)
        ensures
            name@ == self.name_spec(),
    {
        self.name.as_str()
    }

    pub fn input_name(&self) -> (input_name: &str)
        ensures
            input_name@ == self.input_name_spec(),
    {
        self.input_name.as_str()
    }

    pub fn output_target(&self) -> (output_target: &OutputTarget)
        ensures
            *output_target == self.output_target_spec(),
    {
        &self.output_target
    }

    pub fn controller(&self) -> (controller: &C)
        ensures
            *controller == self.controller_spec(),
    {
        &self.controller
    }

    /// The loop name, the input name, the output target and the controller.
    pub fn into_parts(self) -> (parts: (String, String, OutputTarget, C))
        ensures
            parts.0@ == self.name_spec(),
            parts.1@ == self.input_name_spec(),
            parts.2 == self.output_target_spec(),
            parts.3 == self.controller_spec(),
    {
        (self.name, self.input_name, self.output_target, self.controller)
    }
}

} // verus!
