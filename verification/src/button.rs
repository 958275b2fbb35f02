//! Buttons: a named action bound to a handler of one of four shapes, and
//! the response a handler produces.

use vstd::prelude::*;

verus! {

/// The shape of the callable bound to a button: whether the handler is
/// given the shared state, and whether it is given the answers the user
/// typed into the button's prompts.
#[derive(Clone, Copy, PartialEq, Eq, Structural, Debug)]
pub enum HandlerKind {
    /// Called with no arguments.
    Basic,
    /// Called with a read-only reference to the shared state.
    WithState,
    /// Called with one answer per declared prompt.
    WithPrompts,
    /// Called with the shared state and one answer per declared prompt.
    WithStateAndPrompts,
}

impl HandlerKind {
    /// Whether a handler of this shape receives an answer sequence.
    pub open spec fn spec_takes_answers(self) -> bool {
        self is WithPrompts || self is WithStateAndPrompts
    }

    /// Whether a handler of this shape receives an answer sequence.
    #[verifier::when_used_as_spec(spec_takes_answers)]
    pub fn takes_answers(self) -> (b: bool)
        ensures
            b == self.spec_takes_answers(),
    {
        match self {
            HandlerKind::WithPrompts | HandlerKind::WithStateAndPrompts => true,
            _ => false,
        }
    }

    /// Whether a handler of this shape receives the shared state.
    pub open spec fn spec_takes_state(self) -> bool {
        self is WithState || self is WithStateAndPrompts
    }

    /// Whether a handler of this shape receives the shared state.
    #[verifier::when_used_as_spec(spec_takes_state)]
    pub fn takes_state(self) -> (b: bool)
        ensures
            b == self.spec_takes_state(),
    {
        match self {
            HandlerKind::WithState | HandlerKind::WithStateAndPrompts => true,
            _ => false,
        }
    }
}

/// The mathematical image of a [`Button`]: its display name, the shape of
/// its handler, and the prompt texts it declares.
#[verifier::ext_equal]
pub struct ButtonView {
    pub name: Seq<char>,
    pub kind: HandlerKind,
    pub prompts: Seq<Seq<char>>,
}

impl ButtonView {
    /// A button declares prompts exactly when its handler shape consumes
    /// answers; the other shapes carry an empty prompt list.
    pub open spec fn wf(self) -> bool {
        !self.kind.takes_answers() ==> self.prompts.len() == 0
    }
}

/// A named, clickable action. The button records the display name, the
/// shape of its handler and the prompts to ask the user; the handler
/// callable itself is owned by the embedding layer, which is handed the
/// validated arguments by the dispatcher. A button is immutable after
/// construction; its identity is its position in the [`Registry`].
///
/// [`Registry`]: crate::registry::Registry
pub struct Button {
    pub(crate) name: String,
    pub(crate) kind: HandlerKind,
    pub(crate) prompts: Vec<String>,
}

impl View for Button {
    type V = ButtonView;

    open(crate) spec fn view(&self) -> ButtonView {
        ButtonView { name: self.name@, kind: self.kind, prompts: self.prompts.deep_view() }
    }
}

impl DeepView for Button {
    type V = ButtonView;

    open spec fn deep_view(&self) -> ButtonView {
        self@
    }
}

impl Button {
    fn new(name: &str, kind: HandlerKind, prompts: Vec<String>) -> (b: Button)
        ensures
            b@ == (ButtonView { name: name@, kind, prompts: prompts.deep_view() }),
    {
        Button { name: name.to_owned(), kind, prompts }
    }

    /// Creates a button whose handler takes no arguments.
    pub fn create_basic_button(name: &str) -> (b: Button)
        ensures
            b@.name == name@,
            b@.kind == HandlerKind::Basic,
            b@.prompts.len() == 0,
            b@.wf(),
    {
        Button::new(name, HandlerKind::Basic, Vec::new())
    }

    /// Creates a button whose handler is given a read-only reference to
    /// the shared state chosen by the embedding application.
    pub fn create_button_with_state(name: &str) -> (b: Button)
        ensures
            b@.name == name@,
            b@.kind == HandlerKind::WithState,
            b@.prompts.len() == 0,
            b@.wf(),
    {
        Button::new(name, HandlerKind::WithState, Vec::new())
    }

    /// Creates a button that, when clicked, prompts the user with each of
    /// `extra_prompts` in order. The dispatcher guarantees that the answer
    /// sequence handed to the handler has exactly one entry per prompt.
    pub fn create_button_with_prompts(name: &str, extra_prompts: Vec<String>) -> (b: Button)
        ensures
            b@.name == name@,
            b@.kind == HandlerKind::WithPrompts,
            b@.prompts == extra_prompts.deep_view(),
            b@.wf(),
    {
        Button::new(name, HandlerKind::WithPrompts, extra_prompts)
    }

    /// Creates a button whose handler is given both the shared state and
    /// one answer per prompt in `extra_prompts`.
    pub fn create_button_with_state_and_prompts(name: &str, extra_prompts: Vec<String>) -> (b:
        Button)
        ensures
            b@.name == name@,
            b@.kind == HandlerKind::WithStateAndPrompts,
            b@.prompts == extra_prompts.deep_view(),
            b@.wf(),
    {
        Button::new(name, HandlerKind::WithStateAndPrompts, extra_prompts)
    }
}

/// The server's response to a button being pressed: the one user-visible
/// output of a dispatch.
pub struct ButtonResponse {
    pub message: String,
}

impl ButtonResponse {
    /// Wraps a message into a response.
    pub fn new(message: String) -> (r: ButtonResponse)
        ensures
            r.message == message,
    {
        ButtonResponse { message }
    }
}

impl From<String> for ButtonResponse {
    fn from(message: String) -> (r: ButtonResponse) {
        ButtonResponse { message }
    }
}

impl vstd::std_specs::convert::FromSpecImpl<String> for ButtonResponse {
    open spec fn obeys_from_spec() -> bool {
        true
    }

    open spec fn from_spec(message: String) -> ButtonResponse {
        ButtonResponse { message }
    }
}

impl<'a> From<&'a str> for ButtonResponse {
    fn from(message: &'a str) -> (r: ButtonResponse)
        ensures
            r.message@ == message@,
    {
        ButtonResponse { message: message.to_owned() }
    }
}

impl<'a> vstd::std_specs::convert::FromSpecImpl<&'a str> for ButtonResponse {
    // A `String` value with a given character sequence cannot be written
    // down in specification code, so this conversion carries its contract
    // on the method itself instead of through `from_spec`.
    open spec fn obeys_from_spec() -> bool {
        false
    }

    open spec fn from_spec(message: &'a str) -> ButtonResponse {
        arbitrary()
    }
}

} // verus!
