//! Text inputs and the toggle.
//!
//! A controlled input shows what the page holds and hands every change of its
//! text to the page. An uncontrolled input keeps its text to itself: the page
//! learns of it when the form is submitted, and not before.

use vstd::prelude::*;

verus! {

/// The message that the toggle shows while it is on.
pub const CONDITIONAL_MESSAGE: &'static str = "Conditional display is on";

/// The text behind a controlled input.
#[derive(Debug)]
pub struct ControlledInput {
    value: String,
}

impl View for ControlledInput {
    type V = Seq<char>;

    closed spec fn view(&self) -> Seq<char> {
        self.value@
    }
}

impl ControlledInput {
    /// An input without text.
    pub fn new() -> (input: ControlledInput)
        ensures
            input@ == Seq::<char>::empty(),
    {
        ControlledInput { value: String::new() }
    }

    /// The text of the input changed to `text`: the page holds `text`.
    pub fn on_input(&mut self, text: String)
        ensures
            final(self)@ == text@,
    {
        self.value = text;
    }

    /// The text that the page holds and the input shows.
    pub fn value(&self) -> (text: &str)
        ensures
            text@ == self@,
    {
        self.value.as_str()
    }
}

/// What an uncontrolled input and the page hold: the text in the input's own
/// field, and the text that the page shows.
pub struct FormTexts {
    pub field: Seq<char>,
    pub shown: Seq<char>,
}

impl FormTexts {
    /// The texts after the field's text changed to `text`.
    pub open spec fn typed(self, text: Seq<char>) -> FormTexts {
        FormTexts { field: text, shown: self.shown }
    }

    /// The texts after the form was submitted.
    pub open spec fn submitted(self) -> FormTexts {
        FormTexts { field: self.field, shown: self.field }
    }

    /// The texts after each of `texts` was typed in turn.
    pub open spec fn typed_all(self, texts: Seq<Seq<char>>) -> FormTexts
        decreases texts.len(),
    {
        if texts.len() == 0 {
            self
        } else {
            self.typed_all(texts.drop_last()).typed(texts.last())
        }
    }
}

/// An uncontrolled input together with the value that the page shows for it.
#[derive(Debug)]
pub struct UncontrolledInput {
    field: String,
    shown: String,
}

impl View for UncontrolledInput {
    type V = FormTexts;

    closed spec fn view(&self) -> FormTexts {
        FormTexts { field: self.field@, shown: self.shown@ }
    }
}

impl UncontrolledInput {
    /// An empty field, and nothing shown.
    pub fn new() -> (input: UncontrolledInput)
        ensures
            input@ == (FormTexts { field: Seq::empty(), shown: Seq::empty() }),
    {
        UncontrolledInput { field: String::new(), shown: String::new() }
    }

    /// The text in the field changed to `text`. What the page shows stays.
    pub fn type_text(&mut self, text: String)
        ensures
            final(self)@ == old(self)@.typed(text@),
    {
        self.field = text;
    }

    /// The form was submitted: the page now shows the text in the field.
    pub fn submit(&mut self)
        ensures
            final(self)@ == old(self)@.submitted(),
    {
        self.shown = self.field.clone();
    }

    /// The text in the field.
    pub fn field(&self) -> (text: &str)
        ensures
            text@ == self@.field,
    {
        self.field.as_str()
    }

    /// The text that the page shows.
    pub fn value(&self) -> (text: &str)
        ensures
            text@ == self@.shown,
    {
        self.shown.as_str()
    }
}

/// Whether a toggle that was on or off as `on` says is on after `times`
/// further toggles.
pub open spec fn after_toggles(on: bool, times: nat) -> bool
    decreases times,
{
    if times == 0 {
        on
    } else {
        !after_toggles(on, (times - 1) as nat)
    }
}

/// The switch of the conditional display.
#[derive(Clone, Copy, Debug, PartialEq, Eq, Structural)]
pub struct Toggle {
    on: bool,
}

impl View for Toggle {
    type V = bool;

    closed spec fn view(&self) -> bool {
        self.on
    }
}

impl Toggle {
    /// A toggle that is off.
    pub fn new() -> (toggle: Toggle)
        ensures
            !toggle@,
    {
        Toggle { on: false }
    }

    /// Turns the toggle on if it is off, and off if it is on.
    pub fn toggle(&mut self)
        ensures
            final(self)@ == !old(self)@,
    {
        self.on = !self.on;
    }

    /// Whether the toggle is on.
    pub fn is_on(&self) -> (on: bool)
        ensures
            on == self@,
    {
        self.on
    }

    /// The message to show: the text while the toggle is on, none while it is off.
    pub fn message(&self) -> (message: Option<&'static str>)
        ensures
            match message {
                Some(text) => self@ && text@ == CONDITIONAL_MESSAGE@,
                None => !self@,
            },
    {
        if self.on {
            Some(CONDITIONAL_MESSAGE)
        } else {
            None
        }
    }
}

/// Typing alone never changes what the page shows, and after a submission the
/// page shows the text that was in the field when the form was submitted: the
/// last one typed.
pub proof fn submission_shows_the_latest_text(before: FormTexts, texts: Seq<Seq<char>>)
    ensures
        before.typed_all(texts).shown == before.shown,
        texts.len() > 0 ==> before.typed_all(texts).submitted().shown == texts.last(),
        texts.len() == 0 ==> before.typed_all(texts).submitted().shown == before.field,
    decreases texts.len(),
{
    if texts.len() > 0 {
        submission_shows_the_latest_text(before, texts.drop_last());
    }
}

/// Toggling alternates: each toggle changes whether the message shows, two
/// in a row change nothing, and a toggle that starts off shows the message
/// after an odd number of toggles and hides it after an even number.
pub proof fn toggling_alternates(on: bool, times: nat)
    ensures
        after_toggles(on, times + 1) == !after_toggles(on, times),
        after_toggles(on, times + 2) == after_toggles(on, times),
        after_toggles(false, times) == (times % 2 == 1),
    decreases times,
{
    reveal_with_fuel(after_toggles, 3);
    if times > 0 {
        toggling_alternates(on, (times - 1) as nat);
    }
}

} // verus!
