//! A text field that is edited in place and submitted as a whole.
//!
//! The field shows a value that comes from outside. Typing changes the text in the
//! field only; submitting hands the text out and puts the outside value back into the
//! field, until a new value arrives.

use vstd::prelude::*;

verus! {

/// What a text field is drawn from.
#[derive(Debug)]
pub struct TextEditProperties {
    /// The id of the field in the page.
    pub id: String,
    /// The value that the field shows when nothing has been typed.
    pub value: String,
}

/// What a `TextEditProperties` is, mathematically.
pub struct TextEditPropertiesView {
    pub id: Seq<char>,
    pub value: Seq<char>,
}

impl View for TextEditProperties {
    type V = TextEditPropertiesView;

    open spec fn view(&self) -> TextEditPropertiesView {
        TextEditPropertiesView { id: self.id@, value: self.value@ }
    }
}

/// What can happen to a text field.
#[derive(Debug)]
pub enum TextEditMsg {
    /// The user typed; this is the whole text now.
    SetText(String),
    /// The user pressed Enter.
    Submit,
    /// The user pressed another key.
    Noop,
}

/// What a `TextEdit` is, mathematically.
pub struct TextEditView {
    /// The text in the field.
    pub text: Seq<char>,
    pub props: TextEditPropertiesView,
}

impl TextEditView {
    /// The field after `msg`.
    pub open spec fn update(self, msg: TextEditMsg) -> TextEditView {
        match msg {
            TextEditMsg::SetText(text) => TextEditView { text: text@, ..self },
            TextEditMsg::Submit => TextEditView { text: self.props.value, ..self },
            TextEditMsg::Noop => self,
        }
    }

    /// The text that `msg` submits, if it submits.
    pub open spec fn submits(self, msg: TextEditMsg) -> Option<Seq<char>> {
        match msg {
            TextEditMsg::Submit => Some(self.text),
            _ => None,
        }
    }

    /// The field after new properties have arrived: properties that differ from the old
    /// ones replace them and reset the text.
    pub open spec fn change(self, props: TextEditPropertiesView) -> TextEditView {
        if self.props != props {
            TextEditView { text: props.value, props }
        } else {
            self
        }
    }
}

/// What the field has to do after an update.
#[derive(Debug)]
pub struct Submission {
    /// Whether to draw the field again.
    pub should_render: bool,
    /// The text to hand out, if the user submitted.
    pub submitted: Option<String>,
}

/// A text field.
#[derive(Debug)]
pub struct TextEdit {
    text: String,
    props: TextEditProperties,
}

impl View for TextEdit {
    type V = TextEditView;

    closed spec fn view(&self) -> TextEditView {
        TextEditView { text: self.text@, props: self.props@ }
    }
}

impl TextEdit {
    /// A field that shows the value of `props`.
    pub fn create(props: TextEditProperties) -> (field: TextEdit)
        ensures
            field@ == (TextEditView { text: props.value@, props: props@ }),
    {
        TextEdit { text: props.value.clone(), props }
    }

    /// Takes in `msg`. Typing replaces the text. Submitting hands the text out and puts
    /// the outside value back. The field is drawn again after either, and not after any
    /// other key.
    pub fn update(&mut self, msg: TextEditMsg) -> (done: Submission)
        ensures
            final(self)@ == old(self)@.update(msg),
            done.should_render == !(msg is Noop),
            match done.submitted {
                Some(text) => old(self)@.submits(msg) == Some(text@),
                None => old(self)@.submits(msg) is None,
            },
    {
        match msg {
            TextEditMsg::SetText(text) => {
                self.text = text;
                Submission { should_render: true, submitted: None }
            },
            TextEditMsg::Submit => {
                let mut text = self.props.value.clone();
                std::mem::swap(&mut self.text, &mut text);
                Submission { should_render: true, submitted: Some(text) }
            },
            TextEditMsg::Noop => Submission { should_render: false, submitted: None },
        }
    }

    /// Takes new properties. Properties that differ from the old ones replace them and
    /// reset the text. Returns whether to draw again: whether they differed.
    pub fn change(&mut self, props: TextEditProperties) -> (should_render: bool)
        ensures
            final(self)@ == old(self)@.change(props@),
            should_render == (props@ != old(self)@.props),
    {
        if self.props.id == props.id && self.props.value == props.value {
            false
        } else {
            self.text = props.value.clone();
            self.props = props;
            true
        }
    }

    /// The text in the field.
    pub fn text(&self) -> (text: &str)
        ensures
            text@ == self@.text,
    {
        self.text.as_str()
    }

    /// The id of the field in the page.
    pub fn id(&self) -> (id: &str)
        ensures
            id@ == self@.props.id,
    {
        self.props.id.as_str()
    }
}

} // verus!
