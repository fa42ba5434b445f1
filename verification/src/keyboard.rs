//! Inline keyboards: rows of buttons, each with a visible label and an
//! opaque callback payload. The wire encoding of a keyboard belongs to
//! the transport collaborator; the core only builds and inspects the
//! structure.

use vstd::prelude::*;

verus! {

/// The abstract value of a button: its label and callback payload.
pub ghost struct ButtonView {
    pub text: Seq<char>,
    pub callback_data: Seq<char>,
}

#[derive(Debug, Clone, PartialEq, Eq)]
pub struct InlineKeyboardButton {
    pub text: String,
    pub callback_data: String,
}

impl View for InlineKeyboardButton {
    type V = ButtonView;

    open spec fn view(&self) -> ButtonView {
        ButtonView { text: self.text@, callback_data: self.callback_data@ }
    }
}

impl DeepView for InlineKeyboardButton {
    type V = ButtonView;

    open spec fn deep_view(&self) -> ButtonView {
        self.view()
    }
}

impl InlineKeyboardButton {
    pub fn new(text: String, callback_data: String) -> (r: Self)
        ensures
            r@ == (ButtonView { text: text@, callback_data: callback_data@ }),
    {
        InlineKeyboardButton { text, callback_data }
    }
}

#[derive(Debug, Clone, PartialEq, Eq)]
pub struct InlineKeyboardMarkup {
    pub rows: Vec<Vec<InlineKeyboardButton>>,
}

impl View for InlineKeyboardMarkup {
    type V = Seq<Seq<ButtonView>>;

    open spec fn view(&self) -> Seq<Seq<ButtonView>> {
        self.rows.deep_view()
    }
}

impl DeepView for InlineKeyboardMarkup {
    type V = Seq<Seq<ButtonView>>;

    open spec fn deep_view(&self) -> Seq<Seq<ButtonView>> {
        self.view()
    }
}

impl InlineKeyboardMarkup {
    pub fn new() -> (r: Self)
        ensures
            r@ == Seq::<Seq<ButtonView>>::empty(),
    {
        let r = InlineKeyboardMarkup { rows: Vec::new() };
        proof {
            assert(r@ =~= Seq::<Seq<ButtonView>>::empty());
        }
        r
    }

    pub fn add(&mut self, row: Vec<InlineKeyboardButton>)
        ensures
            final(self)@ == old(self)@.push(row.deep_view()),
    {
        self.rows.push(row);
        proof {
            assert(self@ =~= old(self)@.push(row.deep_view()));
        }
    }
}

} // verus!
