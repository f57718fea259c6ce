//! Classified pieces of text, as a message parser hands them over.

use vstd::prelude::*;

verus! {

/// The role a piece of extracted text plays in its mail object.
#[derive(Debug, Clone, PartialEq, Eq)]
pub enum Field {
    /// A header value; the name is kept exactly as the producer wrote it.
    Header(String),
    /// Text of the message body.
    Body,
    /// Text extracted from an attachment.
    Attachment,
    /// A keyword attached to the message.
    Keyword,
}

/// Mathematical value of a [`Field`].
pub enum FieldView {
    Header(Seq<char>),
    Body,
    Attachment,
    Keyword,
}

impl View for Field {
    type V = FieldView;

    open spec fn view(&self) -> FieldView {
        match self {
            Field::Header(name) => FieldView::Header(name@),
            Field::Body => FieldView::Body,
            Field::Attachment => FieldView::Attachment,
            Field::Keyword => FieldView::Keyword,
        }
    }
}

/// One piece of extracted text together with its classification.
#[derive(Debug, Clone, PartialEq, Eq)]
pub struct TextFragment {
    pub field: Field,
    pub text: String,
}

/// Mathematical value of a [`TextFragment`].
pub struct FragmentView {
    pub field: FieldView,
    pub text: Seq<char>,
}

impl View for TextFragment {
    type V = FragmentView;

    open spec fn view(&self) -> FragmentView {
        FragmentView { field: self.field@, text: self.text@ }
    }
}

/// The values of a sequence of fragments, in the same order.
pub open spec fn fragment_views(fragments: Seq<TextFragment>) -> Seq<FragmentView> {
    fragments.map_values(|fragment: TextFragment| fragment@)
}

} // verus!
