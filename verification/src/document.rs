//! The record that the backend indexes, and the projection that builds it.

use vstd::prelude::*;
use serde_json::Value;
use crate::fragment::{Field, FieldView, FragmentView, TextFragment, fragment_views};
use crate::json::{
    Json, JsonObject, json_list, json_number, json_text, json_texts, json_tree, json_trees,
};

verus! {

/// One header of a mail object: its name and one of its values.
#[derive(Debug, Clone, PartialEq, Eq)]
pub struct Header {
    pub name: String,
    pub value: String,
}

/// Mathematical value of a [`Header`].
pub struct HeaderView {
    pub name: Seq<char>,
    pub value: Seq<char>,
}

impl View for Header {
    type V = HeaderView;

    open spec fn view(&self) -> HeaderView {
        HeaderView { name: self.name@, value: self.value@ }
    }
}

/// The backend-facing record of one mail object.
///
/// Both identifiers are always present; each of the four text sequences may
/// be empty, and a header name may occur more than once.
#[derive(Debug, Clone, PartialEq, Eq)]
pub struct IndexableDocument {
    pub document_id: u32,
    pub account_id: u32,
    pub body: Vec<String>,
    pub attachments: Vec<String>,
    pub keywords: Vec<String>,
    pub header: Vec<Header>,
}

/// Mathematical value of an [`IndexableDocument`].
#[verifier::ext_equal]
pub struct DocumentView {
    pub document_id: u32,
    pub account_id: u32,
    pub body: Seq<Seq<char>>,
    pub attachments: Seq<Seq<char>>,
    pub keywords: Seq<Seq<char>>,
    pub header: Seq<HeaderView>,
}

/// The values of a sequence of strings, in the same order.
pub open spec fn text_views(texts: Seq<String>) -> Seq<Seq<char>> {
    texts.map_values(|text: String| text@)
}

/// The values of a sequence of headers, in the same order.
pub open spec fn header_views(headers: Seq<Header>) -> Seq<HeaderView> {
    headers.map_values(|header: Header| header@)
}

impl View for IndexableDocument {
    type V = DocumentView;

    open spec fn view(&self) -> DocumentView {
        DocumentView {
            document_id: self.document_id,
            account_id: self.account_id,
            body: text_views(self.body@),
            attachments: text_views(self.attachments@),
            keywords: text_views(self.keywords@),
            header: header_views(self.header@),
        }
    }
}

impl DocumentView {
    /// The record of the given identifiers that holds no text at all.
    pub open spec fn empty(account_id: u32, document_id: u32) -> DocumentView {
        DocumentView {
            document_id,
            account_id,
            body: Seq::empty(),
            attachments: Seq::empty(),
            keywords: Seq::empty(),
            header: Seq::empty(),
        }
    }

    /// This record after one more fragment has been routed into it: the
    /// fragment's text is appended to the one sequence its classification
    /// names, and nothing else changes.
    pub open spec fn with_fragment(self, fragment: FragmentView) -> DocumentView {
        match fragment.field {
            FieldView::Header(name) => DocumentView {
                header: self.header.push(HeaderView { name, value: fragment.text }),
                ..self
            },
            FieldView::Body => DocumentView { body: self.body.push(fragment.text), ..self },
            FieldView::Attachment => DocumentView {
                attachments: self.attachments.push(fragment.text),
                ..self
            },
            FieldView::Keyword => DocumentView {
                keywords: self.keywords.push(fragment.text),
                ..self
            },
        }
    }

    /// Number of text values the record holds, over all four sequences.
    pub open spec fn text_count(self) -> nat {
        self.header.len() + self.body.len() + self.attachments.len() + self.keywords.len()
    }
}

impl FragmentView {
    /// The fragment's text, if it belongs to the body.
    pub open spec fn as_body(self) -> Option<Seq<char>> {
        if self.field is Body {
            Some(self.text)
        } else {
            None
        }
    }

    /// The fragment's text, if it comes from an attachment.
    pub open spec fn as_attachment(self) -> Option<Seq<char>> {
        if self.field is Attachment {
            Some(self.text)
        } else {
            None
        }
    }

    /// The fragment's text, if it is a keyword.
    pub open spec fn as_keyword(self) -> Option<Seq<char>> {
        if self.field is Keyword {
            Some(self.text)
        } else {
            None
        }
    }

    /// The fragment's header name and text, if it is a header. The name is
    /// taken as it stands.
    pub open spec fn as_header(self) -> Option<HeaderView> {
        match self.field {
            FieldView::Header(name) => Some(HeaderView { name, value: self.text }),
            _ => None,
        }
    }
}

/// The record that a sequence of fragments projects to: each of its four
/// sequences holds the fragments of one classification, in input order.
pub open spec fn projection(
    account_id: u32,
    document_id: u32,
    fragments: Seq<FragmentView>,
) -> DocumentView {
    DocumentView {
        document_id,
        account_id,
        body: fragments.filter_map(|fragment: FragmentView| fragment.as_body()),
        attachments: fragments.filter_map(|fragment: FragmentView| fragment.as_attachment()),
        keywords: fragments.filter_map(|fragment: FragmentView| fragment.as_keyword()),
        header: fragments.filter_map(|fragment: FragmentView| fragment.as_header()),
    }
}

/// Projecting no fragment gives the empty record.
pub proof fn lemma_projection_of_nothing(account_id: u32, document_id: u32)
    ensures
        projection(account_id, document_id, Seq::empty()) == DocumentView::empty(
            account_id,
            document_id,
        ),
{
}

/// Projecting one more fragment routes that fragment into the record of the
/// fragments before it.
pub proof fn lemma_projection_step(
    account_id: u32,
    document_id: u32,
    fragments: Seq<FragmentView>,
    fragment: FragmentView,
)
    ensures
        projection(account_id, document_id, fragments.push(fragment)) == projection(
            account_id,
            document_id,
            fragments,
        ).with_fragment(fragment),
{
    let longer = fragments.push(fragment);
    assert(longer.drop_last() =~= fragments);
    assert(projection(account_id, document_id, longer) =~= projection(
        account_id,
        document_id,
        fragments,
    ).with_fragment(fragment));
}

/// A projection holds as many texts as there were fragments: each fragment
/// lands in one of the four sequences and in no other.
pub proof fn lemma_projection_counts(
    account_id: u32,
    document_id: u32,
    fragments: Seq<FragmentView>,
)
    ensures
        projection(account_id, document_id, fragments).text_count() == fragments.len(),
    decreases fragments.len(),
{
    if fragments.len() == 0 {
        lemma_projection_of_nothing(account_id, document_id);
    } else {
        lemma_projection_counts(account_id, document_id, fragments.drop_last());
        lemma_projection_step(account_id, document_id, fragments.drop_last(), fragments.last());
    }
}

/// What a selection keeps of an item is found in what it keeps of the
/// sequence.
proof fn lemma_filter_map_keeps<A, B>(items: Seq<A>, select: spec_fn(A) -> Option<B>, i: int)
    requires
        0 <= i < items.len(),
        select(items[i]) is Some,
    ensures
        items.filter_map(select).contains(select(items[i])->Some_0),
    decreases items.len(),
{
    let kept = items.filter_map(select);
    if i < items.len() - 1 {
        lemma_filter_map_keeps(items.drop_last(), select, i);
        let earlier = items.drop_last().filter_map(select);
        let at = choose|at: int| 0 <= at < earlier.len() && earlier[at] == select(items[i])->Some_0;
        assert(kept[at] == earlier[at]);
    } else {
        assert(kept.last() == select(items[i])->Some_0);
    }
}

/// Every fragment is found in the sequence that its classification names,
/// with its text unchanged; a header is found under its name, character for
/// character.
pub proof fn lemma_projection_holds_each(
    account_id: u32,
    document_id: u32,
    fragments: Seq<FragmentView>,
    i: int,
)
    requires
        0 <= i < fragments.len(),
    ensures
        ({
            let document = projection(account_id, document_id, fragments);
            match fragments[i].field {
                FieldView::Header(name) => document.header.contains(
                    HeaderView { name, value: fragments[i].text },
                ),
                FieldView::Body => document.body.contains(fragments[i].text),
                FieldView::Attachment => document.attachments.contains(fragments[i].text),
                FieldView::Keyword => document.keywords.contains(fragments[i].text),
            }
        }),
{
    match fragments[i].field {
        FieldView::Header(_) => lemma_filter_map_keeps(
            fragments,
            |fragment: FragmentView| fragment.as_header(),
            i,
        ),
        FieldView::Body => lemma_filter_map_keeps(
            fragments,
            |fragment: FragmentView| fragment.as_body(),
            i,
        ),
        FieldView::Attachment => lemma_filter_map_keeps(
            fragments,
            |fragment: FragmentView| fragment.as_attachment(),
            i,
        ),
        FieldView::Keyword => lemma_filter_map_keeps(
            fragments,
            |fragment: FragmentView| fragment.as_keyword(),
            i,
        ),
    }
}

impl IndexableDocument {
    /// A record with the given identifiers and no text.
    pub fn new(account_id: u32, document_id: u32) -> (document: IndexableDocument)
        ensures
            document@ == DocumentView::empty(account_id, document_id),
    {
        let document = IndexableDocument {
            document_id,
            account_id,
            body: Vec::new(),
            attachments: Vec::new(),
            keywords: Vec::new(),
            header: Vec::new(),
        };
        assert(document@ =~= DocumentView::empty(account_id, document_id));
        document
    }

    /// Routes one fragment into the sequence its classification names.
    pub fn push(&mut self, fragment: TextFragment)
        ensures
            final(self)@ == old(self)@.with_fragment(fragment@),
    {
        match fragment.field {
            Field::Header(name) => self.header.push(Header { name, value: fragment.text }),
            Field::Body => self.body.push(fragment.text),
            Field::Attachment => self.attachments.push(fragment.text),
            Field::Keyword => self.keywords.push(fragment.text),
        }
        assert(self@ =~= old(self)@.with_fragment(fragment@));
    }
}

/// Builds the record of one mail object from its classified fragments.
///
/// The record carries the two identifiers as given. Each fragment's text is
/// appended to the sequence its classification names, in input order; no
/// text is merged, reordered, dropped or repeated. With no fragment the
/// record is empty.
pub fn project(account_id: u32, document_id: u32, fragments: Vec<TextFragment>) -> (document:
    IndexableDocument)
    ensures
        document@ == projection(account_id, document_id, fragment_views(fragments@)),
        document.account_id == account_id,
        document.document_id == document_id,
        document@.text_count() == fragments@.len(),
        fragments@.len() == 0 ==> document@ == DocumentView::empty(account_id, document_id),
{
    let ghost all = fragment_views(fragments@);
    let mut document = IndexableDocument::new(account_id, document_id);
    proof {
        lemma_projection_of_nothing(account_id, document_id);
    }
    for fragment in iter: fragments
        invariant
            iter.seq() == fragments@,
            all == fragment_views(fragments@),
            document@ == projection(account_id, document_id, all.take(iter.index() as int)),
    {
        proof {
            let done = iter.index() as int;
            lemma_projection_step(account_id, document_id, all.take(done), fragment@);
            assert(all.take(done + 1) =~= all.take(done).push(fragment@));
        }
        document.push(fragment);
    }
    proof {
        assert(all.take(fragments@.len() as int) =~= all);
        lemma_projection_counts(account_id, document_id, all);
    }
    document
}

impl HeaderView {
    /// The header as the backend receives it: `{"name": .., "value": ..}`.
    pub open spec fn json(self) -> Json {
        Json::Object(
            Map::empty().insert("name"@, Json::Text(self.name)).insert(
                "value"@,
                Json::Text(self.value),
            ),
        )
    }
}

impl DocumentView {
    /// The record as the backend receives it: an object with the members
    /// `document_id`, `account_id`, `body`, `attachments`, `keywords` and
    /// `header`, the last one an array of [`HeaderView::json`] objects.
    pub open spec fn json(self) -> Json {
        Json::Object(
            Map::empty().insert("document_id"@, Json::Number(self.document_id as nat)).insert(
                "account_id"@,
                Json::Number(self.account_id as nat),
            ).insert("body"@, Json::texts(self.body)).insert(
                "attachments"@,
                Json::texts(self.attachments),
            ).insert("keywords"@, Json::texts(self.keywords)).insert(
                "header"@,
                Json::List(self.header.map_values(|header: HeaderView| header.json())),
            ),
        )
    }
}

impl Header {
    /// The header as the backend receives it.
    pub fn to_json(&self) -> (value: Value)
        ensures
            json_tree(value) == self@.json(),
    {
        proof {
            reveal_strlit("name");
            reveal_strlit("value");
            assert("name"@.len() == 4 && "value"@.len() == 5);
        }
        let object = JsonObject::new();
        let object = object.with("name", json_text(self.name.as_str()));
        let object = object.with("value", json_text(self.value.as_str()));
        object.finish()
    }
}

impl IndexableDocument {
    /// The record as the backend receives it.
    pub fn to_json(&self) -> (value: Value)
        ensures
            json_tree(value) == self@.json(),
    {
        let mut headers: Vec<Value> = Vec::new();
        let mut at: usize = 0;
        while at < self.header.len()
            invariant
                at <= self.header@.len(),
                json_trees(headers@) == self@.header.take(at as int).map_values(
                    |header: HeaderView| header.json(),
                ),
            decreases self.header@.len() - at,
        {
            let ghost before = headers@;
            let item = self.header[at].to_json();
            headers.push(item);
            at += 1;
            assert(json_trees(headers@) =~= json_trees(before).push(json_tree(item)));
        }
        assert(self@.header.take(at as int) =~= self@.header);
        proof {
            // The six keys differ from one another.
            reveal_strlit("document_id");
            reveal_strlit("account_id");
            reveal_strlit("body");
            reveal_strlit("attachments");
            reveal_strlit("keywords");
            reveal_strlit("header");
            assert("document_id"@.len() == 11 && "account_id"@.len() == 10);
            assert("body"@.len() == 4 && "attachments"@.len() == 11);
            assert("keywords"@.len() == 8 && "header"@.len() == 6);
            assert("document_id"@[0] == 'd' && "attachments"@[0] == 'a');
        }
        let object = JsonObject::new();
        let object = object.with("document_id", json_number(self.document_id));
        let object = object.with("account_id", json_number(self.account_id));
        let object = object.with("body", json_texts(&self.body));
        let object = object.with("attachments", json_texts(&self.attachments));
        let object = object.with("keywords", json_texts(&self.keywords));
        let object = object.with("header", json_list(headers));
        object.finish()
    }
}

} // verus!
