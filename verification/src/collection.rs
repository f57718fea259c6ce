//! The categories of mail object, and the backend index each one lives in.

use vstd::prelude::*;

verus! {

/// A category of mail object. Each category has a backend index of its own.
#[derive(Clone, Copy, Debug, PartialEq, Eq, Structural)]
pub enum Collection {
    Mail,
    Contact,
    Event,
}

impl Collection {
    /// Name of the backend index that holds the documents of the category.
    pub open spec fn index(self) -> Seq<char> {
        match self {
            Collection::Mail => "mail"@,
            Collection::Contact => "contact"@,
            Collection::Event => "event"@,
        }
    }

    /// The small integer that stands for the category outside this crate.
    pub open spec fn code(self) -> u8 {
        match self {
            Collection::Mail => 0,
            Collection::Contact => 1,
            Collection::Event => 2,
        }
    }

    /// The category that a small integer stands for, if there is one.
    pub open spec fn of_code(code: u8) -> Option<Collection> {
        if code == 0 {
            Some(Collection::Mail)
        } else if code == 1 {
            Some(Collection::Contact)
        } else if code == 2 {
            Some(Collection::Event)
        } else {
            None
        }
    }

    /// Every category, in the order of their codes.
    pub open spec fn all() -> Seq<Collection> {
        seq![Collection::Mail, Collection::Contact, Collection::Event]
    }

    /// Names of the indices of every category, in the order of their codes.
    pub open spec fn all_indices() -> Seq<Seq<char>> {
        Collection::all().map_values(|collection: Collection| collection.index())
    }

    /// Name of the backend index that holds the documents of the category.
    pub fn index_name(self) -> (name: &'static str)
        ensures
            name@ == self.index(),
    {
        match self {
            Collection::Mail => "mail",
            Collection::Contact => "contact",
            Collection::Event => "event",
        }
    }

    /// The small integer that stands for the category outside this crate.
    pub fn as_u8(self) -> (code: u8)
        ensures
            code == self.code(),
    {
        match self {
            Collection::Mail => 0,
            Collection::Contact => 1,
            Collection::Event => 2,
        }
    }

    /// The category that a small integer stands for. An integer that
    /// stands for none is turned down.
    pub fn from_u8(code: u8) -> (found: Option<Collection>)
        ensures
            found == Collection::of_code(code),
    {
        if code == 0 {
            Some(Collection::Mail)
        } else if code == 1 {
            Some(Collection::Contact)
        } else if code == 2 {
            Some(Collection::Event)
        } else {
            None
        }
    }

    /// Names of the indices of every category, in the order of their codes.
    pub fn index_names() -> (names: Vec<&'static str>)
        ensures
            index_name_views(names@) == Collection::all_indices(),
    {
        let mut names: Vec<&'static str> = Vec::new();
        names.push(Collection::Mail.index_name());
        names.push(Collection::Contact.index_name());
        names.push(Collection::Event.index_name());
        names
    }
}

/// The values of a sequence of index names, in the same order.
pub open spec fn index_name_views(names: Seq<&'static str>) -> Seq<Seq<char>> {
    names.map_values(|name: &'static str| name@)
}

/// Every category is one of [`Collection::all`], and its index is one of
/// [`Collection::all_indices`].
pub proof fn lemma_all_is_complete(collection: Collection)
    ensures
        Collection::all().contains(collection),
        Collection::all_indices().contains(collection.index()),
{
    let at = collection.code() as int;
    assert(Collection::all_indices()[at] == collection.index());
}

/// A code stands for a category exactly when it is that category's code.
pub proof fn lemma_codes_round_trip(collection: Collection, code: u8)
    ensures
        Collection::of_code(code) == Some(collection) <==> collection.code() == code,
{
}

/// Two categories never share a code or an index.
pub proof fn lemma_collections_differ(one: Collection, other: Collection)
    requires
        one != other,
    ensures
        one.code() != other.code(),
        one.index() != other.index(),
{
    reveal_strlit("mail");
    reveal_strlit("contact");
    reveal_strlit("event");
    assert("mail"@.len() == 4 && "contact"@.len() == 7 && "event"@.len() == 5);
}

} // verus!
