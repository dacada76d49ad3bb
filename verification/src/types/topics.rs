//! Gossip topics.
//!
//! A topic is described by its kind; its string form is what the gossip engine
//! is handed, and what tells two topics apart.

use vstd::prelude::*;

verus! {

/// The kind of a gossip topic: its name.
#[derive(Debug, Clone, PartialEq, Eq, Hash)]
pub struct GossipKind {
    pub name: String,
}

/// A gossip topic.
#[derive(Debug, Clone, PartialEq, Eq, Hash)]
pub struct GossipTopic {
    kind: GossipKind,
}

impl View for GossipKind {
    type V = Seq<char>;

    open spec fn view(&self) -> Seq<char> {
        self.name@
    }
}

impl View for GossipTopic {
    type V = Seq<char>;

    /// The string form of the topic.
    closed spec fn view(&self) -> Seq<char> {
        self.kind@
    }
}

impl GossipKind {
    /// The kind with the given name.
    pub fn new(name: String) -> (kind: Self)
        ensures
            kind@ == name@,
    {
        GossipKind { name }
    }
}

impl GossipTopic {
    /// The topic of a kind.
    pub fn new(kind: GossipKind) -> (topic: Self)
        ensures
            topic@ == kind@,
    {
        GossipTopic { kind }
    }

    /// The kind of the topic.
    pub fn kind(&self) -> (kind: &GossipKind)
        ensures
            kind@ == self@,
    {
        &self.kind
    }

    /// The string form of the topic.
    pub fn into_string(self) -> (text: String)
        ensures
            text@ == self@,
    {
        self.kind.name
    }

    /// A copy of the topic.
    pub fn duplicate(&self) -> (copy: Self)
        ensures
            copy@ == self@,
    {
        GossipTopic { kind: GossipKind { name: self.kind.name.clone() } }
    }

    /// Whether two topics have the same string form.
    pub fn same_as(&self, other: &GossipTopic) -> (same: bool)
        ensures
            same == (self@ == other@),
    {
        self.kind.name == other.kind.name
    }
}

} // verus!
