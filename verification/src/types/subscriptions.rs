//! The set of topics the local node is subscribed to.

use crate::types::topics::GossipTopic;
use vstd::prelude::*;

verus! {

/// Whether one of `topics` has the string form `text`.
pub open spec fn lists(topics: Seq<GossipTopic>, text: Seq<char>) -> bool {
    exists|i: int| 0 <= i < topics.len() && (#[trigger] topics[i])@ == text
}

/// Whether no two of `topics` have the same string form.
pub open spec fn distinct(topics: Seq<GossipTopic>) -> bool {
    forall|i: int, j: int|
        0 <= i < j < topics.len() ==> (#[trigger] topics[i])@ != (#[trigger] topics[j])@
}

/// A call to make about a topic: to subscribe to it, or to unsubscribe from
/// it.
#[derive(Debug, PartialEq)]
pub enum SubscriptionCall {
    Subscribe(GossipTopic),
    Unsubscribe(GossipTopic),
}

/// What a [`SubscriptionCall`] is.
pub enum SubscriptionCallView {
    Subscribe(Seq<char>),
    Unsubscribe(Seq<char>),
}

impl View for SubscriptionCall {
    type V = SubscriptionCallView;

    open spec fn view(&self) -> SubscriptionCallView {
        match self {
            SubscriptionCall::Subscribe(topic) => SubscriptionCallView::Subscribe(topic@),
            SubscriptionCall::Unsubscribe(topic) => SubscriptionCallView::Unsubscribe(topic@),
        }
    }
}

/// What a list of calls is.
pub open spec fn calls_view(calls: Seq<SubscriptionCall>) -> Seq<SubscriptionCallView> {
    calls.map_values(|call: SubscriptionCall| call@)
}

/// The string forms of topics.
pub open spec fn names_of(topics: Seq<GossipTopic>) -> Seq<Seq<char>> {
    topics.map_values(|topic: GossipTopic| topic@)
}

/// Whether `names` lists the members of `set`, each once.
pub open spec fn enumerates(names: Seq<Seq<char>>, set: Set<Seq<char>>) -> bool {
    &&& names.no_duplicates()
    &&& forall|name: Seq<char>| names.contains(name) <==> set.contains(name)
}

/// The calls that leave each of the topics and then join each of them
/// again, in the order of the topics.
pub open spec fn leave_and_rejoin(names: Seq<Seq<char>>) -> Seq<SubscriptionCallView> {
    names.map_values(|name: Seq<char>| SubscriptionCallView::Unsubscribe(name))
        + names.map_values(|name: Seq<char>| SubscriptionCallView::Subscribe(name))
}

/// The first `k + 1` of a list hold what the first `k` hold, and the one at
/// `k`.
pub proof fn lemma_take_one_more<T>(items: Seq<T>, k: int, item: T)
    requires
        0 <= k < items.len(),
    ensures
        items.take(k + 1).contains(item) <==> (items.take(k).contains(item) || items[k] == item),
{
    let more = items.take(k + 1);
    let fewer = items.take(k);
    if fewer.contains(item) {
        let i = choose|i: int| 0 <= i < fewer.len() && fewer[i] == item;
        assert(more[i] == item);
    }
    if items[k] == item {
        assert(more[k] == item);
    }
    if more.contains(item) {
        let i = choose|i: int| 0 <= i < more.len() && more[i] == item;
        if i < k {
            assert(fewer[i] == item);
        }
    }
}

/// A set of topics, told apart by their string forms.
#[derive(Debug)]
pub struct TopicSet {
    topics: Vec<GossipTopic>,
}

impl View for TopicSet {
    type V = Set<Seq<char>>;

    /// The string forms of the topics in the set.
    closed spec fn view(&self) -> Set<Seq<char>> {
        Set::new(|text: Seq<char>| lists(self.topics@, text))
    }
}

impl TopicSet {
    #[verifier::type_invariant]
    spec fn well_formed(self) -> bool {
        distinct(self.topics@)
    }

    /// The empty set.
    pub fn new() -> (set: Self)
        ensures
            set@ == Set::<Seq<char>>::empty(),
    {
        let set = TopicSet { topics: Vec::new() };
        assert(set@ =~= Set::<Seq<char>>::empty());
        set
    }

    fn position(&self, topic: &GossipTopic) -> (found: Option<usize>)
        ensures
            match found {
                Some(i) => i < self.topics.len() && self.topics[i as int]@ == topic@,
                None => !lists(self.topics@, topic@),
            },
    {
        let mut i: usize = 0;
        while i < self.topics.len()
            invariant
                i <= self.topics.len(),
                forall|k: int| 0 <= k < i ==> (#[trigger] self.topics[k])@ != topic@,
            decreases self.topics.len() - i,
        {
            if self.topics[i].same_as(topic) {
                return Some(i);
            }
            i += 1;
        }
        None
    }

    /// Whether the topic is in the set.
    pub fn contains(&self, topic: &GossipTopic) -> (held: bool)
        ensures
            held == self@.contains(topic@),
    {
        self.position(topic).is_some()
    }

    /// Adds a topic. Tells whether it was new.
    pub fn insert(&mut self, topic: GossipTopic) -> (added: bool)
        ensures
            final(self)@ == old(self)@.insert(topic@),
            added == !old(self)@.contains(topic@),
    {
        proof {
            use_type_invariant(&*self);
        }
        match self.position(&topic) {
            Some(_) => {
                assert(self@ =~= old(self)@.insert(topic@));
                false
            },
            None => {
                let ghost before = self.topics@;
                let mut topics: Vec<GossipTopic> = Vec::new();
                std::mem::swap(&mut self.topics, &mut topics);
                topics.push(topic);
                std::mem::swap(&mut self.topics, &mut topics);
                assert forall|text: Seq<char>| lists(self.topics@, text) == (text == topic@
                    || lists(before, text)) by {
                    if lists(before, text) {
                        let i = choose|i: int| 0 <= i < before.len() && (#[trigger] before[i])@
                            == text;
                        assert(self.topics@[i]@ == text);
                    }
                    if text == topic@ {
                        assert(self.topics@[before.len() as int]@ == text);
                    }
                }
                assert(self@ =~= old(self)@.insert(topic@));
                true
            },
        }
    }

    /// Takes a topic out. Tells whether it was in the set.
    pub fn remove(&mut self, topic: &GossipTopic) -> (removed: bool)
        ensures
            final(self)@ == old(self)@.remove(topic@),
            removed == old(self)@.contains(topic@),
    {
        proof {
            use_type_invariant(&*self);
        }
        match self.position(topic) {
            Some(i) => {
                let ghost before = self.topics@;
                let mut topics: Vec<GossipTopic> = Vec::new();
                std::mem::swap(&mut self.topics, &mut topics);
                topics.remove(i);
                std::mem::swap(&mut self.topics, &mut topics);
                assert forall|text: Seq<char>| lists(self.topics@, text) == (text != topic@
                    && lists(before, text)) by {
                    if lists(self.topics@, text) {
                        let k = choose|k: int|
                            0 <= k < self.topics@.len() && (#[trigger] self.topics@[k])@ == text;
                        if k < i {
                            assert(before[k]@ == text);
                        } else {
                            assert(before[k + 1]@ == text);
                        }
                    }
                    if text != topic@ && lists(before, text) {
                        let k = choose|k: int| 0 <= k < before.len() && (#[trigger] before[k])@
                            == text;
                        if k < i {
                            assert(self.topics@[k]@ == text);
                        } else {
                            assert(self.topics@[k - 1]@ == text);
                        }
                    }
                }
                assert(self@ =~= old(self)@.remove(topic@));
                true
            },
            None => {
                assert(self@ =~= old(self)@.remove(topic@));
                false
            },
        }
    }

    /// The topics of the set, each once.
    pub fn to_vec(&self) -> (topics: Vec<GossipTopic>)
        ensures
            distinct(topics@),
            forall|text: Seq<char>| self@.contains(text) == lists(topics@, text),
            enumerates(names_of(topics@), self@),
    {
        proof {
            use_type_invariant(self);
        }
        let mut topics: Vec<GossipTopic> = Vec::new();
        let mut i: usize = 0;
        while i < self.topics.len()
            invariant
                i <= self.topics.len(),
                topics.len() == i,
                forall|k: int| 0 <= k < i ==> (#[trigger] topics[k])@ == self.topics[k]@,
            decreases self.topics.len() - i,
        {
            topics.push(self.topics[i].duplicate());
            i += 1;
        }
        assert forall|text: Seq<char>| self@.contains(text) == lists(topics@, text) by {
            if lists(self.topics@, text) {
                let k = choose|k: int|
                    0 <= k < self.topics@.len() && (#[trigger] self.topics@[k])@ == text;
                assert(topics@[k]@ == text);
            }
            if lists(topics@, text) {
                let k = choose|k: int| 0 <= k < topics@.len() && (#[trigger] topics@[k])@ == text;
                assert(self.topics@[k]@ == text);
            }
        }
        proof {
            let names = names_of(topics@);
            assert forall|name: Seq<char>| names.contains(name) <==> self@.contains(name) by {
                if names.contains(name) {
                    let k = choose|k: int| 0 <= k < names.len() && names[k] == name;
                    assert(topics@[k]@ == name);
                }
                if lists(topics@, name) {
                    let k = choose|k: int|
                        0 <= k < topics@.len() && (#[trigger] topics@[k])@ == name;
                    assert(names[k] == name);
                }
            }
        }
        topics
    }
}

} // verus!
