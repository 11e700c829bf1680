//! The topics of a node, each under the role it plays.

use crate::pubsub::clone_topic;
use libp2p::floodsub::Topic;
use vstd::prelude::*;

verus! {

/// A topic together with the role it is registered under.
pub struct TopicEntry {
    role: String,
    topic: Topic,
}

/// A mapping from roles to topics. A role occurs at most once; the order of
/// registration does not matter.
pub struct Topics {
    entries: Vec<TopicEntry>,
}

impl Topics {
    /// The position of the entry for `role`, if there is one.
    closed spec fn position(&self, role: Seq<char>) -> int {
        choose|i: int| 0 <= i < self.entries@.len() && self.entries@[i].role@ == role
    }

    /// No role occurs twice.
    pub closed spec fn wf(&self) -> bool {
        forall|i: int, j: int|
            0 <= i < j < self.entries@.len() ==> self.entries@[i].role@ != self.entries@[j].role@
    }

    /// The mapping that the registry stands for.
    pub closed spec fn view(&self) -> Map<Seq<char>, Topic> {
        Map::new(
            |role: Seq<char>|
                exists|i: int| 0 <= i < self.entries@.len() && self.entries@[i].role@ == role,
            |role: Seq<char>| self.entries@[self.position(role)].topic,
        )
    }

    /// A registry without entries.
    pub fn new() -> (topics: Self)
        ensures
            topics.wf(),
            topics@ == Map::<Seq<char>, Topic>::empty(),
    {
        let topics = Topics { entries: Vec::new() };
        assert(topics@ =~= Map::<Seq<char>, Topic>::empty());
        topics
    }

    fn find(&self, role: &String) -> (found: Option<usize>)
        requires
            self.wf(),
        ensures
            match found {
                Some(i) => i < self.entries@.len() && self.entries@[i as int].role@ == role@
                    && self@.contains_key(role@) && self@[role@] == self.entries@[i as int].topic,
                None => !self@.contains_key(role@),
            },
    {
        let mut i: usize = 0;
        while i < self.entries.len()
            invariant
                self.wf(),
                i <= self.entries@.len(),
                forall|j: int| 0 <= j < i ==> self.entries@[j].role@ != role@,
            decreases self.entries.len() - i,
        {
            if self.entries[i].role == *role {
                assert(self@.contains_key(role@));
                assert(self.position(role@) == i);
                return Some(i);
            }
            i += 1;
        }
        None
    }

    /// Registers `topic` under `role`, in place of what was registered under
    /// that role before.
    pub fn insert(&mut self, role: String, topic: Topic)
        requires
            old(self).wf(),
        ensures
            final(self).wf(),
            final(self)@ == old(self)@.insert(role@, topic),
    {
        let found = self.find(&role);
        let ghost before = *self;
        match found {
            Some(i) => {
                self.entries.set(i, TopicEntry { role, topic });
                assert forall|r: Seq<char>| #[trigger] self@.contains_key(r) implies self@[r]
                    == before@.insert(role@, topic)[r] by {
                    let k = self.position(r);
                    assert(before.entries@[k].role@ == r);
                    assert(before.position(r) == k);
                }
                assert forall|r: Seq<char>| #[trigger]
                    before@.insert(role@, topic).contains_key(r) implies self@.contains_key(r) by {
                    if r != role@ {
                        let k = before.position(r);
                        assert(self.entries@[k].role@ == r);
                    } else {
                        assert(self.entries@[i as int].role@ == r);
                    }
                }
            },
            None => {
                self.entries.push(TopicEntry { role, topic });
                let ghost last = before.entries@.len() as int;
                assert forall|r: Seq<char>| #[trigger] self@.contains_key(r) implies self@[r]
                    == before@.insert(role@, topic)[r] by {
                    let k = self.position(r);
                    if k < last {
                        assert(before.entries@[k].role@ == r);
                        assert(before.position(r) == k);
                    }
                }
                assert forall|r: Seq<char>| #[trigger]
                    before@.insert(role@, topic).contains_key(r) implies self@.contains_key(r) by {
                    if r != role@ {
                        let k = before.position(r);
                        assert(self.entries@[k].role@ == r);
                    } else {
                        assert(self.entries@[last].role@ == r);
                    }
                }
            },
        }
        assert(self@ =~= before@.insert(role@, topic));
    }

    /// The topic registered under `role`, if there is one.
    pub fn get(&self, role: &String) -> (topic: Option<Topic>)
        requires
            self.wf(),
        ensures
            match topic {
                Some(t) => self@.contains_key(role@) && t == self@[role@],
                None => !self@.contains_key(role@),
            },
    {
        match self.find(role) {
            Some(i) => Some(clone_topic(&self.entries[i].topic)),
            None => None,
        }
    }
}

} // verus!
