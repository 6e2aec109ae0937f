//! The peers that are connected to the host.
use vstd::prelude::*;

use crate::text;
use crate::webrtc::PeerRole;
use crate::webrtc::PeerSummary;

verus! {

/// The peer that the host itself is.
pub const HOST_PEER_ID: &'static str = "desplio-host";

/// What is known of a connected peer: what it is, and which connection reaches it.
#[derive(Debug, Clone, Copy)]
pub struct PeerHandle {
    pub role: PeerRole,
    pub connection: u64,
}

/// The connected peers, by their names.
#[derive(Debug)]
pub struct Peers {
    list: Vec<(String, PeerHandle)>,
}

/// The peers of a list, by their names.
spec fn listed(list: Seq<(String, PeerHandle)>) -> Map<Seq<char>, PeerHandle>
    decreases list.len(),
{
    if list.len() == 0 {
        Map::empty()
    } else {
        listed(list.drop_last()).insert(list.last().0@, list.last().1)
    }
}

/// No name is listed twice.
spec fn distinct(list: Seq<(String, PeerHandle)>) -> bool {
    forall|i: int, j: int| 0 <= i < j < list.len() ==> #[trigger] list[i].0@ != #[trigger] list[j].0@
}

proof fn lemma_listed(list: Seq<(String, PeerHandle)>)
    requires
        distinct(list),
    ensures
        listed(list).dom().finite(),
        listed(list).dom().len() == list.len(),
        forall|i: int|
            0 <= i < list.len() ==> listed(list).contains_key(#[trigger] list[i].0@) && listed(
                list,
            )[list[i].0@] == list[i].1,
        forall|name: Seq<char>| #[trigger]
            listed(list).contains_key(name) ==> exists|i: int|
                0 <= i < list.len() && #[trigger] list[i].0@ == name,
    decreases list.len(),
{
    if list.len() > 0 {
        let init = list.drop_last();
        assert(distinct(init)) by {
            assert forall|i: int, j: int| 0 <= i < j < init.len() implies #[trigger] init[i].0@
                != #[trigger] init[j].0@ by {
                assert(list[i].0@ != list[j].0@);
            }
        }
        lemma_listed(init);
        let last = list[list.len() - 1].0@;
        if listed(init).contains_key(last) {
            let i = choose|i: int| 0 <= i < init.len() && #[trigger] init[i].0@ == last;
            assert(list[i].0@ != list[list.len() - 1].0@);
        }
        assert forall|i: int| 0 <= i < list.len() implies listed(list).contains_key(
            #[trigger] list[i].0@,
        ) && listed(list)[list[i].0@] == list[i].1 by {
            if i < init.len() {
                assert(init[i].0@ == list[i].0@);
                assert(list[i].0@ != list[list.len() - 1].0@);
            }
        }
        assert forall|name: Seq<char>| #[trigger] listed(list).contains_key(name) implies exists|
            i: int,
        | 0 <= i < list.len() && #[trigger] list[i].0@ == name by {
            if name != last {
                let i = choose|i: int| 0 <= i < init.len() && #[trigger] init[i].0@ == name;
                assert(list[i].0@ == name);
            } else {
                assert(list[list.len() - 1].0@ == name);
            }
        }
    }
}

/// A summary of the host.
pub open spec fn is_host(summary: PeerSummary) -> bool {
    summary.peer_id@ == HOST_PEER_ID@ && summary.role == PeerRole::Host
}

/// A summary tells of the peer that is listed.
spec fn tells(summary: PeerSummary, entry: (String, PeerHandle)) -> bool {
    summary.peer_id@ == entry.0@ && summary.role == entry.1.role
}

/// `summaries` tells of the host first, and then of each connected peer once.
pub open spec fn lists_peers(
    summaries: Seq<PeerSummary>,
    peers: Map<Seq<char>, PeerHandle>,
) -> bool {
    &&& summaries.len() == peers.dom().len() + 1
    &&& is_host(summaries[0])
    &&& forall|i: int|
        1 <= i < summaries.len() ==> peers.contains_key(#[trigger] summaries[i].peer_id@)
            && peers[summaries[i].peer_id@].role == summaries[i].role
    &&& forall|i: int, j: int|
        1 <= i < j < summaries.len() ==> #[trigger] summaries[i].peer_id@
            != #[trigger] summaries[j].peer_id@
    &&& forall|name: Seq<char>| #[trigger]
        peers.contains_key(name) ==> exists|i: int|
            1 <= i < summaries.len() && #[trigger] summaries[i].peer_id@ == name
}

impl View for Peers {
    type V = Map<Seq<char>, PeerHandle>;

    closed spec fn view(&self) -> Map<Seq<char>, PeerHandle> {
        listed(self.list@)
    }
}

impl Peers {
    /// Each peer is known once.
    pub closed spec fn valid(self) -> bool {
        distinct(self.list@)
    }

    /// No peer is connected.
    pub fn new() -> (peers: Peers)
        ensures
            peers.valid(),
            peers@ == Map::<Seq<char>, PeerHandle>::empty(),
    {
        Peers { list: Vec::new() }
    }

    fn index(&self, name: &str) -> (out: Option<usize>)
        requires
            self.valid(),
        ensures
            match out {
                Some(i) => i < self.list@.len() && self.list@[i as int].0@ == name@,
                None => forall|i: int| 0 <= i < self.list@.len() ==> #[trigger] self.list@[i].0@ != name@,
            },
    {
        let mut i: usize = 0;
        while i < self.list.len()
            invariant
                i <= self.list.len(),
                forall|j: int| 0 <= j < i ==> #[trigger] self.list@[j].0@ != name@,
            decreases self.list.len() - i,
        {
            if text::same(self.list[i].0.as_str(), name) {
                return Some(i);
            }
            i = i + 1;
        }
        None
    }

    /// How many peers are connected.
    pub fn len(&self) -> (n: usize)
        requires
            self.valid(),
        ensures
            n == self@.dom().len(),
    {
        proof {
            lemma_listed(self.list@);
        }
        self.list.len()
    }

    /// The peer of that name.
    pub fn get(&self, name: &str) -> (out: Option<PeerHandle>)
        requires
            self.valid(),
        ensures
            out == if self@.contains_key(name@) {
                Some(self@[name@])
            } else {
                None
            },
    {
        proof {
            lemma_listed(self.list@);
        }
        match self.index(name) {
            Some(i) => {
                assert(listed(self.list@).contains_key(self.list@[i as int].0@));
                Some(self.list[i].1)
            },
            None => {
                proof {
                    if self@.contains_key(name@) {
                        let i = choose|i: int|
                            0 <= i < self.list@.len() && #[trigger] self.list@[i].0@ == name@;
                        assert(self.list@[i].0@ != name@);
                    }
                }
                None
            },
        }
    }

    /// Forgets the peer of that name.
    pub fn remove(&mut self, name: &str)
        requires
            old(self).valid(),
        ensures
            final(self).valid(),
            final(self)@ == old(self)@.remove(name@),
    {
        proof {
            lemma_listed(self.list@);
        }
        let ghost before = self.list@;
        match self.index(name) {
            Some(i) => {
                let _gone: (String, PeerHandle) = self.list.remove(i);
                proof {
                    let after = self.list@;
                    assert forall|j: int, k: int| 0 <= j < k < after.len() implies #[trigger]
                        after[j].0@ != #[trigger] after[k].0@ by {
                        let a = if j < i {
                            j
                        } else {
                            j + 1
                        };
                        let b = if k < i {
                            k
                        } else {
                            k + 1
                        };
                        assert(before[a].0@ != before[b].0@);
                    }
                    lemma_listed(after);
                    assert forall|key: Seq<char>|
                        listed(after).contains_key(key) == (listed(before).remove(
                            name@,
                        )).contains_key(key) && (listed(after).contains_key(key) ==> listed(
                            after,
                        )[key] == listed(before)[key]) by {
                        if listed(after).contains_key(key) {
                            let j = choose|j: int|
                                0 <= j < after.len() && #[trigger] after[j].0@ == key;
                            let a = if j < i {
                                j
                            } else {
                                j + 1
                            };
                            assert(before[a].0@ == key);
                            if a < i {
                                assert(before[a].0@ != before[i as int].0@);
                            } else {
                                assert(before[i as int].0@ != before[a].0@);
                            }
                        }
                        if listed(before).remove(name@).contains_key(key) {
                            let a = choose|a: int|
                                0 <= a < before.len() && #[trigger] before[a].0@ == key;
                            let j = if a < i {
                                a
                            } else {
                                a - 1
                            };
                            assert(a != i);
                            assert(after[j].0@ == key);
                        }
                    }
                    assert(listed(after) =~= listed(before).remove(name@));
                }
            },
            None => {
                proof {
                    assert(!listed(before).contains_key(name@)) by {
                        if listed(before).contains_key(name@) {
                            let i = choose|i: int|
                                0 <= i < before.len() && #[trigger] before[i].0@ == name@;
                            assert(before[i].0@ != name@);
                        }
                    }
                    assert(listed(before).remove(name@) =~= listed(before));
                }
            },
        }
    }

    /// Makes a peer known; one of that name is replaced.
    pub fn insert(&mut self, name: &str, handle: PeerHandle)
        requires
            old(self).valid(),
        ensures
            final(self).valid(),
            final(self)@ == old(self)@.insert(name@, handle),
    {
        let ghost start = self@;
        self.remove(name);
        let ghost before = self.list@;
        proof {
            lemma_listed(before);
            assert(!listed(before).contains_key(name@));
        }
        self.list.push((name.to_owned(), handle));
        proof {
            let after = self.list@;
            assert(after.drop_last() =~= before);
            assert forall|j: int, k: int| 0 <= j < k < after.len() implies #[trigger] after[j].0@
                != #[trigger] after[k].0@ by {
                if k < before.len() {
                    assert(before[j].0@ != before[k].0@);
                } else {
                    assert(listed(before).contains_key(before[j].0@));
                }
            }
            assert(start.remove(name@).insert(name@, handle) =~= start.insert(name@, handle));
        }
    }

    /// What a peer is told of the others: the host first, then each connected peer.
    pub fn summaries(&self) -> (out: Vec<PeerSummary>)
        requires
            self.valid(),
        ensures
            lists_peers(out@, self@),
    {
        let mut out: Vec<PeerSummary> = Vec::new();
        out.push(PeerSummary { peer_id: HOST_PEER_ID.to_owned(), role: PeerRole::Host });
        let mut i: usize = 0;
        while i < self.list.len()
            invariant
                i <= self.list.len(),
                out@.len() == i + 1,
                is_host(out@[0]),
                forall|j: int| 1 <= j < out@.len() ==> #[trigger] tells(out@[j], self.list@[j - 1]),
            decreases self.list.len() - i,
        {
            let entry: &(String, PeerHandle) = &self.list[i];
            let ghost before = out@;
            out.push(PeerSummary { peer_id: entry.0.clone(), role: entry.1.role });
            assert forall|j: int| 1 <= j < out@.len() implies #[trigger] tells(
                out@[j],
                self.list@[j - 1],
            ) by {
                if j < before.len() {
                    assert(tells(before[j], self.list@[j - 1]));
                }
            }
            i = i + 1;
        }
        proof {
            lemma_listed(self.list@);
            assert forall|j: int| 1 <= j < out@.len() implies self@.contains_key(
                #[trigger] out@[j].peer_id@,
            ) && self@[out@[j].peer_id@].role == out@[j].role by {
                assert(tells(out@[j], self.list@[j - 1]));
                assert(listed(self.list@).contains_key(self.list@[j - 1].0@));
            }
            assert forall|j: int, k: int| 1 <= j < k < out@.len() implies #[trigger] out@[j].peer_id@
                != #[trigger] out@[k].peer_id@ by {
                assert(tells(out@[j], self.list@[j - 1]));
                assert(tells(out@[k], self.list@[k - 1]));
                assert(self.list@[j - 1].0@ != self.list@[k - 1].0@);
            }
            assert forall|name: Seq<char>| #[trigger] self@.contains_key(name) implies exists|
                j: int,
            | 1 <= j < out@.len() && #[trigger] out@[j].peer_id@ == name by {
                let j = choose|j: int|
                    0 <= j < self.list@.len() && #[trigger] self.list@[j].0@ == name;
                assert(tells(out@[j + 1], self.list@[j + 1 - 1]));
                assert(out@[j + 1].peer_id@ == name);
            }
        }
        out
    }
}

/// A list of peers tells of the host first, by its own name, and then of every connected peer and
/// of nobody else, each with the role that it has.
pub proof fn everyone_is_listed(
    summaries: Seq<PeerSummary>,
    peers: Map<Seq<char>, PeerHandle>,
    name: Seq<char>,
    i: int,
)
    requires
        lists_peers(summaries, peers),
        1 <= i < summaries.len(),
    ensures
        summaries[0].peer_id@ == "desplio-host"@,
        summaries[0].role == PeerRole::Host,
        summaries.len() == peers.dom().len() + 1,
        peers.contains_key(summaries[i].peer_id@),
        summaries[i].role == peers[summaries[i].peer_id@].role,
        peers.contains_key(name) ==> exists|k: int|
            1 <= k < summaries.len() && #[trigger] summaries[k].peer_id@ == name
                && summaries[k].role == peers[name].role,
{
    if peers.contains_key(name) {
        let k = choose|k: int| 1 <= k < summaries.len() && #[trigger] summaries[k].peer_id@ == name;
        assert(summaries[k].peer_id@ == name);
    }
}

} // verus!
