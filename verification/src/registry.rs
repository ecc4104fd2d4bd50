//! The subscription registry: a mapping from topic strings to one event
//! handler each. Resubscribing to an existing topic replaces its handler;
//! removing the empty topic is used by the facade as "clear everything".
//!
//! The registry is a plain value here; callers that share it between a
//! background task and a facade wrap it in a lock of their choosing.

use vstd::prelude::*;

verus! {

/// A registry mapping each topic string to the one handler registered for it.
/// `H` is the handler capability type; the registry never invokes a handler
/// itself, it only stores and hands them out.
pub struct SubscriptionRegistry<H> {
    entries: Vec<(String, H)>,
}

/// The map denoted by a sequence of (topic, handler) entries; a later entry
/// wins, though a well-formed registry never holds a topic twice.
pub open spec fn entries_map<H>(s: Seq<(String, H)>) -> Map<Seq<char>, H>
    decreases s.len(),
{
    if s.len() == 0 {
        Map::empty()
    } else {
        entries_map(s.drop_last()).insert(s.last().0@, s.last().1)
    }
}

/// No topic occurs twice among the entries.
pub open spec fn unique_keys<H>(s: Seq<(String, H)>) -> bool {
    forall|i: int, j: int| 0 <= i < j < s.len() ==> s[i].0@ != s[j].0@
}

/// The first index at which `t` occurs in `s`, or -1 if it does not occur.
pub open spec fn spec_index_of(s: Seq<Seq<char>>, t: Seq<char>) -> int
    decreases s.len(),
{
    if s.len() == 0 {
        -1
    } else if s[0] == t {
        0
    } else if spec_index_of(s.drop_first(), t) == -1 {
        -1
    } else {
        spec_index_of(s.drop_first(), t) + 1
    }
}

/// `spec_index_of` returns -1 exactly when `t` is absent, and otherwise the
/// first index holding `t`.
pub proof fn lemma_index_of_properties(s: Seq<Seq<char>>, t: Seq<char>)
    ensures
        spec_index_of(s, t) == -1 ==> forall|j: int| 0 <= j < s.len() ==> s[j] != t,
        spec_index_of(s, t) != -1 ==> 0 <= spec_index_of(s, t) < s.len() && s[spec_index_of(s, t)]
            == t && forall|j: int| 0 <= j < spec_index_of(s, t) ==> s[j] != t,
    decreases s.len(),
{
    if s.len() == 0 {
    } else if s[0] == t {
    } else {
        let d = s.drop_first();
        lemma_index_of_properties(d, t);
        let r = spec_index_of(d, t);
        if r == -1 {
            assert(spec_index_of(s, t) == -1);
            assert forall|j: int| 0 <= j < s.len() implies s[j] != t by {
                if j > 0 {
                    assert(d[j - 1] == s[j]);
                }
            }
        } else {
            assert(spec_index_of(s, t) == r + 1);
            assert(d[r] == s[r + 1]);
            assert forall|j: int| 0 <= j < r + 1 implies s[j] != t by {
                if j > 0 {
                    assert(d[j - 1] == s[j]);
                }
            }
        }
    }
}

proof fn lemma_entries_map_contains<H>(s: Seq<(String, H)>, k: Seq<char>)
    ensures
        entries_map(s).contains_key(k) <==> exists|i: int|
            0 <= i < s.len() && #[trigger] s[i].0@ == k,
    decreases s.len(),
{
    if s.len() > 0 {
        lemma_entries_map_contains(s.drop_last(), k);
        if s.last().0@ == k {
            assert(s[s.len() - 1].0@ == k);
        } else {
            if exists|i: int| 0 <= i < s.len() && #[trigger] s[i].0@ == k {
                let i = choose|i: int| 0 <= i < s.len() && #[trigger] s[i].0@ == k;
                assert(s.drop_last()[i].0@ == k);
            }
        }
    }
}

proof fn lemma_entries_map_push<H>(s: Seq<(String, H)>, e: (String, H))
    ensures
        entries_map(s.push(e)) == entries_map(s).insert(e.0@, e.1),
{
    assert(s.push(e).drop_last() =~= s);
    assert(s.push(e).last() == e);
}

proof fn lemma_unique_keys_remove<H>(s: Seq<(String, H)>, i: int)
    requires
        0 <= i < s.len(),
        unique_keys(s),
    ensures
        unique_keys(s.remove(i)),
{
    s.remove_ensures(i);
    assert forall|a: int, b: int| 0 <= a < b < s.remove(i).len() implies s.remove(i)[a].0@
        != s.remove(i)[b].0@ by {
        let a0 = if a < i {
            a
        } else {
            a + 1
        };
        let b0 = if b < i {
            b
        } else {
            b + 1
        };
        assert(s.remove(i)[a] == s[a0]);
        assert(s.remove(i)[b] == s[b0]);
    }
}

proof fn lemma_entries_map_remove<H>(s: Seq<(String, H)>, i: int)
    requires
        0 <= i < s.len(),
        unique_keys(s),
    ensures
        entries_map(s.remove(i)) == entries_map(s).remove(s[i].0@),
    decreases s.len(),
{
    let k = s[i].0@;
    s.remove_ensures(i);
    if i == s.len() - 1 {
        assert(s.remove(i) =~= s.drop_last());
        lemma_entries_map_contains(s.drop_last(), k);
        assert(!entries_map(s.drop_last()).contains_key(k));
        assert(entries_map(s).remove(k) =~= entries_map(s.drop_last()));
    } else {
        let dl = s.drop_last();
        assert(unique_keys(dl));
        lemma_entries_map_remove(dl, i);
        assert(s.remove(i).drop_last() =~= dl.remove(i));
        assert(s.remove(i).last() == s.last());
        let lk = s.last().0@;
        let lv = s.last().1;
        assert(lk != k);
        assert(entries_map(dl).remove(k).insert(lk, lv) =~= entries_map(dl).insert(lk, lv).remove(
            k,
        ));
        assert(entries_map(s.remove(i)) == entries_map(dl.remove(i)).insert(lk, lv));
    }
}

impl<H> View for SubscriptionRegistry<H> {
    type V = Map<Seq<char>, H>;

    closed spec fn view(&self) -> Map<Seq<char>, H> {
        entries_map(self.entries@)
    }
}

impl<H> SubscriptionRegistry<H> {
    /// No topic is registered twice.
    pub closed spec fn wf(&self) -> bool {
        unique_keys(self.entries@)
    }

    /// The registered topics, in registration order.
    pub closed spec fn topics_seq(&self) -> Seq<Seq<char>> {
        self.entries@.map_values(|e: (String, H)| e.0@)
    }

    /// The registered handlers, in registration order.
    pub closed spec fn handlers_seq(&self) -> Seq<H> {
        self.entries@.map_values(|e: (String, H)| e.1)
    }

    /// An empty registry.
    pub fn new() -> (r: Self)
        ensures
            r.wf(),
            r@ == Map::<Seq<char>, H>::empty(),
            r.topics_seq() == Seq::<Seq<char>>::empty(),
    {
        let r = SubscriptionRegistry { entries: Vec::new() };
        proof {
            assert(r@ =~= Map::<Seq<char>, H>::empty());
            assert(r.topics_seq() =~= Seq::<Seq<char>>::empty());
        }
        r
    }

    /// How many topics are registered.
    pub fn len(&self) -> (n: usize)
        ensures
            n == self.topics_seq().len(),
    {
        self.entries.len()
    }

    /// The topic at position `i`, in registration order.
    pub fn topic_at(&self, i: usize) -> (t: &String)
        requires
            i < self.topics_seq().len(),
        ensures
            t@ == self.topics_seq()[i as int],
    {
        &self.entries[i].0
    }

    /// The handler at position `i`, in registration order.
    pub fn handler_at(&self, i: usize) -> (h: &H)
        requires
            i < self.topics_seq().len(),
        ensures
            *h == self.handlers_seq()[i as int],
    {
        &self.entries[i].1
    }

    /// Remove the handler for `topic`, if one is registered; every other
    /// topic keeps its handler and its position.
    pub fn remove(&mut self, topic: &String)
        requires
            old(self).wf(),
        ensures
            final(self).wf(),
            final(self)@ == old(self)@.remove(topic@),
            ({
                let i = spec_index_of(old(self).topics_seq(), topic@);
                if i == -1 {
                    final(self).topics_seq() == old(self).topics_seq()
                        && final(self).handlers_seq() == old(self).handlers_seq()
                } else {
                    final(self).topics_seq() == old(self).topics_seq().remove(i)
                        && final(self).handlers_seq() == old(self).handlers_seq().remove(i)
                }
            }),
    {
        let ghost s0 = self.entries@;
        let n = self.entries.len();
        let mut i: usize = 0;
        while i < n
            invariant
                n == s0.len(),
                self.entries@ == s0,
                old(self).entries@ == s0,
                old(self).wf(),
                i <= n,
                forall|j: int| 0 <= j < i ==> #[trigger] s0[j].0@ != topic@,
            decreases n - i,
        {
            if self.entries[i].0 == *topic {
                proof {
                    let ts = old(self).topics_seq();
                    lemma_index_of_properties(ts, topic@);
                    assert(forall|j: int| 0 <= j < s0.len() ==> #[trigger] ts[j] == s0[j].0@);
                    assert(ts[i as int] == topic@);
                    let idx = spec_index_of(ts, topic@);
                    if idx == -1 {
                        assert(ts[i as int] != topic@);
                    } else if idx < i {
                        assert(ts[idx] == topic@);
                        assert(s0[idx].0@ != topic@);
                    } else if idx > i {
                        assert(ts[i as int] != topic@);
                    }
                    assert(spec_index_of(old(self).topics_seq(), topic@) == i);
                    lemma_entries_map_remove(s0, i as int);
                    lemma_unique_keys_remove(s0, i as int);
                }
                self.entries.remove(i);
                proof {
                    s0.remove_ensures(i as int);
                    assert(final(self).topics_seq() =~= old(self).topics_seq().remove(i as int));
                    assert(final(self).handlers_seq() =~= old(self).handlers_seq().remove(
                        i as int,
                    ));
                }
                return ;
            }
            i = i + 1;
        }
        proof {
            assert(forall|j: int|
                0 <= j < old(self).topics_seq().len() ==> old(self).topics_seq()[j] != topic@);
            assert(spec_index_of(old(self).topics_seq(), topic@) == -1) by {
                lemma_index_of_properties(old(self).topics_seq(), topic@);
                if spec_index_of(old(self).topics_seq(), topic@) != -1 {
                    assert(old(self).topics_seq()[spec_index_of(old(self).topics_seq(), topic@)]
                        == topic@);
                }
            }
            lemma_entries_map_contains(s0, topic@);
            assert(!entries_map(s0).contains_key(topic@));
            assert(final(self)@ =~= old(self)@.remove(topic@));
        }
    }

    /// Register `handler` for `topic`, replacing any handler the topic
    /// already had. A replaced topic moves to the end of the registration
    /// order; a fresh topic is appended.
    pub fn put(&mut self, topic: String, handler: H)
        requires
            old(self).wf(),
        ensures
            final(self).wf(),
            final(self)@ == old(self)@.insert(topic@, handler),
            ({
                let i = spec_index_of(old(self).topics_seq(), topic@);
                if i == -1 {
                    final(self).topics_seq() == old(self).topics_seq().push(topic@)
                } else {
                    final(self).topics_seq() == old(self).topics_seq().remove(i).push(topic@)
                }
            }),
    {
        self.remove(&topic);
        let ghost mid = self.entries@;
        proof {
            lemma_entries_map_push(mid, (topic, handler));
        }
        self.entries.push((topic, handler));
        proof {
            assert(final(self)@ =~= old(self)@.insert(topic@, handler));
            assert(final(self).topics_seq() =~= mid.map_values(|e: (String, H)| e.0@).push(
                topic@,
            ));
            let i = spec_index_of(old(self).topics_seq(), topic@);
            if i == -1 {
                assert(final(self).topics_seq() =~= old(self).topics_seq().push(topic@));
            } else {
                assert(final(self).topics_seq() =~= old(self).topics_seq().remove(i).push(topic@));
            }
            assert forall|a: int, b: int|
                0 <= a < b < final(self).entries@.len() implies final(self).entries@[a].0@
                != final(self).entries@[b].0@ by {
                lemma_entries_map_contains(mid, topic@);
                if b == final(self).entries@.len() - 1 {
                    assert(final(self).entries@[a] == mid[a]);
                    if mid[a].0@ == topic@ {
                        assert(entries_map(mid).contains_key(topic@));
                        assert(entries_map(mid) == old(self)@.remove(topic@));
                    }
                } else {
                    assert(final(self).entries@[a] == mid[a]);
                    assert(final(self).entries@[b] == mid[b]);
                }
            }
        }
    }

    /// Remove every subscription.
    pub fn clear(&mut self)
        ensures
            final(self).wf(),
            final(self)@ == Map::<Seq<char>, H>::empty(),
            final(self).topics_seq() == Seq::<Seq<char>>::empty(),
    {
        self.entries.clear();
        proof {
            assert(final(self)@ =~= Map::<Seq<char>, H>::empty());
            assert(final(self).topics_seq() =~= Seq::<Seq<char>>::empty());
        }
    }

    /// A copy of the registered topic strings, in registration order.
    pub fn snapshot_topics(&self) -> (r: Vec<String>)
        ensures
            r.deep_view() == self.topics_seq(),
    {
        let mut r: Vec<String> = Vec::new();
        let n = self.entries.len();
        let mut i: usize = 0;
        while i < n
            invariant
                n == self.entries@.len(),
                i <= n,
                r@.len() == i,
                forall|j: int| 0 <= j < i ==> #[trigger] r@[j]@ == self.entries@[j].0@,
            decreases n - i,
        {
            r.push(self.entries[i].0.clone());
            i = i + 1;
        }
        proof {
            assert(r.deep_view() =~= self.topics_seq());
        }
        r
    }
}

} // verus!
