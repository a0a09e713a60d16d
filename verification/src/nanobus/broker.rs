//! The broker's subscription registry and message routing.

use vstd::prelude::*;

verus! {

/// A message topic; a subscription to `All` receives every topic.
#[derive(Debug, Clone, Copy, PartialEq, Eq, Structural)]
pub enum Topic {
    All,
    Named(u16),
}

/// The bus server; it runs a broker.
pub struct Server;

/// Whether a subscription to `topics` receives messages on `topic`.
pub open spec fn receives(topics: Seq<Topic>, topic: Topic) -> bool {
    topics.contains(topic) || topics.contains(Topic::All)
}

/// Whether `r` lists, in increasing order, exactly the subscriptions among
/// `lists` that receive `topic`.
pub open spec fn routes(lists: Seq<Seq<Topic>>, topic: Topic, r: Seq<usize>) -> bool {
    &&& forall|i: int, j: int| 0 <= i < j < r.len() ==> r[i] < r[j]
    &&& forall|i: int| 0 <= i < r.len() ==> r[i] < lists.len() && receives(lists[r[i] as int], topic)
    &&& forall|k: int| 0 <= k < lists.len() && receives(lists[k], topic) ==> r.contains(k as usize)
}

/// The broker: its subscribers, each with the topics it subscribed to, in
/// the order they subscribed.
pub struct CapnpServer<S> {
    subscribers: Vec<(S, Vec<Topic>)>,
}

impl<S> CapnpServer<S> {
    /// The topics of each subscription.
    pub closed spec fn topic_lists(&self) -> Seq<Seq<Topic>> {
        self.subscribers@.map_values(|e: (S, Vec<Topic>)| e.1@)
    }

    /// The subscribers.
    pub closed spec fn subscriber_seq(&self) -> Seq<S> {
        self.subscribers@.map_values(|e: (S, Vec<Topic>)| e.0)
    }

    /// A broker without subscribers.
    pub fn new() -> (b: Self)
        ensures
            b.topic_lists().len() == 0,
            b.subscriber_seq().len() == 0,
    {
        CapnpServer { subscribers: Vec::new() }
    }

    /// Registers `subscriber` for `topics`, after the earlier subscriptions.
    pub fn subscribe(&mut self, subscriber: S, topics: Vec<Topic>)
        ensures
            final(self).topic_lists() == old(self).topic_lists().push(topics@),
            final(self).subscriber_seq() == old(self).subscriber_seq().push(subscriber),
    {
        let ghost lists = self.topic_lists();
        let ghost subs = self.subscriber_seq();
        let ghost t = topics@;
        self.subscribers.push((subscriber, topics));
        proof {
            assert(self.topic_lists() =~= lists.push(t));
            assert(self.subscriber_seq() =~= subs.push(subscriber));
        }
    }

    /// The subscriber of subscription `i`.
    pub fn subscriber(&self, i: usize) -> (s: &S)
        requires
            i < self.subscriber_seq().len(),
        ensures
            *s == self.subscriber_seq()[i as int],
    {
        &self.subscribers[i].0
    }

    /// The subscriptions that a message on `topic` goes to, in the order of
    /// subscription: those that named the topic or `All`.
    pub fn publish(&self, topic: Topic) -> (r: Vec<usize>)
        ensures
            routes(self.topic_lists(), topic, r@),
    {
        let ghost lists = self.topic_lists();
        let mut r: Vec<usize> = Vec::new();
        let mut i: usize = 0;
        while i < self.subscribers.len()
            invariant
                i <= self.subscribers@.len(),
                lists == self.topic_lists(),
                lists.len() == self.subscribers@.len(),
                forall|a: int, b: int| 0 <= a < b < r@.len() ==> r@[a] < r@[b],
                forall|a: int| 0 <= a < r@.len() ==> r@[a] < i && receives(lists[r@[a] as int], topic),
                forall|k: int| 0 <= k < i && receives(lists[k], topic) ==> r@.contains(k as usize),
            decreases self.subscribers@.len() - i,
        {
            let topics = &self.subscribers[i].1;
            proof {
                assert(lists[i as int] == topics@);
            }
            let mut named = false;
            let mut all = false;
            let mut j: usize = 0;
            while j < topics.len()
                invariant
                    j <= topics@.len(),
                    named == (exists|m: int| 0 <= m < j && topics@[m] == topic),
                    all == (exists|m: int| 0 <= m < j && topics@[m] == Topic::All),
                decreases topics@.len() - j,
            {
                if topics[j] == topic {
                    named = true;
                }
                if topics[j] == Topic::All {
                    all = true;
                }
                j = j + 1;
            }
            proof {
                assert(named == topics@.contains(topic));
                assert(all == topics@.contains(Topic::All));
            }
            if named || all {
                let ghost before = r@;
                r.push(i);
                proof {
                    assert forall|k: int| 0 <= k < i + 1 && receives(lists[k], topic) implies r@.contains(k as usize) by {
                        if k < i {
                            let w = choose|w: int| 0 <= w < before.len() && before[w] == k as usize;
                            assert(r@[w] == k as usize);
                        } else {
                            assert(r@[before.len() as int] == k as usize);
                        }
                    }
                }
            }
            i = i + 1;
        }
        r
    }
}

/// A new subscription receives a published message exactly when it named
/// the message's topic or `All`; earlier subscriptions are routed as before.
pub proof fn lemma_subscribe_then_publish(
    lists: Seq<Seq<Topic>>,
    topics: Seq<Topic>,
    topic: Topic,
    before: Seq<usize>,
    after: Seq<usize>,
)
    requires
        lists.len() < usize::MAX,
        routes(lists, topic, before),
        routes(lists.push(topics), topic, after),
    ensures
        after.contains(lists.len() as usize) <==> receives(topics, topic),
        forall|k: int|
            0 <= k < lists.len() ==> (#[trigger] after.contains(k as usize) <==> before.contains(k as usize)),
{
    let n = lists.len() as int;
    let l2 = lists.push(topics);
    assert(l2[n] == topics);
    if after.contains(n as usize) {
        let w = choose|w: int| 0 <= w < after.len() && after[w] == n as usize;
        assert(receives(l2[after[w] as int], topic));
    }
    if receives(topics, topic) {
        assert(receives(l2[n], topic));
    }
    assert forall|k: int| 0 <= k < lists.len() implies (#[trigger] after.contains(k as usize) <==> before.contains(k as usize)) by {
        assert(l2[k] == lists[k]);
        if after.contains(k as usize) {
            let w = choose|w: int| 0 <= w < after.len() && after[w] == k as usize;
            assert(receives(l2[after[w] as int], topic));
            assert(receives(lists[k], topic));
        }
        if before.contains(k as usize) {
            let w = choose|w: int| 0 <= w < before.len() && before[w] == k as usize;
            assert(receives(lists[before[w] as int], topic));
            assert(receives(l2[k], topic));
        }
    }
}

/// A subscription to `All` receives every message.
pub proof fn lemma_all_receives_everything(lists: Seq<Seq<Topic>>, topic: Topic, r: Seq<usize>, k: int)
    requires
        routes(lists, topic, r),
        0 <= k < lists.len(),
        lists[k].contains(Topic::All),
    ensures
        r.contains(k as usize),
{
}

} // verus!
