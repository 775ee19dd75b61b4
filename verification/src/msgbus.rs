//! The message bus: a typed publish/subscribe router keyed by topic names,
//! point-to-point endpoints each held by at most one handler, and
//! correlation-keyed response handlers that are delivered exactly once.
//!
//! The bus routes: it decides which handlers receive a message and in what
//! order. Invoking the handlers is the runner's business.

use vstd::prelude::*;
use vstd::pervasive::VecAdditionalExecFns;
use crate::uuid4::Uuid4;

verus! {

/// An immutable pub/sub channel name.
pub struct Topic {
    pub name: String,
}

impl View for Topic {
    type V = Seq<char>;

    open spec fn view(&self) -> Seq<char> {
        self.name@
    }
}

impl Topic {
    pub fn new(name: String) -> (r: Self)
        ensures
            r@ == name@,
    {
        Topic { name }
    }

    pub fn as_str(&self) -> (r: &str)
        ensures
            r@ == self@,
    {
        self.name.as_str()
    }
}

impl Clone for Topic {
    fn clone(&self) -> (r: Self)
        ensures
            r == *self,
    {
        Topic { name: self.name.clone() }
    }
}

impl PartialEq for Topic {
    fn eq(&self, other: &Self) -> (r: bool) {
        self.name == other.name
    }
}

impl vstd::std_specs::cmp::PartialEqSpecImpl for Topic {
    open spec fn obeys_eq_spec() -> bool {
        true
    }

    open spec fn eq_spec(&self, other: &Self) -> bool {
        self@ == other@
    }
}

/// A point-to-point handler address.
pub struct Endpoint {
    pub name: String,
}

impl View for Endpoint {
    type V = Seq<char>;

    open spec fn view(&self) -> Seq<char> {
        self.name@
    }
}

impl Endpoint {
    pub fn new(name: String) -> (r: Self)
        ensures
            r@ == name@,
    {
        Endpoint { name }
    }

    pub fn as_str(&self) -> (r: &str)
        ensures
            r@ == self@,
    {
        self.name.as_str()
    }
}

impl Clone for Endpoint {
    fn clone(&self) -> (r: Self)
        ensures
            r == *self,
    {
        Endpoint { name: self.name.clone() }
    }
}

impl PartialEq for Endpoint {
    fn eq(&self, other: &Self) -> (r: bool) {
        self.name == other.name
    }
}

impl vstd::std_specs::cmp::PartialEqSpecImpl for Endpoint {
    open spec fn obeys_eq_spec() -> bool {
        true
    }

    open spec fn eq_spec(&self, other: &Self) -> bool {
        self@ == other@
    }
}

/// The identity of a message handler. The runner maps each identity to the
/// callback it invokes; the bus only routes identities.
pub struct HandlerId {
    pub value: String,
}

impl View for HandlerId {
    type V = Seq<char>;

    open spec fn view(&self) -> Seq<char> {
        self.value@
    }
}

impl HandlerId {
    pub fn new(value: String) -> (r: Self)
        ensures
            r@ == value@,
    {
        HandlerId { value }
    }

    pub fn as_str(&self) -> (r: &str)
        ensures
            r@ == self@,
    {
        self.value.as_str()
    }
}

impl Clone for HandlerId {
    fn clone(&self) -> (r: Self)
        ensures
            r == *self,
    {
        HandlerId { value: self.value.clone() }
    }
}

impl PartialEq for HandlerId {
    fn eq(&self, other: &Self) -> (r: bool) {
        self.value == other.value
    }
}

impl vstd::std_specs::cmp::PartialEqSpecImpl for HandlerId {
    open spec fn obeys_eq_spec() -> bool {
        true
    }

    open spec fn eq_spec(&self, other: &Self) -> bool {
        self@ == other@
    }
}

/// One subscription of a handler to a topic, with its delivery priority.
pub struct Subscription {
    pub handler: HandlerId,
    pub priority: u8,
}

impl Clone for Subscription {
    fn clone(&self) -> (r: Self)
        ensures
            r == *self,
    {
        Subscription { handler: self.handler.clone(), priority: self.priority }
    }
}

/// The subscriber list of one topic.
pub struct TopicSubs {
    pub topic: Topic,
    pub subs: Vec<Subscription>,
}

/// The subscriber list registered for topic `t`: that of the first (and,
/// under the bus invariant, only) entry naming `t`, or empty.
pub open spec fn subs_of(s: Seq<TopicSubs>, t: Seq<char>) -> Seq<Subscription>
    decreases s.len(),
{
    if s.len() == 0 {
        Seq::empty()
    } else if s[0].topic@ == t {
        s[0].subs@
    } else {
        subs_of(s.drop_first(), t)
    }
}

/// Whether some subscription in `s` belongs to handler `h`.
pub open spec fn has_handler(s: Seq<Subscription>, h: Seq<char>) -> bool {
    exists|i: int| 0 <= i < s.len() && s[i].handler@ == h
}

/// `sub` placed after every entry of at least its priority: delivery follows
/// priority, then insertion order.
pub open spec fn insert_sub(s: Seq<Subscription>, sub: Subscription) -> Seq<Subscription>
    decreases s.len(),
{
    if s.len() == 0 {
        seq![sub]
    } else if s[0].priority >= sub.priority {
        seq![s[0]] + insert_sub(s.drop_first(), sub)
    } else {
        seq![sub] + s
    }
}

/// `s` with handler `h`'s subscription removed (the first, which under the
/// bus invariant is the only one).
pub open spec fn remove_sub(s: Seq<Subscription>, h: Seq<char>) -> Seq<Subscription>
    decreases s.len(),
{
    if s.len() == 0 {
        Seq::empty()
    } else if s[0].handler@ == h {
        s.drop_first()
    } else {
        seq![s[0]] + remove_sub(s.drop_first(), h)
    }
}

/// The handler registered at endpoint `e`, if any.
pub open spec fn endpoint_handler(s: Seq<(Endpoint, HandlerId)>, e: Seq<char>) -> Option<HandlerId>
    decreases s.len(),
{
    if s.len() == 0 {
        None
    } else if s[0].0@ == e {
        Some(s[0].1)
    } else {
        endpoint_handler(s.drop_first(), e)
    }
}

/// Whether a response handler is registered under the correlation id.
pub open spec fn has_correlation(s: Seq<(Uuid4, HandlerId)>, id: Uuid4) -> bool {
    exists|i: int| 0 <= i < s.len() && s[i].0 == id
}

proof fn lemma_subs_of_at(s: Seq<TopicSubs>, t: Seq<char>, i: int)
    requires
        0 <= i < s.len(),
        s[i].topic@ == t,
        forall|j: int| 0 <= j < i ==> s[j].topic@ != t,
    ensures
        subs_of(s, t) == s[i].subs@,
    decreases i,
{
    if i > 0 {
        lemma_subs_of_at(s.drop_first(), t, i - 1);
    }
}

proof fn lemma_subs_of_absent(s: Seq<TopicSubs>, t: Seq<char>)
    requires
        forall|j: int| 0 <= j < s.len() ==> s[j].topic@ != t,
    ensures
        subs_of(s, t) == Seq::<Subscription>::empty(),
    decreases s.len(),
{
    if s.len() > 0 {
        lemma_subs_of_absent(s.drop_first(), t);
    }
}

proof fn lemma_subs_of_update(s: Seq<TopicSubs>, i: int, e: TopicSubs, t: Seq<char>)
    requires
        0 <= i < s.len(),
        e.topic@ == s[i].topic@,
        forall|j: int| 0 <= j < i ==> s[j].topic@ != s[i].topic@,
    ensures
        t == s[i].topic@ ==> subs_of(s.update(i, e), t) == e.subs@,
        t != s[i].topic@ ==> subs_of(s.update(i, e), t) == subs_of(s, t),
    decreases i,
{
    let s2 = s.update(i, e);
    if i == 0 {
        assert(s2.drop_first() =~= s.drop_first());
    } else {
        lemma_subs_of_update(s.drop_first(), i - 1, e, t);
        assert(s2.drop_first() =~= s.drop_first().update(i - 1, e));
    }
}

proof fn lemma_subs_of_push(s: Seq<TopicSubs>, e: TopicSubs, t: Seq<char>)
    ensures
        t != e.topic@ ==> subs_of(s.push(e), t) == subs_of(s, t),
        (t == e.topic@ && (forall|j: int| 0 <= j < s.len() ==> s[j].topic@ != t)) ==> subs_of(
            s.push(e),
            t,
        ) == e.subs@,
    decreases s.len(),
{
    let s2 = s.push(e);
    assert(s2.len() == s.len() + 1);
    if s.len() == 0 {
        assert(s2[0] == e);
        assert(s2.drop_first() =~= Seq::<TopicSubs>::empty());
        if t != e.topic@ {
            assert(subs_of(s2, t) == subs_of(s2.drop_first(), t));
            assert(subs_of(s2.drop_first(), t) == Seq::<Subscription>::empty());
            assert(subs_of(s, t) == Seq::<Subscription>::empty());
        } else {
            assert(subs_of(s2, t) == e.subs@);
        }
    } else {
        assert(s2[0] == s[0]);
        lemma_subs_of_push(s.drop_first(), e, t);
        assert(s2.drop_first() =~= s.drop_first().push(e));
        assert(forall|j: int|
            0 <= j < s.drop_first().len() ==> s.drop_first()[j] == s[j + 1]);
        if s[0].topic@ == t {
            assert(subs_of(s2, t) == s2[0].subs@);
            assert(subs_of(s, t) == s[0].subs@);
        } else {
            assert(subs_of(s2, t) == subs_of(s2.drop_first(), t));
            assert(subs_of(s, t) == subs_of(s.drop_first(), t));
        }
    }
}

proof fn lemma_insert_sub_split(s: Seq<Subscription>, sub: Subscription, i: int)
    requires
        0 <= i <= s.len(),
        forall|j: int| 0 <= j < i ==> s[j].priority >= sub.priority,
        i < s.len() ==> s[i].priority < sub.priority,
    ensures
        insert_sub(s, sub) == s.subrange(0, i) + seq![sub] + s.subrange(i, s.len() as int),
    decreases i,
{
    if i == 0 {
        if s.len() == 0 {
            assert(insert_sub(s, sub) =~= s.subrange(0, 0) + seq![sub] + s.subrange(
                0,
                s.len() as int,
            ));
        } else {
            assert(insert_sub(s, sub) =~= s.subrange(0, 0) + seq![sub] + s.subrange(
                0,
                s.len() as int,
            ));
        }
    } else {
        lemma_insert_sub_split(s.drop_first(), sub, i - 1);
        assert(s.drop_first().subrange(0, i - 1) =~= s.subrange(1, i));
        assert(s.drop_first().subrange(i - 1, s.drop_first().len() as int) =~= s.subrange(
            i,
            s.len() as int,
        ));
        assert(insert_sub(s, sub) =~= s.subrange(0, i) + seq![sub] + s.subrange(
            i,
            s.len() as int,
        ));
    }
}

proof fn lemma_remove_sub_split(s: Seq<Subscription>, h: Seq<char>, i: int)
    requires
        0 <= i < s.len(),
        s[i].handler@ == h,
        forall|j: int| 0 <= j < i ==> s[j].handler@ != h,
    ensures
        remove_sub(s, h) == s.subrange(0, i) + s.subrange(i + 1, s.len() as int),
    decreases i,
{
    if i == 0 {
        assert(remove_sub(s, h) =~= s.subrange(0, 0) + s.subrange(1, s.len() as int));
    } else {
        lemma_remove_sub_split(s.drop_first(), h, i - 1);
        assert(s.drop_first().subrange(0, i - 1) =~= s.subrange(1, i));
        assert(s.drop_first().subrange(i, s.drop_first().len() as int) =~= s.subrange(
            i + 1,
            s.len() as int,
        ));
        assert(remove_sub(s, h) =~= s.subrange(0, i) + s.subrange(i + 1, s.len() as int));
    }
}

proof fn lemma_remove_sub_absent(s: Seq<Subscription>, h: Seq<char>)
    requires
        !has_handler(s, h),
    ensures
        remove_sub(s, h) == s,
    decreases s.len(),
{
    if s.len() > 0 {
        assert(s[0].handler@ != h);
        assert(forall|i: int|
            0 <= i < s.drop_first().len() ==> s.drop_first()[i] == s[i + 1]);
        lemma_remove_sub_absent(s.drop_first(), h);
        assert(remove_sub(s, h) =~= s);
    }
}

proof fn lemma_endpoint_handler_at(s: Seq<(Endpoint, HandlerId)>, e: Seq<char>, i: int)
    requires
        0 <= i < s.len(),
        s[i].0@ == e,
        forall|j: int| 0 <= j < i ==> s[j].0@ != e,
    ensures
        endpoint_handler(s, e) == Some(s[i].1),
    decreases i,
{
    if i > 0 {
        lemma_endpoint_handler_at(s.drop_first(), e, i - 1);
    }
}

proof fn lemma_endpoint_handler_absent(s: Seq<(Endpoint, HandlerId)>, e: Seq<char>)
    requires
        forall|j: int| 0 <= j < s.len() ==> s[j].0@ != e,
    ensures
        endpoint_handler(s, e) is None,
    decreases s.len(),
{
    if s.len() > 0 {
        lemma_endpoint_handler_absent(s.drop_first(), e);
    }
}

#[verifier::loop_isolation(false)]
fn insert_position(subs: &Vec<Subscription>, priority: u8) -> (r: usize)
    ensures
        r <= subs@.len(),
        forall|j: int| 0 <= j < r ==> subs@[j].priority >= priority,
        r < subs@.len() ==> subs@[r as int].priority < priority,
{
    let mut pos: usize = 0;
    while pos < subs.len()
        invariant
            pos <= subs@.len(),
            forall|j: int| 0 <= j < pos ==> subs@[j].priority >= priority,
        decreases subs@.len() - pos,
    {
        if subs[pos].priority < priority {
            return pos;
        }
        pos += 1;
    }
    pos
}

proof fn lemma_subs_of_is_entry(s: Seq<TopicSubs>, t: Seq<char>)
    ensures
        subs_of(s, t) == Seq::<Subscription>::empty() || exists|k: int|
            0 <= k < s.len() && (#[trigger] s[k]).topic@ == t && subs_of(s, t) == s[k].subs@,
    decreases s.len(),
{
    if s.len() > 0 && s[0].topic@ != t {
        lemma_subs_of_is_entry(s.drop_first(), t);
        if subs_of(s.drop_first(), t) != Seq::<Subscription>::empty() {
            let k = choose|k: int|
                0 <= k < s.drop_first().len() && (#[trigger] s.drop_first()[k]).topic@ == t
                    && subs_of(s.drop_first(), t) == s.drop_first()[k].subs@;
            assert(s[k + 1] == s.drop_first()[k]);
        }
    }
}

/// Law: under the bus invariant a handler holds at most one subscription per
/// topic, so the same (handler, topic) pair is never delivered to twice in
/// one publish.
pub proof fn lemma_one_subscription_per_handler(bus: MessageBus, t: Seq<char>, i: int, j: int)
    requires
        bus.wf(),
        0 <= i < j < bus.topic_subs(t).len(),
    ensures
        bus.topic_subs(t)[i].handler@ != bus.topic_subs(t)[j].handler@,
{
    lemma_subs_of_is_entry(bus.subscriptions@, t);
}

/// Inserting a subscription grows the list by one and the new handler is in
/// it.
pub proof fn lemma_insert_sub_has_handler(s: Seq<Subscription>, sub: Subscription)
    ensures
        insert_sub(s, sub).len() == s.len() + 1,
        has_handler(insert_sub(s, sub), sub.handler@),
    decreases s.len(),
{
    let s2 = insert_sub(s, sub);
    if s.len() == 0 {
        assert(s2[0] == sub);
    } else if s[0].priority >= sub.priority {
        lemma_insert_sub_has_handler(s.drop_first(), sub);
        let i = choose|i: int|
            0 <= i < insert_sub(s.drop_first(), sub).len() && insert_sub(
                s.drop_first(),
                sub,
            )[i].handler@ == sub.handler@;
        assert(s2[i + 1] == insert_sub(s.drop_first(), sub)[i]);
    } else {
        assert(s2[0] == sub);
    }
}

/// Why the bus refused an operation.
#[derive(Clone, Copy, Debug, PartialEq, Eq, Structural)]
pub enum BusError {
    /// A response handler is already registered under this correlation id.
    DuplicateResponseHandler,
}

/// The process-wide message router.
pub struct MessageBus {
    pub subscriptions: Vec<TopicSubs>,
    pub endpoints: Vec<(Endpoint, HandlerId)>,
    pub correlations: Vec<(Uuid4, HandlerId)>,
}

impl MessageBus {
    /// The bus invariant: one entry per topic; within a topic one
    /// subscription per handler, ordered by falling priority (ties keep
    /// insertion order); one handler per endpoint; one handler per
    /// correlation id.
    pub open spec fn wf(self) -> bool {
        &&& (forall|i: int, j: int|
            0 <= i < j < self.subscriptions@.len() ==> self.subscriptions@[i].topic@
                != self.subscriptions@[j].topic@)
        &&& (forall|k: int|
            0 <= k < self.subscriptions@.len() ==> {
                let subs = #[trigger] self.subscriptions@[k].subs@;
                &&& (forall|i: int, j: int|
                    0 <= i < j < subs.len() ==> #[trigger] subs[i].handler@ != #[trigger] subs[j].handler@)
                &&& (forall|i: int, j: int|
                    0 <= i <= j < subs.len() ==> #[trigger] subs[i].priority >= #[trigger] subs[j].priority)
            })
        &&& (forall|i: int, j: int|
            0 <= i < j < self.endpoints@.len() ==> self.endpoints@[i].0@ != self.endpoints@[j].0@)
        &&& (forall|i: int, j: int|
            0 <= i < j < self.correlations@.len() ==> self.correlations@[i].0
                != self.correlations@[j].0)
    }

    /// The subscriber list of topic `t`.
    pub open spec fn topic_subs(self, t: Seq<char>) -> Seq<Subscription> {
        subs_of(self.subscriptions@, t)
    }

    /// An empty bus.
    pub fn new() -> (r: Self)
        ensures
            r.wf(),
            r.subscriptions@.len() == 0,
            r.endpoints@.len() == 0,
            r.correlations@.len() == 0,
    {
        MessageBus { subscriptions: Vec::new(), endpoints: Vec::new(), correlations: Vec::new() }
    }

    /// Registers `handler` for `topic` at `priority`. Subscribing a handler
    /// that already holds a subscription for the topic changes nothing, so a
    /// (handler, topic) pair is never delivered to twice. A new handler is
    /// placed after all subscriptions of at least its priority.
    #[verifier::loop_isolation(false)]
    pub fn subscribe_topic(&mut self, topic: Topic, handler: HandlerId, priority: u8)
        requires
            old(self).wf(),
        ensures
            final(self).wf(),
            final(self).endpoints == old(self).endpoints,
            final(self).correlations == old(self).correlations,
            has_handler(old(self).topic_subs(topic@), handler@) ==> *final(self) == *old(self),
            !has_handler(old(self).topic_subs(topic@), handler@) ==> final(self).topic_subs(topic@)
                == insert_sub(
                old(self).topic_subs(topic@),
                Subscription { handler, priority },
            ),
            forall|t: Seq<char>|
                t != topic@ ==> final(self).topic_subs(t) == old(self).topic_subs(t),
    {
        let ghost s0 = self.subscriptions@;
        let n = self.subscriptions.len();
        let mut k: usize = 0;
        while k < n
            invariant
                s0 == old(self).subscriptions@,
                n == self.subscriptions@.len(),
                k <= n,
                *self == *old(self),
                old(self).wf(),
                forall|j: int| 0 <= j < k ==> self.subscriptions@[j].topic@ != topic@,
            decreases n - k,
        {
            if self.subscriptions[k].topic == topic {
                proof {
                    lemma_subs_of_at(s0, topic@, k as int);
                }
                let ghost subs0 = s0[k as int].subs@;
                let subs_len = self.subscriptions[k].subs.len();
                let mut i: usize = 0;
                while i < subs_len
                    invariant
                        s0 == old(self).subscriptions@,
                        old(self).wf(),
                        k < self.subscriptions@.len(),
                        subs_len == self.subscriptions@[k as int].subs@.len(),
                        i <= subs_len,
                        *self == *old(self),
                        subs0 == s0[k as int].subs@,
                        s0[k as int].topic@ == topic@,
                        subs_of(s0, topic@) == subs0,
                        forall|j: int| 0 <= j < i ==> subs0[j].handler@ != handler@,
                    decreases subs_len - i,
                {
                    if self.subscriptions[k].subs[i].handler == handler {
                        return ;
                    }
                    i += 1;
                }
                let pos = insert_position(&self.subscriptions[k].subs, priority);
                let ghost sub = Subscription { handler: handler, priority };
                proof {
                    lemma_insert_sub_split(subs0, sub, pos as int);
                }
                let mut new_subs: Vec<Subscription> = Vec::new();
                let mut j: usize = 0;
                while j < pos
                    invariant
                        s0 == old(self).subscriptions@,
                        pos <= subs_len,
                        k < self.subscriptions@.len(),
                        subs_len == self.subscriptions@[k as int].subs@.len(),
                        j <= pos,
                        *self == *old(self),
                        subs0 == s0[k as int].subs@,
                        new_subs@ =~= subs0.subrange(0, j as int),
                    decreases pos - j,
                {
                    new_subs.push(self.subscriptions[k].subs[j].clone());
                    proof {
                        assert(new_subs@ =~= subs0.subrange(0, j as int + 1));
                    }
                    j += 1;
                }
                new_subs.push(Subscription { handler, priority });
                let mut j2: usize = pos;
                while j2 < subs_len
                    invariant
                        s0 == old(self).subscriptions@,
                        pos <= subs_len,
                        k < self.subscriptions@.len(),
                        subs_len == self.subscriptions@[k as int].subs@.len(),
                        pos <= j2 <= subs_len,
                        *self == *old(self),
                        subs0 == s0[k as int].subs@,
                        sub == (Subscription { handler: handler, priority }),
                        new_subs@ =~= subs0.subrange(0, pos as int) + seq![sub] + subs0.subrange(
                            pos as int,
                            j2 as int,
                        ),
                    decreases subs_len - j2,
                {
                    new_subs.push(self.subscriptions[k].subs[j2].clone());
                    proof {
                        assert(new_subs@ =~= subs0.subrange(0, pos as int) + seq![sub]
                            + subs0.subrange(pos as int, j2 as int + 1));
                    }
                    j2 += 1;
                }
                let e2 = TopicSubs { topic, subs: new_subs };
                self.subscriptions.set(k, e2);
                proof {
                    let e2g = self.subscriptions@[k as int];
                    assert(e2g.subs@ =~= insert_sub(subs0, sub));
                    assert forall|t: Seq<char>| true implies {
                        &&& (t == topic@ ==> subs_of(self.subscriptions@, t) == e2g.subs@)
                        &&& (t != topic@ ==> subs_of(self.subscriptions@, t) == subs_of(s0, t))
                    } by {
                        assert(self.subscriptions@ =~= s0.update(k as int, e2g));
                        lemma_subs_of_update(s0, k as int, e2g, t);
                    }
                }
                return ;
            }
            k += 1;
        }
        proof {
            lemma_subs_of_absent(s0, topic@);
        }
        let mut subs: Vec<Subscription> = Vec::new();
        subs.push(Subscription { handler, priority });
        self.subscriptions.push(TopicSubs { topic, subs });
        proof {
            let e = self.subscriptions@[s0.len() as int];
            assert(self.subscriptions@ =~= s0.push(e));
            assert(e.subs@ =~= insert_sub(Seq::empty(), e.subs@[0]));
            assert forall|t: Seq<char>| true implies {
                &&& (t == e.topic@ ==> subs_of(self.subscriptions@, t) == e.subs@)
                &&& (t != e.topic@ ==> subs_of(self.subscriptions@, t) == subs_of(s0, t))
            } by {
                lemma_subs_of_push(s0, e, t);
            }
        }
    }

    /// Removes exactly `handler`'s subscription for `topic`. Removing one
    /// that was never made is a no-op, not an error.
    #[verifier::loop_isolation(false)]
    pub fn unsubscribe_topic(&mut self, topic: &Topic, handler: &HandlerId)
        requires
            old(self).wf(),
        ensures
            final(self).wf(),
            final(self).endpoints == old(self).endpoints,
            final(self).correlations == old(self).correlations,
            final(self).topic_subs(topic@) == remove_sub(old(self).topic_subs(topic@), handler@),
            !has_handler(old(self).topic_subs(topic@), handler@) ==> *final(self) == *old(self),
            forall|t: Seq<char>|
                t != topic@ ==> final(self).topic_subs(t) == old(self).topic_subs(t),
    {
        let ghost s0 = self.subscriptions@;
        let n = self.subscriptions.len();
        let mut k: usize = 0;
        while k < n
            invariant
                n == self.subscriptions@.len(),
                k <= n,
                *self == *old(self),
                forall|j: int| 0 <= j < k ==> self.subscriptions@[j].topic@ != topic@,
            decreases n - k,
        {
            if self.subscriptions[k].topic == *topic {
                proof {
                    lemma_subs_of_at(s0, topic@, k as int);
                }
                let ghost subs0 = s0[k as int].subs@;
                let subs_len = self.subscriptions[k].subs.len();
                let mut i: usize = 0;
                while i < subs_len
                    invariant
                        k < self.subscriptions@.len(),
                        subs_len == self.subscriptions@[k as int].subs@.len(),
                        i <= subs_len,
                        *self == *old(self),
                        self.subscriptions@[k as int].subs@ == subs0,
                        self.subscriptions@[k as int].topic@ == topic@,
                        forall|j: int| 0 <= j < i ==> subs0[j].handler@ != handler@,
                    decreases subs_len - i,
                {
                    if self.subscriptions[k].subs[i].handler == *handler {
                        proof {
                            lemma_remove_sub_split(subs0, handler@, i as int);
                        }
                        let mut new_subs: Vec<Subscription> = Vec::new();
                        let mut j: usize = 0;
                        while j < subs_len
                            invariant
                                i < subs_len,
                                k < self.subscriptions@.len(),
                                subs_len == self.subscriptions@[k as int].subs@.len(),
                                j <= subs_len,
                                *self == *old(self),
                                self.subscriptions@[k as int].subs@ == subs0,
                                new_subs@ =~= (if j <= i {
                                    subs0.subrange(0, j as int)
                                } else {
                                    subs0.subrange(0, i as int) + subs0.subrange(
                                        i as int + 1,
                                        j as int,
                                    )
                                }),
                            decreases subs_len - j,
                        {
                            if j != i {
                                new_subs.push(self.subscriptions[k].subs[j].clone());
                            }
                            proof {
                                if j + 1 <= i {
                                    assert(new_subs@ =~= subs0.subrange(0, j as int + 1));
                                } else {
                                    assert(new_subs@ =~= subs0.subrange(0, i as int)
                                        + subs0.subrange(i as int + 1, j as int + 1));
                                }
                            }
                            j += 1;
                        }
                        let e2 = TopicSubs { topic: topic.clone(), subs: new_subs };
                        self.subscriptions.set(k, e2);
                        proof {
                            let e2g = self.subscriptions@[k as int];
                            assert(e2g.subs@ =~= remove_sub(subs0, handler@));
                            assert forall|t: Seq<char>| true implies {
                                &&& (t == topic@ ==> subs_of(self.subscriptions@, t) == e2g.subs@)
                                &&& (t != topic@ ==> subs_of(self.subscriptions@, t) == subs_of(
                                    s0,
                                    t,
                                ))
                            } by {
                                lemma_subs_of_update(s0, k as int, e2g, t);
                                assert(self.subscriptions@ =~= s0.update(k as int, e2g));
                            }
                        }
                        return ;
                    }
                    i += 1;
                }
                proof {
                    lemma_remove_sub_absent(s0[k as int].subs@, handler@);
                }
                return ;
            }
            k += 1;
        }
        proof {
            lemma_subs_of_absent(s0, topic@);
        }
    }

    /// The handlers subscribed to `topic`, in delivery order: priority first,
    /// insertion order among equals.
    #[verifier::loop_isolation(false)]
    pub fn subscribers_for(&self, topic: &Topic) -> (r: Vec<HandlerId>)
        requires
            self.wf(),
        ensures
            r@.len() == self.topic_subs(topic@).len(),
            forall|i: int|
                0 <= i < r@.len() ==> r@[i]@ == self.topic_subs(topic@)[i].handler@,
    {
        let n = self.subscriptions.len();
        let mut k: usize = 0;
        while k < n
            invariant
                n == self.subscriptions@.len(),
                k <= n,
                forall|j: int| 0 <= j < k ==> self.subscriptions@[j].topic@ != topic@,
            decreases n - k,
        {
            if self.subscriptions[k].topic == *topic {
                proof {
                    lemma_subs_of_at(self.subscriptions@, topic@, k as int);
                }
                let subs_len = self.subscriptions[k].subs.len();
                let mut out: Vec<HandlerId> = Vec::new();
                let mut i: usize = 0;
                while i < subs_len
                    invariant
                        k < self.subscriptions@.len(),
                        subs_len == self.subscriptions@[k as int].subs@.len(),
                        i <= subs_len,
                        subs_of(self.subscriptions@, topic@) == self.subscriptions@[k as int].subs@,
                        out@.len() == i,
                        forall|j: int|
                            0 <= j < i ==> out@[j]@ == self.subscriptions@[k as int].subs@[j].handler@,
                    decreases subs_len - i,
                {
                    out.push(self.subscriptions[k].subs[i].handler.clone());
                    i += 1;
                }
                return out;
            }
            k += 1;
        }
        proof {
            lemma_subs_of_absent(self.subscriptions@, topic@);
        }
        Vec::new()
    }

    /// Whether any handler is registered at `endpoint`.
    #[verifier::loop_isolation(false)]
    pub fn is_endpoint_registered(&self, endpoint: &Endpoint) -> (r: bool)
        ensures
            r == (endpoint_handler(self.endpoints@, endpoint@) is Some),
    {
        let n = self.endpoints.len();
        let mut k: usize = 0;
        while k < n
            invariant
                n == self.endpoints@.len(),
                k <= n,
                forall|j: int| 0 <= j < k ==> self.endpoints@[j].0@ != endpoint@,
            decreases n - k,
        {
            if self.endpoints[k].0 == *endpoint {
                proof {
                    lemma_endpoint_handler_at(self.endpoints@, endpoint@, k as int);
                }
                return true;
            }
            k += 1;
        }
        proof {
            lemma_endpoint_handler_absent(self.endpoints@, endpoint@);
        }
        false
    }

    /// Registers the single handler of an endpoint. Registering a second
    /// handler at the same endpoint is a programmer error, excluded here:
    /// callers check with `is_endpoint_registered` first.
    pub fn register_endpoint(&mut self, endpoint: Endpoint, handler: HandlerId)
        requires
            old(self).wf(),
            endpoint_handler(old(self).endpoints@, endpoint@) is None,
        ensures
            final(self).wf(),
            final(self).subscriptions == old(self).subscriptions,
            final(self).correlations == old(self).correlations,
            final(self).endpoints@ == old(self).endpoints@.push((endpoint, handler)),
            endpoint_handler(final(self).endpoints@, endpoint@) == Some(handler),
    {
        let ghost s0 = self.endpoints@;
        proof {
            assert forall|j: int| 0 <= j < s0.len() implies s0[j].0@ != endpoint@ by {
                if s0[j].0@ == endpoint@ {
                    lemma_endpoint_match_found(s0, endpoint@, j);
                }
            }
        }
        self.endpoints.push((endpoint, handler));
        proof {
            lemma_endpoint_push_absent(s0, self.endpoints@[s0.len() as int]);
            assert(self.endpoints@ =~= s0.push(self.endpoints@[s0.len() as int]));
        }
    }

    /// The handler to deliver a point-to-point message at `endpoint` to, or
    /// `None`: the message is then dropped (logged by the runner), by design.
    #[verifier::loop_isolation(false)]
    pub fn send_any(&self, endpoint: &Endpoint) -> (r: Option<HandlerId>)
        ensures
            match r {
                Some(h) => endpoint_handler(self.endpoints@, endpoint@) matches Some(h2) && h2@
                    == h@,
                None => endpoint_handler(self.endpoints@, endpoint@) is None,
            },
    {
        let n = self.endpoints.len();
        let mut k: usize = 0;
        while k < n
            invariant
                n == self.endpoints@.len(),
                k <= n,
                forall|j: int| 0 <= j < k ==> self.endpoints@[j].0@ != endpoint@,
            decreases n - k,
        {
            if self.endpoints[k].0 == *endpoint {
                proof {
                    lemma_endpoint_handler_at(self.endpoints@, endpoint@, k as int);
                }
                return Some(self.endpoints[k].1.clone());
            }
            k += 1;
        }
        proof {
            lemma_endpoint_handler_absent(self.endpoints@, endpoint@);
        }
        None
    }

    /// Registers the one-shot handler for a request's response, keyed by the
    /// request's correlation id.
    #[verifier::loop_isolation(false)]
    pub fn register_response_handler(&mut self, correlation_id: Uuid4, handler: HandlerId) -> (r:
        Result<(), BusError>)
        requires
            old(self).wf(),
        ensures
            final(self).wf(),
            final(self).subscriptions == old(self).subscriptions,
            final(self).endpoints == old(self).endpoints,
            match r {
                Ok(()) => {
                    &&& !has_correlation(old(self).correlations@, correlation_id)
                    &&& final(self).correlations@ == old(self).correlations@.push(
                        (correlation_id, handler),
                    )
                },
                Err(e) => {
                    &&& e == BusError::DuplicateResponseHandler
                    &&& has_correlation(old(self).correlations@, correlation_id)
                    &&& *final(self) == *old(self)
                },
            },
    {
        let n = self.correlations.len();
        let mut k: usize = 0;
        while k < n
            invariant
                n == self.correlations@.len(),
                k <= n,
                *self == *old(self),
                forall|j: int| 0 <= j < k ==> self.correlations@[j].0 != correlation_id,
            decreases n - k,
        {
            if self.correlations[k].0 == correlation_id {
                return Err(BusError::DuplicateResponseHandler);
            }
            k += 1;
        }
        self.correlations.push((correlation_id, handler));
        Ok(())
    }

    /// Takes the response handler for a correlation id, removing the mapping:
    /// the response is delivered to exactly one handler, exactly once.
    #[verifier::loop_isolation(false)]
    pub fn take_response_handler(&mut self, correlation_id: Uuid4) -> (r: Option<HandlerId>)
        requires
            old(self).wf(),
        ensures
            final(self).wf(),
            final(self).subscriptions == old(self).subscriptions,
            final(self).endpoints == old(self).endpoints,
            match r {
                Some(h) => {
                    &&& exists|i: int|
                        0 <= i < old(self).correlations@.len() && old(self).correlations@[i] == (
                        correlation_id,
                        h,
                        ) && final(self).correlations@ == old(self).correlations@.subrange(0, i)
                            + old(self).correlations@.subrange(
                            i + 1,
                            old(self).correlations@.len() as int,
                        )
                    &&& !has_correlation(final(self).correlations@, correlation_id)
                },
                None => {
                    &&& !has_correlation(old(self).correlations@, correlation_id)
                    &&& *final(self) == *old(self)
                },
            },
    {
        let ghost s0 = self.correlations@;
        let n = self.correlations.len();
        let mut k: usize = 0;
        while k < n
            invariant
                n == self.correlations@.len(),
                k <= n,
                *self == *old(self),
                forall|j: int| 0 <= j < k ==> self.correlations@[j].0 != correlation_id,
            decreases n - k,
        {
            if self.correlations[k].0 == correlation_id {
                let (_, h) = self.correlations.remove(k);
                proof {
                    assert(self.correlations@ =~= s0.subrange(0, k as int) + s0.subrange(
                        k as int + 1,
                        s0.len() as int,
                    ));
                }
                return Some(h);
            }
            k += 1;
        }
        None
    }
}

proof fn lemma_endpoint_match_found(s: Seq<(Endpoint, HandlerId)>, e: Seq<char>, j: int)
    requires
        0 <= j < s.len(),
        s[j].0@ == e,
    ensures
        endpoint_handler(s, e) is Some,
    decreases j,
{
    if s[0].0@ == e {
    } else {
        lemma_endpoint_match_found(s.drop_first(), e, j - 1);
    }
}

proof fn lemma_endpoint_push_absent(s: Seq<(Endpoint, HandlerId)>, e: (Endpoint, HandlerId))
    requires
        forall|j: int| 0 <= j < s.len() ==> s[j].0@ != e.0@,
    ensures
        endpoint_handler(s.push(e), e.0@) == Some(e.1),
    decreases s.len(),
{
    if s.len() == 0 {
        assert(s.push(e)[0] == e);
    } else {
        assert(s.push(e).drop_first() =~= s.drop_first().push(e));
        lemma_endpoint_push_absent(s.drop_first(), e);
    }
}

} // verus!
