use vstd::prelude::*;
use crate::error::NodeError;
use tokio::task::JoinHandle;

verus! {

#[verifier::external_type_specification]
#[verifier::external_body]
#[verifier::reject_recursive_types(T)]
pub struct ExJoinHandle<T>(JoinHandle<T>);

// Awaiting a `JoinHandle` yields a `JoinError`; the handle's type cannot be
// declared before this one is.
#[verifier::external_type_specification]
#[verifier::external_body]
pub struct ExJoinError(tokio::task::JoinError);

/// Relies on tokio's `JoinHandle::is_finished`: a non-blocking look at
/// whether the task has completed. The answer depends on timing, so
/// nothing is promised of it.
#[verifier::external_body]
fn task_finished<T>(handle: &JoinHandle<T>) -> (r: bool) {
    handle.is_finished()
}

/// Relies on tokio's `JoinHandle::abort`: asks the runtime to cancel the
/// task, without waiting for it.
#[verifier::external_body]
fn abort_task<T>(handle: &JoinHandle<T>) {
    handle.abort()
}

/// One listening task, under the topic it listens on.
#[verifier::reject_recursive_types(T)]
pub struct TopicTask<T> {
    pub topic: String,
    pub handle: JoinHandle<T>,
}

/// The listening tasks of one subscriber, at most one per topic.
///
/// `tasks()` is every task with its topic, in the order in which the topics
/// were registered; the view is the sequence of those topics.
#[verifier::reject_recursive_types(T)]
pub struct SubscriptionMap<T> {
    entries: Vec<TopicTask<T>>,
}

/// The topics of a list of tasks, in order.
pub open spec fn topics_of<T>(entries: Seq<TopicTask<T>>) -> Seq<Seq<char>> {
    entries.map_values(|e: TopicTask<T>| e.topic@)
}

impl<T> SubscriptionMap<T> {
    /// Every tracked task with its topic, in order.
    pub closed spec fn tasks(&self) -> Seq<TopicTask<T>> {
        self.entries@
    }

    /// No topic has two tasks.
    pub open spec fn wf(&self) -> bool {
        self@.no_duplicates()
    }
}

impl<T> View for SubscriptionMap<T> {
    type V = Seq<Seq<char>>;

    open spec fn view(&self) -> Seq<Seq<char>> {
        topics_of(self.tasks())
    }
}

/// `i` is where `x` first occurs in `s`.
pub open spec fn first_at(s: Seq<Seq<char>>, x: Seq<char>, i: int) -> bool {
    &&& 0 <= i < s.len()
    &&& s[i] == x
    &&& forall|j: int| 0 <= j < i ==> s[j] != x
}

/// Where `x` first occurs in `s`.
pub open spec fn first_index(s: Seq<Seq<char>>, x: Seq<char>) -> int {
    choose|i: int| first_at(s, x, i)
}

/// Whether a new task may be registered on `topic`: either it has no task,
/// or its task has finished.
pub open spec fn registration_allowed(topics: Seq<Seq<char>>, topic: Seq<char>, finished: bool) -> bool {
    !topics.contains(topic) || finished
}

/// The tasks once a registration on `topic` has been decided: the entry of
/// a finished task is reaped, and every other entry stays as it was.
pub open spec fn tasks_after_settle<T>(
    tasks: Seq<TopicTask<T>>,
    topic: Seq<char>,
    finished: bool,
) -> Seq<TopicTask<T>> {
    if topics_of(tasks).contains(topic) && finished {
        tasks.remove(first_index(topics_of(tasks), topic))
    } else {
        tasks
    }
}

/// The tasks once `handle` is recorded under `topic`: the entry of that
/// topic gets the new handle, or a new entry is appended; every other entry
/// stays as it was.
pub open spec fn tasks_after_insert<T>(
    tasks: Seq<TopicTask<T>>,
    topic: String,
    handle: JoinHandle<T>,
) -> Seq<TopicTask<T>> {
    let topics = topics_of(tasks);
    if topics.contains(topic@) {
        let i = first_index(topics, topic@);
        tasks.update(i, TopicTask { topic: tasks[i].topic, handle })
    } else {
        tasks.push(TopicTask { topic, handle })
    }
}

/// `first_index` is the first occurrence of any topic in the sequence.
pub proof fn lemma_first_index(s: Seq<Seq<char>>, x: Seq<char>)
    requires
        s.contains(x),
    ensures
        first_at(s, x, first_index(s, x)),
        forall|i: int| first_at(s, x, i) ==> i == first_index(s, x),
{
    s.index_of_first_ensures(x);
    let k = s.index_of_first(x)->0;
    assert(first_at(s, x, k));
    let f = first_index(s, x);
    assert forall|i: int| first_at(s, x, i) implies i == f by {
        if i < f {
            assert(s[i] != x);
        } else if f < i {
            assert(s[f] != x);
        }
    }
}

proof fn lemma_topics_remove<T>(ts: Seq<TopicTask<T>>, i: int)
    requires
        0 <= i < ts.len(),
    ensures
        topics_of(ts.remove(i)) == topics_of(ts).remove(i),
{
    assert(topics_of(ts.remove(i)) =~= topics_of(ts).remove(i));
}

proof fn lemma_topics_push<T>(ts: Seq<TopicTask<T>>, e: TopicTask<T>)
    ensures
        topics_of(ts.push(e)) == topics_of(ts).push(e.topic@),
{
    assert(topics_of(ts.push(e)) =~= topics_of(ts).push(e.topic@));
}

proof fn lemma_topics_update<T>(ts: Seq<TopicTask<T>>, i: int, e: TopicTask<T>)
    requires
        0 <= i < ts.len(),
        e.topic == ts[i].topic,
    ensures
        topics_of(ts.update(i, e)) == topics_of(ts),
{
    assert(topics_of(ts.update(i, e)) =~= topics_of(ts));
}

impl<T> SubscriptionMap<T> {
    /// An empty map.
    pub fn new() -> (r: Self)
        ensures
            r.tasks() == Seq::<TopicTask<T>>::empty(),
            r@ == Seq::<Seq<char>>::empty(),
            r.wf(),
    {
        let r = SubscriptionMap { entries: Vec::new() };
        proof {
            assert(r@ =~= Seq::<Seq<char>>::empty());
        }
        r
    }

    /// The number of tracked tasks.
    pub fn len(&self) -> (r: usize)
        ensures
            r == self@.len(),
    {
        self.entries.len()
    }

    /// Where `topic` first stands in the map, if it has a task.
    pub fn find(&self, topic: &str) -> (r: Option<usize>)
        ensures
            r is None <==> !self@.contains(topic@),
            r is Some ==> first_at(self@, topic@, r->0 as int),
    {
        let key = topic.to_owned();
        let mut i: usize = 0;
        while i < self.entries.len()
            invariant
                i <= self.entries@.len(),
                key@ == topic@,
                forall|j: int| 0 <= j < i ==> self@[j] != topic@,
            decreases self.entries@.len() - i,
        {
            if self.entries[i].topic == key {
                proof {
                    assert(self@[i as int] == self.entries@[i as int].topic@);
                }
                return Some(i);
            }
            i = i + 1;
        }
        None
    }

    /// The topics that have a task, in order.
    pub fn topics(&self) -> (r: Vec<String>)
        ensures
            r@.map_values(|s: String| s@) == self@,
    {
        let mut r: Vec<String> = Vec::new();
        let mut i: usize = 0;
        while i < self.entries.len()
            invariant
                i <= self.entries@.len(),
                r@.map_values(|s: String| s@) == self@.take(i as int),
            decreases self.entries@.len() - i,
        {
            let ghost prev = r@;
            let t = self.entries[i].topic.clone();
            r.push(t);
            proof {
                assert(self@[i as int] == self.entries@[i as int].topic@);
                assert(r@ == prev.push(t));
                assert(r@.map_values(|s: String| s@) =~= prev.map_values(|s: String| s@).push(t@));
                assert(self@.take(i + 1) =~= self@.take(i as int).push(self@[i as int]));
            }
            i = i + 1;
        }
        proof {
            assert(self@.take(i as int) =~= self@);
        }
        r
    }

    /// Decides a registration on `topic` once it is known whether the task
    /// already there has finished. With no task on `topic` nothing changes
    /// and the answer is `Ok`. A task that is still running makes the answer
    /// `ReceiveError` and stays, as every other entry does. A finished one
    /// is removed, alone, and the answer is `Ok`.
    pub fn settle(&mut self, topic: &str, finished: bool) -> (r: Result<(), NodeError>)
        requires
            old(self).wf(),
        ensures
            r is Ok == registration_allowed(old(self)@, topic@, finished),
            r is Err ==> (r matches Err(NodeError::ReceiveError)),
            final(self).tasks() == tasks_after_settle(old(self).tasks(), topic@, finished),
            final(self).wf(),
            r is Ok ==> !final(self)@.contains(topic@),
    {
        match self.find(topic) {
            None => Ok(()),
            Some(i) => {
                if finished {
                    let ghost before = self.entries@;
                    let _gone = self.entries.remove(i);
                    proof {
                        lemma_first_index(old(self)@, topic@);
                        lemma_topics_remove(before, i as int);
                        lemma_remove_keeps_unique(topics_of(before), i as int);
                    }
                    Ok(())
                } else {
                    Err(NodeError::ReceiveError)
                }
            },
        }
    }

    /// Refuses a new task on `topic` while the task already there is still
    /// running, and removes its entry, alone, once it has finished. Whether
    /// it has finished is read from the runtime at the moment of the call.
    pub fn check_for_active_subscription(&mut self, topic: &str) -> (r: Result<(), NodeError>)
        requires
            old(self).wf(),
        ensures
            exists|finished: bool|
                r is Ok == registration_allowed(old(self)@, topic@, finished) && final(self).tasks()
                    == tasks_after_settle(old(self).tasks(), topic@, finished),
            !old(self)@.contains(topic@) ==> r is Ok && final(self).tasks() == old(self).tasks(),
            r is Err ==> (r matches Err(NodeError::ReceiveError)) && final(self).tasks() == old(
                self,
            ).tasks(),
            final(self).wf(),
            r is Ok ==> !final(self)@.contains(topic@),
    {
        let finished = match self.find(topic) {
            Some(i) => task_finished(&self.entries[i].handle),
            None => false,
        };
        self.settle(topic, finished)
    }

    /// Records `handle` as the task of `topic`. A task already there is
    /// replaced and handed back; otherwise the topic is appended. Every
    /// other entry stays as it was.
    pub fn insert(&mut self, topic: String, handle: JoinHandle<T>) -> (r: Option<JoinHandle<T>>)
        requires
            old(self).wf(),
        ensures
            final(self).tasks() == tasks_after_insert(old(self).tasks(), topic, handle),
            !old(self)@.contains(topic@) ==> r is None,
            old(self)@.contains(topic@) ==> r == Some(
                old(self).tasks()[first_index(old(self)@, topic@)].handle,
            ),
            final(self).wf(),
            final(self)@.contains(topic@),
    {
        let ghost key = topic;
        match self.find(topic.as_str()) {
            Some(i) => {
                let ghost before = self.entries@;
                let old_entry = self.entries.remove(i);
                let TopicTask { topic: t, handle: old_handle } = old_entry;
                self.entries.insert(i, TopicTask { topic: t, handle });
                proof {
                    lemma_first_index(old(self)@, key@);
                    assert(self.entries@ =~= before.update(
                        i as int,
                        TopicTask { topic: before[i as int].topic, handle },
                    ));
                    lemma_topics_update(
                        before,
                        i as int,
                        TopicTask { topic: before[i as int].topic, handle },
                    );
                    assert(self@[i as int] == key@);
                }
                Some(old_handle)
            },
            None => {
                let ghost before = self.entries@;
                self.entries.push(TopicTask { topic, handle });
                proof {
                    lemma_topics_push(before, TopicTask { topic: key, handle });
                    lemma_push_keeps_unique(topics_of(before), key@);
                    assert(self@[before.len() as int] == key@);
                }
                None
            },
        }
    }

    /// Asks the runtime to cancel every tracked task, each once, in order.
    /// Returns at once, without waiting for any task to stop; the tasks stay
    /// tracked.
    pub fn abort_all(&self) {
        let mut i: usize = 0;
        while i < self.entries.len()
            invariant
                i <= self.entries@.len(),
            decreases self.entries@.len() - i,
        {
            abort_task(&self.entries[i].handle);
            i = i + 1;
        }
    }

    /// Hands out every tracked task with its topic, in order, consuming the
    /// map.
    pub fn into_tasks(self) -> (r: Vec<TopicTask<T>>)
        ensures
            r@ == self.tasks(),
            topics_of(r@) == self@,
    {
        self.entries
    }
}

/// A topic with no task can be registered, and its entry holds the task it
/// was given; a second registration on it is then refused for as long as
/// that task has not finished, and the refusal changes no entry.
pub proof fn lemma_duplicate_registration_refused<T>(
    tasks: Seq<TopicTask<T>>,
    topic: String,
    handle: JoinHandle<T>,
    finished: bool,
)
    requires
        !topics_of(tasks).contains(topic@),
    ensures
        registration_allowed(topics_of(tasks), topic@, finished),
        tasks_after_settle(tasks, topic@, finished) == tasks,
        tasks_after_insert(tasks, topic, handle) == tasks.push(TopicTask { topic, handle }),
        !registration_allowed(topics_of(tasks_after_insert(tasks, topic, handle)), topic@, false),
        tasks_after_settle(tasks_after_insert(tasks, topic, handle), topic@, false)
            == tasks_after_insert(tasks, topic, handle),
{
    let e = TopicTask { topic, handle };
    lemma_topics_push(tasks, e);
    assert(topics_of(tasks).push(topic@)[tasks.len() as int] == topic@);
}

/// A topic whose task has finished can be registered again: the entry of
/// the finished task, and only it, is reaped, so that task's result is not
/// among the tasks any more; the new task is appended and is then the only
/// one on the topic, while every other entry keeps its task.
pub proof fn lemma_finished_topic_reaped<T>(
    tasks: Seq<TopicTask<T>>,
    topic: String,
    handle: JoinHandle<T>,
)
    requires
        topics_of(tasks).no_duplicates(),
        topics_of(tasks).contains(topic@),
    ensures
        registration_allowed(topics_of(tasks), topic@, true),
        tasks_after_settle(tasks, topic@, true) == tasks.remove(
            first_index(topics_of(tasks), topic@),
        ),
        !topics_of(tasks_after_settle(tasks, topic@, true)).contains(topic@),
        tasks_after_insert(tasks_after_settle(tasks, topic@, true), topic, handle) == tasks.remove(
            first_index(topics_of(tasks), topic@),
        ).push(TopicTask { topic, handle }),
        topics_of(
            tasks_after_insert(tasks_after_settle(tasks, topic@, true), topic, handle),
        ).no_duplicates(),
{
    let topics = topics_of(tasks);
    lemma_first_index(topics, topic@);
    let i = first_index(topics, topic@);
    lemma_remove_keeps_unique(topics, i);
    lemma_topics_remove(tasks, i);
    let r = tasks.remove(i);
    let e = TopicTask { topic, handle };
    lemma_topics_push(r, e);
    lemma_push_keeps_unique(topics_of(r), topic@);
}

proof fn lemma_remove_keeps_unique(s: Seq<Seq<char>>, i: int)
    requires
        s.no_duplicates(),
        0 <= i < s.len(),
    ensures
        s.remove(i).no_duplicates(),
        !s.remove(i).contains(s[i]),
{
    let r = s.remove(i);
    assert forall|a: int, b: int| 0 <= a < r.len() && 0 <= b < r.len() && a != b implies r[a]
        != r[b] by {
        let a2 = if a < i { a } else { a + 1 };
        let b2 = if b < i { b } else { b + 1 };
        assert(r[a] == s[a2]);
        assert(r[b] == s[b2]);
    }
    if r.contains(s[i]) {
        let k = choose|k: int| 0 <= k < r.len() && r[k] == s[i];
        let k2 = if k < i { k } else { k + 1 };
        assert(r[k] == s[k2]);
    }
}

proof fn lemma_push_keeps_unique(s: Seq<Seq<char>>, x: Seq<char>)
    requires
        s.no_duplicates(),
        !s.contains(x),
    ensures
        s.push(x).no_duplicates(),
{
    let r = s.push(x);
    assert forall|a: int, b: int| 0 <= a < r.len() && 0 <= b < r.len() && a != b implies r[a]
        != r[b] by {
        if a == s.len() as int {
            assert(s[b] == r[b]);
        } else if b == s.len() as int {
            assert(s[a] == r[a]);
        }
    }
}

} // verus!
