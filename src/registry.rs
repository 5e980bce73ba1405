//! The task registry: which crawl runs exist, and the results of those that finished.
//!
//! Entries are never removed. The registry itself is single-threaded; a process
//! that shares it between workers and pollers guards it with one lock, so that
//! each operation appears atomic.

use vstd::prelude::*;
use crate::report::{check_views, duplicate_all, CheckResult, CheckView};

verus! {

/// The state of one task.
pub enum TaskStatus {
    /// The crawl run is still going.
    Pending,
    /// The crawl run finished with these results.
    Ready(Vec<CheckResult>),
}

/// The mathematical value of a task's state.
pub enum StatusView {
    Pending,
    Ready(Seq<CheckView>),
}

impl View for TaskStatus {
    type V = StatusView;

    open spec fn view(&self) -> StatusView {
        match self {
            TaskStatus::Pending => StatusView::Pending,
            TaskStatus::Ready(r) => StatusView::Ready(check_views(r@)),
        }
    }
}

/// What polling a task finds.
pub enum PollResult {
    /// No task has this id.
    NotFound,
    /// The task's crawl run is still going.
    Pending,
    /// The task's crawl run finished with these results.
    Ready(Vec<CheckResult>),
}

/// The mathematical value of what polling finds.
pub enum PollView {
    NotFound,
    Pending,
    Ready(Seq<CheckView>),
}

impl View for PollResult {
    type V = PollView;

    open spec fn view(&self) -> PollView {
        match self {
            PollResult::NotFound => PollView::NotFound,
            PollResult::Pending => PollView::Pending,
            PollResult::Ready(r) => PollView::Ready(check_views(r@)),
        }
    }
}

/// What polling `id` finds in the registry whose contents are `m`.
pub open spec fn poll_of(m: Map<Seq<char>, StatusView>, id: Seq<char>) -> PollView {
    if !m.contains_key(id) {
        PollView::NotFound
    } else {
        match m[id] {
            StatusView::Pending => PollView::Pending,
            StatusView::Ready(r) => PollView::Ready(r),
        }
    }
}

struct TaskEntry {
    id: String,
    status: TaskStatus,
}

/// The tasks of this process, by id.
pub struct TaskRegistry {
    entries: Vec<TaskEntry>,
}

spec fn entries_map(es: Seq<TaskEntry>) -> Map<Seq<char>, StatusView>
    decreases es.len(),
{
    if es.len() == 0 {
        Map::empty()
    } else {
        entries_map(es.drop_last()).insert(es.last().id@, es.last().status@)
    }
}

spec fn ids_unique(es: Seq<TaskEntry>) -> bool {
    forall|a: int, b: int| 0 <= a < b < es.len() ==> es[a].id@ != es[b].id@
}

proof fn entries_map_lookup(es: Seq<TaskEntry>)
    requires
        ids_unique(es),
    ensures
        forall|k: Seq<char>|
            entries_map(es).contains_key(k) <==> exists|i: int| 0 <= i < es.len() && es[i].id@ == k,
        forall|i: int|
            0 <= i < es.len() ==> entries_map(es)[#[trigger] es[i].id@] == es[i].status@,
    decreases es.len(),
{
    if es.len() > 0 {
        let rest = es.drop_last();
        entries_map_lookup(rest);
        assert(entries_map(es) == entries_map(rest).insert(es.last().id@, es.last().status@));
        assert forall|k: Seq<char>|
            entries_map(es).contains_key(k) implies exists|i: int|
                0 <= i < es.len() && es[i].id@ == k by {
            if k != es.last().id@ {
                let i = choose|i: int| 0 <= i < rest.len() && rest[i].id@ == k;
                assert(es[i] == rest[i]);
            } else {
                assert(es[es.len() - 1].id@ == k);
            }
        }
        assert forall|k: Seq<char>|
            (exists|i: int| 0 <= i < es.len() && es[i].id@ == k) implies entries_map(es).contains_key(k) by {
            let i = choose|i: int| 0 <= i < es.len() && es[i].id@ == k;
            if i < es.len() - 1 {
                assert(es[i] == rest[i]);
            }
        }
        assert forall|i: int| 0 <= i < es.len() implies entries_map(es)[#[trigger] es[i].id@]
            == es[i].status@ by {
            if i < es.len() - 1 {
                assert(es[i] == rest[i]);
                assert(es[i].id@ != es[es.len() - 1].id@);
            }
        }
    }
}

impl View for TaskRegistry {
    type V = Map<Seq<char>, StatusView>;

    closed spec fn view(&self) -> Map<Seq<char>, StatusView> {
        entries_map(self.entries@)
    }
}

/// Relies on `uuid::Uuid::new_v4` for a random identifier, written in its
/// hyphenated form. Nothing is known of its value.
#[verifier::external_body]
fn fresh_task_id() -> (r: String) {
    uuid::Uuid::new_v4().to_string()
}

impl TaskRegistry {
    /// The invariant of the registry: no two entries share an id.
    pub closed spec fn wf(&self) -> bool {
        ids_unique(self.entries@)
    }

    /// An empty registry.
    pub fn new() -> (r: TaskRegistry)
        ensures
            r.wf(),
            r@ == Map::<Seq<char>, StatusView>::empty(),
    {
        TaskRegistry { entries: Vec::new() }
    }

    /// Where the entry with id `id` stands, if any.
    fn find(&self, id: &str) -> (r: Option<usize>)
        requires
            self.wf(),
        ensures
            match r {
                Some(i) => i < self.entries@.len() && self.entries@[i as int].id@ == id@,
                None => !self@.contains_key(id@),
            },
    {
        proof {
            entries_map_lookup(self.entries@);
        }
        let key: String = id.to_owned();
        let mut i: usize = 0;
        while i < self.entries.len()
            invariant
                i <= self.entries@.len(),
                key@ == id@,
                forall|j: int| 0 <= j < i ==> self.entries@[j].id@ != id@,
            decreases self.entries@.len() - i,
        {
            if self.entries[i].id == key {
                return Some(i);
            }
            i = i + 1;
        }
        None
    }

    /// Registers a pending task with id `id`, unless that id is taken; tells
    /// whether it did.
    pub fn insert_pending(&mut self, id: String) -> (r: bool)
        requires
            old(self).wf(),
        ensures
            final(self).wf(),
            r == !old(self)@.contains_key(id@),
            r ==> final(self)@ == old(self)@.insert(id@, StatusView::Pending),
            !r ==> final(self)@ == old(self)@,
    {
        proof {
            entries_map_lookup(self.entries@);
        }
        match self.find(id.as_str()) {
            Some(_) => false,
            None => {
                proof {
                    entries_map_lookup(self.entries@);
                }
                let ghost before = self.entries@;
                self.entries.push(TaskEntry { id, status: TaskStatus::Pending });
                proof {
                    assert(self.entries@.drop_last() =~= before);
                    assert forall|a: int, b: int|
                        0 <= a < b < self.entries@.len() implies self.entries@[a].id@
                        != self.entries@[b].id@ by {
                        if b == self.entries@.len() - 1 {
                            assert(before[a] == self.entries@[a]);
                        } else {
                            assert(before[a] == self.entries@[a] && before[b] == self.entries@[b]);
                        }
                    }
                }
                true
            },
        }
    }

    /// Creates a task under a fresh random id and registers it as pending.
    /// Returns the id, or `None` in the unlikely case that the id drawn was taken,
    /// with the registry unchanged. On an empty registry it always succeeds.
    pub fn create(&mut self) -> (r: Option<String>)
        requires
            old(self).wf(),
        ensures
            final(self).wf(),
            match r {
                Some(id) => !old(self)@.contains_key(id@) && final(self)@ == old(self)@.insert(
                    id@,
                    StatusView::Pending,
                ),
                None => final(self)@ == old(self)@,
            },
            old(self)@ == Map::<Seq<char>, StatusView>::empty() ==> r is Some,
    {
        let id = fresh_task_id();
        let copy = id.clone();
        if self.insert_pending(id) {
            Some(copy)
        } else {
            None
        }
    }

    /// Records that the task `id` finished with `results`, whether or not it was
    /// registered before.
    pub fn complete(&mut self, id: &str, results: Vec<CheckResult>)
        requires
            old(self).wf(),
        ensures
            final(self).wf(),
            final(self)@ == old(self)@.insert(id@, StatusView::Ready(check_views(results@))),
    {
        match self.find(id) {
            Some(i) => {
                let ghost before = self.entries@;
                proof {
                    entries_map_lookup(before);
                }
                let old_id = self.entries[i].id.clone();
                self.entries.set(i, TaskEntry { id: old_id, status: TaskStatus::Ready(results) });
                proof {
                    let es = self.entries@;
                    assert forall|a: int, b: int| 0 <= a < b < es.len() implies es[a].id@ != es[b].id@ by {
                        assert(es[a].id@ == before[a].id@ && es[b].id@ == before[b].id@);
                    }
                    entries_map_lookup(es);
                    let target = before.len();
                    assert forall|k: Seq<char>| #[trigger] entries_map(es).contains_key(k) <==> entries_map(
                        before,
                    ).insert(id@, StatusView::Ready(check_views(results@))).contains_key(k) by {
                        if entries_map(before).contains_key(k) {
                            let j = choose|j: int| 0 <= j < before.len() && before[j].id@ == k;
                            assert(es[j].id@ == k);
                        }
                        if entries_map(es).contains_key(k) {
                            let j = choose|j: int| 0 <= j < es.len() && es[j].id@ == k;
                            assert(before[j].id@ == k);
                        }
                    }
                    assert forall|k: Seq<char>| #[trigger] entries_map(es).contains_key(k) implies entries_map(es)[k]
                        == entries_map(before).insert(
                        id@,
                        StatusView::Ready(check_views(results@)),
                    )[k] by {
                        let j = choose|j: int| 0 <= j < es.len() && es[j].id@ == k;
                        if j != i {
                            assert(before[j] == es[j]);
                        }
                    }
                    assert(entries_map(es) =~= entries_map(before).insert(
                        id@,
                        StatusView::Ready(check_views(results@)),
                    ));
                }
            },
            None => {
                proof {
                    entries_map_lookup(self.entries@);
                }
                let ghost before = self.entries@;
                self.entries.push(TaskEntry { id: id.to_owned(), status: TaskStatus::Ready(results) });
                proof {
                    assert(self.entries@.drop_last() =~= before);
                    assert forall|a: int, b: int|
                        0 <= a < b < self.entries@.len() implies self.entries@[a].id@
                        != self.entries@[b].id@ by {
                        if b == self.entries@.len() - 1 {
                            assert(before[a] == self.entries@[a]);
                        } else {
                            assert(before[a] == self.entries@[a] && before[b] == self.entries@[b]);
                        }
                    }
                }
            },
        }
    }

    /// What the registry holds for `id`.
    pub fn poll(&self, id: &str) -> (r: PollResult)
        requires
            self.wf(),
        ensures
            r@ == poll_of(self@, id@),
    {
        proof {
            entries_map_lookup(self.entries@);
        }
        match self.find(id) {
            None => PollResult::NotFound,
            Some(i) => match &self.entries[i].status {
                TaskStatus::Pending => PollResult::Pending,
                TaskStatus::Ready(results) => PollResult::Ready(duplicate_all(results)),
            },
        }
    }
}

/// Polling an id that no task has finds nothing: never a stale or default result.
pub proof fn unknown_task_not_found(m: Map<Seq<char>, StatusView>, id: Seq<char>)
    requires
        !m.contains_key(id),
    ensures
        poll_of(m, id) == PollView::NotFound,
{
}

/// A task polled right after its creation is pending; once completed it is
/// ready with exactly the results it was completed with, and stays so while
/// other tasks are created or completed.
pub proof fn poll_follows_task_lifecycle(
    m: Map<Seq<char>, StatusView>,
    id: Seq<char>,
    results: Seq<CheckView>,
    other: Seq<char>,
    other_status: StatusView,
)
    requires
        !m.contains_key(id),
        other != id,
    ensures
        poll_of(m.insert(id, StatusView::Pending), id) == PollView::Pending,
        poll_of(m.insert(id, StatusView::Pending).insert(id, StatusView::Ready(results)), id)
            == PollView::Ready(results),
        poll_of(
            m.insert(id, StatusView::Pending).insert(id, StatusView::Ready(results)).insert(
                other,
                other_status,
            ),
            id,
        ) == PollView::Ready(results),
{
}

} // verus!
