use vstd::prelude::*;

use crate::error::AppError;
use crate::text::{is_blank, is_blank_spec};

verus! {

/// A persisted task record.
#[derive(Debug, Clone)]
pub struct Task {
    pub id: i64,
    pub title: String,
    pub completed: bool,
    pub created_at: String,
}

/// The mathematical value of a task.
pub struct TaskView {
    pub id: i64,
    pub title: Seq<char>,
    pub completed: bool,
    pub created_at: Seq<char>,
}

impl View for Task {
    type V = TaskView;

    open spec fn view(&self) -> TaskView {
        TaskView {
            id: self.id,
            title: self.title@,
            completed: self.completed,
            created_at: self.created_at@,
        }
    }
}

impl Task {
    /// A task equal to this one, field by field.
    pub fn snapshot(&self) -> (r: Task)
        ensures
            r@ == self@,
    {
        Task {
            id: self.id,
            title: self.title.clone(),
            completed: self.completed,
            created_at: self.created_at.clone(),
        }
    }
}

/// The body of a create request.
pub struct CreateTask {
    pub title: String,
}

/// The body of an update request: each field is optional.
pub struct UpdateTask {
    pub title: Option<String>,
    pub completed: Option<bool>,
}

/// The title a create request carries, if it is acceptable.
pub fn validate_create(payload: &CreateTask) -> (r: Result<(), AppError>)
    ensures
        r is Ok <==> !is_blank_spec(payload.title@),
        r is Err ==> r->Err_0 is BadRequest,
{
    if is_blank(payload.title.as_str()) {
        Err(AppError::BadRequest("title cannot be empty".to_owned()))
    } else {
        Ok(())
    }
}

/// Only a supplied title is checked, and only for being non-empty; an
/// omitted one is left alone.
pub open spec fn update_is_valid(payload: UpdateTask) -> bool {
    match payload.title {
        Some(t) => t@.len() > 0,
        None => true,
    }
}

pub fn validate_update(payload: &UpdateTask) -> (r: Result<(), AppError>)
    ensures
        r is Ok <==> update_is_valid(*payload),
        r is Err ==> r->Err_0 is BadRequest,
{
    match &payload.title {
        Some(t) => {
            if t.as_str().is_empty() {
                Err(AppError::BadRequest("title cannot be empty".to_owned()))
            } else {
                Ok(())
            }
        },
        None => Ok(()),
    }
}

/// The record an update writes back: each supplied field replaces the
/// current one, each omitted field keeps the current value.
pub open spec fn merged(cur: TaskView, payload: UpdateTask) -> TaskView {
    TaskView {
        id: cur.id,
        title: match payload.title {
            Some(t) => t@,
            None => cur.title,
        },
        completed: match payload.completed {
            Some(c) => c,
            None => cur.completed,
        },
        created_at: cur.created_at,
    }
}

pub fn merge_update(current: &Task, payload: &UpdateTask) -> (r: Task)
    ensures
        r@ == merged(current@, *payload),
{
    let title = match &payload.title {
        Some(t) => t.clone(),
        None => current.title.clone(),
    };
    let completed = match payload.completed {
        Some(c) => c,
        None => current.completed,
    };
    Task { id: current.id, title, completed, created_at: current.created_at.clone() }
}

/// The index of the row with id `id`, or -1 when there is none.
pub open spec fn position(rows: Seq<TaskView>, id: i64) -> int
    decreases rows.len(),
{
    if rows.len() == 0 {
        -1
    } else if rows.last().id == id {
        rows.len() - 1
    } else {
        position(rows.drop_last(), id)
    }
}

/// The row with id `id`, if there is one.
pub open spec fn find(rows: Seq<TaskView>, id: i64) -> Option<TaskView> {
    if position(rows, id) >= 0 {
        Some(rows[position(rows, id)])
    } else {
        None
    }
}

/// Ids grow strictly along the rows.
pub open spec fn ids_increasing(rows: Seq<TaskView>) -> bool {
    forall|i: int, j: int| 0 <= i < j < rows.len() ==> rows[i].id < rows[j].id
}

pub proof fn lemma_position(rows: Seq<TaskView>, id: i64)
    ensures
        -1 <= position(rows, id) < rows.len(),
        position(rows, id) == -1 <==> forall|i: int| 0 <= i < rows.len() ==> rows[i].id != id,
        position(rows, id) >= 0 ==> rows[position(rows, id)].id == id,
    decreases rows.len(),
{
    if rows.len() > 0 && rows.last().id != id {
        lemma_position(rows.drop_last(), id);
        assert forall|i: int| 0 <= i < rows.len() - 1 implies rows[i] == rows.drop_last()[i] by {}
    }
}

/// With ids unique, the row found for an id is the one at index `i` that
/// carries it.
pub proof fn lemma_position_at(rows: Seq<TaskView>, i: int)
    requires
        ids_increasing(rows),
        0 <= i < rows.len(),
    ensures
        position(rows, rows[i].id) == i,
{
    lemma_position(rows, rows[i].id);
}

/// The rows returned by a listing: newest first.
pub open spec fn listed(rows: Seq<TaskView>) -> Seq<TaskView> {
    rows.reverse()
}

/// An in-memory model of the task table: rows in order of creation, and the
/// id the next row gets. It holds the semantics of the store that the
/// contracts speak of; a deployment keeps the rows in a database.
pub struct TaskStore {
    tasks: Vec<Task>,
    next_id: i64,
}

impl TaskStore {
    pub closed spec fn rows(&self) -> Seq<TaskView> {
        self.tasks@.map_values(|t: Task| t@)
    }

    pub closed spec fn next_id(&self) -> i64 {
        self.next_id
    }

    proof fn lemma_rows(&self)
        ensures
            self.rows().len() == self.tasks@.len(),
            forall|i: int| 0 <= i < self.tasks@.len() ==> #[trigger] self.rows()[i] == self.tasks@[i]@,
    {
    }

    /// Ids are unique and ascending, every id was handed out before the next
    /// one, and every stored title is non-empty.
    pub open spec fn wf(&self) -> bool {
        &&& ids_increasing(self.rows())
        &&& 1 <= self.next_id()
        &&& forall|i: int| 0 <= i < self.rows().len() ==> 1 <= #[trigger] self.rows()[i].id < self.next_id()
        &&& forall|i: int| 0 <= i < self.rows().len() ==> #[trigger] self.rows()[i].title.len() > 0
    }

    pub fn new() -> (r: TaskStore)
        ensures
            r.wf(),
            r.rows() == Seq::<TaskView>::empty(),
            r.next_id() == 1,
    {
        let r = TaskStore { tasks: Vec::new(), next_id: 1 };
        assert(r.rows() =~= Seq::<TaskView>::empty());
        r
    }

    /// Inserts a task with the given title, not completed, under a fresh id.
    pub fn create(&mut self, payload: &CreateTask, created_at: &str) -> (r: Result<Task, AppError>)
        requires
            old(self).wf(),
        ensures
            final(self).wf(),
            is_blank_spec(payload.title@) ==> r is Err && r->Err_0 is BadRequest,
            !is_blank_spec(payload.title@) && old(self).next_id() < i64::MAX ==> r is Ok,
            r is Err ==> *final(self) == *old(self),
            r is Err ==> r->Err_0 is BadRequest || r->Err_0 is Internal,
            r is Err && r->Err_0 is BadRequest ==> is_blank_spec(payload.title@),
            !is_blank_spec(payload.title@) && old(self).next_id() == i64::MAX ==> r is Err && r->Err_0 is Internal,
            r is Ok ==> {
                let t = r->Ok_0@;
                &&& t.id == old(self).next_id()
                &&& t.title == payload.title@
                &&& !t.completed
                &&& t.created_at == created_at@
                &&& find(old(self).rows(), t.id) is None
                &&& final(self).rows() == old(self).rows().push(t)
                &&& final(self).next_id() == old(self).next_id() + 1
            },
    {
        validate_create(payload)?;
        if self.next_id == i64::MAX {
            return Err(AppError::Internal("no task id left".to_owned()));
        }
        let t = Task {
            id: self.next_id,
            title: payload.title.clone(),
            completed: false,
            created_at: created_at.to_owned(),
        };
        let ghost before = self.rows();
        proof {
            lemma_position(before, t.id);
            self.lemma_rows();
        }
        self.tasks.push(t.snapshot());
        self.next_id = self.next_id + 1;
        proof {
            self.lemma_rows();
        }
        assert(self.rows() =~= before.push(t@));
        Ok(t)
    }

    /// All tasks, newest first.
    pub fn list(&self) -> (r: Vec<Task>)
        requires
            self.wf(),
        ensures
            r@.map_values(|t: Task| t@) == listed(self.rows()),
            forall|i: int, j: int| 0 <= i < j < r@.len() ==> r@[i].id > r@[j].id,
    {
        proof {
            self.lemma_rows();
        }
        let n = self.tasks.len();
        let mut out: Vec<Task> = Vec::new();
        let mut k: usize = n;
        while k > 0
            invariant
                k <= n,
                n == self.tasks@.len(),
                out@.len() == n - k,
                forall|i: int| 0 <= i < out@.len() ==> #[trigger] out@[i]@ == self.rows()[n - 1 - i],
            decreases k,
        {
            k = k - 1;
            out.push(self.tasks[k].snapshot());
        }
        assert(out@.map_values(|t: Task| t@) =~= listed(self.rows()));
        assert forall|i: int, j: int| 0 <= i < j < out@.len() implies out@[i].id > out@[j].id by {
            assert(out@[i]@ == self.rows()[n - 1 - i]);
            assert(out@[j]@ == self.rows()[n - 1 - j]);
        }
        out
    }

    /// The task with id `id`.
    pub fn get(&self, id: i64) -> (r: Result<Task, AppError>)
        requires
            self.wf(),
        ensures
            match find(self.rows(), id) {
                Some(t) => r is Ok && r->Ok_0@ == t,
                None => r == Err::<Task, AppError>(AppError::NotFound),
            },
    {
        proof {
            self.lemma_rows();
        }
        match self.index_of(id) {
            Some(i) => Ok(self.tasks[i].snapshot()),
            None => Err(AppError::NotFound),
        }
    }

    fn index_of(&self, id: i64) -> (r: Option<usize>)
        requires
            self.wf(),
        ensures
            match r {
                Some(i) => position(self.rows(), id) == i && i < self.tasks@.len(),
                None => position(self.rows(), id) == -1,
            },
    {
        proof {
            self.lemma_rows();
        }
        let mut i: usize = 0;
        while i < self.tasks.len()
            invariant
                self.wf(),
                self.rows().len() == self.tasks@.len(),
                i <= self.tasks@.len(),
                forall|j: int| 0 <= j < i ==> #[trigger] self.rows()[j].id != id,
            decreases self.tasks@.len() - i,
        {
            if self.tasks[i].id == id {
                proof {
                    lemma_position_at(self.rows(), i as int);
                }
                return Some(i);
            }
            i = i + 1;
        }
        proof {
            lemma_position(self.rows(), id);
        }
        None
    }

    /// Replaces the supplied fields of the task with id `id`.
    pub fn update(&mut self, id: i64, payload: &UpdateTask) -> (r: Result<Task, AppError>)
        requires
            old(self).wf(),
        ensures
            final(self).wf(),
            final(self).next_id() == old(self).next_id(),
            !update_is_valid(*payload) ==> r is Err && r->Err_0 is BadRequest,
            update_is_valid(*payload) && find(old(self).rows(), id) is None ==> r == Err::<
                Task,
                AppError,
            >(AppError::NotFound),
            r is Err ==> *final(self) == *old(self),
            update_is_valid(*payload) && find(old(self).rows(), id) is Some ==> {
                let p = position(old(self).rows(), id);
                let t = merged(old(self).rows()[p], *payload);
                &&& r is Ok
                &&& r->Ok_0@ == t
                &&& final(self).rows() == old(self).rows().update(p, t)
            },
    {
        proof {
            self.lemma_rows();
        }
        validate_update(payload)?;
        match self.index_of(id) {
            None => Err(AppError::NotFound),
            Some(i) => {
                let t = merge_update(&self.tasks[i], payload);
                let ghost before = self.rows();
                self.tasks.set(i, t.snapshot());
                proof {
                    self.lemma_rows();
                    lemma_position(before, id);
                }
                assert(self.rows() =~= before.update(i as int, t@));
                Ok(t)
            },
        }
    }

    /// Removes the task with id `id`.
    pub fn delete(&mut self, id: i64) -> (r: Result<(), AppError>)
        requires
            old(self).wf(),
        ensures
            final(self).wf(),
            final(self).next_id() == old(self).next_id(),
            find(old(self).rows(), id) is None ==> r == Err::<(), AppError>(AppError::NotFound)
                && *final(self) == *old(self),
            find(old(self).rows(), id) is Some ==> r is Ok && final(self).rows()
                == old(self).rows().remove(position(old(self).rows(), id)),
    {
        proof {
            self.lemma_rows();
        }
        match self.index_of(id) {
            None => Err(AppError::NotFound),
            Some(i) => {
                let ghost before = self.rows();
                self.tasks.remove(i);
                proof {
                    self.lemma_rows();
                }
                assert(self.rows() =~= before.remove(i as int));
                Ok(())
            },
        }
    }
}

} // verus!

verus! {

/// A task just created is found again under its id, with the same title and
/// completion state.
pub proof fn lemma_get_after_create(before: TaskStore, after: TaskStore, t: TaskView)
    requires
        after.rows() == before.rows().push(t),
    ensures
        find(after.rows(), t.id) == Some(t),
{
}

/// An update that supplies only `completed = true` keeps the title and marks
/// the task done.
pub proof fn lemma_complete_keeps_title(cur: TaskView, payload: UpdateTask)
    requires
        payload.title is None,
        payload.completed == Some(true),
    ensures
        merged(cur, payload).title == cur.title,
        merged(cur, payload).completed,
        merged(cur, payload).id == cur.id,
{
}

/// Once the row of an id is removed, no row carries that id any more.
pub proof fn lemma_delete_then_absent(before: TaskStore, after: TaskStore, id: i64)
    requires
        before.wf(),
        find(before.rows(), id) is Some,
        after.rows() == before.rows().remove(position(before.rows(), id)),
    ensures
        find(after.rows(), id) is None,
{
    let rows = before.rows();
    lemma_position(rows, id);
    let p = position(rows, id);
    lemma_position(after.rows(), id);
    assert forall|i: int| 0 <= i < after.rows().len() implies after.rows()[i].id != id by {
        if i < p {
            assert(after.rows()[i] == rows[i]);
        } else {
            assert(after.rows()[i] == rows[i + 1]);
        }
    }
}

} // verus!
