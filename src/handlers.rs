use vstd::prelude::*;

use crate::auth::{authorized, ensure_auth_at, header_view, AuthConfig, HttpMethod};
use crate::error::AppError;
use crate::task::{find, merged, position, update_is_valid, CreateTask, Task, TaskStore, TaskView, UpdateTask};
use crate::text::is_blank_spec;

verus! {

/// Whether the auth check lets a request through at time `now`.
pub open spec fn allowed(config: AuthConfig, method: HttpMethod, header: Option<&str>, now: i64) -> bool {
    authorized(config, method, header_view(header), now)
}

/// `POST /tasks` against the in-memory table: the auth check first, then the
/// insert.
pub fn create_task(
    config: &AuthConfig,
    header: Option<&str>,
    now: i64,
    store: &mut TaskStore,
    payload: &CreateTask,
    created_at: &str,
) -> (r: Result<Task, AppError>)
    requires
        old(store).wf(),
    ensures
        final(store).wf(),
        !allowed(*config, HttpMethod::Post, header, now) ==> r == Err::<Task, AppError>(AppError::Unauthorized),
        r is Err ==> *final(store) == *old(store),
        allowed(*config, HttpMethod::Post, header, now) ==> {
            &&& is_blank_spec(payload.title@) ==> r is Err && r->Err_0 is BadRequest
            &&& !is_blank_spec(payload.title@) && old(store).next_id() < i64::MAX ==> r is Ok
            &&& !is_blank_spec(payload.title@) && old(store).next_id() == i64::MAX ==> r is Err
                && r->Err_0 is Internal
        },
        r is Ok ==> {
            let t = r->Ok_0@;
            &&& t.id == old(store).next_id()
            &&& t.title == payload.title@
            &&& !t.completed
            &&& t.created_at == created_at@
            &&& find(old(store).rows(), t.id) is None
            &&& final(store).rows() == old(store).rows().push(t)
            &&& final(store).next_id() == old(store).next_id() + 1
        },
{
    ensure_auth_at(config, HttpMethod::Post, header, now)?;
    store.create(payload, created_at)
}

/// `GET /tasks` against the in-memory table: the auth check first, then
/// every task, newest first.
pub fn list_tasks(config: &AuthConfig, header: Option<&str>, now: i64, store: &TaskStore) -> (r: Result<
    Vec<Task>,
    AppError,
>)
    requires
        store.wf(),
    ensures
        allowed(*config, HttpMethod::Get, header, now) <==> r is Ok,
        r is Err ==> r == Err::<Vec<Task>, AppError>(AppError::Unauthorized),
        r is Ok ==> r->Ok_0@.map_values(|t: Task| t@) == store.rows().reverse(),
{
    ensure_auth_at(config, HttpMethod::Get, header, now)?;
    Ok(store.list())
}

/// `GET /tasks/{id}` against the in-memory table: the auth check first,
/// then the lookup.
pub fn get_task(config: &AuthConfig, header: Option<&str>, now: i64, store: &TaskStore, id: i64) -> (r:
    Result<Task, AppError>)
    requires
        store.wf(),
    ensures
        !allowed(*config, HttpMethod::Get, header, now) ==> r == Err::<Task, AppError>(AppError::Unauthorized),
        allowed(*config, HttpMethod::Get, header, now) ==> match find(store.rows(), id) {
            Some(t) => r is Ok && r->Ok_0@ == t,
            None => r == Err::<Task, AppError>(AppError::NotFound),
        },
{
    ensure_auth_at(config, HttpMethod::Get, header, now)?;
    store.get(id)
}

/// `PUT /tasks/{id}` against the in-memory table: the auth check first,
/// then the read, merge and write back.
pub fn update_task(
    config: &AuthConfig,
    header: Option<&str>,
    now: i64,
    store: &mut TaskStore,
    id: i64,
    payload: &UpdateTask,
) -> (r: Result<Task, AppError>)
    requires
        old(store).wf(),
    ensures
        final(store).wf(),
        final(store).next_id() == old(store).next_id(),
        !allowed(*config, HttpMethod::Put, header, now) ==> r == Err::<Task, AppError>(AppError::Unauthorized),
        r is Err ==> *final(store) == *old(store),
        allowed(*config, HttpMethod::Put, header, now) ==> {
            &&& !update_is_valid(*payload) ==> r is Err && r->Err_0 is BadRequest
            &&& update_is_valid(*payload) && find(old(store).rows(), id) is None ==> r == Err::<
                Task,
                AppError,
            >(AppError::NotFound)
            &&& update_is_valid(*payload) && find(old(store).rows(), id) is Some ==> {
                let p = position(old(store).rows(), id);
                &&& r is Ok
                &&& r->Ok_0@ == merged(old(store).rows()[p], *payload)
                &&& final(store).rows() == old(store).rows().update(p, r->Ok_0@)
            }
        },
{
    ensure_auth_at(config, HttpMethod::Put, header, now)?;
    store.update(id, payload)
}

/// `DELETE /tasks/{id}` against the in-memory table: the auth check first,
/// then the removal.
pub fn delete_task(config: &AuthConfig, header: Option<&str>, now: i64, store: &mut TaskStore, id: i64) -> (r:
    Result<(), AppError>)
    requires
        old(store).wf(),
    ensures
        final(store).wf(),
        final(store).next_id() == old(store).next_id(),
        !allowed(*config, HttpMethod::Delete, header, now) ==> r == Err::<(), AppError>(AppError::Unauthorized),
        r is Err ==> *final(store) == *old(store),
        allowed(*config, HttpMethod::Delete, header, now) ==> {
            &&& find(old(store).rows(), id) is None ==> r == Err::<(), AppError>(AppError::NotFound)
            &&& find(old(store).rows(), id) is Some ==> r is Ok && final(store).rows() == old(
                store,
            ).rows().remove(position(old(store).rows(), id))
        },
{
    ensure_auth_at(config, HttpMethod::Delete, header, now)?;
    store.delete(id)
}

/// The status of a successful create.
pub const STATUS_CREATED: u16 = 201;

/// The status of a successful list, get or update.
pub const STATUS_OK: u16 = 200;

/// The status of a successful delete.
pub const STATUS_NO_CONTENT: u16 = 204;

/// A task as a row of the store holds it: `completed` is kept as an integer.
pub fn task_from_row(id: i64, title: String, completed: i64, created_at: String) -> (r: Task)
    ensures
        r@ == (TaskView { id, title: title@, completed: completed != 0, created_at: created_at@ }),
{
    Task { id, title, completed: completed != 0, created_at }
}

/// The result of a lookup that may have found no row.
pub fn found(row: Option<Task>) -> (r: Result<Task, AppError>)
    ensures
        match row {
            Some(t) => r == Ok::<Task, AppError>(t),
            None => r == Err::<Task, AppError>(AppError::NotFound),
        },
{
    match row {
        Some(t) => Ok(t),
        None => Err(AppError::NotFound),
    }
}

/// The result of a removal that touched `rows_affected` rows.
pub fn removal_outcome(rows_affected: u64) -> (r: Result<(), AppError>)
    ensures
        rows_affected == 0 <==> r == Err::<(), AppError>(AppError::NotFound),
        rows_affected != 0 <==> r is Ok,
{
    if rows_affected == 0 {
        Err(AppError::NotFound)
    } else {
        Ok(())
    }
}

} // verus!
