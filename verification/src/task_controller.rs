//! The task service: create, update, and enumerate tasks, each scoped to the
//! authenticated identity and gated by ownership. The store is the in-memory
//! document model; the identity claims come in explicitly from the auth gate.

use vstd::prelude::*;
use crate::auth_middleware::Claims;
use crate::errors::ServiceError;
use crate::ids::{id_view, normal_id, normalize_id, valid_id};
use crate::store::{has_task_with_id, has_user_with_id, Store};
use crate::task_model::TaskView;
use crate::user_model::UserView;

verus! {

/// The body of a create or update request.
#[derive(Debug)]
pub struct TaskRequest {
    pub taskname: String,
    pub status: String,
}

/// The client-facing view of a task.
#[derive(Debug)]
pub struct TaskResponse {
    pub task_id: String,
    pub taskname: String,
    pub user_id: String,
    pub status: String,
}

impl View for TaskResponse {
    type V = TaskView;

    open spec fn view(&self) -> TaskView {
        TaskView {
            task_id: self.task_id@,
            taskname: self.taskname@,
            user_id: self.user_id@,
            status: self.status@,
        }
    }
}

/// The mathematical value of a reply list.
pub open spec fn responses_view(s: Seq<TaskResponse>) -> Seq<TaskView> {
    s.map_values(|t: TaskResponse| t@)
}

/// The index of a task holding `id`; meaningful when one exists (and unique
/// in a well-formed store).
pub open spec fn first_task_index(tasks: Seq<TaskView>, id: Seq<char>) -> int {
    choose|j: int| 0 <= j < tasks.len() && tasks[j].task_id == id
}

/// The reply list for the identifiers `ids`, in order: for each identifier
/// that resolves to a task, its view with `owner` as the user id; identifiers
/// that no longer resolve are omitted.
pub open spec fn collect_task_views(
    tasks: Seq<TaskView>,
    ids: Seq<Seq<char>>,
    owner: Seq<char>,
) -> Seq<TaskView>
    decreases ids.len(),
{
    if ids.len() == 0 {
        Seq::empty()
    } else {
        let rest = collect_task_views(tasks, ids.drop_last(), owner);
        let id = ids.last();
        if has_task_with_id(tasks, id) {
            rest.push(
                TaskView {
                    task_id: id,
                    taskname: tasks[first_task_index(tasks, id)].taskname,
                    user_id: owner,
                    status: tasks[first_task_index(tasks, id)].status,
                },
            )
        } else {
            rest
        }
    }
}


/// The creation input check: the error owed when the task name is empty.
pub fn create_input_error(taskname: &String) -> (r: Option<ServiceError>)
    ensures
        r == if taskname@.len() == 0 {
            Some(ServiceError::EmptyTaskName)
        } else {
            None::<ServiceError>
        },
{
    if taskname.as_str().is_empty() {
        Some(ServiceError::EmptyTaskName)
    } else {
        None
    }
}

/// The update input check: the error owed when the task id, name, or status
/// is empty.
pub fn update_input_error(task_id: &String, taskname: &String, status: &String) -> (r: Option<
    ServiceError,
>)
    ensures
        r == if task_id@.len() == 0 || taskname@.len() == 0 || status@.len() == 0 {
            Some(ServiceError::EmptyTaskFields)
        } else {
            None::<ServiceError>
        },
{
    if task_id.as_str().is_empty() || taskname.as_str().is_empty() || status.as_str().is_empty() {
        Some(ServiceError::EmptyTaskFields)
    } else {
        None
    }
}

/// The status a new task is stored with: "Pending" when the request left it
/// empty, the requested status otherwise.
pub fn default_status(status: String) -> (r: String)
    ensures
        r@ == if status@.len() == 0 {
            "Pending"@
        } else {
            status@
        },
{
    if status.as_str().is_empty() {
        "Pending".to_owned()
    } else {
        status
    }
}

/// The ownership gate: only the identity whose id is stored as the task's
/// owner may mutate it.
pub fn owner_may_update(task_owner: &String, claims_user_id: &String) -> (b: bool)
    ensures
        b == (task_owner@ == claims_user_id@),
{
    *task_owner == *claims_user_id
}

/// Task creation: rejects an empty name, defaults an empty status to
/// "Pending", persists the task owned by the identity, and then appends the
/// new identifier to the owner's task set. The task is persisted first, so
/// when the identity's id is malformed or matches no user record the task
/// exists but is not linked.
pub fn create_task(store: &mut Store, claims: &Claims, req: TaskRequest) -> (r: Result<
    TaskResponse,
    ServiceError,
>)
    requires
        old(store).wf(),
        old(store).next_id < u64::MAX,
    ensures
        final(store).wf(),
        r is Ok <==> (req.taskname@.len() > 0 && valid_id(claims.user_id@)),
        r == Err::<TaskResponse, ServiceError>(ServiceError::EmptyTaskName) <==> req.taskname@.len()
            == 0,
        r == Err::<TaskResponse, ServiceError>(ServiceError::InvalidUserIdFormat) <==> (
        req.taskname@.len() > 0 && !valid_id(claims.user_id@)),
        r == Err::<TaskResponse, ServiceError>(ServiceError::EmptyTaskName) ==> *final(store)
            == *old(store),
        req.taskname@.len() > 0 ==> ({
            let st = if req.status@.len() == 0 {
                "Pending"@
            } else {
                req.status@
            };
            &&& final(store).tasks_view() == old(store).tasks_view().push(
                TaskView {
                    task_id: id_view(old(store).next_id),
                    taskname: req.taskname@,
                    user_id: claims.user_id@,
                    status: st,
                },
            )
            &&& final(store).next_id == old(store).next_id + 1
        }),
        req.taskname@.len() > 0 && !(valid_id(claims.user_id@) && has_user_with_id(
            old(store).users_view(),
            normal_id(claims.user_id@),
        )) ==> final(store).users_view() == old(store).users_view(),
        req.taskname@.len() > 0 && valid_id(claims.user_id@) && has_user_with_id(
            old(store).users_view(),
            normal_id(claims.user_id@),
        ) ==> (exists|i: int|
            #![auto]
            0 <= i < old(store).users_view().len() && old(store).users_view()[i].user_id
                == normal_id(claims.user_id@) && final(store).users_view() == old(
                store,
            ).users_view().update(
                i,
                UserView {
                    tasks: old(store).users_view()[i].tasks.push(id_view(old(store).next_id)),
                    ..old(store).users_view()[i]
                },
            )),
        r matches Ok(resp) ==> ({
            let st = if req.status@.len() == 0 {
                "Pending"@
            } else {
                req.status@
            };
            resp@ == TaskView {
                task_id: id_view(old(store).next_id),
                taskname: req.taskname@,
                user_id: claims.user_id@,
                status: st,
            }
        }),
{
    match create_input_error(&req.taskname) {
        Some(e) => {
            return Err(e);
        },
        None => {},
    }
    let status = default_status(req.status);
    let task_id = store.insert_task(req.taskname.clone(), status.clone(), claims.user_id.clone());
    let norm = match normalize_id(claims.user_id.as_str()) {
        None => {
            return Err(ServiceError::InvalidUserIdFormat);
        },
        Some(n) => n,
    };
    match store.find_user_by_id(&norm) {
        Some(i) => {
            store.link_task_to_user(i, task_id.clone());
        },
        None => {},
    }
    Ok(
        TaskResponse {
            task_id,
            taskname: req.taskname,
            user_id: claims.user_id.clone(),
            status,
        },
    )
}

/// Task update: rejects empty inputs and a malformed identifier, requires
/// the task to exist, and lets only its owner replace its name and status;
/// the identifier and the owner never change.
pub fn update_task(store: &mut Store, claims: &Claims, task_id: &String, req: TaskRequest) -> (r:
    Result<TaskResponse, ServiceError>)
    requires
        old(store).wf(),
    ensures
        final(store).wf(),
        r is Err ==> *final(store) == *old(store),
        final(store).users_view() == old(store).users_view(),
        final(store).next_id == old(store).next_id,
        r == Err::<TaskResponse, ServiceError>(ServiceError::EmptyTaskFields) <==> (task_id@.len()
            == 0 || req.taskname@.len() == 0 || req.status@.len() == 0),
        r == Err::<TaskResponse, ServiceError>(ServiceError::InvalidTaskId) <==> (task_id@.len() > 0
            && req.taskname@.len() > 0 && req.status@.len() > 0 && !valid_id(task_id@)),
        r == Err::<TaskResponse, ServiceError>(ServiceError::TaskNotFound) <==> (task_id@.len() > 0
            && req.taskname@.len() > 0 && req.status@.len() > 0 && valid_id(task_id@)
            && !has_task_with_id(old(store).tasks_view(), normal_id(task_id@))),
        r == Err::<TaskResponse, ServiceError>(ServiceError::NotTaskOwner) <==> (task_id@.len() > 0
            && req.taskname@.len() > 0 && req.status@.len() > 0 && valid_id(task_id@) && (exists|
            j: int,
        |
            #![auto]
            0 <= j < old(store).tasks_view().len() && old(store).tasks_view()[j].task_id
                == normal_id(task_id@) && old(store).tasks_view()[j].user_id != claims.user_id@)),
        r is Err ==> (r == Err::<TaskResponse, ServiceError>(ServiceError::EmptyTaskFields) || r
            == Err::<TaskResponse, ServiceError>(ServiceError::InvalidTaskId) || r == Err::<
            TaskResponse,
            ServiceError,
        >(ServiceError::TaskNotFound) || r == Err::<TaskResponse, ServiceError>(
            ServiceError::NotTaskOwner,
        )),
        r matches Ok(resp) ==> (exists|j: int|
            #![auto]
            0 <= j < old(store).tasks_view().len() && old(store).tasks_view()[j].task_id
                == normal_id(task_id@) && old(store).tasks_view()[j].user_id == claims.user_id@
                && final(store).tasks_view() == old(store).tasks_view().update(
                j,
                TaskView {
                    taskname: req.taskname@,
                    status: req.status@,
                    ..old(store).tasks_view()[j]
                },
            ) && resp@ == TaskView {
                task_id: normal_id(task_id@),
                taskname: req.taskname@,
                user_id: claims.user_id@,
                status: req.status@,
            }),
{
    match update_input_error(task_id, &req.taskname, &req.status) {
        Some(e) => {
            return Err(e);
        },
        None => {},
    }
    let norm = match normalize_id(task_id.as_str()) {
        None => {
            return Err(ServiceError::InvalidTaskId);
        },
        Some(n) => n,
    };
    let j = match store.find_task_by_id(&norm) {
        None => {
            return Err(ServiceError::TaskNotFound);
        },
        Some(j) => j,
    };
    proof {
        assert forall|j2: int|
            0 <= j2 < store.tasks_view().len() && store.tasks_view()[j2].task_id
                == norm@ implies j2 == j as int by {
            if j2 != j as int {
                assert(store.tasks_view()[j2].task_id != store.tasks_view()[j as int].task_id);
            }
        }
    }
    if owner_may_update(&store.tasks[j].user_id, &claims.user_id) {
        store.set_task_fields(j, req.taskname.clone(), req.status.clone());
        Ok(
            TaskResponse {
                task_id: norm,
                taskname: req.taskname,
                user_id: claims.user_id.clone(),
                status: req.status,
            },
        )
    } else {
        Err(ServiceError::NotTaskOwner)
    }
}

/// Task enumeration for the identity: every identifier in the user's task
/// set, in the order it was appended, resolved to its task view; identifiers
/// that no longer resolve are skipped without failing the call.
pub fn all_for_user(store: &Store, claims: &Claims) -> (r: Result<Vec<TaskResponse>, ServiceError>)
    requires
        store.wf(),
    ensures
        r == Err::<Vec<TaskResponse>, ServiceError>(ServiceError::InvalidUserId) <==> !valid_id(
            claims.user_id@,
        ),
        r == Err::<Vec<TaskResponse>, ServiceError>(ServiceError::NoSuchUser) <==> (valid_id(
            claims.user_id@,
        ) && !has_user_with_id(store.users_view(), normal_id(claims.user_id@))),
        r is Err ==> (r == Err::<Vec<TaskResponse>, ServiceError>(ServiceError::InvalidUserId) || r
            == Err::<Vec<TaskResponse>, ServiceError>(ServiceError::NoSuchUser)),
        r is Ok <==> (valid_id(claims.user_id@) && has_user_with_id(
            store.users_view(),
            normal_id(claims.user_id@),
        )),
        r matches Ok(v) ==> (exists|i: int|
            #![auto]
            0 <= i < store.users_view().len() && store.users_view()[i].user_id == normal_id(
                claims.user_id@,
            ) && responses_view(v@) == collect_task_views(
                store.tasks_view(),
                store.users_view()[i].tasks,
                claims.user_id@,
            )),
{
    let norm = match normalize_id(claims.user_id.as_str()) {
        None => {
            return Err(ServiceError::InvalidUserId);
        },
        Some(n) => n,
    };
    let ui = match store.find_user_by_id(&norm) {
        None => {
            return Err(ServiceError::NoSuchUser);
        },
        Some(i) => i,
    };
    let ghost ids = store.users_view()[ui as int].tasks;
    let mut result: Vec<TaskResponse> = Vec::new();
    let n = store.users[ui].tasks.len();
    let mut k: usize = 0;
    proof {
        assert(responses_view(result@) =~= collect_task_views(
            store.tasks_view(),
            ids.take(0),
            claims.user_id@,
        ));
    }
    while k < n
        invariant
            store.wf(),
            ui < store.users_view().len(),
            ids == store.users_view()[ui as int].tasks,
            n == ids.len(),
            k <= n,
            responses_view(result@) == collect_task_views(
                store.tasks_view(),
                ids.take(k as int),
                claims.user_id@,
            ),
        decreases n - k,
    {
        let tid = &store.users[ui].tasks[k];
        assert(tid@ == ids[k as int]);
        let ghost prev = result@;
        match store.find_task_by_id(tid) {
            Some(j) => {
                proof {
                    assert(has_task_with_id(store.tasks_view(), ids[k as int]));
                    let f = first_task_index(store.tasks_view(), ids[k as int]);
                    assert(0 <= f < store.tasks_view().len() && store.tasks_view()[f].task_id
                        == ids[k as int]);
                    if f != j as int {
                        assert(store.tasks_view()[f].task_id != store.tasks_view()[j as int].task_id);
                    }
                }
                let resp = TaskResponse {
                    task_id: tid.clone(),
                    taskname: store.tasks[j].taskname.clone(),
                    user_id: claims.user_id.clone(),
                    status: store.tasks[j].status.clone(),
                };
                result.push(resp);
                proof {
                    assert(responses_view(result@) =~= responses_view(prev).push(
                        TaskView {
                            task_id: ids[k as int],
                            taskname: store.tasks_view()[j as int].taskname,
                            user_id: claims.user_id@,
                            status: store.tasks_view()[j as int].status,
                        },
                    ));
                }
            },
            None => {},
        }
        proof {
            assert(ids.take(k + 1).drop_last() =~= ids.take(k as int));
            assert(ids.take(k + 1).last() == ids[k as int]);
            assert(responses_view(result@) == collect_task_views(
                store.tasks_view(),
                ids.take(k + 1),
                claims.user_id@,
            ));
        }
        k = k + 1;
    }
    proof {
        assert(ids.take(n as int) =~= ids);
    }
    Ok(result)
}

} // verus!
