use task_manager::auth_controller::{login_at, register, LoginRequest, RegisterRequest};
use task_manager::auth_middleware::{auth_middleware, Claims};
use task_manager::errors::{ErrorKind, ServiceError};
use task_manager::store::Store;
use task_manager::task_controller::{all_for_user, create_task, update_task, TaskRequest};
use task_manager::task_model::Task;
use task_manager::user_model::User;

const SECRET: &str = "unit-test-secret";

fn claims_for(user_id: &str, username: &str) -> Claims {
    Claims {
        user_id: user_id.to_string(),
        username: username.to_string(),
        exp: 2_000_000_000,
        iat: 1_700_000_000,
    }
}

fn task_req(name: &str, status: &str) -> TaskRequest {
    TaskRequest { taskname: name.to_string(), status: status.to_string() }
}

fn registered_store() -> (Store, Claims) {
    let mut store = Store::new();
    let r = register(
        &mut store,
        RegisterRequest {
            username: "alice".to_string(),
            email: "alice@example.com".to_string(),
            password: "pw1".to_string(),
        },
    )
    .unwrap();
    let id = r.id.unwrap();
    let claims = claims_for(&id, "alice");
    (store, claims)
}

#[test]
fn create_task_defaults_status_to_pending() {
    let (mut store, claims) = registered_store();
    let resp = create_task(&mut store, &claims, task_req("Buy milk", "")).unwrap();
    assert_eq!(resp.taskname, "Buy milk");
    assert_eq!(resp.status, "Pending");
    assert_eq!(resp.user_id, claims.user_id);
    assert_eq!(store.tasks.len(), 1);
    assert_eq!(store.tasks[0].status, "Pending");
    // the new task's identifier was appended to the owner's set
    assert_eq!(store.users[0].tasks, vec![resp.task_id.clone()]);
}

#[test]
fn create_task_empty_name_rejected_and_persists_nothing() {
    let (mut store, claims) = registered_store();
    let r = create_task(&mut store, &claims, task_req("", "Open"));
    let e = r.unwrap_err();
    assert_eq!(e, ServiceError::EmptyTaskName);
    assert_eq!(e.kind(), ErrorKind::BadRequest);
    assert_eq!(store.tasks.len(), 0);
    assert!(store.users[0].tasks.is_empty());
}

#[test]
fn create_task_malformed_identity_id() {
    let mut store = Store::new();
    let claims = claims_for("not-an-id", "alice");
    let r = create_task(&mut store, &claims, task_req("Buy milk", ""));
    let e = r.unwrap_err();
    assert_eq!(e, ServiceError::InvalidUserIdFormat);
    assert_eq!(e.status_code(), 400);
    assert_eq!(e.message(), "Invalid user ID format");
    // the task itself was persisted before the identity id was inspected,
    // so it exists but is not linked to any user
    assert_eq!(store.tasks.len(), 1);
}

#[test]
fn create_task_uppercase_identity_id_still_links() {
    let (mut store, claims) = registered_store();
    let upper = claims_for(&claims.user_id.to_uppercase(), "alice");
    let resp = create_task(&mut store, &upper, task_req("Buy milk", "Open")).unwrap();
    assert_eq!(store.users[0].tasks, vec![resp.task_id]);
}

#[test]
fn update_task_by_owner_changes_fields() {
    let (mut store, claims) = registered_store();
    let created = create_task(&mut store, &claims, task_req("Buy milk", "")).unwrap();
    let resp = update_task(&mut store, &claims, &created.task_id, task_req("Buy milk", "Done"))
        .unwrap();
    assert_eq!(resp.task_id, created.task_id);
    assert_eq!(resp.status, "Done");
    assert_eq!(store.tasks[0].status, "Done");
    assert_eq!(store.tasks[0].taskname, "Buy milk");
    assert_eq!(store.tasks[0].user_id, claims.user_id);
}

#[test]
fn update_task_empty_inputs_rejected() {
    let (mut store, claims) = registered_store();
    let created = create_task(&mut store, &claims, task_req("Buy milk", "")).unwrap();
    let empty_id = String::new();
    let r = update_task(&mut store, &claims, &empty_id, task_req("a", "b"));
    assert_eq!(r.unwrap_err(), ServiceError::EmptyTaskFields);
    let r = update_task(&mut store, &claims, &created.task_id, task_req("", "b"));
    assert_eq!(r.unwrap_err(), ServiceError::EmptyTaskFields);
    let r = update_task(&mut store, &claims, &created.task_id, task_req("a", ""));
    assert_eq!(r.unwrap_err(), ServiceError::EmptyTaskFields);
}

#[test]
fn update_task_malformed_id_rejected() {
    let (mut store, claims) = registered_store();
    let bad = "zzzz".to_string();
    let r = update_task(&mut store, &claims, &bad, task_req("a", "b"));
    let e = r.unwrap_err();
    assert_eq!(e, ServiceError::InvalidTaskId);
    assert_eq!(e.message(), "Invalid Task Id");
}

#[test]
fn update_task_unknown_id_not_found() {
    let (mut store, claims) = registered_store();
    let missing = "ffffffffffffffffffffffff".to_string();
    let r = update_task(&mut store, &claims, &missing, task_req("a", "b"));
    let e = r.unwrap_err();
    assert_eq!(e, ServiceError::TaskNotFound);
    assert_eq!(e.status_code(), 404);
}

#[test]
fn update_task_by_non_owner_unauthorized_and_fields_unchanged() {
    let (mut store, alice) = registered_store();
    register(
        &mut store,
        RegisterRequest {
            username: "bob".to_string(),
            email: "bob@example.com".to_string(),
            password: "pw2".to_string(),
        },
    )
    .unwrap();
    let bob_id = store.users[1].user_id.clone();
    let bob = claims_for(&bob_id, "bob");
    let created = create_task(&mut store, &alice, task_req("Buy milk", "")).unwrap();
    let r = update_task(&mut store, &bob, &created.task_id, task_req("Stolen", "Done"));
    let e = r.unwrap_err();
    assert_eq!(e, ServiceError::NotTaskOwner);
    assert_eq!(e.kind(), ErrorKind::Unauthorized);
    assert_eq!(e.status_code(), 401);
    assert_eq!(store.tasks[0].taskname, "Buy milk");
    assert_eq!(store.tasks[0].status, "Pending");
}

#[test]
fn all_for_user_returns_tasks_in_append_order() {
    let (mut store, claims) = registered_store();
    let t1 = create_task(&mut store, &claims, task_req("first", "Open")).unwrap();
    let t2 = create_task(&mut store, &claims, task_req("second", "Open")).unwrap();
    let t3 = create_task(&mut store, &claims, task_req("third", "Open")).unwrap();
    let list = all_for_user(&store, &claims).unwrap();
    let ids: Vec<String> = list.iter().map(|t| t.task_id.clone()).collect();
    assert_eq!(ids, vec![t1.task_id, t2.task_id, t3.task_id]);
    let names: Vec<String> = list.iter().map(|t| t.taskname.clone()).collect();
    assert_eq!(names, vec!["first".to_string(), "second".to_string(), "third".to_string()]);
}

#[test]
fn all_for_user_skips_unresolvable_ids_without_failing() {
    let mut store = Store::new();
    store.users.push(User {
        user_id: "000000000000000000000000".to_string(),
        username: "alice".to_string(),
        email: "alice@example.com".to_string(),
        password: "irrelevant".to_string(),
        tasks: vec![
            "000000000000000000000001".to_string(),
            "00000000000000000000dead".to_string(),
            "000000000000000000000002".to_string(),
        ],
    });
    store.tasks.push(Task {
        task_id: "000000000000000000000001".to_string(),
        taskname: "kept".to_string(),
        user_id: "000000000000000000000000".to_string(),
        status: "Open".to_string(),
    });
    store.tasks.push(Task {
        task_id: "000000000000000000000002".to_string(),
        taskname: "also kept".to_string(),
        user_id: "000000000000000000000000".to_string(),
        status: "Open".to_string(),
    });
    store.next_id = 3;
    let claims = claims_for("000000000000000000000000", "alice");
    let list = all_for_user(&store, &claims).unwrap();
    let names: Vec<String> = list.iter().map(|t| t.taskname.clone()).collect();
    assert_eq!(names, vec!["kept".to_string(), "also kept".to_string()]);
}

#[test]
fn all_for_user_bad_or_unknown_identity() {
    let store = Store::new();
    let r = all_for_user(&store, &claims_for("short", "x"));
    assert_eq!(r.unwrap_err(), ServiceError::InvalidUserId);
    let r = all_for_user(&store, &claims_for("abcdefabcdefabcdefabcdef", "x"));
    let e = r.unwrap_err();
    assert_eq!(e, ServiceError::NoSuchUser);
    assert_eq!(e.status_code(), 404);
    assert_eq!(e.message(), "User not found");
}

#[test]
fn full_scenario_two_users_one_task() {
    let mut store = Store::new();
    // register user A and log in
    register(
        &mut store,
        RegisterRequest {
            username: "alice".to_string(),
            email: "alice@example.com".to_string(),
            password: "pw1".to_string(),
        },
    )
    .unwrap();
    let now: u64 = 1_700_000_000;
    let a_login = login_at(
        &store,
        &LoginRequest { email: "alice@example.com".to_string(), password: "pw1".to_string() },
        now,
        SECRET,
    )
    .unwrap();
    let a_header = format!("Bearer {}", a_login.token);
    let a_claims = auth_middleware(Some(&a_header), now + 1, SECRET).unwrap();

    // create a task with an empty status: it defaults to Pending
    let created = create_task(&mut store, &a_claims, task_req("Buy milk", "")).unwrap();
    assert_eq!(created.status, "Pending");

    // the owner updates it to Done
    let updated =
        update_task(&mut store, &a_claims, &created.task_id, task_req("Buy milk", "Done")).unwrap();
    assert_eq!(updated.status, "Done");

    // user B's token does not authorize the same update
    register(
        &mut store,
        RegisterRequest {
            username: "bob".to_string(),
            email: "bob@example.com".to_string(),
            password: "pw2".to_string(),
        },
    )
    .unwrap();
    let b_login = login_at(
        &store,
        &LoginRequest { email: "bob@example.com".to_string(), password: "pw2".to_string() },
        now,
        SECRET,
    )
    .unwrap();
    let b_header = format!("Bearer {}", b_login.token);
    let b_claims = auth_middleware(Some(&b_header), now + 1, SECRET).unwrap();
    let r = update_task(&mut store, &b_claims, &created.task_id, task_req("Buy milk", "Done"));
    let e = r.unwrap_err();
    assert_eq!(e, ServiceError::NotTaskOwner);
    assert_eq!(e.status_code(), 401);

    // enumeration for A holds the one task, now Done
    let list = all_for_user(&store, &a_claims).unwrap();
    assert_eq!(list.len(), 1);
    assert_eq!(list[0].taskname, "Buy milk");
    assert_eq!(list[0].status, "Done");
    assert_eq!(list[0].user_id, a_claims.user_id);
}
