//! An in-memory model of the document store: one collection of user records,
//! one of task records, and the counter from which record identifiers are
//! assigned. Emails are unique across users (the store-level uniqueness
//! guard), identifiers are unique across each collection, and every
//! identifier ever assigned stays below the counter.

use vstd::prelude::*;
use crate::ids::{id_view, lemma_id_view_injective, lemma_id_view_valid, id_string, valid_id};
use crate::user_model::{User, UserView};
use crate::task_model::{Task, TaskView};

verus! {

/// Some user in `users` holds `email`.
pub open spec fn has_user_with_email(users: Seq<UserView>, email: Seq<char>) -> bool {
    exists|i: int| 0 <= i < users.len() && users[i].email == email
}

/// Some user in `users` holds `user_id`.
pub open spec fn has_user_with_id(users: Seq<UserView>, user_id: Seq<char>) -> bool {
    exists|i: int| 0 <= i < users.len() && users[i].user_id == user_id
}

/// Some task in `tasks` holds `task_id`.
pub open spec fn has_task_with_id(tasks: Seq<TaskView>, task_id: Seq<char>) -> bool {
    exists|i: int| 0 <= i < tasks.len() && tasks[i].task_id == task_id
}

/// `s` is an identifier the counter could already have assigned: the
/// rendering of some counter value below `bound`.
pub open spec fn id_below(s: Seq<char>, bound: u64) -> bool {
    exists|k: u64| k < bound && s == #[trigger] id_view(k)
}

/// The document store: a user collection, a task collection, and the
/// identifier counter.
pub struct Store {
    pub users: Vec<User>,
    pub tasks: Vec<Task>,
    pub next_id: u64,
}

impl DeepView for User {
    type V = UserView;

    open spec fn deep_view(&self) -> UserView {
        self.view()
    }
}

impl DeepView for Task {
    type V = TaskView;

    open spec fn deep_view(&self) -> TaskView {
        self.view()
    }
}

impl Store {
    /// The mathematical value of the user collection.
    pub open spec fn users_view(self) -> Seq<UserView> {
        self.users.deep_view()
    }

    /// The mathematical value of the task collection.
    pub open spec fn tasks_view(self) -> Seq<TaskView> {
        self.tasks.deep_view()
    }

    /// Well-formedness: emails unique across users, identifiers unique
    /// across each collection, and every stored identifier already assigned
    /// by the counter.
    pub open spec fn wf(self) -> bool {
        &&& forall|i: int, j: int|
            0 <= i < j < self.users_view().len() ==> self.users_view()[i].email
                != self.users_view()[j].email
        &&& forall|i: int, j: int|
            0 <= i < j < self.users_view().len() ==> self.users_view()[i].user_id
                != self.users_view()[j].user_id
        &&& forall|i: int, j: int|
            0 <= i < j < self.tasks_view().len() ==> self.tasks_view()[i].task_id
                != self.tasks_view()[j].task_id
        &&& forall|i: int|
            0 <= i < self.users_view().len() ==> id_below(
                #[trigger] self.users_view()[i].user_id,
                self.next_id,
            )
        &&& forall|i: int|
            0 <= i < self.tasks_view().len() ==> id_below(
                #[trigger] self.tasks_view()[i].task_id,
                self.next_id,
            )
    }

    /// An empty store.
    pub fn new() -> (s: Store)
        ensures
            s.wf(),
            s.users_view() == Seq::<UserView>::empty(),
            s.tasks_view() == Seq::<TaskView>::empty(),
            s.next_id == 0,
    {
        let s = Store { users: Vec::new(), tasks: Vec::new(), next_id: 0 };
        proof {
            assert(s.users_view() =~= Seq::<UserView>::empty());
            assert(s.tasks_view() =~= Seq::<TaskView>::empty());
        }
        s
    }

    /// Find-by-email over the user collection: the index of the first user
    /// holding `email`, if any.
    pub fn find_user_by_email(&self, email: &String) -> (r: Option<usize>)
        ensures
            match r {
                Some(i) => i < self.users_view().len() && self.users_view()[i as int].email
                    == email@ && forall|j: int|
                    0 <= j < i ==> self.users_view()[j].email != email@,
                None => !has_user_with_email(self.users_view(), email@),
            },
    {
        let mut i: usize = 0;
        while i < self.users.len()
            invariant
                i <= self.users.len(),
                forall|j: int| 0 <= j < i ==> self.users_view()[j].email != email@,
            decreases self.users.len() - i,
        {
            if self.users[i].email == *email {
                return Some(i);
            }
            i = i + 1;
        }
        None
    }

    /// Find-by-id over the user collection: the index of the first user
    /// holding `user_id`, if any.
    pub fn find_user_by_id(&self, user_id: &String) -> (r: Option<usize>)
        ensures
            match r {
                Some(i) => i < self.users_view().len() && self.users_view()[i as int].user_id
                    == user_id@ && forall|j: int|
                    0 <= j < i ==> self.users_view()[j].user_id != user_id@,
                None => !has_user_with_id(self.users_view(), user_id@),
            },
    {
        let mut i: usize = 0;
        while i < self.users.len()
            invariant
                i <= self.users.len(),
                forall|j: int| 0 <= j < i ==> self.users_view()[j].user_id != user_id@,
            decreases self.users.len() - i,
        {
            if self.users[i].user_id == *user_id {
                return Some(i);
            }
            i = i + 1;
        }
        None
    }

    /// Find-by-id over the task collection: the index of the first task
    /// holding `task_id`, if any.
    pub fn find_task_by_id(&self, task_id: &String) -> (r: Option<usize>)
        ensures
            match r {
                Some(i) => i < self.tasks_view().len() && self.tasks_view()[i as int].task_id
                    == task_id@ && forall|j: int|
                    0 <= j < i ==> self.tasks_view()[j].task_id != task_id@,
                None => !has_task_with_id(self.tasks_view(), task_id@),
            },
    {
        let mut i: usize = 0;
        while i < self.tasks.len()
            invariant
                i <= self.tasks.len(),
                forall|j: int| 0 <= j < i ==> self.tasks_view()[j].task_id != task_id@,
            decreases self.tasks.len() - i,
        {
            if self.tasks[i].task_id == *task_id {
                return Some(i);
            }
            i = i + 1;
        }
        None
    }

    /// No stored identifier equals the one the counter assigns next.
    proof fn lemma_next_id_fresh(self)
        requires
            self.wf(),
        ensures
            forall|i: int|
                0 <= i < self.users_view().len() ==> (#[trigger] self.users_view()[i].user_id)
                    != id_view(self.next_id),
            forall|i: int|
                0 <= i < self.tasks_view().len() ==> (#[trigger] self.tasks_view()[i].task_id)
                    != id_view(self.next_id),
    {
        let n = self.next_id;
        assert forall|i: int|
            0 <= i < self.users_view().len() implies (#[trigger] self.users_view()[i].user_id)
            != id_view(n) by {
            if self.users_view()[i].user_id == id_view(n) {
                let k = choose|k: u64| k < n && self.users_view()[i].user_id == #[trigger] id_view(k);
                lemma_id_view_injective(k, n);
            }
        }
        assert forall|i: int|
            0 <= i < self.tasks_view().len() implies (#[trigger] self.tasks_view()[i].task_id)
            != id_view(n) by {
            if self.tasks_view()[i].task_id == id_view(n) {
                let k = choose|k: u64| k < n && self.tasks_view()[i].task_id == #[trigger] id_view(k);
                lemma_id_view_injective(k, n);
            }
        }
    }

    /// Insert a new user record with an empty task set, assigning it the next
    /// identifier. The caller has ruled the email out as taken: the store's
    /// uniqueness guard.
    pub fn insert_user(&mut self, username: String, email: String, password: String) -> (id:
        String)
        requires
            old(self).wf(),
            old(self).next_id < u64::MAX,
            !has_user_with_email(old(self).users_view(), email@),
        ensures
            final(self).wf(),
            id@ == id_view(old(self).next_id),
            valid_id(id@),
            final(self).users_view() == old(self).users_view().push(
                UserView {
                    user_id: id_view(old(self).next_id),
                    username: username@,
                    email: email@,
                    password: password@,
                    tasks: Seq::empty(),
                },
            ),
            final(self).tasks_view() == old(self).tasks_view(),
            final(self).next_id == old(self).next_id + 1,
    {
        let ghost n = self.next_id;
        proof {
            self.lemma_next_id_fresh();
            lemma_id_view_valid(n);
        }
        let id = id_string(self.next_id);
        let u = User {
            user_id: id.clone(),
            username,
            email,
            password,
            tasks: Vec::new(),
        };
        self.users.push(u);
        self.next_id = self.next_id + 1;
        proof {
            assert(self.users_view() =~~= old(self).users_view().push(
                UserView {
                    user_id: id_view(n),
                    username: username@,
                    email: email@,
                    password: password@,
                    tasks: Seq::empty(),
                },
            ));
            assert(self.tasks_view() =~~= old(self).tasks_view());
            assert forall|i: int|
                0 <= i < self.users_view().len() implies id_below(
                #[trigger] self.users_view()[i].user_id,
                self.next_id,
            ) by {
                if i < old(self).users_view().len() {
                    assert(id_below(old(self).users_view()[i].user_id, n));
                } else {
                    assert(self.users_view()[i].user_id == id_view(n));
                }
            }
            assert forall|i: int|
                0 <= i < self.tasks_view().len() implies id_below(
                #[trigger] self.tasks_view()[i].task_id,
                self.next_id,
            ) by {
                assert(id_below(old(self).tasks_view()[i].task_id, n));
            }
        }
        id
    }

    /// Insert a new task record owned by `user_id`, assigning it the next
    /// identifier.
    pub fn insert_task(&mut self, taskname: String, status: String, user_id: String) -> (id:
        String)
        requires
            old(self).wf(),
            old(self).next_id < u64::MAX,
        ensures
            final(self).wf(),
            id@ == id_view(old(self).next_id),
            valid_id(id@),
            final(self).tasks_view() == old(self).tasks_view().push(
                TaskView {
                    task_id: id_view(old(self).next_id),
                    taskname: taskname@,
                    user_id: user_id@,
                    status: status@,
                },
            ),
            final(self).users_view() == old(self).users_view(),
            final(self).next_id == old(self).next_id + 1,
    {
        let ghost n = self.next_id;
        proof {
            self.lemma_next_id_fresh();
            lemma_id_view_valid(n);
        }
        let id = id_string(self.next_id);
        let t = Task {
            task_id: id.clone(),
            taskname,
            user_id,
            status,
        };
        self.tasks.push(t);
        self.next_id = self.next_id + 1;
        proof {
            assert(self.tasks_view() =~~= old(self).tasks_view().push(
                TaskView {
                    task_id: id_view(n),
                    taskname: taskname@,
                    user_id: user_id@,
                    status: status@,
                },
            ));
            assert(self.users_view() =~~= old(self).users_view());
            assert forall|i: int|
                0 <= i < self.tasks_view().len() implies id_below(
                #[trigger] self.tasks_view()[i].task_id,
                self.next_id,
            ) by {
                if i < old(self).tasks_view().len() {
                    assert(id_below(old(self).tasks_view()[i].task_id, n));
                } else {
                    assert(self.tasks_view()[i].task_id == id_view(n));
                }
            }
            assert forall|i: int|
                0 <= i < self.users_view().len() implies id_below(
                #[trigger] self.users_view()[i].user_id,
                self.next_id,
            ) by {
                assert(id_below(old(self).users_view()[i].user_id, n));
            }
        }
        id
    }

    /// Update-by-id on the user collection: append `task_id` to the task set
    /// of the user at index `i`.
    pub fn link_task_to_user(&mut self, i: usize, task_id: String)
        requires
            old(self).wf(),
            i < old(self).users_view().len(),
        ensures
            final(self).wf(),
            final(self).users_view() == old(self).users_view().update(
                i as int,
                UserView {
                    tasks: old(self).users_view()[i as int].tasks.push(task_id@),
                    ..old(self).users_view()[i as int]
                },
            ),
            final(self).tasks_view() == old(self).tasks_view(),
            final(self).next_id == old(self).next_id,
    {
        let u = &mut self.users[i];
        u.tasks.push(task_id);
        proof {
            assert(self.users_view() =~~= old(self).users_view().update(
                i as int,
                UserView {
                    tasks: old(self).users_view()[i as int].tasks.push(task_id@),
                    ..old(self).users_view()[i as int]
                },
            ));
            assert(self.tasks_view() =~~= old(self).tasks_view());
        }
    }

    /// Update-by-id on the task collection: replace the name and status of
    /// the task at index `i`; its identifier and owner stay.
    pub fn set_task_fields(&mut self, i: usize, taskname: String, status: String)
        requires
            old(self).wf(),
            i < old(self).tasks_view().len(),
        ensures
            final(self).wf(),
            final(self).tasks_view() == old(self).tasks_view().update(
                i as int,
                TaskView {
                    taskname: taskname@,
                    status: status@,
                    ..old(self).tasks_view()[i as int]
                },
            ),
            final(self).users_view() == old(self).users_view(),
            final(self).next_id == old(self).next_id,
    {
        let t = &mut self.tasks[i];
        t.taskname = taskname;
        t.status = status;
        proof {
            assert(self.tasks_view() =~~= old(self).tasks_view().update(
                i as int,
                TaskView {
                    taskname: taskname@,
                    status: status@,
                    ..old(self).tasks_view()[i as int]
                },
            ));
            assert(self.users_view() =~~= old(self).users_view());
        }
    }
}

/// How many users in `users` hold `email`.
pub open spec fn count_users_with_email(users: Seq<UserView>, email: Seq<char>) -> nat
    decreases users.len(),
{
    if users.len() == 0 {
        0
    } else {
        count_users_with_email(users.drop_last(), email) + (if users.last().email == email {
            1nat
        } else {
            0nat
        })
    }
}

proof fn lemma_count_users_with_email_bound(users: Seq<UserView>, email: Seq<char>)
    requires
        forall|i: int, j: int| 0 <= i < j < users.len() ==> users[i].email != users[j].email,
    ensures
        count_users_with_email(users, email) <= 1,
        count_users_with_email(users, email) == 1 <==> has_user_with_email(users, email),
    decreases users.len(),
{
    if users.len() == 0 {
        assert(!has_user_with_email(users, email));
    } else {
        let rest = users.drop_last();
        let last = users.last();
        assert(forall|i: int, j: int|
            0 <= i < j < rest.len() ==> rest[i].email != rest[j].email) by {
            assert(forall|i: int| 0 <= i < rest.len() ==> rest[i] == users[i]);
        }
        lemma_count_users_with_email_bound(rest, email);
        if last.email == email {
            if has_user_with_email(rest, email) {
                let i = choose|i: int| 0 <= i < rest.len() && rest[i].email == email;
                assert(users[i].email == email);
                assert(users[i].email != users[users.len() - 1].email);
                assert(false);
            }
            assert(count_users_with_email(users, email) == 1);
            assert(has_user_with_email(users, email)) by {
                assert(users[users.len() - 1].email == email);
            }
        } else {
            if has_user_with_email(users, email) {
                let i = choose|i: int| 0 <= i < users.len() && users[i].email == email;
                assert(i < users.len() - 1);
                assert(rest[i].email == email);
                assert(has_user_with_email(rest, email));
            }
            if has_user_with_email(rest, email) {
                let i = choose|i: int| 0 <= i < rest.len() && rest[i].email == email;
                assert(users[i].email == email);
                assert(has_user_with_email(users, email));
            }
        }
    }
}

/// Law: a well-formed store holds at most one user record per email, and
/// exactly one once some user holds it; registration through `register`
/// keeps the store well formed, so the record count for an email never
/// passes one.
pub proof fn lemma_email_unique(store: Store, email: Seq<char>)
    requires
        store.wf(),
    ensures
        count_users_with_email(store.users_view(), email) <= 1,
        has_user_with_email(store.users_view(), email) ==> count_users_with_email(
            store.users_view(),
            email,
        ) == 1,
{
    lemma_count_users_with_email_bound(store.users_view(), email);
}

/// Law: once a registration for `email` has gone through (the user collection
/// grew by a record holding `email`), a well-formed store holds that email,
/// so by `register`'s contract any later registration with it is refused with
/// the email-exists error, and the record count for `email` is exactly one.
pub proof fn lemma_second_registration_rejected(
    before: Seq<UserView>,
    after_store: Store,
    u: UserView,
    email: Seq<char>,
)
    requires
        after_store.wf(),
        u.email == email,
        after_store.users_view() == before.push(u),
    ensures
        has_user_with_email(after_store.users_view(), email),
        count_users_with_email(after_store.users_view(), email) == 1,
{
    assert(after_store.users_view()[before.len() as int] == u);
    lemma_email_unique(after_store, email);
}

} // verus!
