//! An in-memory store with the two tables, and the services on it.

use vstd::prelude::*;
use vstd::string::*;
use crate::auth::{auth_decision, verify_credentials, AuthOutcome, CredentialLookup};
use crate::digest::constant_time_eq;
use crate::model::{
    after_create, after_delete, create_result, credentials_of, has_story, has_user, has_username,
    lemma_story_index, lemma_user_index, lemma_without_story, lemma_without_user, listing, max_id,
    story_index, user_index, username_index, well_formed, without_user, RowView, StoreView,
    UserView,
};
use crate::story::{
    acceptable_title, finish_create, resolve_creator, story_views, CreatorLookup,
    InsertOutcome, PendingStory, Story, StoryError, StoryView,
};

verus! {

/// A registered user.
#[derive(Clone, Debug)]
pub struct User {
    pub id: i64,
    pub username: String,
    pub password: String,
    pub salt: String,
}

impl View for User {
    type V = UserView;

    open spec fn view(&self) -> UserView {
        UserView {
            id: self.id as int,
            username: self.username@,
            password: self.password@,
            salt: self.salt@,
        }
    }
}

/// What a creation form shows of a user.
#[derive(Clone, Debug, PartialEq, Eq)]
pub struct UserSummary {
    pub id: i64,
    pub username: String,
}

/// A stored story, with its creator by id.
#[derive(Clone, Debug)]
pub struct StoryRow {
    pub id: i64,
    pub title: String,
    pub creator: i64,
}

impl View for StoryRow {
    type V = RowView;

    open spec fn view(&self) -> RowView {
        RowView { id: self.id as int, title: self.title@, creator: self.creator as int }
    }
}

/// The store: users, stories, and the id for the next story.
pub struct Store {
    users: Vec<User>,
    stories: Vec<StoryRow>,
    next_id: i64,
}

impl View for Store {
    type V = StoreView;

    closed spec fn view(&self) -> StoreView {
        StoreView {
            users: Seq::new(self.users@.len(), |i: int| self.users@[i]@),
            stories: Seq::new(self.stories@.len(), |i: int| self.stories@[i]@),
            next_id: self.next_id as int,
        }
    }
}

impl Store {
    /// The invariant that every operation keeps.
    pub open spec fn wf(&self) -> bool {
        well_formed(self@)
    }

    /// An empty store, whose first story will get the id 1.
    pub fn new() -> (store: Store)
        ensures
            store.wf(),
            store@.users =~= Seq::empty(),
            store@.stories =~= Seq::empty(),
            store@.next_id == 1,
    {
        Store { users: Vec::new(), stories: Vec::new(), next_id: 1 }
    }

    fn find_user(&self, id: i64) -> (found: Option<usize>)
        requires
            self.wf(),
        ensures
            match found {
                Some(i) => i < self@.users.len() && has_user(self@.users, id as int) && user_index(
                    self@.users,
                    id as int,
                ) == i,
                None => !has_user(self@.users, id as int),
            },
    {
        let mut i: usize = 0;
        while i < self.users.len()
            invariant
                i <= self.users.len(),
                self.wf(),
                forall|k: int| 0 <= k < i ==> (#[trigger] self@.users[k]).id != id,
            decreases self.users.len() - i,
        {
            if self.users[i].id == id {
                proof {
                    lemma_user_index(self@.users, i as int);
                }
                return Some(i);
            }
            i += 1;
        }
        None
    }

    fn find_username(&self, name: &str) -> (found: Option<usize>)
        requires
            self.wf(),
        ensures
            match found {
                Some(i) => i < self@.users.len() && has_username(self@.users, name@)
                    && username_index(self@.users, name@) == i,
                None => !has_username(self@.users, name@),
            },
    {
        let mut i: usize = 0;
        while i < self.users.len()
            invariant
                i <= self.users.len(),
                self.wf(),
                forall|k: int| 0 <= k < i ==> (#[trigger] self@.users[k]).username != name@,
            decreases self.users.len() - i,
        {
            if constant_time_eq(self.users[i].username.as_str(), name) {
                proof {
                    lemma_user_index(self@.users, i as int);
                }
                return Some(i);
            }
            i += 1;
        }
        None
    }

    fn find_story(&self, id: i64) -> (found: Option<usize>)
        requires
            self.wf(),
        ensures
            match found {
                Some(i) => i < self@.stories.len() && has_story(self@.stories, id as int)
                    && story_index(self@.stories, id as int) == i,
                None => !has_story(self@.stories, id as int),
            },
    {
        let mut i: usize = 0;
        while i < self.stories.len()
            invariant
                i <= self.stories.len(),
                self.wf(),
                forall|k: int| 0 <= k < i ==> (#[trigger] self@.stories[k]).id != id,
            decreases self.stories.len() - i,
        {
            if self.stories[i].id == id {
                proof {
                    lemma_story_index(self@.stories, i as int);
                }
                return Some(i);
            }
            i += 1;
        }
        None
    }

    /// Registers a user, unless the id or the username is taken. Says whether
    /// the user was added.
    pub fn add_user(&mut self, id: i64, username: String, password: String, salt: String) -> (added:
        bool)
        requires
            old(self).wf(),
        ensures
            final(self).wf(),
            added == (!has_user(old(self)@.users, id as int) && !has_username(
                old(self)@.users,
                username@,
            )),
            final(self)@.stories == old(self)@.stories,
            final(self)@.next_id == old(self)@.next_id,
            final(self)@.users == if added {
                old(self)@.users.push(
                    UserView {
                        id: id as int,
                        username: username@,
                        password: password@,
                        salt: salt@,
                    },
                )
            } else {
                old(self)@.users
            },
    {
        if self.find_user(id).is_some() {
            return false;
        }
        if self.find_username(username.as_str()).is_some() {
            return false;
        }
        let ghost before = self@;
        self.users.push(User { id, username, password, salt });
        proof {
            let row = UserView {
                id: id as int,
                username: username@,
                password: password@,
                salt: salt@,
            };
            assert(self@.users =~= before.users.push(row));
            assert(self@.stories =~= before.stories);
        }
        true
    }

    /// Removes the user `id`, if there is one. Stories of that user stay in
    /// the story table.
    pub fn remove_user(&mut self, id: i64)
        requires
            old(self).wf(),
        ensures
            final(self).wf(),
            final(self)@.users == without_user(old(self)@.users, id as int),
            final(self)@.stories == old(self)@.stories,
            final(self)@.next_id == old(self)@.next_id,
            !has_user(final(self)@.users, id as int),
    {
        let ghost before = self@;
        match self.find_user(id) {
            Some(i) => {
                self.users.remove(i);
                proof {
                    assert(self@.users =~= before.users.remove(i as int));
                    assert(self@.stories =~= before.stories);
                    lemma_without_user(before.users, id as int);
                }
            },
            None => {},
        }
    }

    /// Id and username of every user, in the order of the user table.
    pub fn user_list(&self) -> (list: Vec<UserSummary>)
        requires
            self.wf(),
        ensures
            list@.len() == self@.users.len(),
            forall|i: int|
                0 <= i < list@.len() ==> (#[trigger] list@[i]).id == self@.users[i].id
                    && list@[i].username@ == self@.users[i].username,
    {
        let mut out: Vec<UserSummary> = Vec::new();
        let mut i: usize = 0;
        while i < self.users.len()
            invariant
                i <= self.users.len(),
                out@.len() == i,
                forall|k: int|
                    0 <= k < i ==> (#[trigger] out@[k]).id == self@.users[k].id
                        && out@[k].username@ == self@.users[k].username,
            decreases self.users.len() - i,
        {
            out.push(UserSummary { id: self.users[i].id, username: self.users[i].username.clone() });
            i += 1;
        }
        out
    }

    /// The credentials stored for `username`.
    pub fn credentials(&self, username: &str) -> (lookup: CredentialLookup)
        requires
            self.wf(),
        ensures
            lookup@ == credentials_of(self@.users, username@),
    {
        match self.find_username(username) {
            Some(i) => CredentialLookup::Found {
                password: self.users[i].password.clone(),
                salt: self.users[i].salt.clone(),
            },
            None => CredentialLookup::Missing,
        }
    }

    /// Checks a username and a candidate password against the user table.
    pub fn verify(&self, username: &str, candidate: &str) -> (outcome: AuthOutcome)
        requires
            self.wf(),
        ensures
            outcome == auth_decision(credentials_of(self@.users, username@), candidate@),
    {
        let lookup = self.credentials(username);
        verify_credentials(&lookup, candidate)
    }

    /// The display name of the user `id`.
    pub fn creator(&self, id: i64) -> (lookup: CreatorLookup)
        requires
            self.wf(),
        ensures
            match lookup {
                CreatorLookup::Found(name) => has_user(self@.users, id as int) && name@
                    == self@.users[user_index(self@.users, id as int)].username,
                CreatorLookup::Missing => !has_user(self@.users, id as int),
                CreatorLookup::Failed => false,
            },
    {
        match self.find_user(id) {
            Some(i) => CreatorLookup::Found(self.users[i].username.clone()),
            None => CreatorLookup::Missing,
        }
    }

    /// Every story whose creator exists, with the creator's username, in the
    /// order in which the stories were created.
    pub fn list(&self) -> (stories: Vec<Story>)
        requires
            self.wf(),
        ensures
            story_views(stories@) == listing(self@.stories, self@.users),
    {
        let mut out: Vec<Story> = Vec::new();
        let mut i: usize = 0;
        proof {
            assert(self@.stories.take(0).len() == 0);
        }
        while i < self.stories.len()
            invariant
                i <= self.stories.len(),
                self.wf(),
                story_views(out@) =~= listing(self@.stories.take(i as int), self@.users),
            decreases self.stories.len() - i,
        {
            let ghost before = out@;
            let creator = self.stories[i].creator;
            match self.find_user(creator) {
                Some(k) => {
                    out.push(
                        Story {
                            id: self.stories[i].id,
                            title: self.stories[i].title.clone(),
                            creator: self.users[k].username.clone(),
                        },
                    );
                },
                None => {},
            }
            proof {
                let next = self@.stories.take(i + 1);
                assert(next.drop_last() =~= self@.stories.take(i as int));
                assert(next.last() == self@.stories[i as int]);
            }
            i += 1;
        }
        proof {
            assert(self@.stories.take(i as int) =~= self@.stories);
        }
        out
    }

    fn insert_row(&mut self, pending: &PendingStory) -> (outcome: InsertOutcome)
        requires
            old(self).wf(),
        ensures
            final(self).wf(),
            old(self)@.next_id >= max_id() ==> outcome == InsertOutcome::Failed && final(self)@
                == old(self)@,
            old(self)@.next_id < max_id() ==> outcome == InsertOutcome::Inserted(
                old(self).next_id,
            ) && final(self)@ == (StoreView {
                users: old(self)@.users,
                stories: old(self)@.stories.push(
                    RowView {
                        id: old(self)@.next_id,
                        title: pending@.title,
                        creator: pending@.creator_id,
                    },
                ),
                next_id: old(self)@.next_id + 1,
            }),
    {
        if self.next_id >= i64::MAX {
            return InsertOutcome::Failed;
        }
        let ghost before = self@;
        let id: i64 = self.next_id;
        let title = String::from_str(pending.title());
        self.stories.push(StoryRow { id, title, creator: pending.creator_id() });
        self.next_id = id + 1;
        proof {
            let row = RowView { id: id as int, title: pending@.title, creator: pending@.creator_id };
            assert(self@.stories =~= before.stories.push(row));
            assert(self@.users =~= before.users);
        }
        InsertOutcome::Inserted(id)
    }

    /// Creates a story for an existing user and returns it with its new id and
    /// the creator's username. Fails, and leaves the store as it was, when the
    /// creator does not exist, the title is empty or no id is left to assign.
    pub fn create(&mut self, creator_id: i64, title: String) -> (created: Result<Story, StoryError>)
        requires
            old(self).wf(),
        ensures
            final(self).wf(),
            final(self)@ == after_create(old(self)@, creator_id as int, title@),
            match created {
                Ok(story) => create_result(old(self)@, creator_id as int, title@) == Ok::<
                    StoryView,
                    StoryError,
                >(story@),
                Err(e) => create_result(old(self)@, creator_id as int, title@) == Err::<
                    StoryView,
                    StoryError,
                >(e),
            },
    {
        let lookup = self.creator(creator_id);
        match resolve_creator(lookup, creator_id, title) {
            Ok(pending) => {
                let outcome = self.insert_row(&pending);
                finish_create(pending, outcome)
            },
            Err(e) => Err(e),
        }
    }

    /// Deletes the story `id`. Deleting an id that names no story changes
    /// nothing and succeeds all the same.
    pub fn delete(&mut self, id: i64) -> (done: Result<(), StoryError>)
        requires
            old(self).wf(),
        ensures
            final(self).wf(),
            done is Ok,
            final(self)@ == after_delete(old(self)@, id as int),
            !has_story(final(self)@.stories, id as int),
    {
        let ghost before = self@;
        match self.find_story(id) {
            Some(i) => {
                self.stories.remove(i);
                proof {
                    assert(self@.stories =~= before.stories.remove(i as int));
                    assert(self@.users =~= before.users);
                    lemma_without_story(before.stories, id as int);
                    assert forall|k: int| 0 <= k < self@.stories.len() implies 1 <= (
                    #[trigger] self@.stories[k]).id < self@.next_id && acceptable_title(
                        self@.stories[k].title,
                    ) by {
                        assert(before.stories.contains(self@.stories[k]));
                    }
                }
            },
            None => {
                proof {
                    assert(self@.stories =~= before.stories);
                }
            },
        }
        Ok(())
    }
}

} // verus!
