//! The relational model: two tables as sequences of rows, and what listing,
//! creating and deleting mean on them.

use vstd::prelude::*;
use crate::auth::CredentialLookupView;
use crate::story::{acceptable_title, StoryError, StoryView};

verus! {

/// A row of the user table.
pub struct UserView {
    pub id: int,
    pub username: Seq<char>,
    pub password: Seq<char>,
    pub salt: Seq<char>,
}

/// A row of the story table.
pub struct RowView {
    pub id: int,
    pub title: Seq<char>,
    pub creator: int,
}

/// The whole store: both tables in insertion order, and the id that the next
/// story will get.
pub struct StoreView {
    pub users: Seq<UserView>,
    pub stories: Seq<RowView>,
    pub next_id: int,
}

/// The largest id that the store can assign.
pub open spec fn max_id() -> int {
    0x7fff_ffff_ffff_ffff
}

pub open spec fn has_user(users: Seq<UserView>, id: int) -> bool {
    exists|i: int| 0 <= i < users.len() && #[trigger] users[i].id == id
}

pub open spec fn user_index(users: Seq<UserView>, id: int) -> int {
    choose|i: int| 0 <= i < users.len() && #[trigger] users[i].id == id
}

pub open spec fn has_username(users: Seq<UserView>, name: Seq<char>) -> bool {
    exists|i: int| 0 <= i < users.len() && #[trigger] users[i].username == name
}

pub open spec fn username_index(users: Seq<UserView>, name: Seq<char>) -> int {
    choose|i: int| 0 <= i < users.len() && #[trigger] users[i].username == name
}

pub open spec fn has_story(stories: Seq<RowView>, id: int) -> bool {
    exists|i: int| 0 <= i < stories.len() && #[trigger] stories[i].id == id
}

pub open spec fn story_index(stories: Seq<RowView>, id: int) -> int {
    choose|i: int| 0 <= i < stories.len() && #[trigger] stories[i].id == id
}

/// Ids and usernames each identify at most one user.
pub open spec fn users_distinct(users: Seq<UserView>) -> bool {
    forall|i: int, j: int|
        0 <= i < j < users.len() ==> (#[trigger] users[i]).id != (#[trigger] users[j]).id
            && users[i].username != users[j].username
}

/// An id identifies at most one story.
pub open spec fn stories_distinct(stories: Seq<RowView>) -> bool {
    forall|i: int, j: int|
        0 <= i < j < stories.len() ==> (#[trigger] stories[i]).id != (#[trigger] stories[j]).id
}

/// The store's invariant: keys are unique and every stored story has a title
/// that is not empty and an id that was assigned before `next_id`. A story's
/// creator need not exist: the
/// store does not enforce the reference, listing omits such stories.
pub open spec fn well_formed(s: StoreView) -> bool {
    &&& users_distinct(s.users)
    &&& stories_distinct(s.stories)
    &&& 1 <= s.next_id <= max_id()
    &&& forall|i: int|
        0 <= i < s.stories.len() ==> 1 <= (#[trigger] s.stories[i]).id < s.next_id
            && acceptable_title(s.stories[i].title)
}

/// What the store answers when asked for the credentials of `name`.
pub open spec fn credentials_of(users: Seq<UserView>, name: Seq<char>) -> CredentialLookupView {
    if has_username(users, name) {
        let u = users[username_index(users, name)];
        CredentialLookupView::Found { password: u.password, salt: u.salt }
    } else {
        CredentialLookupView::Missing
    }
}

/// A story row joined with its creator, if the creator exists.
pub open spec fn join_row(users: Seq<UserView>, row: RowView) -> Option<StoryView> {
    if has_user(users, row.creator) {
        Some(
            StoryView {
                id: row.id,
                title: row.title,
                creator: users[user_index(users, row.creator)].username,
            },
        )
    } else {
        None
    }
}

/// The inner join of stories with users on the creator id, in the order of
/// the story table.
pub open spec fn listing(stories: Seq<RowView>, users: Seq<UserView>) -> Seq<StoryView>
    decreases stories.len(),
{
    if stories.len() == 0 {
        Seq::empty()
    } else {
        let before = listing(stories.drop_last(), users);
        match join_row(users, stories.last()) {
            Some(story) => before.push(story),
            None => before,
        }
    }
}

/// What creating a story with this creator and title returns. The creator is
/// resolved first: an unknown one is refused whatever the title is. For a
/// known creator an empty title is refused; a title of spaces only is
/// accepted like any other.
pub open spec fn create_result(s: StoreView, creator: int, title: Seq<char>) -> Result<
    StoryView,
    StoryError,
> {
    if !has_user(s.users, creator) {
        Err(StoryError::CreatorNotFound)
    } else if !acceptable_title(title) {
        Err(StoryError::EmptyTitle)
    } else if s.next_id >= max_id() {
        Err(StoryError::StoreFailure)
    } else {
        Ok(
            StoryView {
                id: s.next_id,
                title,
                creator: s.users[user_index(s.users, creator)].username,
            },
        )
    }
}

/// The store after creating a story: on success one row more, at the end, with
/// the next id; on failure the store as it was.
pub open spec fn after_create(s: StoreView, creator: int, title: Seq<char>) -> StoreView {
    if create_result(s, creator, title) is Ok {
        StoreView {
            users: s.users,
            stories: s.stories.push(RowView { id: s.next_id, title, creator }),
            next_id: s.next_id + 1,
        }
    } else {
        s
    }
}

/// The story table without the story `id`, if there is one.
pub open spec fn without_story(stories: Seq<RowView>, id: int) -> Seq<RowView> {
    if has_story(stories, id) {
        stories.remove(story_index(stories, id))
    } else {
        stories
    }
}

/// The store after deleting story `id`.
pub open spec fn after_delete(s: StoreView, id: int) -> StoreView {
    StoreView { users: s.users, stories: without_story(s.stories, id), next_id: s.next_id }
}

/// The user table without the user `id`, if there is one.
pub open spec fn without_user(users: Seq<UserView>, id: int) -> Seq<UserView> {
    if has_user(users, id) {
        users.remove(user_index(users, id))
    } else {
        users
    }
}

/// The story table without the stories of one creator, in the same order.
pub open spec fn without_stories_of(stories: Seq<RowView>, creator: int) -> Seq<RowView>
    decreases stories.len(),
{
    if stories.len() == 0 {
        Seq::empty()
    } else {
        let before = without_stories_of(stories.drop_last(), creator);
        if stories.last().creator == creator {
            before
        } else {
            before.push(stories.last())
        }
    }
}

/// With distinct keys, the user found at a position is the user of that id.
pub proof fn lemma_user_index(users: Seq<UserView>, i: int)
    requires
        users_distinct(users),
        0 <= i < users.len(),
    ensures
        has_user(users, users[i].id),
        user_index(users, users[i].id) == i,
        has_username(users, users[i].username),
        username_index(users, users[i].username) == i,
{
    let id = users[i].id;
    let k = user_index(users, id);
    assert(0 <= k < users.len() && users[k].id == id);
    assert(k == i) by {
        if k < i {
            assert(users[k].id != users[i].id);
        } else if i < k {
            assert(users[i].id != users[k].id);
        }
    }
    let name = users[i].username;
    let m = username_index(users, name);
    assert(0 <= m < users.len() && users[m].username == name);
    assert(m == i) by {
        if m < i {
            assert(users[m].username != users[i].username);
        } else if i < m {
            assert(users[i].username != users[m].username);
        }
    }
}

/// With distinct ids, the story found at a position is the story of that id.
pub proof fn lemma_story_index(stories: Seq<RowView>, i: int)
    requires
        stories_distinct(stories),
        0 <= i < stories.len(),
    ensures
        has_story(stories, stories[i].id),
        story_index(stories, stories[i].id) == i,
{
    let id = stories[i].id;
    let k = story_index(stories, id);
    assert(0 <= k < stories.len() && stories[k].id == id);
    if k < i {
        assert(stories[k].id != stories[i].id);
    } else if i < k {
        assert(stories[i].id != stories[k].id);
    }
}

/// With distinct keys, the user table without user `id` has no user `id`,
/// and its keys are still distinct.
pub proof fn lemma_without_user(users: Seq<UserView>, id: int)
    requires
        users_distinct(users),
    ensures
        !has_user(without_user(users, id), id),
        users_distinct(without_user(users, id)),
{
    if has_user(users, id) {
        let i = user_index(users, id);
        let rest = users.remove(i);
        assert forall|k: int| 0 <= k < rest.len() implies (#[trigger] rest[k]).id != id by {
            let k0 = if k < i { k } else { k + 1 };
            assert(rest[k] == users[k0]);
            if k0 < i {
                assert(users[k0].id != users[i].id);
            } else {
                assert(users[i].id != users[k0].id);
            }
        }
        assert forall|a: int, b: int| 0 <= a < b < rest.len() implies (#[trigger] rest[a]).id != (
        #[trigger] rest[b]).id && rest[a].username != rest[b].username by {
            let a0 = if a < i { a } else { a + 1 };
            let b0 = if b < i { b } else { b + 1 };
            assert(rest[a] == users[a0]);
            assert(rest[b] == users[b0]);
            assert(users[a0].id != users[b0].id);
        }
    }
}

/// With distinct ids, the story table without story `id` has no story `id`,
/// its ids are still distinct, and each of its rows is a row of the table.
pub proof fn lemma_without_story(stories: Seq<RowView>, id: int)
    requires
        stories_distinct(stories),
    ensures
        !has_story(without_story(stories, id), id),
        stories_distinct(without_story(stories, id)),
        forall|k: int|
            0 <= k < without_story(stories, id).len() ==> stories.contains(
                #[trigger] without_story(stories, id)[k],
            ),
{
    if has_story(stories, id) {
        let i = story_index(stories, id);
        let rest = stories.remove(i);
        assert forall|k: int| 0 <= k < rest.len() implies (#[trigger] rest[k]).id != id
            && stories.contains(rest[k]) by {
            let k0 = if k < i { k } else { k + 1 };
            assert(rest[k] == stories[k0]);
            if k0 < i {
                assert(stories[k0].id != stories[i].id);
            } else {
                assert(stories[i].id != stories[k0].id);
            }
        }
        assert forall|a: int, b: int| 0 <= a < b < rest.len() implies (#[trigger] rest[a]).id != (
        #[trigger] rest[b]).id by {
            let a0 = if a < i { a } else { a + 1 };
            let b0 = if b < i { b } else { b + 1 };
            assert(rest[a] == stories[a0]);
            assert(rest[b] == stories[b0]);
            assert(stories[a0].id != stories[b0].id);
        }
    } else {
        assert forall|k: int| 0 <= k < stories.len() implies stories.contains(
            #[trigger] stories[k],
        ) by {}
    }
}

} // verus!
