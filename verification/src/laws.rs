//! What holds of the services on every store, proved from the model.

use vstd::prelude::*;
use crate::auth::{auth_decision, AuthOutcome};
use crate::failure::login_rejection;
use crate::digest::salted;
use crate::model::{
    after_create, after_delete, create_result, credentials_of, has_user, has_username, join_row,
    lemma_story_index, lemma_user_index, lemma_without_story, lemma_without_user, listing, max_id,
    stories_distinct, user_index, users_distinct, well_formed, without_stories_of, without_user,
    RowView, StoreView, UserView,
};
use crate::story::{acceptable_title, StoryError, StoryView};

verus! {

/// A registered user who offers the stored password is authenticated.
pub proof fn law_own_password_accepted(users: Seq<UserView>, i: int)
    requires
        users_distinct(users),
        0 <= i < users.len(),
    ensures
        auth_decision(credentials_of(users, users[i].username), users[i].password)
            == AuthOutcome::Authenticated,
{
    lemma_user_index(users, i);
}

/// A registered user who offers another password is refused, provided that
/// the salted digest of what is offered differs from that of the stored
/// password: the decision sees the digests only.
pub proof fn law_other_password_refused(users: Seq<UserView>, i: int, candidate: Seq<char>)
    requires
        users_distinct(users),
        0 <= i < users.len(),
        candidate != users[i].password,
        salted(candidate, users[i].salt) != salted(users[i].password, users[i].salt),
    ensures
        auth_decision(credentials_of(users, users[i].username), candidate)
            == AuthOutcome::InvalidCredentials,
{
    lemma_user_index(users, i);
}

/// A username that no user has is refused, with the very outcome that a wrong
/// password gets.
pub proof fn law_unknown_user_refused(users: Seq<UserView>, name: Seq<char>, candidate: Seq<char>)
    requires
        !has_username(users, name),
    ensures
        auth_decision(credentials_of(users, name), candidate) == AuthOutcome::InvalidCredentials,
{
}

/// Whoever offers an unknown username learns no more than whoever offers a
/// password for a known one and is not let in: that attempt either
/// authenticates or has the very outcome of the unknown username, and with it
/// the same kind of failure.
pub proof fn law_refusals_look_alike(
    users: Seq<UserView>,
    name: Seq<char>,
    candidate: Seq<char>,
    known: Seq<char>,
    offered: Seq<char>,
)
    requires
        !has_username(users, name),
        has_username(users, known),
    ensures
        auth_decision(credentials_of(users, name), candidate) == AuthOutcome::InvalidCredentials,
        auth_decision(credentials_of(users, known), offered) == AuthOutcome::Authenticated
            || auth_decision(credentials_of(users, known), offered) == auth_decision(
            credentials_of(users, name),
            candidate,
        ),
        auth_decision(credentials_of(users, known), offered) != AuthOutcome::Authenticated
            ==> login_rejection(auth_decision(credentials_of(users, known), offered))
            == login_rejection(auth_decision(credentials_of(users, name), candidate)),
        login_rejection(auth_decision(credentials_of(users, name), candidate)) is Some,
{
}

/// Creating a story with an empty title for a creator who is a user fails
/// with `EmptyTitle` and leaves the store as it was.
pub proof fn law_create_rejects_empty_title(s: StoreView, creator: int)
    requires
        has_user(s.users, creator),
    ensures
        create_result(s, creator, Seq::empty()) == Err::<StoryView, StoryError>(
            StoryError::EmptyTitle,
        ),
        after_create(s, creator, Seq::empty()) == s,
{
}

/// Creation keeps the store well formed; in particular no stored title is
/// ever empty.
pub proof fn law_create_keeps_titles(s: StoreView, creator: int, title: Seq<char>)
    requires
        well_formed(s),
    ensures
        well_formed(after_create(s, creator, title)),
{
    let t = after_create(s, creator, title);
    if create_result(s, creator, title) is Ok {
        assert forall|i: int, j: int| 0 <= i < j < t.stories.len() implies (
        #[trigger] t.stories[i]).id != (#[trigger] t.stories[j]).id by {
            assert(t.stories[i] == s.stories[i]);
            if j < s.stories.len() {
                assert(t.stories[j] == s.stories[j]);
            }
        }
        assert forall|i: int| 0 <= i < t.stories.len() implies 1 <= (#[trigger] t.stories[i]).id
            < t.next_id && acceptable_title(t.stories[i].title) by {
            if i < s.stories.len() {
                assert(t.stories[i] == s.stories[i]);
            }
        }
    }
}

/// Creating a story for a creator who is not a user fails with
/// `CreatorNotFound`, whatever the title is, and leaves the store as it was.
pub proof fn law_create_rejects_unknown_creator(s: StoreView, creator: int, title: Seq<char>)
    requires
        !has_user(s.users, creator),
    ensures
        create_result(s, creator, title) == Err::<StoryView, StoryError>(
            StoryError::CreatorNotFound,
        ),
        after_create(s, creator, title) == s,
        listing(after_create(s, creator, title).stories, after_create(s, creator, title).users)
            == listing(s.stories, s.users),
{
}

/// Creating a story with an acceptable title for the user at position `i`
/// succeeds while an id is left to assign, and the story returned carries that
/// user's username.
pub proof fn law_create_names_creator(s: StoreView, i: int, title: Seq<char>)
    requires
        well_formed(s),
        acceptable_title(title),
        0 <= i < s.users.len(),
        s.next_id < max_id(),
    ensures
        create_result(s, s.users[i].id, title) == Ok::<StoryView, StoryError>(
            StoryView { id: s.next_id, title, creator: s.users[i].username },
        ),
{
    lemma_user_index(s.users, i);
}

/// Every listed story stems from a stored story whose creator is a user, and
/// carries that user's username.
pub proof fn law_listed_creator_exists(stories: Seq<RowView>, users: Seq<UserView>, k: int)
    requires
        0 <= k < listing(stories, users).len(),
    ensures
        exists|m: int|
            0 <= m < stories.len() && has_user(users, (#[trigger] stories[m]).creator) && join_row(
                users,
                stories[m],
            ) == Some(listing(stories, users)[k]),
    decreases stories.len(),
{
    let head = stories.drop_last();
    let before = listing(head, users);
    if k < before.len() {
        law_listed_creator_exists(head, users, k);
        let m = choose|m: int|
            0 <= m < head.len() && has_user(users, (#[trigger] head[m]).creator) && join_row(
                users,
                head[m],
            ) == Some(before[k]);
        assert(stories[m] == head[m]);
    } else {
        let m = stories.len() - 1;
        assert(join_row(users, stories[m]) == Some(listing(stories, users)[k]));
    }
}

/// Once a user is removed, no story of that user is listed.
pub proof fn law_removed_creator_not_listed(
    stories: Seq<RowView>,
    users: Seq<UserView>,
    id: int,
    k: int,
)
    requires
        users_distinct(users),
        0 <= k < listing(stories, without_user(users, id)).len(),
    ensures
        exists|m: int|
            0 <= m < stories.len() && (#[trigger] stories[m]).creator != id && join_row(
                without_user(users, id),
                stories[m],
            ) == Some(listing(stories, without_user(users, id))[k]),
{
    let rest = without_user(users, id);
    lemma_without_user(users, id);
    law_listed_creator_exists(stories, rest, k);
}

/// Removing a user other than a story's creator leaves the story's join as
/// it was.
pub proof fn lemma_join_after_removal(users: Seq<UserView>, id: int, row: RowView)
    requires
        users_distinct(users),
        row.creator != id,
    ensures
        join_row(without_user(users, id), row) == join_row(users, row),
{
    if has_user(users, id) {
        let i = user_index(users, id);
        let rest = users.remove(i);
        lemma_without_user(users, id);
        if has_user(users, row.creator) {
            let k = user_index(users, row.creator);
            let k1 = if k < i { k } else { k - 1 };
            assert(rest[k1] == users[k]);
            lemma_user_index(rest, k1);
        } else {
            assert forall|m: int| 0 <= m < rest.len() implies (#[trigger] rest[m]).id
                != row.creator by {
                let m0 = if m < i { m } else { m + 1 };
                assert(rest[m] == users[m0]);
            }
        }
    }
}

/// Right after a user is removed, the listing is the listing of before
/// without that user's stories, and nothing else has changed in it.
pub proof fn law_removed_user_stories_unlisted(
    stories: Seq<RowView>,
    users: Seq<UserView>,
    id: int,
)
    requires
        users_distinct(users),
    ensures
        listing(stories, without_user(users, id)) == listing(
            without_stories_of(stories, id),
            users,
        ),
    decreases stories.len(),
{
    if stories.len() > 0 {
        let head = stories.drop_last();
        let row = stories.last();
        law_removed_user_stories_unlisted(head, users, id);
        if row.creator == id {
            lemma_without_user(users, id);
        } else {
            lemma_join_after_removal(users, id, row);
            let kept = without_stories_of(head, id).push(row);
            assert(kept.drop_last() =~= without_stories_of(head, id));
            assert(kept.last() == row);
        }
    }
}

/// Deleting a story a second time changes nothing more.
pub proof fn law_delete_idempotent(s: StoreView, id: int)
    requires
        well_formed(s),
    ensures
        after_delete(after_delete(s, id), id) == after_delete(s, id),
        listing(after_delete(after_delete(s, id), id).stories, s.users) == listing(
            after_delete(s, id).stories,
            s.users,
        ),
{
    lemma_without_story(s.stories, id);
}

/// After a successful creation the listing is the listing as it was, with
/// exactly the created story added at the end.
pub proof fn law_create_then_list(s: StoreView, creator: int, title: Seq<char>)
    requires
        well_formed(s),
        create_result(s, creator, title) is Ok,
    ensures
        listing(after_create(s, creator, title).stories, after_create(s, creator, title).users)
            == listing(s.stories, s.users).push(create_result(s, creator, title)->Ok_0),
{
    let row = RowView { id: s.next_id, title, creator };
    let grown = s.stories.push(row);
    assert(grown.drop_last() =~= s.stories);
    assert(grown.last() == row);
}

/// Deleting a story right after its creation gives back the story table, and
/// so the listing, from before the creation.
pub proof fn law_create_then_delete(s: StoreView, creator: int, title: Seq<char>)
    requires
        well_formed(s),
        create_result(s, creator, title) is Ok,
    ensures
        after_delete(after_create(s, creator, title), s.next_id).stories == s.stories,
        after_delete(after_create(s, creator, title), s.next_id).users == s.users,
        listing(
            after_delete(after_create(s, creator, title), s.next_id).stories,
            after_delete(after_create(s, creator, title), s.next_id).users,
        ) == listing(s.stories, s.users),
{
    let row = RowView { id: s.next_id, title, creator };
    let grown = s.stories.push(row);
    let last = s.stories.len() as int;
    assert(grown[last] == row);
    assert(stories_distinct(grown)) by {
        assert forall|a: int, b: int| 0 <= a < b < grown.len() implies (#[trigger] grown[a]).id != (#[trigger] grown[b]).id by {
            assert(grown[a] == s.stories[a]);
            if b < last {
                assert(grown[b] == s.stories[b]);
            }
        }
    }
    lemma_story_index(grown, last);
    assert(grown.remove(last) =~= s.stories);
}

} // verus!
