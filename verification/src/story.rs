//! Stories as callers see them, and the two decisions that creating one takes:
//! what to do once the creator has been looked up, and what to return once the
//! row has been inserted.

use vstd::prelude::*;

verus! {

/// A story joined with its creator's display name.
#[derive(Clone, Debug, PartialEq, Eq)]
pub struct Story {
    pub id: i64,
    pub title: String,
    pub creator: String,
}

/// Mathematical value of a [`Story`].
pub struct StoryView {
    pub id: int,
    pub title: Seq<char>,
    pub creator: Seq<char>,
}

impl View for Story {
    type V = StoryView;

    open spec fn view(&self) -> StoryView {
        StoryView { id: self.id as int, title: self.title@, creator: self.creator@ }
    }
}

/// The values of a sequence of stories, in order.
pub open spec fn story_views(stories: Seq<Story>) -> Seq<StoryView> {
    Seq::new(stories.len(), |i: int| stories[i]@)
}

/// Whether a title can be stored: it must hold at least one character. Its
/// content is not judged: a title made of spaces only is a title, and is kept
/// as it was given.
pub open spec fn acceptable_title(title: Seq<char>) -> bool {
    title.len() > 0
}

/// Why a story operation failed.
#[derive(Clone, Copy, Debug, PartialEq, Eq, Structural)]
pub enum StoryError {
    /// The creator id names no user.
    CreatorNotFound,
    /// The creator exists and the title is empty.
    EmptyTitle,
    /// The store could not carry out the operation.
    StoreFailure,
}

/// What the store answered when asked for a creator's display name.
pub enum CreatorLookup {
    /// The user exists and has this username.
    Found(String),
    /// No user has the id.
    Missing,
    /// The query itself failed.
    Failed,
}

/// What the store answered to the insertion of a story row.
#[derive(Clone, Copy, Debug, PartialEq, Eq, Structural)]
pub enum InsertOutcome {
    /// The row was stored under this id.
    Inserted(i64),
    /// The insertion failed.
    Failed,
}

/// A story whose title has been accepted and whose creator has been
/// resolved, and whose row is yet to be inserted. Only [`resolve_creator`]
/// makes one, so its title is never empty.
#[derive(Debug)]
pub struct PendingStory {
    pub(crate) title: String,
    pub(crate) creator_id: i64,
    pub(crate) creator_name: String,
}

/// Mathematical value of a [`PendingStory`].
pub struct PendingView {
    pub title: Seq<char>,
    pub creator_id: int,
    pub creator_name: Seq<char>,
}

impl View for PendingStory {
    type V = PendingView;

    closed spec fn view(&self) -> PendingView {
        PendingView {
            title: self.title@,
            creator_id: self.creator_id as int,
            creator_name: self.creator_name@,
        }
    }
}

impl PendingStory {
    #[verifier::type_invariant]
    spec fn titled(&self) -> bool {
        acceptable_title(self.title@)
    }

    /// The title to insert, which is not empty.
    pub fn title(&self) -> (title: &str)
        ensures
            title@ == self@.title,
            acceptable_title(title@),
    {
        proof {
            use_type_invariant(self);
        }
        self.title.as_str()
    }

    /// The creator's id to insert.
    pub fn creator_id(&self) -> (id: i64)
        ensures
            id == self@.creator_id,
    {
        self.creator_id
    }

    /// The creator's username as it was resolved.
    pub fn creator_name(&self) -> (name: &str)
        ensures
            name@ == self@.creator_name,
    {
        self.creator_name.as_str()
    }
}

/// Judges a title: an empty one is refused.
pub fn validate_title(title: &str) -> (checked: Result<(), StoryError>)
    ensures
        acceptable_title(title@) ==> checked is Ok,
        !acceptable_title(title@) ==> checked is Err && checked->Err_0 == StoryError::EmptyTitle,
{
    if title.is_empty() {
        Err(StoryError::EmptyTitle)
    } else {
        Ok(())
    }
}

/// What the first decision of a creation gives for a lookup answer and a
/// title. The creator comes first: without one the creation ends with the
/// lookup's error, whatever the title is. The title is judged once the
/// creator is found.
pub open spec fn resolved(lookup: CreatorLookup, creator_id: int, title: Seq<char>) -> Result<
    PendingView,
    StoryError,
> {
    match lookup {
        CreatorLookup::Missing => Err(StoryError::CreatorNotFound),
        CreatorLookup::Failed => Err(StoryError::StoreFailure),
        CreatorLookup::Found(name) => if acceptable_title(title) {
            Ok(PendingView { title, creator_id, creator_name: name@ })
        } else {
            Err(StoryError::EmptyTitle)
        },
    }
}

/// First decision of a creation: without a creator it ends with the lookup's
/// error; with the creator found, an empty title is refused, and any other
/// makes the story ready to be inserted under that creator's name.
pub fn resolve_creator(lookup: CreatorLookup, creator_id: i64, title: String) -> (next: Result<
    PendingStory,
    StoryError,
>)
    ensures
        match next {
            Ok(pending) => resolved(lookup, creator_id as int, title@) == Ok::<
                PendingView,
                StoryError,
            >(pending@),
            Err(e) => resolved(lookup, creator_id as int, title@) == Err::<
                PendingView,
                StoryError,
            >(e),
        },
{
    match lookup {
        CreatorLookup::Missing => Err(StoryError::CreatorNotFound),
        CreatorLookup::Failed => Err(StoryError::StoreFailure),
        CreatorLookup::Found(name) => match validate_title(title.as_str()) {
            Ok(()) => Ok(PendingStory { title, creator_id, creator_name: name }),
            Err(e) => Err(e),
        },
    }
}

/// Second decision of a creation: the story returned to the caller carries the
/// id that the store assigned, the title as accepted and the creator's name as
/// resolved before the insertion.
pub fn finish_create(pending: PendingStory, outcome: InsertOutcome) -> (done: Result<
    Story,
    StoryError,
>)
    ensures
        match outcome {
            InsertOutcome::Inserted(id) => done is Ok && done->Ok_0@ == (StoryView {
                id: id as int,
                title: pending@.title,
                creator: pending@.creator_name,
            }) && acceptable_title(done->Ok_0@.title),
            InsertOutcome::Failed => done is Err && done->Err_0 == StoryError::StoreFailure,
        },
{
    proof {
        use_type_invariant(&pending);
    }
    match outcome {
        InsertOutcome::Inserted(id) => Ok(
            Story { id, title: pending.title, creator: pending.creator_name },
        ),
        InsertOutcome::Failed => Err(StoryError::StoreFailure),
    }
}

} // verus!
