use story_service::auth::AuthOutcome;
use story_service::failure::{
    classify_auth_outcome, classify_story_error, failure_body, reject_story, status_code,
    story_error_detail, ErrorKind, Rejection, FAILURE_STATUS, LOGIN_FAILED,
};
use story_service::store::{Store, UserSummary};
use story_service::story::{
    finish_create, resolve_creator, validate_title, CreatorLookup, InsertOutcome, Story,
    StoryError,
};

fn story(id: i64, title: &str, creator: &str) -> Story {
    Story { id, title: title.to_string(), creator: creator.to_string() }
}

fn with_alice() -> Store {
    let mut store = Store::new();
    assert!(store.add_user(1, "alice".to_string(), "pw".to_string(), "xyz".to_string()));
    store
}

#[test]
fn new_store_lists_nothing() {
    let store = Store::new();
    assert_eq!(store.list(), Vec::<Story>::new());
    assert_eq!(store.user_list(), Vec::<UserSummary>::new());
}

#[test]
fn login_create_list_delete() {
    let mut store = with_alice();
    assert_eq!(store.verify("alice", "pw"), AuthOutcome::Authenticated);
    let created = store.create(1, "My Story".to_string());
    assert_eq!(created, Ok(story(1, "My Story", "alice")));
    assert_eq!(store.list(), vec![story(1, "My Story", "alice")]);
    assert_eq!(store.delete(1), Ok(()));
    assert_eq!(store.list(), Vec::<Story>::new());
}

#[test]
fn create_for_unknown_creator_fails() {
    let mut store = with_alice();
    assert_eq!(store.create(1, "Kept".to_string()), Ok(story(1, "Kept", "alice")));
    let before = store.list();
    assert_eq!(store.create(999, "Orphan".to_string()), Err(StoryError::CreatorNotFound));
    assert_eq!(store.list(), before);
    assert_eq!(store.create(1, "Next".to_string()), Ok(story(2, "Next", "alice")));
}

#[test]
fn create_on_empty_store_fails() {
    let mut store = Store::new();
    assert_eq!(store.create(1, "T".to_string()), Err(StoryError::CreatorNotFound));
    assert_eq!(store.list(), Vec::<Story>::new());
}

#[test]
fn create_adds_exactly_one_entry_at_the_end() {
    let mut store = with_alice();
    assert!(store.add_user(7, "bob".to_string(), "b".to_string(), "s".to_string()));
    assert_eq!(store.create(1, "First".to_string()), Ok(story(1, "First", "alice")));
    let before = store.list();
    assert_eq!(store.create(7, "T".to_string()), Ok(story(2, "T", "bob")));
    let after = store.list();
    assert_eq!(after.len(), before.len() + 1);
    assert_eq!(after[..before.len()], before[..]);
    assert_eq!(after[before.len()], story(2, "T", "bob"));
    assert_eq!(store.delete(2), Ok(()));
    assert_eq!(store.list(), before);
}

#[test]
fn create_rejects_empty_title() {
    let mut store = with_alice();
    assert_eq!(store.create(1, "".to_string()), Err(StoryError::EmptyTitle));
    assert_eq!(store.list(), Vec::<Story>::new());
    assert_eq!(store.create(1, "T".to_string()), Ok(story(1, "T", "alice")));
    assert_eq!(store.create(1, "".to_string()), Err(StoryError::EmptyTitle));
    assert_eq!(store.list(), vec![story(1, "T", "alice")]);
}

#[test]
fn create_keeps_a_title_of_spaces() {
    let mut store = with_alice();
    assert_eq!(store.create(1, "  ".to_string()), Ok(story(1, "  ", "alice")));
    assert_eq!(store.create(1, " ".to_string()), Ok(story(2, " ", "alice")));
    assert_eq!(store.list(), vec![story(1, "  ", "alice"), story(2, " ", "alice")]);
}

#[test]
fn validate_title_refuses_only_the_empty_title() {
    assert_eq!(validate_title(""), Err(StoryError::EmptyTitle));
    assert_eq!(validate_title(" "), Ok(()));
    assert_eq!(validate_title("My Story"), Ok(()));
}

#[test]
fn unknown_creator_comes_before_empty_title() {
    let mut store = with_alice();
    assert_eq!(store.create(999, "".to_string()), Err(StoryError::CreatorNotFound));
    assert_eq!(Store::new().create(999, "".to_string()), Err(StoryError::CreatorNotFound));
    assert_eq!(store.list(), Vec::<Story>::new());
}

#[test]
fn resolve_creator_judges_the_title_once_the_creator_is_found() {
    assert_eq!(
        resolve_creator(CreatorLookup::Found("alice".to_string()), 1, String::new()).unwrap_err(),
        StoryError::EmptyTitle
    );
    assert_eq!(
        resolve_creator(CreatorLookup::Missing, 1, String::new()).unwrap_err(),
        StoryError::CreatorNotFound
    );
    assert_eq!(
        resolve_creator(CreatorLookup::Failed, 1, String::new()).unwrap_err(),
        StoryError::StoreFailure
    );
}

#[test]
fn story_failures_as_a_client_sees_them() {
    assert_eq!(story_error_detail(StoryError::CreatorNotFound), "creator not found");
    assert_eq!(story_error_detail(StoryError::EmptyTitle), "the title is empty");
    assert_eq!(story_error_detail(StoryError::StoreFailure), "the store failed");
    assert_eq!(
        reject_story(StoryError::CreatorNotFound),
        Rejection {
            kind: ErrorKind::Validation,
            status: 500,
            body: "Something went wrong: creator not found".to_string(),
        }
    );
    assert_eq!(
        reject_story(StoryError::EmptyTitle),
        Rejection {
            kind: ErrorKind::Validation,
            status: 500,
            body: "Something went wrong: the title is empty".to_string(),
        }
    );
    assert_eq!(
        reject_story(StoryError::StoreFailure),
        Rejection {
            kind: ErrorKind::Store,
            status: 500,
            body: "Something went wrong: the store failed".to_string(),
        }
    );
}

#[test]
fn ids_are_not_reused() {
    let mut store = with_alice();
    assert_eq!(store.create(1, "a".to_string()), Ok(story(1, "a", "alice")));
    assert_eq!(store.delete(1), Ok(()));
    assert_eq!(store.create(1, "b".to_string()), Ok(story(2, "b", "alice")));
    assert_eq!(store.list(), vec![story(2, "b", "alice")]);
}

#[test]
fn delete_twice_succeeds_both_times() {
    let mut store = with_alice();
    assert_eq!(store.create(1, "a".to_string()), Ok(story(1, "a", "alice")));
    assert_eq!(store.create(1, "b".to_string()), Ok(story(2, "b", "alice")));
    assert_eq!(store.delete(1), Ok(()));
    let once = store.list();
    assert_eq!(once, vec![story(2, "b", "alice")]);
    assert_eq!(store.delete(1), Ok(()));
    assert_eq!(store.list(), once);
}

#[test]
fn delete_of_unknown_id_changes_nothing() {
    let mut store = with_alice();
    assert_eq!(store.create(1, "a".to_string()), Ok(story(1, "a", "alice")));
    assert_eq!(store.delete(42), Ok(()));
    assert_eq!(store.delete(-1), Ok(()));
    assert_eq!(store.list(), vec![story(1, "a", "alice")]);
}

#[test]
fn delete_in_the_middle_keeps_the_order() {
    let mut store = with_alice();
    for title in ["a", "b", "c"] {
        assert!(store.create(1, title.to_string()).is_ok());
    }
    assert_eq!(store.delete(2), Ok(()));
    assert_eq!(store.list(), vec![story(1, "a", "alice"), story(3, "c", "alice")]);
}

#[test]
fn list_omits_stories_of_removed_user() {
    let mut store = with_alice();
    assert!(store.add_user(2, "bob".to_string(), "b".to_string(), "s".to_string()));
    assert_eq!(store.create(1, "hers".to_string()), Ok(story(1, "hers", "alice")));
    assert_eq!(store.create(2, "his".to_string()), Ok(story(2, "his", "bob")));
    store.remove_user(1);
    assert_eq!(store.list(), vec![story(2, "his", "bob")]);
    assert_eq!(store.create(1, "late".to_string()), Err(StoryError::CreatorNotFound));
    store.remove_user(1);
    assert_eq!(store.list(), vec![story(2, "his", "bob")]);
}

#[test]
fn add_user_refuses_taken_id_or_username() {
    let mut store = with_alice();
    assert!(!store.add_user(1, "carol".to_string(), "c".to_string(), "s".to_string()));
    assert!(!store.add_user(3, "alice".to_string(), "c".to_string(), "s".to_string()));
    assert!(store.add_user(3, "carol".to_string(), "c".to_string(), "s".to_string()));
    assert_eq!(
        store.user_list(),
        vec![
            UserSummary { id: 1, username: "alice".to_string() },
            UserSummary { id: 3, username: "carol".to_string() },
        ]
    );
    assert_eq!(store.verify("alice", "pw"), AuthOutcome::Authenticated);
    assert_eq!(store.verify("alice", "c"), AuthOutcome::InvalidCredentials);
}

#[test]
fn creator_lookup_by_id() {
    let store = with_alice();
    match store.creator(1) {
        CreatorLookup::Found(name) => assert_eq!(name, "alice"),
        _ => panic!("alice is registered"),
    }
    assert!(matches!(store.creator(2), CreatorLookup::Missing));
}

#[test]
fn resolve_creator_by_lookup_answer() {
    let pending = resolve_creator(CreatorLookup::Found("alice".to_string()), 1, "T".to_string())
        .expect("creator was found");
    assert_eq!(pending.title(), "T");
    assert_eq!(pending.creator_id(), 1);
    assert_eq!(pending.creator_name(), "alice");
    assert_eq!(
        resolve_creator(CreatorLookup::Missing, 1, "T".to_string()).unwrap_err(),
        StoryError::CreatorNotFound
    );
    assert_eq!(
        resolve_creator(CreatorLookup::Failed, 1, "T".to_string()).unwrap_err(),
        StoryError::StoreFailure
    );
}

#[test]
fn finish_create_by_insert_outcome() {
    let pending = resolve_creator(CreatorLookup::Found("alice".to_string()), 1, "T".to_string())
        .expect("creator was found");
    assert_eq!(finish_create(pending, InsertOutcome::Inserted(5)), Ok(story(5, "T", "alice")));
    let pending = resolve_creator(CreatorLookup::Found("alice".to_string()), 1, "T".to_string())
        .expect("creator was found");
    assert_eq!(finish_create(pending, InsertOutcome::Failed), Err(StoryError::StoreFailure));
}

#[test]
fn every_failure_has_the_same_status() {
    for kind in [ErrorKind::Store, ErrorKind::Validation, ErrorKind::Auth, ErrorKind::Render] {
        assert_eq!(status_code(kind), 500);
    }
    assert_eq!(FAILURE_STATUS, 500);
}

#[test]
fn failures_are_classified() {
    assert_eq!(classify_story_error(StoryError::EmptyTitle), ErrorKind::Validation);
    assert_eq!(classify_story_error(StoryError::CreatorNotFound), ErrorKind::Validation);
    assert_eq!(classify_story_error(StoryError::StoreFailure), ErrorKind::Store);
    assert_eq!(classify_auth_outcome(AuthOutcome::Authenticated), None);
    assert_eq!(classify_auth_outcome(AuthOutcome::InvalidCredentials), Some(ErrorKind::Auth));
    assert_eq!(classify_auth_outcome(AuthOutcome::LookupFailed), Some(ErrorKind::Store));
}

#[test]
fn failure_body_has_prefix_and_detail() {
    assert_eq!(failure_body(LOGIN_FAILED), "Something went wrong: Login failed!");
    assert_eq!(failure_body(""), "Something went wrong: ");
}
