use conduit::db::{Db, DbPool};
use conduit::error::AppError;
use conduit::timestamp::Timestamp;
use conduit::user::{UpdateUser, UserRepository, UserRepositoryImpl};

fn clock() -> Timestamp {
    Timestamp { year: 2024, month: 5, day: 6, hour: 7, minute: 8, second: 9 }
}

fn fresh_repo() -> UserRepositoryImpl {
    UserRepositoryImpl::new(DbPool::new(Db::empty(clock())))
}

#[test]
fn signup_stores_the_user_and_hands_back_a_token() {
    let mut repo = fresh_repo();
    let (user, token) = repo.signup("ann@example.com", "ann", "secret").unwrap();
    assert_eq!(user.id, 1);
    assert_eq!(user.email, "ann@example.com");
    assert_eq!(user.username, "ann");
    assert_eq!(user.password, "secret");
    assert_eq!(user.bio, None);
    assert_eq!(user.image, None);
    assert_eq!(token, "token-1");
    assert_eq!(repo.pool.db.users.len(), 1);
    assert_eq!(repo.pool.db.next_id, 2);
}

#[test]
fn signup_refuses_a_taken_email() {
    let mut repo = fresh_repo();
    repo.signup("ann@example.com", "ann", "secret").unwrap();
    let r = repo.signup("ann@example.com", "other", "pw");
    assert_eq!(r.unwrap_err(), AppError::UnprocessableEntity);
    assert_eq!(repo.pool.db.users.len(), 1);
}

#[test]
fn signin_returns_the_matching_user() {
    let mut repo = fresh_repo();
    repo.signup("ann@example.com", "ann", "secret").unwrap();
    let (user, token) = repo.signin("ann@example.com", "secret").unwrap();
    assert_eq!(user.username, "ann");
    assert_eq!(token, "token-1");
}

#[test]
fn signin_with_wrong_password_is_unauthorized() {
    let mut repo = fresh_repo();
    repo.signup("ann@example.com", "ann", "secret").unwrap();
    let r = repo.signin("ann@example.com", "wrong");
    assert_eq!(r.unwrap_err(), AppError::Unauthorized);
}

#[test]
fn signin_with_unknown_email_is_unauthorized() {
    let repo = fresh_repo();
    let r = repo.signin("who@example.com", "pw");
    assert_eq!(r.unwrap_err(), AppError::Unauthorized);
}

#[test]
fn me_hands_back_the_same_user_with_a_token() {
    let mut repo = fresh_repo();
    let (user, _) = repo.signup("ann@example.com", "ann", "secret").unwrap();
    let (me, token) = repo.me(&user).unwrap();
    assert_eq!(me.username, "ann");
    assert_eq!(token, "token-1");
}

#[test]
fn update_rewrites_only_the_given_fields() {
    let mut repo = fresh_repo();
    let (user, _) = repo.signup("ann@example.com", "ann", "secret").unwrap();
    let changeset = UpdateUser {
        email: None,
        username: Some("ann_two".to_string()),
        password: None,
        image: Some("pic.png".to_string()),
        bio: None,
    };
    let (updated, token) = repo.update(user.id, changeset).unwrap();
    assert_eq!(updated.email, "ann@example.com");
    assert_eq!(updated.username, "ann_two");
    assert_eq!(updated.password, "secret");
    assert_eq!(updated.image, Some("pic.png".to_string()));
    assert_eq!(updated.bio, None);
    assert_eq!(token, "token-1");
    assert_eq!(repo.pool.db.users[0].username, "ann_two");
}

#[test]
fn update_of_a_missing_user_is_not_found() {
    let mut repo = fresh_repo();
    let changeset = UpdateUser { email: None, username: None, password: None, image: None, bio: None };
    let r = repo.update(99, changeset);
    assert_eq!(r.unwrap_err(), AppError::NotFound);
}

#[test]
fn follow_records_the_pair_and_reports_following() {
    let mut repo = fresh_repo();
    let (ann, _) = repo.signup("ann@example.com", "ann", "pw").unwrap();
    repo.signup("bob@example.com", "bob", "pw").unwrap();
    let profile = repo.follow(&ann, "bob").unwrap();
    assert_eq!(profile.username, "ann");
    assert!(profile.following);
    assert_eq!(repo.pool.db.follows.len(), 1);
    assert_eq!(repo.pool.db.follows[0].follower_id, ann.id);
}

#[test]
fn follow_does_not_double_a_pair() {
    let mut repo = fresh_repo();
    let (ann, _) = repo.signup("ann@example.com", "ann", "pw").unwrap();
    repo.signup("bob@example.com", "bob", "pw").unwrap();
    repo.follow(&ann, "bob").unwrap();
    repo.follow(&ann, "bob").unwrap();
    assert_eq!(repo.pool.db.follows.len(), 1);
}

#[test]
fn follow_of_an_unknown_username_is_not_found() {
    let mut repo = fresh_repo();
    let (ann, _) = repo.signup("ann@example.com", "ann", "pw").unwrap();
    let r = repo.follow(&ann, "nobody");
    assert_eq!(r.unwrap_err(), AppError::NotFound);
}

#[test]
fn unfollow_removes_the_pair_and_reports_not_following() {
    let mut repo = fresh_repo();
    let (ann, _) = repo.signup("ann@example.com", "ann", "pw").unwrap();
    repo.signup("bob@example.com", "bob", "pw").unwrap();
    repo.follow(&ann, "bob").unwrap();
    let profile = repo.unfollow(&ann, "bob").unwrap();
    assert!(!profile.following);
    assert_eq!(repo.pool.db.follows.len(), 0);
}

#[test]
fn unfollow_of_an_unknown_username_is_not_found() {
    let mut repo = fresh_repo();
    let (ann, _) = repo.signup("ann@example.com", "ann", "pw").unwrap();
    let r = repo.unfollow(&ann, "nobody");
    assert_eq!(r.unwrap_err(), AppError::NotFound);
}
