use conduit::article::{Article, NewArticle, UpdateArticle};
use conduit::comment::{CommentRepository, CommentRepositoryImpl};
use conduit::db::{Db, DbPool};
use conduit::error::AppError;
use conduit::timestamp::Timestamp;
use conduit::user::{User, UserRepository, UserRepositoryImpl};

fn clock() -> Timestamp {
    Timestamp { year: 2024, month: 5, day: 6, hour: 7, minute: 8, second: 9 }
}

fn user(id: u64, name: &str) -> User {
    User {
        id,
        email: format!("{}@example.com", name),
        username: name.to_string(),
        password: "pw".to_string(),
        bio: None,
        image: None,
    }
}

fn db_with_author() -> (Db, User) {
    let mut db = Db::empty(clock());
    let author = user(db.next_id, "ann");
    db.users.push(user(author.id, "ann"));
    db.next_id += 1;
    (db, author)
}

#[test]
fn article_create_stamps_id_and_clock() {
    let (mut db, author) = db_with_author();
    let record = NewArticle {
        author_id: author.id,
        slug: "hello-world".to_string(),
        title: "Hello World".to_string(),
        description: "greeting".to_string(),
        body: "hi".to_string(),
    };
    let article = Article::create(&mut db, &record);
    assert_eq!(article.id, 2);
    assert_eq!(article.author_id, author.id);
    assert_eq!(article.slug, "hello-world");
    assert_eq!(article.created_at, clock());
    assert_eq!(article.updated_at, clock());
    assert_eq!(db.articles.len(), 1);
    assert_eq!(db.next_id, 3);
}

#[test]
fn article_update_rewrites_only_the_given_fields() {
    let (mut db, author) = db_with_author();
    let record = NewArticle {
        author_id: author.id,
        slug: "hello-world".to_string(),
        title: "Hello World".to_string(),
        description: "greeting".to_string(),
        body: "hi".to_string(),
    };
    let article = Article::create(&mut db, &record);
    let changeset = UpdateArticle {
        slug: None,
        title: Some("Hello Again".to_string()),
        description: None,
        body: Some("hi again".to_string()),
    };
    let updated = Article::update(&mut db, article.id, &changeset);
    assert_eq!(updated.slug, "hello-world");
    assert_eq!(updated.title, "Hello Again");
    assert_eq!(updated.description, "greeting");
    assert_eq!(updated.body, "hi again");
    assert_eq!(db.articles[0].title, "Hello Again");
}

fn comment_repo_with_article() -> (CommentRepositoryImpl, User) {
    let (mut db, author) = db_with_author();
    let record = NewArticle {
        author_id: author.id,
        slug: "hello-world".to_string(),
        title: "Hello World".to_string(),
        description: "greeting".to_string(),
        body: "hi".to_string(),
    };
    Article::create(&mut db, &record);
    (CommentRepositoryImpl::new(DbPool::new(db)), author)
}

#[test]
fn comment_create_attaches_to_the_matching_article() {
    let (mut repo, author) = comment_repo_with_article();
    let (comment, profile) = repo
        .create("nice post".to_string(), "hello-world".to_string(), author)
        .unwrap();
    assert_eq!(comment.body, "nice post");
    assert_eq!(comment.article_id, 2);
    assert_eq!(comment.author_id, 1);
    assert_eq!(comment.id, 3);
    assert_eq!(comment.created_at, clock());
    assert_eq!(profile.username, "ann");
    assert!(!profile.following);
    assert_eq!(repo.pool.db.comments.len(), 1);
}

#[test]
fn comment_create_on_a_missing_slug_is_not_found() {
    let (mut repo, author) = comment_repo_with_article();
    let r = repo.create("nice".to_string(), "no-such-slug".to_string(), author);
    assert_eq!(r.unwrap_err(), AppError::NotFound);
    assert_eq!(repo.pool.db.comments.len(), 0);
}

#[test]
fn comment_create_by_a_non_author_is_not_found() {
    let (mut repo, _) = comment_repo_with_article();
    let other = user(50, "bob");
    let r = repo.create("hi".to_string(), "hello-world".to_string(), other);
    assert_eq!(r.unwrap_err(), AppError::NotFound);
}

#[test]
fn fetch_comments_list_joins_author_profiles() {
    let (mut repo, author) = comment_repo_with_article();
    repo.create("first".to_string(), "hello-world".to_string(), user(author.id, "ann"))
        .unwrap();
    let list = repo.fetch_comments_list(&None).unwrap();
    assert_eq!(list.len(), 1);
    assert_eq!(list[0].0.body, "first");
    assert_eq!(list[0].1.username, "ann");
    assert!(!list[0].1.following);
}

#[test]
fn fetch_comments_list_marks_followed_authors() {
    let (repo, author) = comment_repo_with_article();
    let mut db = repo.pool.db;
    let bob = user(db.next_id, "bob");
    db.users.push(user(bob.id, "bob"));
    db.next_id += 1;
    let mut users = UserRepositoryImpl::new(DbPool::new(db));
    users.follow(&bob, "ann").unwrap();
    let mut repo = CommentRepositoryImpl::new(users.pool);
    repo.create("first".to_string(), "hello-world".to_string(), user(author.id, "ann"))
        .unwrap();
    let seen_by_bob = repo.fetch_comments_list(&Some(user(bob.id, "bob"))).unwrap();
    assert!(seen_by_bob[0].1.following);
    let seen_by_nobody = repo.fetch_comments_list(&None).unwrap();
    assert!(!seen_by_nobody[0].1.following);
}

#[test]
fn fetch_comments_list_drops_comments_without_an_author() {
    let (mut repo, author) = comment_repo_with_article();
    repo.create("kept".to_string(), "hello-world".to_string(), author).unwrap();
    repo.pool.db.users.clear();
    let list = repo.fetch_comments_list(&None).unwrap();
    assert_eq!(list.len(), 0);
}

#[test]
fn delete_removes_exactly_the_matching_comment() {
    let (mut repo, author) = comment_repo_with_article();
    let (first, _) = repo
        .create("one".to_string(), "hello-world".to_string(), user(author.id, "ann"))
        .unwrap();
    let (second, _) = repo
        .create("two".to_string(), "hello-world".to_string(), user(author.id, "ann"))
        .unwrap();
    repo.delete("hello-world", first.id, author.id).unwrap();
    assert_eq!(repo.pool.db.comments.len(), 1);
    assert_eq!(repo.pool.db.comments[0].id, second.id);
}

#[test]
fn delete_with_a_wrong_slug_removes_nothing() {
    let (mut repo, author) = comment_repo_with_article();
    let (comment, _) = repo
        .create("one".to_string(), "hello-world".to_string(), user(author.id, "ann"))
        .unwrap();
    repo.delete("other-slug", comment.id, author.id).unwrap();
    assert_eq!(repo.pool.db.comments.len(), 1);
}

#[test]
fn delete_by_another_author_removes_nothing() {
    let (mut repo, author) = comment_repo_with_article();
    let (comment, _) = repo
        .create("one".to_string(), "hello-world".to_string(), user(author.id, "ann"))
        .unwrap();
    repo.delete("hello-world", comment.id, 50).unwrap();
    assert_eq!(repo.pool.db.comments.len(), 1);
}
