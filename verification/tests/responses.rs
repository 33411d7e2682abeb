use conduit::article::{Article, Tag};
use conduit::response::{ArticleContent, MultipleArticlesResponse, SingleArticleResponse};
use conduit::timestamp::Timestamp;
use conduit::user::{Profile, User};

fn ts(hour: u64) -> Timestamp {
    Timestamp { year: 2024, month: 5, day: 6, hour, minute: 8, second: 9 }
}

fn article(id: u64) -> Article {
    Article {
        id,
        author_id: 1,
        slug: "hello-world".to_string(),
        title: "Hello World".to_string(),
        description: "greeting".to_string(),
        body: "hi".to_string(),
        created_at: ts(7),
        updated_at: ts(8),
    }
}

fn profile(following: bool) -> Profile {
    Profile {
        username: "ann".to_string(),
        bio: Some("writes".to_string()),
        image: None,
        following,
    }
}

fn tags(article_id: u64) -> Vec<Tag> {
    vec![
        Tag { id: 10, article_id, name: "greetings".to_string() },
        Tag { id: 11, article_id, name: "intro".to_string() },
    ]
}

#[test]
fn article_content_copies_fields_and_renders_timestamps() {
    let content = ArticleContent::from(article(2), profile(true), tags(2));
    assert_eq!(content.slug, "hello-world");
    assert_eq!(content.title, "Hello World");
    assert_eq!(content.description, "greeting");
    assert_eq!(content.body, "hi");
    assert_eq!(content.tagList, vec!["greetings".to_string(), "intro".to_string()]);
    assert_eq!(content.createdAt, "2024-05-06 07:08:09");
    assert_eq!(content.updatedAt, "2024-05-06 08:08:09");
    assert_eq!(content.author.username, "ann");
    assert_eq!(content.author.bio, Some("writes".to_string()));
    assert_eq!(content.author.image, None);
    assert!(content.author.following);
}

#[test]
fn deprecated_article_content_always_says_following() {
    let user = User {
        id: 1,
        email: "ann@example.com".to_string(),
        username: "ann".to_string(),
        password: "pw".to_string(),
        bio: None,
        image: Some("pic.png".to_string()),
    };
    let content = ArticleContent::DEPRECATED_from(article(2), user, vec![]);
    assert!(content.author.following);
    assert_eq!(content.author.image, Some("pic.png".to_string()));
    assert_eq!(content.tagList, Vec::<String>::new());
}

#[test]
fn single_article_response_wraps_one_article() {
    let response = SingleArticleResponse::from(article(2), profile(false), tags(2));
    assert_eq!(response.article.slug, "hello-world");
    assert!(!response.article.author.following);
}

#[test]
fn multiple_articles_response_keeps_order_and_count() {
    let info = vec![
        ((article(2), profile(false)), tags(2)),
        ((Article { slug: "second".to_string(), ..article(3) }, profile(true)), vec![]),
    ];
    let response = MultipleArticlesResponse::from(info, 17);
    assert_eq!(response.articlesCount, 17);
    assert_eq!(response.articles.len(), 2);
    assert_eq!(response.articles[0].slug, "hello-world");
    assert_eq!(response.articles[1].slug, "second");
    assert!(response.articles[1].author.following);
}

#[test]
fn deprecated_multiple_articles_response_uses_user_rows() {
    let user = User {
        id: 1,
        email: "ann@example.com".to_string(),
        username: "ann".to_string(),
        password: "pw".to_string(),
        bio: None,
        image: None,
    };
    let info = vec![((article(2), user), tags(2))];
    let response = MultipleArticlesResponse::DEPRECATED_from(info, 1);
    assert_eq!(response.articlesCount, 1);
    assert_eq!(response.articles[0].author.username, "ann");
    assert!(response.articles[0].author.following);
}
