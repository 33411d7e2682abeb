//! The response shapes the HTTP layer serialises: one article, or a page of
//! articles with a count, each with its tag names, display timestamps and
//! author block.

use vstd::prelude::*;

use crate::article::{clone_article, Article, Tag};
use crate::text::clone_opt_string;
use crate::timestamp::spec_timestamp_display;
use crate::user::{clone_user, Profile, User};

verus! {

/// The author block inside an article response.
#[derive(Debug, PartialEq, Eq)]
pub struct AuthorContent {
    pub username: String,
    pub bio: Option<String>,
    pub image: Option<String>,
    pub following: bool,
}

/// One article as a response body carries it.
#[allow(non_snake_case)]
#[derive(Debug, PartialEq, Eq)]
pub struct ArticleContent {
    pub slug: String,
    pub title: String,
    pub description: String,
    pub body: String,
    pub tagList: Vec<String>,
    pub createdAt: String,
    pub updatedAt: String,
    pub author: AuthorContent,
}

/// The response around a single article.
#[derive(Debug, PartialEq, Eq)]
pub struct SingleArticleResponse {
    pub article: ArticleContent,
}

/// The response around a page of articles.
#[allow(non_snake_case)]
#[derive(Debug, PartialEq, Eq)]
pub struct MultipleArticlesResponse {
    pub articles: Vec<ArticleContent>,
    pub articlesCount: i64,
}

/// The author block a profile turns into.
pub open spec fn spec_author_content(p: Profile) -> AuthorContent {
    AuthorContent { username: p.username, bio: p.bio, image: p.image, following: p.following }
}

/// The author block a bare user row turns into; with no follow relation at
/// hand the block says following.
pub open spec fn spec_author_content_of_user(u: User) -> AuthorContent {
    AuthorContent { username: u.username, bio: u.bio, image: u.image, following: true }
}

/// How a response article relates to the row, author block and tags it was
/// built from: fields copied, tags reduced to their names in order, both
/// timestamps rendered for display.
pub open spec fn spec_is_article_content(
    r: ArticleContent,
    a: Article,
    author: AuthorContent,
    tags: Seq<Tag>,
) -> bool {
    &&& r.slug == a.slug
    &&& r.title == a.title
    &&& r.description == a.description
    &&& r.body == a.body
    &&& r.tagList@ == tags.map_values(|t: Tag| t.name)
    &&& r.createdAt@ == spec_timestamp_display(a.created_at)
    &&& r.updatedAt@ == spec_timestamp_display(a.updated_at)
    &&& r.author == author
}

/// The names of the given tags, in order.
fn tag_names(tags: &Vec<Tag>) -> (r: Vec<String>)
    ensures
        r@ == tags@.map_values(|t: Tag| t.name),
{
    let n: usize = tags.len();
    let mut names: Vec<String> = Vec::new();
    let mut i: usize = 0;
    while i < n
        invariant
            i <= n,
            n == tags@.len(),
            names@ == tags@.take(i as int).map_values(|t: Tag| t.name),
        decreases n - i,
    {
        names.push(tags[i].name.clone());
        assert(names@ =~= tags@.take(i as int + 1).map_values(|t: Tag| t.name));
        i = i + 1;
    }
    assert(tags@.take(n as int) =~= tags@);
    names
}

fn clone_tags(tags: &Vec<Tag>) -> (r: Vec<Tag>)
    ensures
        r@ == tags@,
{
    let n: usize = tags.len();
    let mut out: Vec<Tag> = Vec::new();
    let mut i: usize = 0;
    while i < n
        invariant
            i <= n,
            n == tags@.len(),
            out@ == tags@.take(i as int),
        decreases n - i,
    {
        out.push(Tag { id: tags[i].id, article_id: tags[i].article_id, name: tags[i].name.clone() });
        assert(out@ =~= tags@.take(i as int + 1));
        i = i + 1;
    }
    assert(tags@.take(n as int) =~= tags@);
    out
}

fn clone_profile(p: &Profile) -> (r: Profile)
    ensures
        r == *p,
{
    Profile {
        username: p.username.clone(),
        bio: clone_opt_string(&p.bio),
        image: clone_opt_string(&p.image),
        following: p.following,
    }
}

impl ArticleContent {
    /// Builds the response article from a row, the author's profile, and the
    /// article's tags.
    pub fn from(article: Article, profile: Profile, tag_list: Vec<Tag>) -> (r: ArticleContent)
        requires
            article.created_at.wf(),
            article.updated_at.wf(),
        ensures
            spec_is_article_content(r, article, spec_author_content(profile), tag_list@),
    {
        ArticleContent {
            tagList: tag_names(&tag_list),
            createdAt: article.created_at.to_display_string(),
            updatedAt: article.updated_at.to_display_string(),
            slug: article.slug,
            title: article.title,
            description: article.description,
            body: article.body,
            author: AuthorContent {
                username: profile.username,
                bio: profile.bio,
                image: profile.image,
                following: profile.following,
            },
        }
    }

    /// Builds the response article from a row, the author's bare user row,
    /// and the article's tags; the author block says following.
    #[allow(non_snake_case)]
    pub fn DEPRECATED_from(article: Article, user: User, tag_list: Vec<Tag>) -> (r: ArticleContent)
        requires
            article.created_at.wf(),
            article.updated_at.wf(),
        ensures
            spec_is_article_content(r, article, spec_author_content_of_user(user), tag_list@),
    {
        ArticleContent {
            tagList: tag_names(&tag_list),
            createdAt: article.created_at.to_display_string(),
            updatedAt: article.updated_at.to_display_string(),
            slug: article.slug,
            title: article.title,
            description: article.description,
            body: article.body,
            author: AuthorContent {
                username: user.username,
                bio: user.bio,
                image: user.image,
                following: true,
            },
        }
    }
}

impl SingleArticleResponse {
    pub fn from(article: Article, profile: Profile, tag_list: Vec<Tag>) -> (r:
        SingleArticleResponse)
        requires
            article.created_at.wf(),
            article.updated_at.wf(),
        ensures
            spec_is_article_content(
                r.article,
                article,
                spec_author_content(profile),
                tag_list@,
            ),
    {
        SingleArticleResponse { article: ArticleContent::from(article, profile, tag_list) }
    }
}

impl MultipleArticlesResponse {
    /// Builds the page from rows paired with their author profiles and tags,
    /// and the total count the page reports.
    pub fn from(info: Vec<((Article, Profile), Vec<Tag>)>, articles_count: i64) -> (r:
        MultipleArticlesResponse)
        requires
            forall|i: int|
                0 <= i < info@.len() ==> (#[trigger] info@[i]).0.0.created_at.wf()
                    && info@[i].0.0.updated_at.wf(),
        ensures
            r.articlesCount == articles_count,
            r.articles@.len() == info@.len(),
            forall|i: int|
                0 <= i < info@.len() ==> spec_is_article_content(
                    #[trigger] r.articles@[i],
                    info@[i].0.0,
                    spec_author_content(info@[i].0.1),
                    info@[i].1@,
                ),
    {
        let n: usize = info.len();
        let mut articles: Vec<ArticleContent> = Vec::new();
        let mut i: usize = 0;
        while i < n
            invariant
                i <= n,
                n == info@.len(),
                articles@.len() == i,
                forall|k: int|
                    0 <= k < info@.len() ==> (#[trigger] info@[k]).0.0.created_at.wf()
                        && info@[k].0.0.updated_at.wf(),
                forall|k: int|
                    0 <= k < i ==> spec_is_article_content(
                        #[trigger] articles@[k],
                        info@[k].0.0,
                        spec_author_content(info@[k].0.1),
                        info@[k].1@,
                    ),
            decreases n - i,
        {
            let row = &info[i];
            let article = clone_article(&row.0.0);
            let profile = clone_profile(&row.0.1);
            let tags = clone_tags(&row.1);
            articles.push(ArticleContent::from(article, profile, tags));
            i = i + 1;
        }
        MultipleArticlesResponse { articles, articlesCount: articles_count }
    }

    /// Builds the page from rows paired with their author's bare user rows
    /// and tags; every author block says following.
    #[allow(non_snake_case)]
    pub fn DEPRECATED_from(info: Vec<((Article, User), Vec<Tag>)>, articles_count: i64) -> (r:
        MultipleArticlesResponse)
        requires
            forall|i: int|
                0 <= i < info@.len() ==> (#[trigger] info@[i]).0.0.created_at.wf()
                    && info@[i].0.0.updated_at.wf(),
        ensures
            r.articlesCount == articles_count,
            r.articles@.len() == info@.len(),
            forall|i: int|
                0 <= i < info@.len() ==> spec_is_article_content(
                    #[trigger] r.articles@[i],
                    info@[i].0.0,
                    spec_author_content_of_user(info@[i].0.1),
                    info@[i].1@,
                ),
    {
        let n: usize = info.len();
        let mut articles: Vec<ArticleContent> = Vec::new();
        let mut i: usize = 0;
        while i < n
            invariant
                i <= n,
                n == info@.len(),
                articles@.len() == i,
                forall|k: int|
                    0 <= k < info@.len() ==> (#[trigger] info@[k]).0.0.created_at.wf()
                        && info@[k].0.0.updated_at.wf(),
                forall|k: int|
                    0 <= k < i ==> spec_is_article_content(
                        #[trigger] articles@[k],
                        info@[k].0.0,
                        spec_author_content_of_user(info@[k].0.1),
                        info@[k].1@,
                    ),
            decreases n - i,
        {
            let row = &info[i];
            let article = clone_article(&row.0.0);
            let user = clone_user(&row.0.1);
            let tags = clone_tags(&row.1);
            articles.push(ArticleContent::DEPRECATED_from(article, user, tags));
            i = i + 1;
        }
        MultipleArticlesResponse { articles, articlesCount: articles_count }
    }
}

} // verus!
