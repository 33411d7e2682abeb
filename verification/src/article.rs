//! Articles: the table row, the insert and changeset shapes, and the
//! verified statements that create and update rows in the store.

use vstd::prelude::*;

use crate::db::Db;
use crate::text::{chars_to_string, kebab_char, spec_kebab};
use crate::timestamp::Timestamp;

verus! {

/// A stored article row.
#[derive(Debug, PartialEq, Eq)]
pub struct Article {
    pub id: u64,
    pub author_id: u64,
    pub slug: String,
    pub title: String,
    pub description: String,
    pub body: String,
    pub created_at: Timestamp,
    pub updated_at: Timestamp,
}

/// The fields of an article insert.
#[derive(Debug, PartialEq, Eq)]
pub struct NewArticle {
    pub author_id: u64,
    pub slug: String,
    pub title: String,
    pub description: String,
    pub body: String,
}

/// A partial update: a field that is `Some` is written, a `None` field is
/// left as it stands.
#[derive(Debug, PartialEq, Eq)]
pub struct UpdateArticle {
    pub slug: Option<String>,
    pub title: Option<String>,
    pub description: Option<String>,
    pub body: Option<String>,
}

/// A tag row, tied to an article.
#[derive(Debug, PartialEq, Eq)]
pub struct Tag {
    pub id: u64,
    pub article_id: u64,
    pub name: String,
}

/// The row `a` rewritten by the changeset `u`: fields that the changeset
/// carries are replaced, all others kept.
pub open spec fn spec_apply_article_update(a: Article, u: UpdateArticle) -> Article {
    Article {
        slug: if u.slug is Some { u.slug->Some_0 } else { a.slug },
        title: if u.title is Some { u.title->Some_0 } else { a.title },
        description: if u.description is Some { u.description->Some_0 } else { a.description },
        body: if u.body is Some { u.body->Some_0 } else { a.body },
        ..a
    }
}

/// The first article whose id is `id`, if any.
pub open spec fn spec_find_article_by_id(articles: Seq<Article>, id: u64) -> Option<Article>
    decreases articles.len(),
{
    if articles.len() == 0 {
        None
    } else if articles[0].id == id {
        Some(articles[0])
    } else {
        spec_find_article_by_id(articles.skip(1), id)
    }
}

/// The first article with this slug written by this author, if any.
pub open spec fn spec_find_article_by_slug_and_author(
    articles: Seq<Article>,
    slug: Seq<char>,
    author_id: u64,
) -> Option<Article>
    decreases articles.len(),
{
    if articles.len() == 0 {
        None
    } else if articles[0].slug@ == slug && articles[0].author_id == author_id {
        Some(articles[0])
    } else {
        spec_find_article_by_slug_and_author(articles.skip(1), slug, author_id)
    }
}

pub fn clone_article(a: &Article) -> (r: Article)
    ensures
        r == *a,
{
    Article {
        id: a.id,
        author_id: a.author_id,
        slug: a.slug.clone(),
        title: a.title.clone(),
        description: a.description.clone(),
        body: a.body.clone(),
        created_at: a.created_at,
        updated_at: a.updated_at,
    }
}

/// Index of the first article whose id is `id`, tied to the spec-level find.
pub fn find_article_index_by_id(articles: &Vec<Article>, id: u64) -> (r: Option<usize>)
    ensures
        match r {
            Some(i) => i < articles@.len() && spec_find_article_by_id(articles@, id) == Some(
                articles@[i as int],
            ),
            None => spec_find_article_by_id(articles@, id) is None,
        },
{
    let n: usize = articles.len();
    let mut i: usize = 0;
    assert(articles@.skip(0) =~= articles@);
    while i < n
        invariant
            i <= n,
            n == articles@.len(),
            spec_find_article_by_id(articles@, id) == spec_find_article_by_id(
                articles@.skip(i as int),
                id,
            ),
        decreases n - i,
    {
        if articles[i].id == id {
            assert(articles@.skip(i as int)[0] == articles@[i as int]);
            return Some(i);
        }
        assert(articles@.skip(i as int).skip(1) =~= articles@.skip(i as int + 1));
        i = i + 1;
    }
    assert(articles@.skip(i as int).len() == 0);
    None
}

/// Index of the first article with this slug and author, tied to the
/// spec-level find.
pub fn find_article_index_by_slug_and_author(
    articles: &Vec<Article>,
    slug: &str,
    author_id: u64,
) -> (r: Option<usize>)
    ensures
        match r {
            Some(i) => i < articles@.len() && spec_find_article_by_slug_and_author(
                articles@,
                slug@,
                author_id,
            ) == Some(articles@[i as int]),
            None => spec_find_article_by_slug_and_author(articles@, slug@, author_id) is None,
        },
{
    let n: usize = articles.len();
    let mut i: usize = 0;
    assert(articles@.skip(0) =~= articles@);
    while i < n
        invariant
            i <= n,
            n == articles@.len(),
            spec_find_article_by_slug_and_author(articles@, slug@, author_id)
                == spec_find_article_by_slug_and_author(articles@.skip(i as int), slug@, author_id),
        decreases n - i,
    {
        if crate::text::str_eq(articles[i].slug.as_str(), slug) && articles[i].author_id
            == author_id {
            assert(articles@.skip(i as int)[0] == articles@[i as int]);
            return Some(i);
        }
        assert(articles@.skip(i as int).skip(1) =~= articles@.skip(i as int + 1));
        i = i + 1;
    }
    assert(articles@.skip(i as int).len() == 0);
    None
}

impl Article {
    /// Inserts a new article row. The row takes the insert's fields, a fresh
    /// id, and the store clock as both timestamps.
    pub fn create(db: &mut Db, record: &NewArticle) -> (r: Article)
        requires
            old(db).wf(),
            old(db).next_id < u64::MAX,
        ensures
            final(db).wf(),
            r == (Article {
                id: old(db).next_id,
                author_id: record.author_id,
                slug: record.slug,
                title: record.title,
                description: record.description,
                body: record.body,
                created_at: old(db).clock,
                updated_at: old(db).clock,
            }),
            *final(db) == (Db {
                articles: final(db).articles,
                next_id: (old(db).next_id + 1) as u64,
                ..*old(db)
            }),
            final(db).articles@ == old(db).articles@.push(r),
    {
        let row = Article {
            id: db.next_id,
            author_id: record.author_id,
            slug: record.slug.clone(),
            title: record.title.clone(),
            description: record.description.clone(),
            body: record.body.clone(),
            created_at: db.clock,
            updated_at: db.clock,
        };
        let copy = clone_article(&row);
        db.articles.push(row);
        db.next_id = db.next_id + 1;
        copy
    }

    /// Rewrites every article whose id is `article_id` by the changeset and
    /// returns the first such row after the write. The caller owes a row
    /// with that id.
    pub fn update(db: &mut Db, article_id: u64, record: &UpdateArticle) -> (r: Article)
        requires
            old(db).wf(),
            spec_find_article_by_id(old(db).articles@, article_id) is Some,
        ensures
            final(db).wf(),
            final(db).articles@.len() == old(db).articles@.len(),
            forall|i: int|
                0 <= i < old(db).articles@.len() ==> final(db).articles@[i] == (
                if old(db).articles@[i].id == article_id {
                    spec_apply_article_update(old(db).articles@[i], *record)
                } else {
                    old(db).articles@[i]
                }),
            *final(db) == (Db { articles: final(db).articles, ..*old(db) }),
            r == spec_apply_article_update(
                spec_find_article_by_id(old(db).articles@, article_id)->Some_0,
                *record,
            ),
    {
        let ghost orig = db.articles@;
        let found = find_article_index_by_id(&db.articles, article_id);
        let first = found.unwrap();
        let n: usize = db.articles.len();
        let mut rewritten: Vec<Article> = Vec::new();
        let mut i: usize = 0;
        while i < n
            invariant
                i <= n,
                n == orig.len(),
                db.articles@ == orig,
                rewritten@.len() == i,
                forall|k: int|
                    0 <= k < i ==> rewritten@[k] == (
                    if orig[k].id == article_id {
                        spec_apply_article_update(orig[k], *record)
                    } else {
                        orig[k]
                    }),
                forall|k: int|
                    0 <= k < i ==> (#[trigger] rewritten@[k]).id < old(db).next_id,
                forall|k: int|
                    0 <= k < orig.len() ==> (#[trigger] orig[k]).id < old(db).next_id,
            decreases n - i,
        {
            if db.articles[i].id == article_id {
                rewritten.push(Article::apply_update(&db.articles[i], record));
            } else {
                rewritten.push(clone_article(&db.articles[i]));
            }
            i = i + 1;
        }
        let result = Article::apply_update(&db.articles[first], record);
        db.articles = rewritten;
        result
    }

    /// The changeset applied to one row, as a value.
    pub fn apply_update(a: &Article, u: &UpdateArticle) -> (r: Article)
        ensures
            r == spec_apply_article_update(*a, *u),
    {
        Article {
            id: a.id,
            author_id: a.author_id,
            slug: match &u.slug {
                Option::Some(s) => s.clone(),
                Option::None => a.slug.clone(),
            },
            title: match &u.title {
                Option::Some(s) => s.clone(),
                Option::None => a.title.clone(),
            },
            description: match &u.description {
                Option::Some(s) => s.clone(),
                Option::None => a.description.clone(),
            },
            body: match &u.body {
                Option::Some(s) => s.clone(),
                Option::None => a.body.clone(),
            },
            created_at: a.created_at,
            updated_at: a.updated_at,
        }
    }

    /// Folds a title into its slug: capitals lowered, spaces turned into
    /// hyphens, every other character kept.
    pub fn convert_title_to_slug(title: &str) -> (r: String)
        ensures
            r@ == spec_kebab(title@),
    {
        let n = title.unicode_len();
        let mut out: Vec<char> = Vec::new();
        let mut i: usize = 0;
        while i < n
            invariant
                i <= n,
                n == title@.len(),
                out@ == spec_kebab(title@.take(i as int)),
            decreases n - i,
        {
            let c = title.get_char(i);
            out.push(kebab_char(c));
            assert(out@ =~= spec_kebab(title@.take(i as int + 1)));
            i = i + 1;
        }
        assert(title@.take(n as int) =~= title@);
        chars_to_string(&out)
    }
}

} // verus!
