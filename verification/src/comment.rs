//! Comments and the comment repository: listing every comment with its
//! author's profile, commenting on one of the signed-in user's articles,
//! and deleting one's own comment on one's own article.

use vstd::prelude::*;

use crate::article::{
    find_article_index_by_slug_and_author, spec_find_article_by_slug_and_author, Article,
};
use crate::db::{Db, DbPool};
use crate::error::AppError;
use crate::text::str_eq;
use crate::timestamp::Timestamp;
use crate::user::{
    find_user_index_by_id, is_following, profile_of, spec_find_user_by_id, spec_is_following,
    spec_profile_of, Follow, Profile, User,
};

verus! {

/// A stored comment row.
#[derive(Debug, PartialEq, Eq)]
pub struct Comment {
    pub id: u64,
    pub article_id: u64,
    pub body: String,
    pub author_id: u64,
    pub created_at: Timestamp,
    pub updated_at: Timestamp,
}

/// The fields of a comment insert.
#[derive(Debug, PartialEq, Eq)]
pub struct CreateComment {
    pub body: String,
    pub author_id: u64,
    pub article_id: u64,
}

pub fn clone_comment(c: &Comment) -> (r: Comment)
    ensures
        r == *c,
{
    Comment {
        id: c.id,
        article_id: c.article_id,
        body: c.body.clone(),
        author_id: c.author_id,
        created_at: c.created_at,
        updated_at: c.updated_at,
    }
}

impl Comment {
    /// Inserts a new comment row. The row takes the insert's fields, a fresh
    /// id, and the store clock as both timestamps.
    pub fn create(db: &mut Db, record: &CreateComment) -> (r: Comment)
        requires
            old(db).wf(),
            old(db).next_id < u64::MAX,
        ensures
            final(db).wf(),
            r == (Comment {
                id: old(db).next_id,
                article_id: record.article_id,
                body: record.body,
                author_id: record.author_id,
                created_at: old(db).clock,
                updated_at: old(db).clock,
            }),
            final(db).comments@ == old(db).comments@.push(r),
            *final(db) == (Db {
                comments: final(db).comments,
                next_id: (old(db).next_id + 1) as u64,
                ..*old(db)
            }),
    {
        let row = Comment {
            id: db.next_id,
            article_id: record.article_id,
            body: record.body.clone(),
            author_id: record.author_id,
            created_at: db.clock,
            updated_at: db.clock,
        };
        let copy = clone_comment(&row);
        db.comments.push(row);
        db.next_id = db.next_id + 1;
        copy
    }
}

/// Every comment, in table order, joined with its author and the author's
/// profile as `cu` sees it; a comment whose author is missing is dropped, as
/// an inner join drops it.
pub open spec fn spec_comment_list(
    comments: Seq<Comment>,
    users: Seq<User>,
    follows: Seq<Follow>,
    cu: Option<User>,
) -> Seq<(Comment, Profile)>
    decreases comments.len(),
{
    if comments.len() == 0 {
        Seq::empty()
    } else {
        let rest = spec_comment_list(comments.drop_last(), users, follows, cu);
        let c = comments.last();
        match spec_find_user_by_id(users, c.author_id) {
            Option::None => rest,
            Option::Some(u) => rest.push(
                (
                    c,
                    spec_profile_of(
                        u,
                        cu is Some && spec_is_following(follows, cu->Some_0.id, u.id),
                    ),
                ),
            ),
        }
    }
}

/// Whether some article with this slug and author has id `article_id` — the
/// subquery a delete filters its rows through.
pub open spec fn spec_article_id_matches(
    articles: Seq<Article>,
    slug: Seq<char>,
    author_id: u64,
    article_id: u64,
) -> bool {
    exists|k: int|
        0 <= k < articles.len() && (#[trigger] articles[k]).slug@ == slug
            && articles[k].author_id == author_id && articles[k].id == article_id
}

/// Whether the delete statement removes the row `c`.
pub open spec fn spec_comment_deleted(
    c: Comment,
    articles: Seq<Article>,
    slug: Seq<char>,
    comment_id: u64,
    author_id: u64,
) -> bool {
    c.id == comment_id && c.author_id == author_id && spec_article_id_matches(
        articles,
        slug,
        author_id,
        c.article_id,
    )
}

/// The comment table with every row the delete statement matches removed,
/// order of the remaining rows kept.
pub open spec fn spec_delete_comments(
    comments: Seq<Comment>,
    articles: Seq<Article>,
    slug: Seq<char>,
    comment_id: u64,
    author_id: u64,
) -> Seq<Comment>
    decreases comments.len(),
{
    if comments.len() == 0 {
        Seq::empty()
    } else {
        let rest = spec_delete_comments(comments.drop_last(), articles, slug, comment_id, author_id);
        let c = comments.last();
        if spec_comment_deleted(c, articles, slug, comment_id, author_id) {
            rest
        } else {
            rest.push(c)
        }
    }
}

/// Whether some stored article carries this slug, author and id.
pub fn article_id_matches(
    articles: &Vec<Article>,
    slug: &str,
    author_id: u64,
    article_id: u64,
) -> (r: bool)
    ensures
        r == spec_article_id_matches(articles@, slug@, author_id, article_id),
{
    let n: usize = articles.len();
    let mut i: usize = 0;
    while i < n
        invariant
            i <= n,
            n == articles@.len(),
            forall|k: int|
                0 <= k < i ==> !((#[trigger] articles@[k]).slug@ == slug@ && articles@[k].author_id
                    == author_id && articles@[k].id == article_id),
        decreases n - i,
    {
        if str_eq(articles[i].slug.as_str(), slug) && articles[i].author_id == author_id
            && articles[i].id == article_id {
            return true;
        }
        i = i + 1;
    }
    false
}

/// What a comment repository does: list comments with their authors'
/// profiles, comment on the signed-in author's article, and delete one's
/// own comment, each pinned to the store the repository answers from.
pub trait CommentRepository: Sized {
    /// The store the repository answers from.
    spec fn db(&self) -> Db;

    /// Every comment with its author's profile, as the signed-in user (if
    /// any) sees the authors.
    fn fetch_comments_list(&self, current_user: &Option<User>) -> (r: Result<
        Vec<(Comment, Profile)>,
        AppError,
    >)
        ensures
            r is Ok,
            r->Ok_0@ == spec_comment_list(
                self.db().comments@,
                self.db().users@,
                self.db().follows@,
                *current_user,
            ),
    ;

    /// Comments on the signed-in author's own article named by its slug: the
    /// stored row gets the body, the article's id, the author's id, a fresh
    /// id and the store clock; `NotFound` when the author has no such
    /// article. The profile handed back is the author's own.
    fn create(&mut self, body: String, article_title_slug: String, author: User) -> (r: Result<
        (Comment, Profile),
        AppError,
    >)
        requires
            old(self).db().wf(),
            old(self).db().next_id < u64::MAX,
        ensures
            final(self).db().wf(),
            match spec_find_article_by_slug_and_author(
                old(self).db().articles@,
                article_title_slug@,
                author.id,
            ) {
                Option::None => {
                    &&& r is Err
                    &&& r->Err_0 == AppError::NotFound
                    &&& *final(self) == *old(self)
                },
                Option::Some(a) => {
                    &&& r is Ok
                    &&& r->Ok_0.0 == (Comment {
                        id: old(self).db().next_id,
                        article_id: a.id,
                        body: body,
                        author_id: author.id,
                        created_at: old(self).db().clock,
                        updated_at: old(self).db().clock,
                    })
                    &&& final(self).db().comments@ == old(self).db().comments@.push(
                        r->Ok_0.0,
                    )
                    &&& final(self).db() == (Db {
                        comments: final(self).db().comments,
                        next_id: (old(self).db().next_id + 1) as u64,
                        ..old(self).db()
                    })
                    &&& r->Ok_0.1 == spec_profile_of(
                        author,
                        spec_is_following(old(self).db().follows@, author.id, author.id),
                    )
                },
            },
    ;

    /// Deletes the signed-in author's comment on the author's own article:
    /// every comment whose id, author and article all match goes; everything
    /// else stays. A delete that matches nothing is still `Ok`.
    fn delete(
        &mut self,
        article_title_slug: &str,
        comment_id: u64,
        author_id: u64,
    ) -> (r: Result<(), AppError>)
        requires
            old(self).db().wf(),
        ensures
            final(self).db().wf(),
            r is Ok,
            final(self).db().comments@ == spec_delete_comments(
                old(self).db().comments@,
                old(self).db().articles@,
                article_title_slug@,
                comment_id,
                author_id,
            ),
            final(self).db() == (Db {
                comments: final(self).db().comments,
                ..old(self).db()
            }),
    ;
}

/// The comment repository, answering from the store it owns.
pub struct CommentRepositoryImpl {
    pub pool: DbPool,
}

impl CommentRepositoryImpl {
    pub fn new(pool: DbPool) -> (r: Self)
        ensures
            r.pool == pool,
    {
        CommentRepositoryImpl { pool }
    }
}

impl CommentRepository for CommentRepositoryImpl {
    open spec fn db(&self) -> Db {
        self.pool.db
    }

    fn fetch_comments_list(&self, current_user: &Option<User>) -> (r: Result<
        Vec<(Comment, Profile)>,
        AppError,
    >)
    {
        let n: usize = self.pool.db.comments.len();
        let mut out: Vec<(Comment, Profile)> = Vec::new();
        let mut i: usize = 0;
        while i < n
            invariant
                i <= n,
                n == self.pool.db.comments@.len(),
                out@ == spec_comment_list(
                    self.pool.db.comments@.take(i as int),
                    self.pool.db.users@,
                    self.pool.db.follows@,
                    *current_user,
                ),
            decreases n - i,
        {
            let c = &self.pool.db.comments[i];
            let found = find_user_index_by_id(&self.pool.db.users, c.author_id);
            match found {
                Option::None => {},
                Option::Some(j) => {
                    let author = &self.pool.db.users[j];
                    let fol = match current_user {
                        Option::Some(cu) => is_following(&self.pool.db.follows, cu.id, author.id),
                        Option::None => false,
                    };
                    out.push((clone_comment(c), profile_of(author, fol)));
                },
            }
            proof {
                let cs = self.pool.db.comments@;
                assert(cs.take(i as int + 1).drop_last() =~= cs.take(i as int));
                assert(cs.take(i as int + 1).last() == cs[i as int]);
            }
            i = i + 1;
        }
        assert(self.pool.db.comments@.take(n as int) =~= self.pool.db.comments@);
        Ok(out)
    }

    fn create(&mut self, body: String, article_title_slug: String, author: User) -> (r: Result<
        (Comment, Profile),
        AppError,
    >)
    {
        let found = find_article_index_by_slug_and_author(
            &self.pool.db.articles,
            article_title_slug.as_str(),
            author.id,
        );
        match found {
            Option::None => Err(AppError::NotFound),
            Option::Some(i) => {
                let record = CreateComment {
                    body,
                    author_id: author.id,
                    article_id: self.pool.db.articles[i].id,
                };
                let comment = Comment::create(&mut self.pool.db, &record);
                let fol = is_following(&self.pool.db.follows, author.id, author.id);
                let profile = profile_of(&author, fol);
                Ok((comment, profile))
            },
        }
    }

    fn delete(
        &mut self,
        article_title_slug: &str,
        comment_id: u64,
        author_id: u64,
    ) -> (r: Result<(), AppError>)
    {
        let ghost orig = self.pool.db.comments@;
        let n: usize = self.pool.db.comments.len();
        let mut kept: Vec<Comment> = Vec::new();
        let mut i: usize = 0;
        while i < n
            invariant
                i <= n,
                n == orig.len(),
                self.pool.db.comments@ == orig,
                kept@ == spec_delete_comments(
                    orig.take(i as int),
                    self.pool.db.articles@,
                    article_title_slug@,
                    comment_id,
                    author_id,
                ),
                forall|k: int|
                    0 <= k < kept@.len() ==> (#[trigger] kept@[k]).id < self.pool.db.next_id,
                forall|k: int|
                    0 <= k < orig.len() ==> (#[trigger] orig[k]).id < self.pool.db.next_id,
            decreases n - i,
        {
            let c = &self.pool.db.comments[i];
            let gone = c.id == comment_id && c.author_id == author_id && article_id_matches(
                &self.pool.db.articles,
                article_title_slug,
                author_id,
                c.article_id,
            );
            if !gone {
                kept.push(clone_comment(c));
            }
            proof {
                assert(orig.take(i as int + 1).drop_last() =~= orig.take(i as int));
                assert(orig.take(i as int + 1).last() == orig[i as int]);
            }
            i = i + 1;
        }
        assert(orig.take(n as int) =~= orig);
        self.pool.db.comments = kept;
        Ok(())
    }
}

} // verus!
