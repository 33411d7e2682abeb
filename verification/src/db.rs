//! The store the repositories run against: one growable table per entity,
//! a sequence that yields fresh row ids, and the clock that stamps inserts.
//! It stands where the connection pool stood, so a repository owns the data
//! it answers from.

use vstd::prelude::*;

use crate::article::Article;
use crate::comment::Comment;
use crate::timestamp::Timestamp;
use crate::user::{Follow, User};

verus! {

/// The relational state: every table, the id sequence, and the clock.
pub struct Db {
    pub users: Vec<User>,
    pub articles: Vec<Article>,
    pub comments: Vec<Comment>,
    pub follows: Vec<Follow>,
    /// The next id the store hands out; every stored id is below it.
    pub next_id: u64,
    /// What the store stamps on rows it inserts.
    pub clock: Timestamp,
}

impl Db {
    /// Every stored row's id lies below the id sequence, so a fresh id never
    /// collides with a stored one.
    pub open spec fn wf(self) -> bool {
        &&& forall|i: int|
            0 <= i < self.users@.len() ==> (#[trigger] self.users@[i]).id < self.next_id
        &&& forall|i: int|
            0 <= i < self.articles@.len() ==> (#[trigger] self.articles@[i]).id < self.next_id
        &&& forall|i: int|
            0 <= i < self.comments@.len() ==> (#[trigger] self.comments@[i]).id < self.next_id
    }

    /// An empty store whose clock reads `clock` and whose first id is 1.
    pub fn empty(clock: Timestamp) -> (r: Db)
        ensures
            r.wf(),
            r.users@.len() == 0,
            r.articles@.len() == 0,
            r.comments@.len() == 0,
            r.follows@.len() == 0,
            r.next_id == 1,
            r.clock == clock,
    {
        Db {
            users: Vec::new(),
            articles: Vec::new(),
            comments: Vec::new(),
            follows: Vec::new(),
            next_id: 1,
            clock,
        }
    }
}

/// The handle the repositories are built over. It owns the store outright,
/// standing where a pooled connection stood.
pub struct DbPool {
    pub db: Db,
}

impl DbPool {
    pub fn new(db: Db) -> (r: DbPool)
        ensures
            r.db == db,
    {
        DbPool { db }
    }
}

} // verus!
