//! Users, the follow relation between them, profiles, and the user
//! repository: sign-in, sign-up, the current user, partial updates, and
//! following or unfollowing another user.

use vstd::prelude::*;

use crate::db::{Db, DbPool};
use crate::error::AppError;
use crate::text::{chars_to_string, clone_opt_string, push_u64_chars, spec_u64_string, str_eq};

verus! {

/// A stored user row.
#[derive(Debug, PartialEq, Eq)]
pub struct User {
    pub id: u64,
    pub email: String,
    pub username: String,
    pub password: String,
    pub bio: Option<String>,
    pub image: Option<String>,
}

/// A partial update of a user row: a field that is `Some` is written, a
/// `None` field is left as it stands.
#[derive(Debug, PartialEq, Eq)]
pub struct UpdateUser {
    pub email: Option<String>,
    pub username: Option<String>,
    pub password: Option<String>,
    pub image: Option<String>,
    pub bio: Option<String>,
}

/// One user's public face, as another user sees it.
#[derive(Debug, PartialEq, Eq)]
pub struct Profile {
    pub username: String,
    pub bio: Option<String>,
    pub image: Option<String>,
    pub following: bool,
}

/// One row of the follow relation: `follower_id` follows `followee_id`.
#[derive(Clone, Copy, Debug, PartialEq, Eq, Structural)]
pub struct Follow {
    pub follower_id: u64,
    pub followee_id: u64,
}

/// The bearer token a signed-in user carries, derived from the user id.
pub open spec fn spec_token(id: u64) -> Seq<char> {
    seq!['t', 'o', 'k', 'e', 'n', '-'] + spec_u64_string(id as nat)
}

/// The first user with this email, if any.
pub open spec fn spec_find_user_by_email(users: Seq<User>, email: Seq<char>) -> Option<User>
    decreases users.len(),
{
    if users.len() == 0 {
        None
    } else if users[0].email@ == email {
        Some(users[0])
    } else {
        spec_find_user_by_email(users.skip(1), email)
    }
}

/// The first user with this username, if any.
pub open spec fn spec_find_user_by_username(users: Seq<User>, username: Seq<char>) -> Option<User>
    decreases users.len(),
{
    if users.len() == 0 {
        None
    } else if users[0].username@ == username {
        Some(users[0])
    } else {
        spec_find_user_by_username(users.skip(1), username)
    }
}

/// The first user whose id is `id`, if any.
pub open spec fn spec_find_user_by_id(users: Seq<User>, id: u64) -> Option<User>
    decreases users.len(),
{
    if users.len() == 0 {
        None
    } else if users[0].id == id {
        Some(users[0])
    } else {
        spec_find_user_by_id(users.skip(1), id)
    }
}

/// Whether the relation holds a row saying `follower` follows `followee`.
pub open spec fn spec_is_following(follows: Seq<Follow>, follower: u64, followee: u64) -> bool {
    exists|i: int|
        0 <= i < follows.len() && (#[trigger] follows[i]).follower_id == follower
            && follows[i].followee_id == followee
}

/// The relation with every `follower`-follows-`followee` row removed, order
/// of the remaining rows kept.
pub open spec fn spec_without_follow(follows: Seq<Follow>, follower: u64, followee: u64) -> Seq<
    Follow,
>
    decreases follows.len(),
{
    if follows.len() == 0 {
        Seq::empty()
    } else {
        let rest = spec_without_follow(follows.drop_last(), follower, followee);
        let l = follows.last();
        if l.follower_id == follower && l.followee_id == followee {
            rest
        } else {
            rest.push(l)
        }
    }
}

/// The row `u` rewritten by the changeset `c`: fields the changeset carries
/// are replaced, all others kept; the id never changes.
pub open spec fn spec_apply_user_update(u: User, c: UpdateUser) -> User {
    User {
        email: if c.email is Some { c.email->Some_0 } else { u.email },
        username: if c.username is Some { c.username->Some_0 } else { u.username },
        password: if c.password is Some { c.password->Some_0 } else { u.password },
        image: if c.image is Some { Some(c.image->Some_0) } else { u.image },
        bio: if c.bio is Some { Some(c.bio->Some_0) } else { u.bio },
        ..u
    }
}

/// The profile of `u` with the given follow flag.
pub open spec fn spec_profile_of(u: User, following: bool) -> Profile {
    Profile { username: u.username, bio: u.bio, image: u.image, following }
}

pub fn clone_user(u: &User) -> (r: User)
    ensures
        r == *u,
{
    User {
        id: u.id,
        email: u.email.clone(),
        username: u.username.clone(),
        password: u.password.clone(),
        bio: clone_opt_string(&u.bio),
        image: clone_opt_string(&u.image),
    }
}

pub fn profile_of(u: &User, following: bool) -> (r: Profile)
    ensures
        r == spec_profile_of(*u, following),
{
    Profile {
        username: u.username.clone(),
        bio: clone_opt_string(&u.bio),
        image: clone_opt_string(&u.image),
        following,
    }
}

/// The changeset applied to one row, as a value.
pub fn apply_user_update(u: &User, c: &UpdateUser) -> (r: User)
    ensures
        r == spec_apply_user_update(*u, *c),
{
    User {
        id: u.id,
        email: match &c.email {
            Option::Some(s) => s.clone(),
            Option::None => u.email.clone(),
        },
        username: match &c.username {
            Option::Some(s) => s.clone(),
            Option::None => u.username.clone(),
        },
        password: match &c.password {
            Option::Some(s) => s.clone(),
            Option::None => u.password.clone(),
        },
        image: match &c.image {
            Option::Some(s) => Option::Some(s.clone()),
            Option::None => clone_opt_string(&u.image),
        },
        bio: match &c.bio {
            Option::Some(s) => Option::Some(s.clone()),
            Option::None => clone_opt_string(&u.bio),
        },
    }
}

/// Index of the first user with this email, tied to the spec-level find.
pub fn find_user_index_by_email(users: &Vec<User>, email: &str) -> (r: Option<usize>)
    ensures
        match r {
            Some(i) => i < users@.len() && spec_find_user_by_email(users@, email@) == Some(
                users@[i as int],
            ),
            None => spec_find_user_by_email(users@, email@) is None,
        },
{
    let n: usize = users.len();
    let mut i: usize = 0;
    assert(users@.skip(0) =~= users@);
    while i < n
        invariant
            i <= n,
            n == users@.len(),
            spec_find_user_by_email(users@, email@) == spec_find_user_by_email(
                users@.skip(i as int),
                email@,
            ),
        decreases n - i,
    {
        if str_eq(users[i].email.as_str(), email) {
            assert(users@.skip(i as int)[0] == users@[i as int]);
            return Some(i);
        }
        assert(users@.skip(i as int).skip(1) =~= users@.skip(i as int + 1));
        i = i + 1;
    }
    assert(users@.skip(i as int).len() == 0);
    None
}

/// Index of the first user with this username, tied to the spec-level find.
pub fn find_user_index_by_username(users: &Vec<User>, username: &str) -> (r: Option<usize>)
    ensures
        match r {
            Some(i) => i < users@.len() && spec_find_user_by_username(users@, username@) == Some(
                users@[i as int],
            ),
            None => spec_find_user_by_username(users@, username@) is None,
        },
{
    let n: usize = users.len();
    let mut i: usize = 0;
    assert(users@.skip(0) =~= users@);
    while i < n
        invariant
            i <= n,
            n == users@.len(),
            spec_find_user_by_username(users@, username@) == spec_find_user_by_username(
                users@.skip(i as int),
                username@,
            ),
        decreases n - i,
    {
        if str_eq(users[i].username.as_str(), username) {
            assert(users@.skip(i as int)[0] == users@[i as int]);
            return Some(i);
        }
        assert(users@.skip(i as int).skip(1) =~= users@.skip(i as int + 1));
        i = i + 1;
    }
    assert(users@.skip(i as int).len() == 0);
    None
}

/// Index of the first user with this id, tied to the spec-level find.
pub fn find_user_index_by_id(users: &Vec<User>, id: u64) -> (r: Option<usize>)
    ensures
        match r {
            Some(i) => i < users@.len() && spec_find_user_by_id(users@, id) == Some(
                users@[i as int],
            ),
            None => spec_find_user_by_id(users@, id) is None,
        },
{
    let n: usize = users.len();
    let mut i: usize = 0;
    assert(users@.skip(0) =~= users@);
    while i < n
        invariant
            i <= n,
            n == users@.len(),
            spec_find_user_by_id(users@, id) == spec_find_user_by_id(users@.skip(i as int), id),
        decreases n - i,
    {
        if users[i].id == id {
            assert(users@.skip(i as int)[0] == users@[i as int]);
            return Some(i);
        }
        assert(users@.skip(i as int).skip(1) =~= users@.skip(i as int + 1));
        i = i + 1;
    }
    assert(users@.skip(i as int).len() == 0);
    None
}

/// Whether the stored relation says `follower` follows `followee`.
pub fn is_following(follows: &Vec<Follow>, follower: u64, followee: u64) -> (r: bool)
    ensures
        r == spec_is_following(follows@, follower, followee),
{
    let n: usize = follows.len();
    let mut i: usize = 0;
    while i < n
        invariant
            i <= n,
            n == follows@.len(),
            forall|k: int|
                0 <= k < i ==> !((#[trigger] follows@[k]).follower_id == follower
                    && follows@[k].followee_id == followee),
        decreases n - i,
    {
        if follows[i].follower_id == follower && follows[i].followee_id == followee {
            return true;
        }
        i = i + 1;
    }
    false
}

impl User {
    /// The token this user carries once signed in: `token-` followed by the
    /// decimal digits of the user id.
    pub fn generate_token(&self) -> (r: String)
        ensures
            r@ == spec_token(self.id),
    {
        let mut out: Vec<char> = Vec::new();
        out.push('t');
        out.push('o');
        out.push('k');
        out.push('e');
        out.push('n');
        out.push('-');
        push_u64_chars(self.id, &mut out);
        assert(out@ =~= spec_token(self.id));
        chars_to_string(&out)
    }
}

/// What a user repository does: sign-in, sign-up, the current user,
/// partial updates, and the follow relation, each pinned to the store the
/// repository answers from.
pub trait UserRepository: Sized {
    /// The store the repository answers from.
    spec fn db(&self) -> Db;

    /// The signed-in user together with a fresh token.
    fn me<'a>(&self, current_user: &'a User) -> (r: Result<(&'a User, String), AppError>)
        ensures
            r is Ok,
            r->Ok_0.0 == current_user,
            r->Ok_0.1@ == spec_token(current_user.id),
    ;

    /// Signs a user in: the stored user with this email, provided the
    /// password matches; `Unauthorized` otherwise.
    fn signin(&self, email: &str, naive_password: &str) -> (r: Result<
        (User, String),
        AppError,
    >)
        ensures
            match spec_find_user_by_email(self.db().users@, email@) {
                Option::None => r is Err && r->Err_0 == AppError::Unauthorized,
                Option::Some(u) => if u.password@ == naive_password@ {
                    &&& r is Ok
                    &&& r->Ok_0.0 == u
                    &&& r->Ok_0.1@ == spec_token(u.id)
                } else {
                    r is Err && r->Err_0 == AppError::Unauthorized
                },
            },
    ;

    /// Signs a user up: inserts a user with this email, username and
    /// password and a fresh id, unless the email is already taken.
    fn signup(&mut self, email: &str, username: &str, naive_password: &str) -> (r: Result<
        (User, String),
        AppError,
    >)
        requires
            old(self).db().wf(),
            old(self).db().next_id < u64::MAX,
        ensures
            final(self).db().wf(),
            match spec_find_user_by_email(old(self).db().users@, email@) {
                Option::Some(_) => {
                    &&& r is Err
                    &&& r->Err_0 == AppError::UnprocessableEntity
                    &&& *final(self) == *old(self)
                },
                Option::None => {
                    &&& r is Ok
                    &&& r->Ok_0.0.id == old(self).db().next_id
                    &&& r->Ok_0.0.email@ == email@
                    &&& r->Ok_0.0.username@ == username@
                    &&& r->Ok_0.0.password@ == naive_password@
                    &&& r->Ok_0.0.bio is None
                    &&& r->Ok_0.0.image is None
                    &&& final(self).db().users@ == old(self).db().users@.push(r->Ok_0.0)
                    &&& final(self).db() == (Db {
                        users: final(self).db().users,
                        next_id: (old(self).db().next_id + 1) as u64,
                        ..old(self).db()
                    })
                    &&& r->Ok_0.1@ == spec_token(old(self).db().next_id)
                },
            },
    ;

    /// Records that the signed-in user follows the named user, and hands
    /// back the signed-in user's own profile marked as following. A pair
    /// already recorded is not doubled.
    fn follow(&mut self, current_user: &User, target_username: &str) -> (r: Result<
        Profile,
        AppError,
    >)
        ensures
            match spec_find_user_by_username(old(self).db().users@, target_username@) {
                Option::None => {
                    &&& r is Err
                    &&& r->Err_0 == AppError::NotFound
                    &&& *final(self) == *old(self)
                },
                Option::Some(f) => {
                    &&& r is Ok
                    &&& r->Ok_0 == spec_profile_of(*current_user, true)
                    &&& final(self).db().follows@ == (
                    if spec_is_following(old(self).db().follows@, current_user.id, f.id) {
                        old(self).db().follows@
                    } else {
                        old(self).db().follows@.push(
                            Follow { follower_id: current_user.id, followee_id: f.id },
                        )
                    })
                    &&& final(self).db() == (Db {
                        follows: final(self).db().follows,
                        ..old(self).db()
                    })
                },
            },
    ;

    /// Removes every row saying the signed-in user follows the named user,
    /// and hands back the signed-in user's own profile marked as not
    /// following.
    fn unfollow(&mut self, current_user: &User, target_username: &str) -> (r: Result<
        Profile,
        AppError,
    >)
        ensures
            match spec_find_user_by_username(old(self).db().users@, target_username@) {
                Option::None => {
                    &&& r is Err
                    &&& r->Err_0 == AppError::NotFound
                    &&& *final(self) == *old(self)
                },
                Option::Some(f) => {
                    &&& r is Ok
                    &&& r->Ok_0 == spec_profile_of(*current_user, false)
                    &&& final(self).db().follows@ == spec_without_follow(
                        old(self).db().follows@,
                        current_user.id,
                        f.id,
                    )
                    &&& final(self).db() == (Db {
                        follows: final(self).db().follows,
                        ..old(self).db()
                    })
                },
            },
    ;

    /// Rewrites every user whose id is `user_id` by the changeset, and hands
    /// back the first such row after the write with a fresh token;
    /// `NotFound` when no row has that id.
    fn update(&mut self, user_id: u64, changeset: UpdateUser) -> (r: Result<
        (User, String),
        AppError,
    >)
        requires
            old(self).db().wf(),
        ensures
            final(self).db().wf(),
            match spec_find_user_by_id(old(self).db().users@, user_id) {
                Option::None => {
                    &&& r is Err
                    &&& r->Err_0 == AppError::NotFound
                    &&& *final(self) == *old(self)
                },
                Option::Some(u0) => {
                    &&& r is Ok
                    &&& final(self).db().users@.len() == old(self).db().users@.len()
                    &&& forall|i: int|
                        0 <= i < old(self).db().users@.len() ==> final(self).db().users@[i]
                            == (if old(self).db().users@[i].id == user_id {
                            spec_apply_user_update(old(self).db().users@[i], changeset)
                        } else {
                            old(self).db().users@[i]
                        })
                    &&& final(self).db() == (Db {
                        users: final(self).db().users,
                        ..old(self).db()
                    })
                    &&& r->Ok_0.0 == spec_apply_user_update(u0, changeset)
                    &&& r->Ok_0.1@ == spec_token(u0.id)
                },
            },
    ;
}

/// The user repository, answering from the store it owns.
pub struct UserRepositoryImpl {
    pub pool: DbPool,
}

impl UserRepositoryImpl {
    pub fn new(pool: DbPool) -> (r: Self)
        ensures
            r.pool == pool,
    {
        UserRepositoryImpl { pool }
    }
}

impl UserRepository for UserRepositoryImpl {
    open spec fn db(&self) -> Db {
        self.pool.db
    }

    fn me<'a>(&self, current_user: &'a User) -> (r: Result<(&'a User, String), AppError>)
    {
        let token = current_user.generate_token();
        Ok((current_user, token))
    }

    fn signin(&self, email: &str, naive_password: &str) -> (r: Result<
        (User, String),
        AppError,
    >)
    {
        let found = find_user_index_by_email(&self.pool.db.users, email);
        match found {
            Option::None => Err(AppError::Unauthorized),
            Option::Some(i) => {
                let user = &self.pool.db.users[i];
                if str_eq(user.password.as_str(), naive_password) {
                    let token = user.generate_token();
                    Ok((clone_user(user), token))
                } else {
                    Err(AppError::Unauthorized)
                }
            },
        }
    }

    fn signup(&mut self, email: &str, username: &str, naive_password: &str) -> (r: Result<
        (User, String),
        AppError,
    >)
    {
        let found = find_user_index_by_email(&self.pool.db.users, email);
        match found {
            Option::Some(_) => Err(AppError::UnprocessableEntity),
            Option::None => {
                let row = User {
                    id: self.pool.db.next_id,
                    email: email.to_owned(),
                    username: username.to_owned(),
                    password: naive_password.to_owned(),
                    bio: Option::None,
                    image: Option::None,
                };
                let token = row.generate_token();
                let copy = clone_user(&row);
                self.pool.db.users.push(row);
                self.pool.db.next_id = self.pool.db.next_id + 1;
                Ok((copy, token))
            },
        }
    }

    fn follow(&mut self, current_user: &User, target_username: &str) -> (r: Result<
        Profile,
        AppError,
    >)
    {
        let found = find_user_index_by_username(&self.pool.db.users, target_username);
        match found {
            Option::None => Err(AppError::NotFound),
            Option::Some(i) => {
                let followee_id = self.pool.db.users[i].id;
                let already = is_following(&self.pool.db.follows, current_user.id, followee_id);
                if !already {
                    self.pool.db.follows.push(
                        Follow { follower_id: current_user.id, followee_id },
                    );
                }
                Ok(profile_of(current_user, true))
            },
        }
    }

    fn unfollow(&mut self, current_user: &User, target_username: &str) -> (r: Result<
        Profile,
        AppError,
    >)
    {
        let found = find_user_index_by_username(&self.pool.db.users, target_username);
        match found {
            Option::None => Err(AppError::NotFound),
            Option::Some(i) => {
                let followee_id = self.pool.db.users[i].id;
                let ghost orig = self.pool.db.follows@;
                let n: usize = self.pool.db.follows.len();
                let mut kept: Vec<Follow> = Vec::new();
                let mut j: usize = 0;
                while j < n
                    invariant
                        j <= n,
                        n == orig.len(),
                        self.pool.db.follows@ == orig,
                        kept@ == spec_without_follow(
                            orig.take(j as int),
                            current_user.id,
                            followee_id,
                        ),
                    decreases n - j,
                {
                    let row = self.pool.db.follows[j];
                    if !(row.follower_id == current_user.id && row.followee_id == followee_id) {
                        kept.push(row);
                    }
                    proof {
                        assert(orig.take(j as int + 1).drop_last() =~= orig.take(j as int));
                        assert(orig.take(j as int + 1).last() == orig[j as int]);
                    }
                    j = j + 1;
                }
                assert(orig.take(n as int) =~= orig);
                self.pool.db.follows = kept;
                Ok(profile_of(current_user, false))
            },
        }
    }

    fn update(&mut self, user_id: u64, changeset: UpdateUser) -> (r: Result<
        (User, String),
        AppError,
    >)
    {
        let found = find_user_index_by_id(&self.pool.db.users, user_id);
        match found {
            Option::None => Err(AppError::NotFound),
            Option::Some(first) => {
                let ghost orig = self.pool.db.users@;
                let n: usize = self.pool.db.users.len();
                let mut rewritten: Vec<User> = Vec::new();
                let mut i: usize = 0;
                while i < n
                    invariant
                        i <= n,
                        n == orig.len(),
                        self.pool.db.users@ == orig,
                        rewritten@.len() == i,
                        forall|k: int|
                            0 <= k < i ==> rewritten@[k] == (
                            if orig[k].id == user_id {
                                spec_apply_user_update(orig[k], changeset)
                            } else {
                                orig[k]
                            }),
                        forall|k: int|
                            0 <= k < i ==> (#[trigger] rewritten@[k]).id < old(
                                self,
                            ).pool.db.next_id,
                        forall|k: int|
                            0 <= k < orig.len() ==> (#[trigger] orig[k]).id < old(
                                self,
                            ).pool.db.next_id,
                    decreases n - i,
                {
                    if self.pool.db.users[i].id == user_id {
                        rewritten.push(apply_user_update(&self.pool.db.users[i], &changeset));
                    } else {
                        rewritten.push(clone_user(&self.pool.db.users[i]));
                    }
                    i = i + 1;
                }
                let row = apply_user_update(&self.pool.db.users[first], &changeset);
                let token = row.generate_token();
                self.pool.db.users = rewritten;
                Ok((row, token))
            },
        }
    }
}

} // verus!
