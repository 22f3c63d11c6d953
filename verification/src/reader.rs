//! Showing stored posts to readers.
//!
//! The store hands over rows; this module picks the rows a request asks for
//! and turns them into what is sent to the client. A post is shown with its
//! author only where a single post is asked for by its key.

use vstd::prelude::*;
use crate::error::ApiError;
use crate::token::Claims;

verus! {

/// A post as the store holds it.
#[derive(Debug, Clone, PartialEq, Eq)]
pub struct PostRow {
    pub id: i32,
    pub title: String,
    pub text: String,
    pub uuid: u128,
    pub image: String,
    pub user_id: i32,
    pub created_at: i64,
}

/// A user as the store holds it.
#[derive(Debug, Clone, PartialEq, Eq)]
pub struct UserRow {
    pub id: i32,
    pub name: String,
    pub email: String,
    pub password: String,
}

/// A post's author as shown to readers: without the password.
#[derive(Debug, Clone, PartialEq, Eq)]
pub struct UserModel {
    pub id: i32,
    pub name: String,
    pub email: String,
}

/// A post as shown to readers.
#[derive(Debug, Clone, PartialEq, Eq)]
pub struct PostModel {
    pub id: i32,
    pub title: String,
    pub text: String,
    pub uuid: u128,
    pub image: String,
    pub user_id: i32,
    pub created_at: i64,
    pub user: Option<UserModel>,
}

/// The author `row` as shown.
pub open spec fn shown_user(row: UserRow) -> UserModel {
    UserModel { id: row.id, name: row.name, email: row.email }
}

/// The post `row` as shown, with the author `user`.
pub open spec fn shown(row: PostRow, user: Option<UserModel>) -> PostModel {
    PostModel {
        id: row.id,
        title: row.title,
        text: row.text,
        uuid: row.uuid,
        image: row.image,
        user_id: row.user_id,
        created_at: row.created_at,
        user,
    }
}

/// The rows of `rows` as shown without their authors, in the same order.
pub open spec fn listed(rows: Seq<PostRow>) -> Seq<PostModel> {
    rows.map_values(|row: PostRow| shown(row, None))
}

/// The posts of `rows` that `owner` wrote, in the same order.
pub open spec fn owned_by(rows: Seq<PostRow>, owner: i32) -> Seq<PostRow> {
    rows.filter(|row: PostRow| row.user_id == owner)
}

/// The first post of `rows` with the key `uuid`.
pub open spec fn post_with_key(rows: Seq<PostRow>, uuid: u128) -> Option<PostRow>
    decreases rows.len(),
{
    if rows.len() == 0 {
        None
    } else if rows[0].uuid == uuid {
        Some(rows[0])
    } else {
        post_with_key(rows.drop_first(), uuid)
    }
}

/// The first user of `users` with the number `id`.
pub open spec fn user_with_id(users: Seq<UserRow>, id: i32) -> Option<UserRow>
    decreases users.len(),
{
    if users.len() == 0 {
        None
    } else if users[0].id == id {
        Some(users[0])
    } else {
        user_with_id(users.drop_first(), id)
    }
}

/// The post with the key `uuid` as shown with its author, where there is
/// such a post. The author is left out where no user has the number the
/// post names.
pub open spec fn found_post(posts: Seq<PostRow>, users: Seq<UserRow>, uuid: u128) -> Option<
    PostModel,
> {
    match post_with_key(posts, uuid) {
        Some(row) => Some(
            shown(
                row,
                match user_with_id(users, row.user_id) {
                    Some(user) => Some(shown_user(user)),
                    None => None,
                },
            ),
        ),
        None => None,
    }
}

impl PostRow {
    /// The post as shown, with the author `user`.
    pub fn show(&self, user: Option<UserModel>) -> (model: PostModel)
        ensures
            model == shown(*self, user),
    {
        PostModel {
            id: self.id,
            title: self.title.clone(),
            text: self.text.clone(),
            uuid: self.uuid,
            image: self.image.clone(),
            user_id: self.user_id,
            created_at: self.created_at,
            user,
        }
    }
}

impl UserRow {
    /// The user as shown.
    pub fn show(&self) -> (model: UserModel)
        ensures
            model == shown_user(*self),
    {
        UserModel { id: self.id, name: self.name.clone(), email: self.email.clone() }
    }
}

/// The posts that `owner` wrote among the first `i + 1` rows are those among
/// the first `i`, and the row at `i` where it is the owner's.
proof fn lemma_owned_by_one_more(rows: Seq<PostRow>, i: int, owner: i32)
    requires
        0 <= i < rows.len(),
    ensures
        owned_by(rows.take(i + 1), owner) == if rows[i].user_id == owner {
            owned_by(rows.take(i), owner).push(rows[i])
        } else {
            owned_by(rows.take(i), owner)
        },
{
    reveal(Seq::filter);
    let next = rows.take(i + 1);
    let wrote = |row: PostRow| row.user_id == owner;
    assert(next.drop_last() =~= rows.take(i));
    assert(next.last() == rows[i]);
    assert(next.filter(wrote) == if wrote(next.last()) {
        next.drop_last().filter(wrote).push(next.last())
    } else {
        next.drop_last().filter(wrote)
    });
}

/// All posts of `rows`, as shown without their authors.
pub fn all_posts(rows: &Vec<PostRow>) -> (models: Vec<PostModel>)
    ensures
        models@ == listed(rows@),
{
    let mut models: Vec<PostModel> = Vec::new();
    let mut i: usize = 0;
    while i < rows.len()
        invariant
            i <= rows.len(),
            models@ == listed(rows@.take(i as int)),
        decreases rows.len() - i,
    {
        models.push(rows[i].show(None));
        assert(rows@.take(i + 1) =~= rows@.take(i as int).push(rows@[i as int]));
        assert(models@ =~= listed(rows@.take(i + 1)));
        i = i + 1;
    }
    assert(rows@.take(i as int) =~= rows@);
    models
}

/// The posts of `rows` that the caller `claim` wrote, as shown without
/// their authors.
pub fn my_posts(rows: &Vec<PostRow>, claim: &Claims) -> (models: Vec<PostModel>)
    ensures
        models@ == listed(owned_by(rows@, claim.id)),
{
    let mut models: Vec<PostModel> = Vec::new();
    let mut i: usize = 0;
    while i < rows.len()
        invariant
            i <= rows.len(),
            models@ == listed(owned_by(rows@.take(i as int), claim.id)),
        decreases rows.len() - i,
    {
        proof {
            lemma_owned_by_one_more(rows@, i as int, claim.id);
        }
        if rows[i].user_id == claim.id {
            models.push(rows[i].show(None));
            assert(models@ =~= listed(owned_by(rows@.take(i + 1), claim.id)));
        }
        i = i + 1;
    }
    assert(rows@.take(i as int) =~= rows@);
    models
}

/// The first user of `users` with the number `id`, as shown.
fn author(users: &Vec<UserRow>, id: i32) -> (found: Option<UserModel>)
    ensures
        found == match user_with_id(users@, id) {
            Some(user) => Some(shown_user(user)),
            None => None,
        },
{
    let mut i: usize = 0;
    assert(users@.skip(0) =~= users@);
    while i < users.len()
        invariant
            i <= users.len(),
            user_with_id(users@, id) == user_with_id(users@.skip(i as int), id),
        decreases users.len() - i,
    {
        let ghost rest = users@.skip(i as int);
        assert(rest[0] == users@[i as int]);
        if users[i].id == id {
            return Some(users[i].show());
        }
        assert(rest.drop_first() =~= users@.skip(i + 1));
        i = i + 1;
    }
    None
}

/// The post with the key `uuid`, as shown with its author; `NotFound`
/// where `posts` holds no post with that key.
pub fn one_posts(posts: &Vec<PostRow>, users: &Vec<UserRow>, uuid: u128) -> (outcome: Result<
    PostModel,
    ApiError,
>)
    ensures
        match found_post(posts@, users@, uuid) {
            Some(model) => outcome == Ok::<PostModel, ApiError>(model),
            None => outcome == Err::<PostModel, ApiError>(ApiError::NotFound),
        },
{
    let mut i: usize = 0;
    assert(posts@.skip(0) =~= posts@);
    while i < posts.len()
        invariant
            i <= posts.len(),
            post_with_key(posts@, uuid) == post_with_key(posts@.skip(i as int), uuid),
        decreases posts.len() - i,
    {
        let ghost rest = posts@.skip(i as int);
        assert(rest[0] == posts@[i as int]);
        if posts[i].uuid == uuid {
            let user = author(users, posts[i].user_id);
            return Ok(posts[i].show(user));
        }
        assert(rest.drop_first() =~= posts@.skip(i + 1));
        i = i + 1;
    }
    Err(ApiError::NotFound)
}

/// A key that no post has is answered with `NotFound`, and only such a key.
pub proof fn law_not_found_iff_no_post_has_key(posts: Seq<PostRow>, users: Seq<UserRow>, uuid: u128)
    ensures
        found_post(posts, users, uuid) is None <==> forall|i: int|
            0 <= i < posts.len() ==> posts[i].uuid != uuid,
    decreases posts.len(),
{
    if posts.len() > 0 && posts[0].uuid != uuid {
        let rest = posts.drop_first();
        law_not_found_iff_no_post_has_key(rest, users, uuid);
        if forall|i: int| 0 <= i < rest.len() ==> rest[i].uuid != uuid {
            assert forall|i: int| 0 <= i < posts.len() implies posts[i].uuid != uuid by {
                if i > 0 {
                    assert(rest[i - 1] == posts[i]);
                }
            }
        } else {
            let i = choose|i: int| 0 <= i < rest.len() && rest[i].uuid == uuid;
            assert(posts[i + 1] == rest[i]);
        }
    }
}

} // verus!
