use secure_posts::error::ApiError;
use secure_posts::reader::{all_posts, my_posts, one_posts, PostModel, PostRow, UserModel, UserRow};
use secure_posts::token::Claims;

fn post(id: i32, title: &str, uuid: u128, user_id: i32) -> PostRow {
    PostRow {
        id,
        title: title.to_string(),
        text: format!("text of {}", title),
        uuid,
        image: format!("{}-{}.png", 1_700_000_000 + id, title),
        user_id,
        created_at: 1_700_000_000 + id as i64,
    }
}

fn model(id: i32, title: &str, uuid: u128, user_id: i32, user: Option<UserModel>) -> PostModel {
    PostModel {
        id,
        title: title.to_string(),
        text: format!("text of {}", title),
        uuid,
        image: format!("{}-{}.png", 1_700_000_000 + id, title),
        user_id,
        created_at: 1_700_000_000 + id as i64,
        user,
    }
}

fn user(id: i32, name: &str) -> UserRow {
    UserRow {
        id,
        name: name.to_string(),
        email: format!("{}@example.com", name),
        password: "0123abcd".to_string(),
    }
}

fn caller(id: i32) -> Claims {
    Claims { exp: 10, iat: 1, email: "who@example.com".to_string(), id }
}

fn posts() -> Vec<PostRow> {
    vec![post(1, "one", 11, 7), post(2, "two", 22, 8), post(3, "three", 33, 7), post(4, "four", 44, 9)]
}

#[test]
fn all_posts_shows_every_row_in_order_without_author() {
    assert_eq!(
        all_posts(&posts()),
        vec![
            model(1, "one", 11, 7, None),
            model(2, "two", 22, 8, None),
            model(3, "three", 33, 7, None),
            model(4, "four", 44, 9, None),
        ]
    );
}

#[test]
fn all_posts_of_an_empty_store() {
    assert_eq!(all_posts(&Vec::new()), Vec::<PostModel>::new());
}

#[test]
fn my_posts_shows_the_callers_rows_only() {
    assert_eq!(
        my_posts(&posts(), &caller(7)),
        vec![model(1, "one", 11, 7, None), model(3, "three", 33, 7, None)]
    );
    assert_eq!(my_posts(&posts(), &caller(9)), vec![model(4, "four", 44, 9, None)]);
}

#[test]
fn my_posts_of_a_caller_without_posts() {
    assert_eq!(my_posts(&posts(), &caller(1)), Vec::<PostModel>::new());
    assert_eq!(my_posts(&Vec::new(), &caller(7)), Vec::<PostModel>::new());
}

#[test]
fn my_posts_goes_by_the_key_not_the_address() {
    let mut ann = caller(8);
    ann.email = "seven@example.com".to_string();
    assert_eq!(my_posts(&posts(), &ann), vec![model(2, "two", 22, 8, None)]);
}

#[test]
fn one_post_is_shown_with_its_author() {
    let users = vec![user(7, "ann"), user(8, "bob")];
    assert_eq!(
        one_posts(&posts(), &users, 22),
        Ok(model(
            2,
            "two",
            22,
            8,
            Some(UserModel { id: 8, name: "bob".to_string(), email: "bob@example.com".to_string() })
        ))
    );
}

#[test]
fn one_post_without_author_is_still_shown() {
    let users = vec![user(7, "ann"), user(8, "bob")];
    assert_eq!(one_posts(&posts(), &users, 44), Ok(model(4, "four", 44, 9, None)));
    assert_eq!(one_posts(&posts(), &Vec::new(), 11), Ok(model(1, "one", 11, 7, None)));
}

#[test]
fn unknown_key_is_not_found() {
    let users = vec![user(7, "ann")];
    assert_eq!(one_posts(&posts(), &users, 55), Err(ApiError::NotFound));
    assert_eq!(one_posts(&Vec::new(), &users, 11), Err(ApiError::NotFound));
    assert_eq!(one_posts(&posts(), &users, 0), Err(ApiError::NotFound));
    assert_eq!(one_posts(&posts(), &users, 55).unwrap_err().status_code(), 404);
}

#[test]
fn first_row_with_the_key_wins() {
    let rows = vec![post(1, "one", 11, 7), post(2, "twin", 11, 8)];
    let users = vec![user(8, "bob"), user(7, "ann"), user(7, "late")];
    let found = one_posts(&rows, &users, 11).unwrap();
    assert_eq!(found.id, 1);
    assert_eq!(found.user.unwrap().name, "ann");
}

#[test]
fn rows_show_themselves() {
    let row = post(3, "three", 33, 7);
    assert_eq!(row.show(None), model(3, "three", 33, 7, None));
    let ann = user(7, "ann");
    assert_eq!(
        ann.show(),
        UserModel { id: 7, name: "ann".to_string(), email: "ann@example.com".to_string() }
    );
    assert_eq!(row.show(Some(ann.show())).user, Some(ann.show()));
}
