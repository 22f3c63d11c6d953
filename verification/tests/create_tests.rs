use secure_posts::auth::{check_auth_at, AuthHeader, RequestContext};
use secure_posts::create::{
    create_post, create_post_at, CreatePost, Creation, NewPost, Outcome, Stage,
};
use secure_posts::error::{ApiError, StorageStep};
use secure_posts::reader::{all_posts, my_posts, one_posts, PostRow, UserRow};
use secure_posts::token::{encode_token_at, Claims};
use secure_posts::upload::{StagedUpload, DEFAULT_MAX_FILE_SIZE};

const SECRET: &str = "a-server-wide-secret";
const NOON: i64 = 1_700_000_000;
const KEY: u128 = 0x1234_5678_9abc_4def_8123_4567_89ab_cdef;

/// A store and a disk in memory, with a switch to make one step fail.
struct World {
    rows: Vec<PostRow>,
    pending: Option<Vec<PostRow>>,
    users: Vec<UserRow>,
    public: Vec<String>,
    temp: Vec<String>,
    failing: Vec<&'static str>,
    log: Vec<&'static str>,
}

fn world() -> World {
    World {
        rows: vec![PostRow {
            id: 1,
            title: "old".to_string(),
            text: "an earlier post".to_string(),
            uuid: 1,
            image: "1-old.png".to_string(),
            user_id: 8,
            created_at: 1,
        }],
        pending: None,
        users: vec![
            UserRow {
                id: 7,
                name: "ann".to_string(),
                email: "ann@example.com".to_string(),
                password: "x".to_string(),
            },
            UserRow {
                id: 8,
                name: "bob".to_string(),
                email: "bob@example.com".to_string(),
                password: "y".to_string(),
            },
        ],
        public: Vec::new(),
        temp: vec!["/tmp/upload-1".to_string()],
        failing: Vec::new(),
        log: Vec::new(),
    }
}

fn stored(record: &NewPost, id: i32) -> PostRow {
    PostRow {
        id,
        title: record.title.clone(),
        text: record.text.clone(),
        uuid: record.uuid,
        image: record.image.clone(),
        user_id: record.user_id,
        created_at: record.created_at,
    }
}

impl World {
    fn attempt(&mut self, step: &'static str) -> Result<(), Outcome> {
        self.log.push(step);
        if self.failing.contains(&step) {
            Err(Outcome::Failed(format!("{} broke", step)))
        } else {
            Ok(())
        }
    }

    /// Does what the stage asks for and says how it went.
    fn carry_out(&mut self, creation: &Creation) -> Outcome {
        let tried = match &creation.stage {
            Stage::Begin => self.attempt("begin").map(|_| {
                self.pending = Some(self.rows.clone());
            }),
            Stage::Insert => self.attempt("insert").map(|_| {
                let id = self.rows.len() as i32 + 1;
                self.pending.as_mut().unwrap().push(stored(&creation.record, id));
            }),
            Stage::Place => self.attempt("place").and_then(|_| {
                assert!(self.temp.contains(&creation.temp_path));
                if self.public.contains(&creation.stored_name) {
                    return Err(Outcome::Failed("the name is taken".to_string()));
                }
                self.public.push(creation.stored_name.clone());
                Ok(())
            }),
            Stage::Update => self.attempt("update").map(|_| {
                let row = self.pending.as_mut().unwrap().last_mut().unwrap();
                row.image = creation.stored_name.clone();
            }),
            Stage::Commit => self.attempt("commit").map(|_| {
                self.rows = self.pending.take().unwrap();
            }),
            Stage::Rollback { .. } => {
                self.pending = None;
                self.attempt("rollback")
            }
            Stage::RemovePlaced { .. } => self.attempt("remove").map(|_| {
                self.public.retain(|name| name != &creation.stored_name);
            }),
            Stage::Discard { .. } => self.attempt("discard").map(|_| {
                self.temp.retain(|path| path != &creation.temp_path);
            }),
            Stage::Finished { .. } => unreachable!(),
        };
        match tried {
            Ok(()) => Outcome::Done,
            Err(failed) => failed,
        }
    }

    fn run(&mut self, mut creation: Creation) -> Creation {
        while !creation.stage.is_finished() {
            let outcome = self.carry_out(&creation);
            creation = creation.advance(outcome);
        }
        creation
    }
}

fn ann() -> Claims {
    Claims { exp: (NOON + 86_400) as usize, iat: NOON as usize, email: "ann@example.com".to_string(), id: 7 }
}

fn form(name: &str, size: usize) -> CreatePost {
    CreatePost {
        title: "T".to_string(),
        text: "B".to_string(),
        file: StagedUpload {
            temp_path: "/tmp/upload-1".to_string(),
            file_name: Some(name.to_string()),
            size,
        },
    }
}

fn start(name: &str, size: usize) -> Creation {
    create_post_at(&ann(), &form(name, size), DEFAULT_MAX_FILE_SIZE, KEY, NOON)
}

fn failure(step: StorageStep, cause: &str) -> ApiError {
    ApiError::StorageError { step, cause: cause.to_string() }
}

fn result_of(creation: &Creation) -> Result<(), ApiError> {
    match &creation.stage {
        Stage::Finished { result } => result.clone(),
        other => panic!("not finished: {:?}", other),
    }
}

#[test]
fn creation_starts_with_the_record_and_the_names() {
    let creation = start("photo.jpg", 1024);
    assert_eq!(
        creation,
        Creation {
            record: NewPost {
                title: "T".to_string(),
                text: "B".to_string(),
                uuid: KEY,
                user_id: 7,
                image: String::new(),
                created_at: NOON,
            },
            temp_path: "/tmp/upload-1".to_string(),
            stored_name: "1700000000-123456789abc4def8123456789abcdef-photo.jpg".to_string(),
            stage: Stage::Begin,
        }
    );
}

#[test]
fn steps_follow_each_other_in_order() {
    let mut creation = start("photo.jpg", 1024);
    let mut seen = Vec::new();
    for _ in 0..6 {
        creation = creation.advance(Outcome::Done);
        seen.push(format!("{:?}", creation.stage));
    }
    assert_eq!(
        seen,
        vec![
            "Insert",
            "Place",
            "Update",
            "Commit",
            "Discard { result: Ok(()) }",
            "Finished { result: Ok(()) }"
        ]
    );
    assert!(creation.stage.is_finished());
}

#[test]
fn advancing_keeps_what_is_to_be_stored() {
    let before = start("photo.jpg", 1024);
    let after = start("photo.jpg", 1024).advance(Outcome::Done).advance(Outcome::Failed("x".to_string()));
    assert_eq!(after.record, before.record);
    assert_eq!(after.temp_path, before.temp_path);
    assert_eq!(after.stored_name, before.stored_name);
}

#[test]
fn finished_creation_stays_finished() {
    let done = Stage::Finished { result: Ok(()) };
    assert_eq!(done.after(Outcome::Failed("late".to_string())), Stage::Finished { result: Ok(()) });
    let failed = Stage::Finished { result: Err(ApiError::EmptyPayload) };
    assert_eq!(failed.after(Outcome::Done), Stage::Finished { result: Err(ApiError::EmptyPayload) });
}

#[test]
fn authenticated_upload_creates_a_post_with_its_image() {
    let mut world = world();
    let token = encode_token_at("ann@example.com".to_string(), 7, SECRET, NOON).unwrap();
    let mut context = RequestContext { identity: None };
    let header = AuthHeader::Value(format!("Bearer {}", token));
    assert_eq!(check_auth_at(&header, SECRET, NOON + 5, &mut context), Ok(()));
    let caller = Claims::from_request(&context).unwrap();

    let creation = create_post_at(&caller, &form("photo.jpg", 1024), DEFAULT_MAX_FILE_SIZE, KEY, NOON + 5);
    let finished = world.run(creation);
    let response = finished.response().unwrap();
    assert_eq!(response.status_code, 200);
    assert!(response.success);
    assert_eq!(response.body, "Post created successfully");
    assert_eq!(world.log, vec!["begin", "insert", "place", "update", "commit", "discard"]);

    let shown = one_posts(&world.rows, &world.users, KEY).unwrap();
    assert_eq!(shown.title, "T");
    assert_eq!(shown.text, "B");
    assert_eq!(shown.image, "1700000005-123456789abc4def8123456789abcdef-photo.jpg");
    assert!(world.public.contains(&shown.image));
    assert_eq!(shown.user_id, 7);
    let owner = shown.user.unwrap();
    assert_eq!(owner.name, "ann");
    assert_eq!(owner.email, "ann@example.com");
    assert_eq!(my_posts(&world.rows, &caller).len(), 1);
    assert_eq!(all_posts(&world.rows).len(), 2);
    assert!(world.temp.is_empty());
    assert!(world.pending.is_none());
}

#[test]
fn request_without_header_creates_nothing() {
    let world = world();
    let before = all_posts(&world.rows).len();
    let mut context = RequestContext { identity: None };
    let refused = check_auth_at(&AuthHeader::Missing, SECRET, NOON, &mut context).unwrap_err();
    assert_eq!(refused, ApiError::Unauthenticated);
    assert_eq!(refused.to_response().status_code, 401);
    // The handler does not run: it finds no identity to create a post for.
    assert_eq!(Claims::from_request(&context), Err(ApiError::BadClaim));
    assert_eq!(all_posts(&world.rows).len(), before);
    assert!(world.log.is_empty());
}

#[test]
fn gif_is_refused_before_the_store_is_touched() {
    let mut world = world();
    let creation = start("x.gif", 10);
    assert_eq!(creation.stage, Stage::Discard { result: Err(ApiError::UnsupportedMediaType) });
    let finished = world.run(creation);
    let response = finished.response().unwrap();
    assert_eq!(response.status_code, 400);
    assert_eq!(response.body, "Invalid file format");
    assert_eq!(world.log, vec!["discard"]);
    assert_eq!(world.rows.len(), 1);
    assert!(world.public.is_empty());
    assert!(world.temp.is_empty());
}

#[test]
fn empty_file_is_refused_before_the_store_is_touched() {
    let mut world = world();
    let finished = world.run(start("x.png", 0));
    assert_eq!(result_of(&finished), Err(ApiError::EmptyPayload));
    assert_eq!(finished.response().unwrap().status_code, 400);
    assert_eq!(world.log, vec!["discard"]);
    assert_eq!(world.rows.len(), 1);
}

#[test]
fn large_file_is_refused_before_the_store_is_touched() {
    let mut world = world();
    let finished = world.run(start("x.png", 5_242_881));
    assert_eq!(result_of(&finished), Err(ApiError::PayloadTooLarge));
    assert_eq!(finished.response().unwrap().body, "File is too large");
    assert_eq!(world.log, vec!["discard"]);
    assert_eq!(world.rows.len(), 1);
}

#[test]
fn limit_is_the_callers() {
    let creation = create_post_at(&ann(), &form("x.png", 11), 10, KEY, NOON);
    assert_eq!(creation.stage, Stage::Discard { result: Err(ApiError::PayloadTooLarge) });
    let creation = create_post_at(&ann(), &form("x.png", 10), 10, KEY, NOON);
    assert_eq!(creation.stage, Stage::Begin);
}

#[test]
fn failure_to_begin_ends_the_request_without_rollback() {
    let mut world = world();
    world.failing = vec!["begin"];
    let finished = world.run(start("photo.jpg", 1024));
    assert_eq!(result_of(&finished), Err(failure(StorageStep::Begin, "begin broke")));
    assert_eq!(world.log, vec!["begin", "discard"]);
    assert_eq!(world.rows.len(), 1);
    let response = finished.response().unwrap();
    assert_eq!(response.status_code, 500);
    assert_eq!(response.body, "Failed to create transaction: begin broke");
}

#[test]
fn failure_to_insert_rolls_back() {
    let mut world = world();
    world.failing = vec!["insert"];
    let finished = world.run(start("photo.jpg", 1024));
    assert_eq!(result_of(&finished), Err(failure(StorageStep::Insert, "insert broke")));
    assert_eq!(world.log, vec!["begin", "insert", "rollback", "discard"]);
    assert_eq!(world.rows.len(), 1);
    assert!(world.pending.is_none());
    assert!(world.public.is_empty());
    assert!(world.temp.is_empty());
}

#[test]
fn failure_to_place_the_file_rolls_the_insert_back() {
    let mut world = world();
    world.failing = vec!["place"];
    let finished = world.run(start("photo.jpg", 1024));
    assert_eq!(result_of(&finished), Err(failure(StorageStep::Place, "place broke")));
    assert_eq!(world.log, vec!["begin", "insert", "place", "rollback", "discard"]);
    assert_eq!(one_posts(&world.rows, &world.users, KEY), Err(ApiError::NotFound));
    assert_eq!(world.rows.len(), 1);
    assert!(world.pending.is_none());
    assert!(world.public.is_empty());
    assert!(world.temp.is_empty());
    let response = finished.response().unwrap();
    assert_eq!(response.status_code, 500);
    assert_eq!(response.body, "internal error: place broke");
}

#[test]
fn failure_to_update_rolls_back() {
    let mut world = world();
    world.failing = vec!["update"];
    let finished = world.run(start("photo.jpg", 1024));
    assert_eq!(result_of(&finished), Err(failure(StorageStep::Update, "update broke")));
    assert_eq!(world.log, vec!["begin", "insert", "place", "update", "rollback", "discard"]);
    assert_eq!(one_posts(&world.rows, &world.users, KEY), Err(ApiError::NotFound));
}

#[test]
fn failure_to_commit_rolls_back_and_removes_the_placed_file() {
    let mut world = world();
    world.failing = vec!["commit"];
    let finished = world.run(start("photo.jpg", 1024));
    assert_eq!(result_of(&finished), Err(failure(StorageStep::Commit, "commit broke")));
    assert_eq!(
        world.log,
        vec!["begin", "insert", "place", "update", "commit", "rollback", "remove", "discard"]
    );
    assert_eq!(one_posts(&world.rows, &world.users, KEY), Err(ApiError::NotFound));
    assert!(world.public.is_empty());
    assert!(world.temp.is_empty());
    assert_eq!(finished.response().unwrap().body, "Failed to commit transaction: commit broke");
}

#[test]
fn failed_rollback_is_what_gets_reported() {
    let mut world = world();
    world.failing = vec!["place", "rollback"];
    let finished = world.run(start("photo.jpg", 1024));
    assert_eq!(result_of(&finished), Err(failure(StorageStep::Rollback, "rollback broke")));
    assert_eq!(world.log, vec!["begin", "insert", "place", "rollback", "discard"]);
    assert_eq!(world.rows.len(), 1);
    assert_eq!(
        finished.response().unwrap().body,
        "Failed to rollback transaction: rollback broke"
    );
}

#[test]
fn failed_rollback_after_a_failed_commit_still_removes_the_file() {
    let mut world = world();
    world.failing = vec!["commit", "rollback"];
    let finished = world.run(start("photo.jpg", 1024));
    assert_eq!(result_of(&finished), Err(failure(StorageStep::Rollback, "rollback broke")));
    assert!(world.log.contains(&"remove"));
    assert!(world.public.is_empty());
}

#[test]
fn failed_cleanup_does_not_change_the_outcome() {
    let mut world = world();
    world.failing = vec!["discard"];
    let finished = world.run(start("photo.jpg", 1024));
    assert_eq!(result_of(&finished), Ok(()));
    assert_eq!(world.rows.len(), 2);

    let mut world = self::world();
    world.failing = vec!["commit", "remove", "discard"];
    let finished = world.run(start("photo.jpg", 1024));
    assert_eq!(result_of(&finished), Err(failure(StorageStep::Commit, "commit broke")));
    assert_eq!(world.rows.len(), 1);

    let mut world = self::world();
    world.failing = vec!["discard"];
    let finished = world.run(start("x.gif", 10));
    assert_eq!(result_of(&finished), Err(ApiError::UnsupportedMediaType));
}

#[test]
fn no_answer_before_the_end() {
    let mut creation = start("photo.jpg", 1024);
    for _ in 0..5 {
        assert_eq!(creation.response(), None);
        assert!(!creation.stage.is_finished());
        creation = creation.advance(Outcome::Done);
    }
    assert_eq!(creation.response(), None);
    creation = creation.advance(Outcome::Done);
    assert!(creation.response().is_some());
}

#[test]
fn creation_by_the_clock_draws_a_fresh_key_each_time() {
    let first = create_post(&ann(), &form("photo.jpg", 1024), DEFAULT_MAX_FILE_SIZE);
    let second = create_post(&ann(), &form("photo.jpg", 1024), DEFAULT_MAX_FILE_SIZE);
    assert_ne!(first.record.uuid, second.record.uuid);
    assert_eq!(first.stage, Stage::Begin);
    assert_eq!(first.record.user_id, 7);
    assert_eq!(first.record.title, "T");
    assert_eq!(first.record.image, "");
    assert!(first.record.created_at > NOON);
    assert_eq!(
        first.stored_name,
        format!("{}-{:032x}-photo.jpg", first.record.created_at, first.record.uuid)
    );
    assert_ne!(first.stored_name, second.stored_name);
    // A version 4 key of the usual variant.
    assert_eq!((first.record.uuid >> 76) & 0xf, 4);
    assert_eq!((first.record.uuid >> 62) & 0x3, 2);
}

#[test]
fn creation_by_the_clock_refuses_a_gif() {
    let creation = create_post(&ann(), &form("x.gif", 10), DEFAULT_MAX_FILE_SIZE);
    assert_eq!(creation.stage, Stage::Discard { result: Err(ApiError::UnsupportedMediaType) });
}

#[test]
fn whatever_fails_the_post_is_stored_whole_or_not_at_all() {
    let steps = ["begin", "insert", "place", "update", "commit", "rollback", "remove", "discard"];
    for mask in 0u32..256 {
        let mut world = world();
        world.failing = steps
            .iter()
            .enumerate()
            .filter(|(i, _)| mask & (1 << i) != 0)
            .map(|(_, step)| *step)
            .collect();
        let finished = world.run(start("photo.jpg", 1024));
        assert!(world.log.len() <= 8, "{:?}", world.log);
        assert!(world.pending.is_none(), "{:?}", world.failing);
        assert_eq!(*world.log.last().unwrap(), "discard");
        match result_of(&finished) {
            Ok(()) => {
                assert_eq!(world.rows.len(), 2);
                let shown = one_posts(&world.rows, &world.users, KEY).unwrap();
                assert_eq!(shown.image, "1700000000-123456789abc4def8123456789abcdef-photo.jpg");
                assert!(world.public.contains(&shown.image));
                assert_eq!(mask & 0b11111, 0);
            }
            Err(error) => {
                assert_eq!(world.rows.len(), 1);
                assert_eq!(one_posts(&world.rows, &world.users, KEY), Err(ApiError::NotFound));
                assert_eq!(error.status_code(), 500);
                assert_ne!(mask & 0b11111, 0);
            }
        }
    }
}

#[test]
fn every_creation_is_finished_after_eight_reports() {
    for mask in 0u32..256 {
        let mut creation = start("photo.jpg", 1024);
        for step in 0..8 {
            let outcome = if mask & (1 << step) != 0 {
                Outcome::Failed("no".to_string())
            } else {
                Outcome::Done
            };
            creation = creation.advance(outcome);
        }
        assert!(creation.stage.is_finished(), "{:#b}", mask);
    }
    let mut refused = start("x.gif", 10);
    refused = refused.advance(Outcome::Done);
    assert!(refused.stage.is_finished());
}

fn images_are_there(world: &World) -> bool {
    world.rows.iter().all(|row| row.image.is_empty() || row.image == "1-old.png" || world.public.contains(&row.image))
}

#[test]
fn two_uploads_of_one_name_in_one_second_are_both_kept() {
    let mut world = world();
    let first = create_post_at(&ann(), &form("photo.jpg", 1024), DEFAULT_MAX_FILE_SIZE, KEY, NOON);
    let second =
        create_post_at(&ann(), &form("photo.jpg", 2048), DEFAULT_MAX_FILE_SIZE, KEY + 1, NOON);
    assert_ne!(first.stored_name, second.stored_name);
    assert_eq!(result_of(&world.run(first)), Ok(()));
    world.temp.push("/tmp/upload-1".to_string());
    assert_eq!(result_of(&world.run(second)), Ok(()));
    assert_eq!(world.rows.len(), 3);
    assert_eq!(world.public.len(), 2);
    let one = one_posts(&world.rows, &world.users, KEY).unwrap();
    let two = one_posts(&world.rows, &world.users, KEY + 1).unwrap();
    assert_ne!(one.image, two.image);
    assert!(world.public.contains(&one.image));
    assert!(world.public.contains(&two.image));
}

#[test]
fn failed_commit_of_a_second_upload_leaves_the_first_file_alone() {
    let mut world = world();
    let first = create_post_at(&ann(), &form("photo.jpg", 1024), DEFAULT_MAX_FILE_SIZE, KEY, NOON);
    let kept = first.stored_name.clone();
    assert_eq!(result_of(&world.run(first)), Ok(()));
    world.temp.push("/tmp/upload-1".to_string());
    world.failing = vec!["commit"];
    let second =
        create_post_at(&ann(), &form("photo.jpg", 1024), DEFAULT_MAX_FILE_SIZE, KEY + 1, NOON);
    let finished = world.run(second);
    assert_eq!(result_of(&finished), Err(failure(StorageStep::Commit, "commit broke")));
    assert!(world.log.contains(&"remove"));
    assert_eq!(world.public, vec![kept.clone()]);
    assert_eq!(one_posts(&world.rows, &world.users, KEY).unwrap().image, kept);
    assert_eq!(one_posts(&world.rows, &world.users, KEY + 1), Err(ApiError::NotFound));
    assert!(images_are_there(&world));
}

#[test]
fn upload_into_a_taken_name_replaces_nothing() {
    let mut world = world();
    let first = create_post_at(&ann(), &form("photo.jpg", 1024), DEFAULT_MAX_FILE_SIZE, KEY, NOON);
    let kept = first.stored_name.clone();
    assert_eq!(result_of(&world.run(first)), Ok(()));
    world.temp.push("/tmp/upload-1".to_string());
    world.log.clear();
    // The same key once more: the name is taken, so the file cannot be placed.
    let again = create_post_at(&ann(), &form("photo.jpg", 1024), DEFAULT_MAX_FILE_SIZE, KEY, NOON);
    let finished = world.run(again);
    assert_eq!(result_of(&finished), Err(failure(StorageStep::Place, "the name is taken")));
    assert_eq!(world.log, vec!["begin", "insert", "place", "rollback", "discard"]);
    assert_eq!(world.public, vec![kept]);
    assert_eq!(world.rows.len(), 2);
    assert!(images_are_there(&world));
}

#[test]
fn every_listed_image_is_there_whatever_fails() {
    let steps = ["begin", "insert", "place", "update", "commit", "rollback", "remove", "discard"];
    for mask in 0u32..256 {
        let mut world = world();
        let first =
            create_post_at(&ann(), &form("photo.jpg", 1024), DEFAULT_MAX_FILE_SIZE, KEY, NOON);
        assert_eq!(result_of(&world.run(first)), Ok(()));
        let files_before = world.public.clone();
        world.temp.push("/tmp/upload-1".to_string());
        world.failing = steps
            .iter()
            .enumerate()
            .filter(|(i, _)| mask & (1 << i) != 0)
            .map(|(_, step)| *step)
            .collect();
        let second =
            create_post_at(&ann(), &form("photo.jpg", 1024), DEFAULT_MAX_FILE_SIZE, KEY + 1, NOON);
        let own = second.stored_name.clone();
        world.run(second);
        assert!(images_are_there(&world), "{:?}", world.failing);
        for file in &files_before {
            assert!(world.public.contains(file), "{:?}", world.failing);
        }
        assert!(world.public.iter().all(|file| files_before.contains(file) || *file == own));
    }
}
