use blog_posts::create::StoreEvent;
use blog_posts::error::BlogError;
use blog_posts::post::{Post, PostEntry};
use blog_posts::store::PostStore;

const TODAY: &str = "2024-05-01";

fn entry(title: &str, body: &str, image: Option<Vec<u8>>) -> PostEntry {
    PostEntry { title: title.to_string(), post_body: body.to_string(), image_data: image }
}

fn ids(posts: &[Post]) -> Vec<u32> {
    posts.iter().map(|post| post.id).collect()
}

#[test]
fn new_store_lists_nothing() {
    let store = PostStore::new();
    assert!(store.list().is_empty());
    assert_eq!(store.image("any.png"), None);
}

#[test]
fn first_post_gets_identifier_one() {
    let mut store = PostStore::new();
    let post = store.create(entry("Hi", "text", None), TODAY).unwrap();
    assert_eq!(
        post,
        Post {
            id: 1,
            title: "Hi".to_string(),
            post_body: "text".to_string(),
            image_file: None,
            created_time: TODAY.to_string(),
        }
    );
}

#[test]
fn create_without_image_is_listed_without_image() {
    let mut store = PostStore::new();
    let post = store.create(entry("Hi", "text", None), TODAY).unwrap();
    assert_eq!(post.image_file, None);
    assert_eq!(store.list(), vec![post]);
}

#[test]
fn example_post_is_listed_unchanged() {
    let mut store = PostStore::new();
    store.create(entry("Hi", "### Section\nBody text", None), TODAY).unwrap();
    let posts = store.list();
    assert_eq!(posts.len(), 1);
    assert_eq!(posts[0].title, "Hi");
    assert_eq!(posts[0].post_body, "### Section\nBody text");
    assert_eq!(posts[0].image_file, None);
}

#[test]
fn identifiers_of_n_creates_fill_a_range() {
    let mut store = PostStore::new();
    let mut created = Vec::new();
    for n in 0..20 {
        let image = if n % 3 == 0 { Some(vec![n as u8 + 1]) } else { None };
        created.push(store.create(entry("t", "b", image), TODAY).unwrap().id);
    }
    assert_eq!(created, (1..=20).collect::<Vec<u32>>());
}

#[test]
fn identifiers_continue_after_the_last_one() {
    let mut store = PostStore::starting_after(41);
    let first = store.create(entry("a", "b", None), TODAY).unwrap();
    let second = store.create(entry("c", "d", None), TODAY).unwrap();
    let third = store.create(entry("e", "f", None), TODAY).unwrap();
    assert_eq!((first.id, second.id, third.id), (42, 43, 44));
}

#[test]
fn failed_creates_leave_no_gap() {
    let mut store = PostStore::new();
    let first = store.create(entry("a", "b", None), TODAY).unwrap();
    assert_eq!(store.create(entry("", "b", None), TODAY), Err(BlogError::MalformedRequest));
    assert_eq!(store.create(entry("a", "", None), TODAY), Err(BlogError::MalformedRequest));
    let second = store.create(entry("c", "d", None), TODAY).unwrap();
    assert_eq!((first.id, second.id), (1, 2));
}

#[test]
fn list_is_in_descending_order_of_identifier() {
    let mut store = PostStore::new();
    let mut created = Vec::new();
    for title in ["one", "two", "three", "four"] {
        created.push(store.create(entry(title, "body", None), TODAY).unwrap());
    }
    let posts = store.list();
    assert_eq!(ids(&posts), vec![4, 3, 2, 1]);
    created.reverse();
    assert_eq!(posts, created);
    for pair in posts.windows(2) {
        assert!(pair[0].id > pair[1].id);
    }
}

#[test]
fn listing_does_not_change_the_store() {
    let mut store = PostStore::new();
    store.create(entry("a", "b", None), TODAY).unwrap();
    assert_eq!(store.list(), store.list());
}

#[test]
fn created_time_is_the_day_of_the_call() {
    let mut store = PostStore::new();
    let first = store.create(entry("a", "b", None), "2024-05-01").unwrap();
    let second = store.create(entry("a", "b", None), "2024-05-02").unwrap();
    assert_eq!(first.created_time, "2024-05-01");
    assert_eq!(second.created_time, "2024-05-02");
    assert_eq!(store.list()[1].created_time, "2024-05-01");
}

#[test]
fn same_request_twice_creates_two_posts() {
    let mut store = PostStore::new();
    let first = store.create(entry("a", "b", None), TODAY).unwrap();
    let second = store.create(entry("a", "b", None), TODAY).unwrap();
    assert_ne!(first.id, second.id);
    assert_eq!(store.list().len(), 2);
}

#[test]
fn create_with_image_stores_the_same_bytes() {
    let mut store = PostStore::new();
    let bytes = vec![0x89, b'P', b'N', b'G', 0, 255, 7];
    let post = store.create(entry("Pic", "look", Some(bytes.clone())), TODAY).unwrap();
    let name = post.image_file.clone().unwrap();
    assert_eq!(store.image(&name), Some(bytes));
    assert_eq!(store.list()[0].image_file, Some(name));
}

#[test]
fn image_is_named_by_identifier_and_extension() {
    let mut store = PostStore::new();
    let post = store
        .create_named(entry("Pic", "look", Some(vec![1])), "blob".to_string(), TODAY)
        .unwrap();
    assert_eq!(post.image_file, Some("blob.png".to_string()));
    assert_eq!(store.image("blob.png"), Some(vec![1]));
    assert_eq!(store.image("blob"), None);
}

#[test]
fn images_of_two_posts_are_kept_apart() {
    let mut store = PostStore::new();
    let first = store.create(entry("a", "b", Some(vec![1, 1])), TODAY).unwrap();
    let second = store.create(entry("c", "d", Some(vec![2, 2, 2])), TODAY).unwrap();
    let first_name = first.image_file.unwrap();
    let second_name = second.image_file.unwrap();
    assert_ne!(first_name, second_name);
    assert_eq!(store.image(&first_name), Some(vec![1, 1]));
    assert_eq!(store.image(&second_name), Some(vec![2, 2, 2]));
}

#[test]
fn unknown_image_is_not_found() {
    let mut store = PostStore::new();
    store.create(entry("a", "b", Some(vec![1])), TODAY).unwrap();
    assert_eq!(store.image("nothing.png"), None);
    assert_eq!(store.image(""), None);
}

#[test]
fn empty_title_is_malformed_and_changes_nothing() {
    let mut store = PostStore::new();
    let result = store.create_named(entry("", "body", Some(vec![1])), "x".to_string(), TODAY);
    assert_eq!(result, Err(BlogError::MalformedRequest));
    assert!(store.list().is_empty());
    assert_eq!(store.image("x.png"), None);
}

#[test]
fn empty_body_is_malformed_and_changes_nothing() {
    let mut store = PostStore::new();
    let result = store.create_named(entry("title", "", Some(vec![1])), "x".to_string(), TODAY);
    assert_eq!(result, Err(BlogError::MalformedRequest));
    assert!(store.list().is_empty());
    assert_eq!(store.image("x.png"), None);
}

#[test]
fn image_without_bytes_is_malformed() {
    let mut store = PostStore::new();
    let result = store.create(entry("title", "body", Some(Vec::new())), TODAY);
    assert_eq!(result, Err(BlogError::MalformedRequest));
    assert!(store.list().is_empty());
}

#[test]
fn taken_image_name_fails_to_persist_and_inserts_nothing() {
    let mut store = PostStore::new();
    let first = store
        .create_named(entry("a", "b", Some(vec![1])), "same".to_string(), TODAY)
        .unwrap();
    let second = store.create_named(entry("c", "d", Some(vec![2])), "same".to_string(), TODAY);
    assert_eq!(second, Err(BlogError::ImagePersistError));
    assert_eq!(store.list(), vec![first]);
    assert_eq!(store.image("same.png"), Some(vec![1]));
    let third = store.create(entry("e", "f", None), TODAY).unwrap();
    assert_eq!(third.id, 2);
}

#[test]
fn exhausted_identifiers_fail_to_write() {
    let mut store = PostStore::starting_after(u32::MAX);
    let result = store.create(entry("a", "b", None), TODAY);
    assert_eq!(result, Err(BlogError::StorageWriteError));
    assert!(store.list().is_empty());
}

#[test]
fn last_identifier_can_still_be_handed_out() {
    let mut store = PostStore::starting_after(u32::MAX - 1);
    assert_eq!(store.create(entry("a", "b", None), TODAY).unwrap().id, u32::MAX);
    assert_eq!(store.create(entry("a", "b", None), TODAY), Err(BlogError::StorageWriteError));
    assert_eq!(ids(&store.list()), vec![u32::MAX]);
}

#[test]
fn failed_write_after_image_shows_no_post() {
    let mut store = PostStore::starting_after(u32::MAX);
    let result = store.create_named(entry("a", "b", Some(vec![9, 9])), "left".to_string(), TODAY);
    assert_eq!(result, Err(BlogError::StorageWriteError));
    assert!(store.list().is_empty());
    assert_eq!(store.image("left.png"), Some(vec![9, 9]));
}

#[test]
fn write_image_refuses_a_taken_name() {
    let mut store = PostStore::new();
    assert_eq!(store.write_image("a.png", &vec![1]), StoreEvent::ImageWritten);
    assert_eq!(store.write_image("a.png", &vec![2]), StoreEvent::ImageWriteFailed);
    assert_eq!(store.write_image("b.png", &vec![3]), StoreEvent::ImageWritten);
    assert_eq!(store.image("a.png"), Some(vec![1]));
    assert_eq!(store.image("b.png"), Some(vec![3]));
}

#[test]
fn insert_record_hands_out_the_next_identifier() {
    let mut store = PostStore::new();
    assert_eq!(
        store.insert_record("a", "b", &None, TODAY),
        StoreEvent::RecordInserted { id: 1, created_time: TODAY.to_string() }
    );
    assert_eq!(
        store.insert_record("c", "d", &None, "2024-05-02"),
        StoreEvent::RecordInserted { id: 2, created_time: "2024-05-02".to_string() }
    );
    assert_eq!(ids(&store.list()), vec![2, 1]);
}

#[test]
fn insert_record_refuses_an_image_that_is_not_stored() {
    let mut store = PostStore::new();
    let missing = Some("missing.png".to_string());
    assert_eq!(store.insert_record("a", "b", &missing, TODAY), StoreEvent::InsertFailed);
    assert!(store.list().is_empty());
    assert_eq!(store.write_image("missing.png", &vec![1]), StoreEvent::ImageWritten);
    assert_eq!(
        store.insert_record("a", "b", &missing, TODAY),
        StoreEvent::RecordInserted { id: 1, created_time: TODAY.to_string() }
    );
    assert_eq!(store.list()[0].image_file, missing);
}

#[test]
fn insert_record_refuses_empty_texts() {
    let mut store = PostStore::new();
    assert_eq!(store.insert_record("", "b", &None, TODAY), StoreEvent::InsertFailed);
    assert_eq!(store.insert_record("a", "", &None, TODAY), StoreEvent::InsertFailed);
    assert!(store.list().is_empty());
    assert_eq!(
        store.insert_record("a", "b", &None, TODAY),
        StoreEvent::RecordInserted { id: 1, created_time: TODAY.to_string() }
    );
}

#[test]
fn duplicate_is_equal_to_the_post() {
    let post = Post {
        id: 5,
        title: "t".to_string(),
        post_body: "b".to_string(),
        image_file: Some("i.png".to_string()),
        created_time: TODAY.to_string(),
    };
    assert_eq!(post.duplicate(), post);
}

#[test]
fn acceptable_requests() {
    assert!(entry("t", "b", None).is_acceptable());
    assert!(entry("t", "b", Some(vec![0])).is_acceptable());
    assert!(!entry("", "b", None).is_acceptable());
    assert!(!entry("t", "", None).is_acceptable());
    assert!(!entry("t", "b", Some(Vec::new())).is_acceptable());
    assert!(entry(" ", "\n", None).is_acceptable());
}
