use blog_posts::error::{BlogError, Fault, Status};
use blog_posts::post::{Post, PostEntry};
use blog_posts::service::{
    begin_initialize, create_status, finish_initialize, handle_create, handle_image, handle_list,
    image_response, list_response, parse_payload, InitStep, PostPayload,
};
use blog_posts::store::PostStore;

const TODAY: &str = "2024-05-01";

fn payload(title: Option<&str>, body: Option<&str>, image: Option<Vec<u8>>) -> PostPayload {
    PostPayload {
        title: title.map(|t| t.to_string()),
        post_body: body.map(|b| b.to_string()),
        image_data: image,
    }
}

fn post(id: u32) -> Post {
    Post {
        id,
        title: "t".to_string(),
        post_body: "b".to_string(),
        image_file: None,
        created_time: TODAY.to_string(),
    }
}

#[test]
fn status_codes() {
    assert_eq!(Status::Success.code(), 200);
    assert_eq!(Status::BadRequest.code(), 400);
    assert_eq!(Status::NotFound.code(), 404);
    assert_eq!(Status::InternalServerError.code(), 500);
}

#[test]
fn only_a_malformed_request_is_the_clients_fault() {
    assert_eq!(BlogError::MalformedRequest.fault(), Fault::Client);
    for error in [
        BlogError::StorageInitError,
        BlogError::StorageWriteError,
        BlogError::StorageReadError,
        BlogError::ImagePersistError,
    ] {
        assert_eq!(error.fault(), Fault::Server);
    }
}

#[test]
fn faults_are_reported_by_status() {
    assert_eq!(BlogError::MalformedRequest.status(), Status::BadRequest);
    for error in [
        BlogError::StorageInitError,
        BlogError::StorageWriteError,
        BlogError::StorageReadError,
        BlogError::ImagePersistError,
    ] {
        assert_eq!(error.status(), Status::InternalServerError);
    }
}

#[test]
fn complete_payload_is_parsed() {
    assert_eq!(
        parse_payload(payload(Some("t"), Some("b"), Some(vec![1]))),
        Ok(PostEntry {
            title: "t".to_string(),
            post_body: "b".to_string(),
            image_data: Some(vec![1]),
        })
    );
    assert_eq!(
        parse_payload(payload(Some("t"), Some("b"), None)),
        Ok(PostEntry { title: "t".to_string(), post_body: "b".to_string(), image_data: None })
    );
}

#[test]
fn missing_or_empty_texts_are_malformed() {
    for bad in [
        payload(None, Some("b"), None),
        payload(Some("t"), None, None),
        payload(None, None, Some(vec![1])),
        payload(Some(""), Some("b"), None),
        payload(Some("t"), Some(""), None),
        payload(Some("t"), Some("b"), Some(Vec::new())),
    ] {
        assert_eq!(parse_payload(bad), Err(BlogError::MalformedRequest));
    }
}

#[test]
fn create_is_answered_with_success() {
    let mut store = PostStore::new();
    let status = handle_create(&mut store, payload(Some("Hi"), Some("text"), None), TODAY);
    assert_eq!(status, Status::Success);
    let (status, posts) = handle_list(&store);
    assert_eq!(status, Status::Success);
    assert_eq!(posts.len(), 1);
    assert_eq!(posts[0].id, 1);
    assert_eq!(posts[0].title, "Hi");
    assert_eq!(posts[0].post_body, "text");
    assert_eq!(posts[0].created_time, TODAY);
}

#[test]
fn malformed_create_is_a_bad_request_and_touches_nothing() {
    let mut store = PostStore::new();
    handle_create(&mut store, payload(Some("kept"), Some("text"), None), TODAY);
    for bad in [
        payload(Some(""), Some("b"), Some(vec![1])),
        payload(Some("t"), Some(""), Some(vec![1])),
        payload(None, Some("b"), None),
        payload(Some("t"), None, None),
    ] {
        assert_eq!(handle_create(&mut store, bad, TODAY), Status::BadRequest);
    }
    let (_, posts) = handle_list(&store);
    assert_eq!(posts.len(), 1);
    assert_eq!(posts[0].title, "kept");
    let next = handle_create(&mut store, payload(Some("next"), Some("text"), None), TODAY);
    assert_eq!(next, Status::Success);
    assert_eq!(handle_list(&store).1[0].id, 2);
}

#[test]
fn storage_failure_is_a_server_fault() {
    let mut store = PostStore::starting_after(u32::MAX);
    let status = handle_create(&mut store, payload(Some("t"), Some("b"), Some(vec![1])), TODAY);
    assert_eq!(status, Status::InternalServerError);
    assert!(handle_list(&store).1.is_empty());
}

#[test]
fn empty_store_lists_nothing_with_success() {
    let store = PostStore::new();
    assert_eq!(handle_list(&store), (Status::Success, Vec::new()));
}

#[test]
fn list_is_served_most_recent_first() {
    let mut store = PostStore::new();
    for title in ["a", "b", "c"] {
        handle_create(&mut store, payload(Some(title), Some("x"), None), TODAY);
    }
    let (_, posts) = handle_list(&store);
    let titles: Vec<&str> = posts.iter().map(|p| p.title.as_str()).collect();
    let ids: Vec<u32> = posts.iter().map(|p| p.id).collect();
    assert_eq!(titles, vec!["c", "b", "a"]);
    assert_eq!(ids, vec![3, 2, 1]);
}

#[test]
fn image_of_a_created_post_is_served_byte_for_byte() {
    let mut store = PostStore::new();
    let bytes: Vec<u8> = (0..=255).collect();
    handle_create(&mut store, payload(Some("t"), Some("b"), Some(bytes.clone())), TODAY);
    let name = handle_list(&store).1[0].image_file.clone().unwrap();
    assert_eq!(handle_image(&store, &name), (Status::Success, bytes));
}

#[test]
fn unknown_image_is_answered_with_not_found() {
    let store = PostStore::new();
    assert_eq!(handle_image(&store, "nothing.png"), (Status::NotFound, Vec::new()));
}

#[test]
fn status_of_a_creation() {
    assert_eq!(create_status(&Ok(post(1))), Status::Success);
    assert_eq!(create_status(&Err(BlogError::MalformedRequest)), Status::BadRequest);
    assert_eq!(create_status(&Err(BlogError::ImagePersistError)), Status::InternalServerError);
    assert_eq!(create_status(&Err(BlogError::StorageWriteError)), Status::InternalServerError);
}

#[test]
fn read_posts_are_answered_as_read() {
    let posts = vec![post(2), post(1)];
    assert_eq!(list_response(Ok(posts.clone())), (Status::Success, posts));
}

#[test]
fn failed_read_is_a_server_fault_without_posts() {
    assert_eq!(
        list_response(Err(BlogError::StorageReadError)),
        (Status::InternalServerError, Vec::new())
    );
}

#[test]
fn found_image_is_answered_with_its_bytes() {
    assert_eq!(image_response(Some(vec![1, 2])), (Status::Success, vec![1, 2]));
    assert_eq!(image_response(None), (Status::NotFound, Vec::new()));
}

#[test]
fn existing_storage_is_kept() {
    assert_eq!(begin_initialize(true), InitStep::Ready);
}

#[test]
fn missing_storage_is_set_up() {
    assert_eq!(begin_initialize(false), InitStep::CreateTable);
    assert_eq!(finish_initialize(true), Ok(()));
}

#[test]
fn storage_that_cannot_be_set_up_is_an_init_error() {
    assert_eq!(finish_initialize(false), Err(BlogError::StorageInitError));
}
