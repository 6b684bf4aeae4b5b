//! The request boundary in front of the store.
//!
//! A request is checked for shape before it reaches the store, and whatever
//! the store answers is turned into a status: malformed input is the client's
//! fault, every failure of the storage is the server's, and nothing of the
//! storage shows in the answer.

use vstd::prelude::*;
use crate::error::{BlogError, Status};
use crate::post::{bytes_of, text_of, Post, PostEntry, PostEntryView, PostView};
use crate::store::{post_views, result_view, PostStore, StoreView};
use crate::image::{image_file_name, is_blob_id};

verus! {

/// A request to create a post as it arrives: any field may be missing.
#[derive(Debug, Clone, PartialEq)]
pub struct PostPayload {
    pub title: Option<String>,
    pub post_body: Option<String>,
    pub image_data: Option<Vec<u8>>,
}

/// The mathematical value of a [`PostPayload`].
pub struct PostPayloadView {
    pub title: Option<Seq<char>>,
    pub post_body: Option<Seq<char>>,
    pub image_data: Option<Seq<u8>>,
}

impl View for PostPayload {
    type V = PostPayloadView;

    open spec fn view(&self) -> PostPayloadView {
        PostPayloadView {
            title: text_of(self.title),
            post_body: text_of(self.post_body),
            image_data: bytes_of(self.image_data),
        }
    }
}

impl PostPayloadView {
    /// The request that the payload holds, if both texts are there and the
    /// request is acceptable.
    pub open spec fn entry(self) -> Result<PostEntryView, BlogError> {
        match (self.title, self.post_body) {
            (Some(title), Some(post_body)) => {
                let entry = PostEntryView { title, post_body, image_data: self.image_data };
                if entry.acceptable() {
                    Ok(entry)
                } else {
                    Err(BlogError::MalformedRequest)
                }
            },
            _ => Err(BlogError::MalformedRequest),
        }
    }
}

/// The request of a result, as a value.
pub open spec fn entry_view(result: Result<PostEntry, BlogError>) -> Result<
    PostEntryView,
    BlogError,
> {
    match result {
        Ok(entry) => Ok(entry@),
        Err(error) => Err(error),
    }
}

/// Checks the shape of a payload: a missing or empty title or body, or an
/// attached image without bytes, makes the request malformed.
pub fn parse_payload(payload: PostPayload) -> (result: Result<PostEntry, BlogError>)
    ensures
        entry_view(result) == payload@.entry(),
{
    match (payload.title, payload.post_body) {
        (Some(title), Some(post_body)) => {
            let entry = PostEntry { title, post_body, image_data: payload.image_data };
            if entry.is_acceptable() {
                Ok(entry)
            } else {
                Err(BlogError::MalformedRequest)
            }
        },
        _ => Err(BlogError::MalformedRequest),
    }
}

/// The status that answers a request to create a post, given how the
/// creation ended.
pub open spec fn outcome_status(outcome: Result<PostView, BlogError>) -> Status {
    match outcome {
        Ok(_) => Status::Success,
        Err(error) => error.status_of(),
    }
}

/// The status that answers a request to create a post. The created post is
/// not sent back; the client lists the posts again.
pub fn create_status(outcome: &Result<Post, BlogError>) -> (status: Status)
    ensures
        status == outcome_status(result_view(*outcome)),
{
    match outcome {
        Ok(_) => Status::Success,
        Err(error) => error.status(),
    }
}

/// What start-up has to do about the backing storage.
#[derive(Debug, Clone, Copy, PartialEq, Eq, Structural)]
pub enum InitStep {
    /// The storage is there; it is used as it is.
    Ready,
    /// The storage is missing; the table of posts is to be created.
    CreateTable,
}

/// Decides what start-up does: storage that exists is kept with all it
/// holds, storage that is missing is set up.
pub fn begin_initialize(storage_exists: bool) -> (step: InitStep)
    ensures
        step == if storage_exists {
            InitStep::Ready
        } else {
            InitStep::CreateTable
        },
{
    if storage_exists {
        InitStep::Ready
    } else {
        InitStep::CreateTable
    }
}

/// The outcome of setting up the storage.
pub fn finish_initialize(table_created: bool) -> (result: Result<(), BlogError>)
    ensures
        result == if table_created {
            Ok::<(), BlogError>(())
        } else {
            Err::<(), BlogError>(BlogError::StorageInitError)
        },
{
    if table_created {
        Ok(())
    } else {
        Err(BlogError::StorageInitError)
    }
}

/// The store after a request to create a post has been served on the day
/// `today`, with `file_name` at hand for its image, and the status that
/// answers it.
///
/// A malformed payload is the client's fault and leaves the store as it
/// was. Any other payload is handed to the store, and the answer reports
/// success or the server's fault.
pub open spec fn serve_create(
    store: StoreView,
    payload: PostPayloadView,
    file_name: Seq<char>,
    today: Seq<char>,
) -> (StoreView, Status) {
    match payload.entry() {
        Ok(entry) => {
            let (after, outcome) = store.create(entry, file_name, today);
            (after, outcome_status(outcome))
        },
        Err(error) => (store, error.status_of()),
    }
}

/// Whether `after` and `status` are what [`serve_create`] gives, with the
/// image, if one is to be written, named by some identifier of the right
/// shape.
pub open spec fn serves_create(
    store: StoreView,
    payload: PostPayloadView,
    today: Seq<char>,
    after: StoreView,
    status: Status,
) -> bool {
    if payload.entry() is Ok && payload.image_data is Some {
        exists|blob_id: Seq<char>|
            is_blob_id(blob_id) && (after, status) == serve_create(
                store,
                payload,
                #[trigger] image_file_name(blob_id),
                today,
            )
    } else {
        (after, status) == serve_create(store, payload, Seq::empty(), today)
    }
}

/// Serves a request to create a post on the day `today`.
pub fn handle_create(store: &mut PostStore, payload: PostPayload, today: &str) -> (status: Status)
    ensures
        serves_create(old(store)@, payload@, today@, final(store)@, status),
        old(store)@.consistent() ==> final(store)@.consistent(),
{
    match parse_payload(payload) {
        Ok(entry) => {
            let outcome = store.create(entry, today);
            create_status(&outcome)
        },
        Err(error) => error.status(),
    }
}

/// The answer to a request for the posts, given what was read from the
/// storage: the posts as they were read, or no posts and the server's fault.
pub fn list_response(read: Result<Vec<Post>, BlogError>) -> (response: (Status, Vec<Post>))
    ensures
        match read {
            Ok(posts) => response == (Status::Success, posts),
            Err(error) => response.0 == error.status_of() && response.1@.len() == 0,
        },
{
    match read {
        Ok(posts) => (Status::Success, posts),
        Err(error) => (error.status(), Vec::new()),
    }
}

/// The answer to a request for an image, given what was found under its
/// name: the bytes, or nothing and the status for what is not there.
pub fn image_response(found: Option<Vec<u8>>) -> (response: (Status, Vec<u8>))
    ensures
        match found {
            Some(data) => response == (Status::Success, data),
            None => response.0 == Status::NotFound && response.1@.len() == 0,
        },
{
    match found {
        Some(data) => (Status::Success, data),
        None => (Status::NotFound, Vec::new()),
    }
}

/// Serves a request for the posts: all of them, most recent first.
pub fn handle_list(store: &PostStore) -> (response: (Status, Vec<Post>))
    ensures
        response.0 == Status::Success,
        post_views(response.1@) == store@.list(),
{
    list_response(Ok(store.list()))
}

/// Serves a request for the image stored as `name`.
pub fn handle_image(store: &PostStore, name: &str) -> (response: (Status, Vec<u8>))
    ensures
        match store@.image(name@) {
            Some(data) => response.0 == Status::Success && response.1@ == data,
            None => response.0 == Status::NotFound && response.1@.len() == 0,
        },
{
    image_response(store.image(name))
}

} // verus!
