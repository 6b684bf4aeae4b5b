//! The steps of creating a post.
//!
//! Creating a post takes up to two operations on the backing storage: the
//! image, if there is one, is written first, and only then is the record
//! inserted that refers to it. This module decides which operation comes
//! next and what the outcome is; whoever owns the storage carries the
//! operations out and reports how each one ended.

use vstd::prelude::*;
use crate::error::BlogError;
use crate::image::{image_file_for, image_file_name, is_blob_id, random_blob_id};
use crate::post::{text_of, Post, PostEntry, PostEntryView, PostView};

verus! {

/// Where the creation of a post stands. The first two states name the
/// operation that the storage is to carry out next; the last two are final.
#[derive(Debug, Clone, PartialEq)]
pub enum CreateState {
    /// The image `data` is to be written under `file_name`.
    WritingImage { title: String, post_body: String, file_name: String, data: Vec<u8> },
    /// The record is to be inserted.
    Inserting { title: String, post_body: String, image_file: Option<String> },
    /// The post was created.
    Done(Post),
    /// Nothing was created.
    Failed(BlogError),
}

/// How an operation on the backing storage ended.
#[derive(Debug, Clone, PartialEq)]
pub enum StoreEvent {
    ImageWritten,
    ImageWriteFailed,
    /// The record was inserted under `id`, dated `created_time`.
    RecordInserted { id: u32, created_time: String },
    InsertFailed,
}

/// The mathematical value of a [`CreateState`].
pub enum CreateStateView {
    WritingImage { title: Seq<char>, post_body: Seq<char>, file_name: Seq<char>, data: Seq<u8> },
    Inserting { title: Seq<char>, post_body: Seq<char>, image_file: Option<Seq<char>> },
    Done(PostView),
    Failed(BlogError),
}

/// The mathematical value of a [`StoreEvent`].
pub enum StoreEventView {
    ImageWritten,
    ImageWriteFailed,
    RecordInserted { id: nat, created_time: Seq<char> },
    InsertFailed,
}

impl View for CreateState {
    type V = CreateStateView;

    open spec fn view(&self) -> CreateStateView {
        match self {
            CreateState::WritingImage { title, post_body, file_name, data } => {
                CreateStateView::WritingImage {
                    title: title@,
                    post_body: post_body@,
                    file_name: file_name@,
                    data: data@,
                }
            },
            CreateState::Inserting { title, post_body, image_file } => CreateStateView::Inserting {
                title: title@,
                post_body: post_body@,
                image_file: text_of(*image_file),
            },
            CreateState::Done(post) => CreateStateView::Done(post@),
            CreateState::Failed(error) => CreateStateView::Failed(*error),
        }
    }
}

impl View for StoreEvent {
    type V = StoreEventView;

    open spec fn view(&self) -> StoreEventView {
        match self {
            StoreEvent::ImageWritten => StoreEventView::ImageWritten,
            StoreEvent::ImageWriteFailed => StoreEventView::ImageWriteFailed,
            StoreEvent::RecordInserted { id, created_time } => StoreEventView::RecordInserted {
                id: *id as nat,
                created_time: created_time@,
            },
            StoreEvent::InsertFailed => StoreEventView::InsertFailed,
        }
    }
}

impl CreateStateView {
    /// Whether nothing remains to be done.
    pub open spec fn is_final(self) -> bool {
        self is Done || self is Failed
    }
}

/// The state in which the creation of `entry` begins, if its image is to be
/// stored under `file_name`: a request that is not acceptable fails at once,
/// one with an image has the image written first, and one without goes
/// straight to the record.
pub open spec fn begin_spec(entry: PostEntryView, file_name: Seq<char>) -> CreateStateView {
    if !entry.acceptable() {
        CreateStateView::Failed(BlogError::MalformedRequest)
    } else {
        match entry.image_data {
            Some(data) => CreateStateView::WritingImage {
                title: entry.title,
                post_body: entry.post_body,
                file_name,
                data,
            },
            None => CreateStateView::Inserting {
                title: entry.title,
                post_body: entry.post_body,
                image_file: None,
            },
        }
    }
}

/// The state that follows `state` once the storage has reported `event`.
///
/// A written image is followed by the record that names it; an image that
/// could not be written ends the creation, and no record is inserted. An
/// inserted record completes the post with the identifier and date that the
/// storage gave it; a failed insertion ends the creation. A report that does
/// not answer the pending operation changes nothing.
pub open spec fn advance_spec(state: CreateStateView, event: StoreEventView) -> CreateStateView {
    match (state, event) {
        (
            CreateStateView::WritingImage { title, post_body, file_name, data },
            StoreEventView::ImageWritten,
        ) => CreateStateView::Inserting { title, post_body, image_file: Some(file_name) },
        (CreateStateView::WritingImage { .. }, StoreEventView::ImageWriteFailed) => {
            CreateStateView::Failed(BlogError::ImagePersistError)
        },
        (
            CreateStateView::Inserting { title, post_body, image_file },
            StoreEventView::RecordInserted { id, created_time },
        ) => CreateStateView::Done(PostView { id, title, post_body, image_file, created_time }),
        (CreateStateView::Inserting { .. }, StoreEventView::InsertFailed) => {
            CreateStateView::Failed(BlogError::StorageWriteError)
        },
        _ => state,
    }
}

/// Begins the creation of `entry`, storing its image, if it has one, under
/// the identifier `blob_id`.
pub fn begin_create_named(entry: PostEntry, blob_id: String) -> (state: CreateState)
    ensures
        state@ == begin_spec(entry@, image_file_name(blob_id@)),
{
    if !entry.is_acceptable() {
        return CreateState::Failed(BlogError::MalformedRequest);
    }
    match entry.image_data {
        Some(data) => CreateState::WritingImage {
            title: entry.title,
            post_body: entry.post_body,
            file_name: image_file_for(blob_id),
            data,
        },
        None => CreateState::Inserting {
            title: entry.title,
            post_body: entry.post_body,
            image_file: None,
        },
    }
}

/// Whether `state` is a state in which the creation of `entry` may begin: the
/// one that [`begin_spec`] gives, with the image, if one is to be written,
/// named by some identifier of the right shape.
pub open spec fn begins(entry: PostEntryView, state: CreateStateView) -> bool {
    if entry.acceptable() && entry.image_data is Some {
        exists|blob_id: Seq<char>|
            is_blob_id(blob_id) && state == begin_spec(entry, #[trigger] image_file_name(blob_id))
    } else {
        state == begin_spec(entry, Seq::empty())
    }
}

/// Begins the creation of `entry`. A request that is acceptable and has an
/// image gets a freshly drawn identifier for it; no other request draws one.
pub fn begin_create(entry: PostEntry) -> (state: CreateState)
    ensures
        begins(entry@, state@),
{
    if entry.is_acceptable() && entry.image_data.is_some() {
        let blob_id = random_blob_id();
        begin_create_named(entry, blob_id)
    } else {
        begin_create_named(entry, String::new())
    }
}

/// Moves the creation on by one report of the storage.
pub fn advance(state: CreateState, event: StoreEvent) -> (next: CreateState)
    ensures
        next@ == advance_spec(state@, event@),
{
    match state {
        CreateState::WritingImage { title, post_body, file_name, data } => match event {
            StoreEvent::ImageWritten => CreateState::Inserting {
                title,
                post_body,
                image_file: Some(file_name),
            },
            StoreEvent::ImageWriteFailed => CreateState::Failed(BlogError::ImagePersistError),
            _ => CreateState::WritingImage { title, post_body, file_name, data },
        },
        CreateState::Inserting { title, post_body, image_file } => match event {
            StoreEvent::RecordInserted { id, created_time } => CreateState::Done(
                Post { id, title, post_body, image_file, created_time },
            ),
            StoreEvent::InsertFailed => CreateState::Failed(BlogError::StorageWriteError),
            _ => CreateState::Inserting { title, post_body, image_file },
        },
        CreateState::Done(post) => CreateState::Done(post),
        CreateState::Failed(error) => CreateState::Failed(error),
    }
}

/// A record that refers to an image is reached only by the report that this
/// image was written: no record is ever inserted ahead of its image.
pub proof fn lemma_image_precedes_record(state: CreateStateView, event: StoreEventView)
    requires
        !(state is Inserting),
        advance_spec(state, event) matches CreateStateView::Inserting { image_file: Some(_), .. },
    ensures
        event is ImageWritten,
        state matches CreateStateView::WritingImage { file_name, .. } && advance_spec(
            state,
            event,
        )->Inserting_image_file == Some(file_name),
{
}

/// A post is completed only by the report that its record was inserted, and
/// a report of failure completes none.
pub proof fn lemma_only_an_insertion_completes(state: CreateStateView, event: StoreEventView)
    requires
        !(state is Done),
        advance_spec(state, event) is Done,
    ensures
        state is Inserting,
        event is RecordInserted,
{
}

/// A creation that has ended stays as it ended, whatever is reported.
pub proof fn lemma_final_states_stay(state: CreateStateView, event: StoreEventView)
    requires
        state.is_final(),
    ensures
        advance_spec(state, event) == state,
{
}

/// The state after the reports `events` have come in, one after the other.
pub open spec fn advance_all(state: CreateStateView, events: Seq<StoreEventView>) -> CreateStateView
    decreases events.len(),
{
    if events.len() == 0 {
        state
    } else {
        advance_spec(advance_all(state, events.drop_last()), events.last())
    }
}

/// The reference to its image that a post created from `entry` holds, if the
/// image is stored under `file_name`.
pub open spec fn image_ref(entry: PostEntryView, file_name: Seq<char>) -> Option<Seq<char>> {
    if entry.image_data is Some {
        Some(file_name)
    } else {
        None
    }
}

/// Whether `state` can come up while `entry` is being created with
/// `file_name` at hand for its image.
pub open spec fn on_track(
    entry: PostEntryView,
    file_name: Seq<char>,
    state: CreateStateView,
) -> bool {
    match state {
        CreateStateView::WritingImage { .. } => state == begin_spec(entry, file_name)
            && entry.acceptable() && entry.image_data is Some,
        CreateStateView::Inserting { title, post_body, image_file } => {
            &&& entry.acceptable()
            &&& title == entry.title
            &&& post_body == entry.post_body
            &&& image_file == image_ref(entry, file_name)
        },
        CreateStateView::Done(post) => {
            &&& entry.acceptable()
            &&& post.title == entry.title
            &&& post.post_body == entry.post_body
            &&& post.image_file == image_ref(entry, file_name)
        },
        CreateStateView::Failed(error) => match error {
            BlogError::MalformedRequest => !entry.acceptable(),
            BlogError::ImagePersistError => entry.acceptable() && entry.image_data is Some,
            BlogError::StorageWriteError => entry.acceptable(),
            _ => false,
        },
    }
}

/// Whatever the storage reports, and in whatever order, the creation of
/// `entry` stays on track. So a post that is completed has the texts of the
/// request and refers to its image exactly if the request had one; a
/// request that is not acceptable fails as malformed before any operation
/// is asked for, and no other request fails so; and a creation fails only
/// as malformed, on its image, or on its record.
pub proof fn lemma_every_run_stays_on_track(
    entry: PostEntryView,
    file_name: Seq<char>,
    events: Seq<StoreEventView>,
)
    ensures
        on_track(entry, file_name, advance_all(begin_spec(entry, file_name), events)),
        !entry.acceptable() ==> advance_all(begin_spec(entry, file_name), events)
            == CreateStateView::Failed(BlogError::MalformedRequest),
    decreases events.len(),
{
    if events.len() > 0 {
        lemma_every_run_stays_on_track(entry, file_name, events.drop_last());
    }
}

} // verus!
