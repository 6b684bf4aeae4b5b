//! A post store that lives in memory.
//!
//! The store keeps the records in the order in which they were inserted and
//! the images under their file names. It hands out identifiers in increasing
//! order and never twice, refuses to overwrite an image, and refuses a record
//! whose image it does not hold, so that every post it lists can be shown
//! with its image.

use vstd::prelude::*;
use crate::create::{
    advance, advance_spec, begin_create, begin_create_named, begin_spec, CreateState,
    CreateStateView, StoreEvent, StoreEventView,
};
use crate::error::BlogError;
use crate::image::{image_file_name, is_blob_id};
use crate::post::{copy_text, text_of, Post, PostEntry, PostEntryView, PostView};

verus! {

/// An image and the file name under which it is stored.
struct StoredImage {
    name: String,
    data: Vec<u8>,
}

/// The posts and images of a blog.
pub struct PostStore {
    posts: Vec<Post>,
    images: Vec<StoredImage>,
    last_id: u32,
}

/// The mathematical value of a [`PostStore`].
pub struct StoreView {
    /// The posts, oldest first.
    pub posts: Seq<PostView>,
    /// The stored images by file name.
    pub images: Map<Seq<char>, Seq<u8>>,
    /// The identifier that was handed out last, or 0 if none was.
    pub last_id: nat,
}

/// The values of a sequence of posts.
pub open spec fn post_views(posts: Seq<Post>) -> Seq<PostView> {
    posts.map_values(|p: Post| p@)
}

/// The images of a sequence of stored images by name. Of two images with
/// the same name the later one counts.
spec fn image_map(images: Seq<StoredImage>) -> Map<Seq<char>, Seq<u8>>
    decreases images.len(),
{
    if images.len() == 0 {
        Map::empty()
    } else {
        image_map(images.drop_last()).insert(images.last().name@, images.last().data@)
    }
}

/// The largest identifier that a post can have.
pub open spec fn max_id() -> nat {
    u32::MAX as nat
}

/// The result of creating a post, as a value.
pub open spec fn result_view(result: Result<Post, BlogError>) -> Result<PostView, BlogError> {
    match result {
        Ok(post) => Ok(post@),
        Err(error) => Err(error),
    }
}

impl StoreView {
    /// The store that holds nothing and has handed out no identifier.
    pub open spec fn empty() -> StoreView {
        StoreView { posts: Seq::empty(), images: Map::empty(), last_id: 0 }
    }

    /// What holds of every store: identifiers are positive, were all handed
    /// out, and increase strictly from each post to the next; no post has an
    /// empty title or body; and every image that a post refers to is stored.
    pub open spec fn consistent(self) -> bool {
        &&& self.last_id <= max_id()
        &&& forall|i: int|
            0 <= i < self.posts.len() ==> 1 <= (#[trigger] self.posts[i]).id <= self.last_id
        &&& forall|i: int, j: int|
            0 <= i < j < self.posts.len() ==> (#[trigger] self.posts[i]).id < (
            #[trigger] self.posts[j]).id
        &&& forall|i: int|
            0 <= i < self.posts.len() ==> (#[trigger] self.posts[i]).title.len() > 0
                && self.posts[i].post_body.len() > 0
        &&& forall|i: int|
            0 <= i < self.posts.len() ==> ((#[trigger] self.posts[i]).image_file matches Some(name)
                ==> self.images.dom().contains(name))
    }

    /// The posts, most recent first.
    pub open spec fn list(self) -> Seq<PostView> {
        self.posts.reverse()
    }

    /// The bytes of the image stored as `name`, if there is one.
    pub open spec fn image(self, name: Seq<char>) -> Option<Seq<u8>> {
        if self.images.dom().contains(name) {
            Some(self.images[name])
        } else {
            None
        }
    }

    /// Whether an image can be written as `name`: the name is not taken.
    pub open spec fn can_write_image(self, name: Seq<char>) -> bool {
        !self.images.dom().contains(name)
    }

    /// The store after `data` has been written as `name`.
    pub open spec fn with_image(self, name: Seq<char>, data: Seq<u8>) -> StoreView {
        StoreView { images: self.images.insert(name, data), ..self }
    }

    /// Whether a record can be inserted: both texts are present, an
    /// identifier is left, and the image that it refers to is stored.
    pub open spec fn can_insert(
        self,
        title: Seq<char>,
        post_body: Seq<char>,
        image_file: Option<Seq<char>>,
    ) -> bool {
        &&& title.len() > 0
        &&& post_body.len() > 0
        &&& self.last_id < max_id()
        &&& (image_file matches Some(name) ==> self.images.dom().contains(name))
    }

    /// The post that the next insertion creates.
    pub open spec fn next_post(
        self,
        title: Seq<char>,
        post_body: Seq<char>,
        image_file: Option<Seq<char>>,
        today: Seq<char>,
    ) -> PostView {
        PostView { id: self.last_id + 1, title, post_body, image_file, created_time: today }
    }

    /// The store after `post` has been inserted as its most recent post.
    pub open spec fn with_post(self, post: PostView) -> StoreView {
        StoreView { posts: self.posts.push(post), last_id: post.id, ..self }
    }

    /// The store after the image `data` has been offered as `name`, and the
    /// report on it: a name that is taken is refused, and the image stored
    /// under it stays as it is.
    pub open spec fn write_image(self, name: Seq<char>, data: Seq<u8>) -> (
        StoreView,
        StoreEventView,
    ) {
        if self.can_write_image(name) {
            (self.with_image(name, data), StoreEventView::ImageWritten)
        } else {
            (self, StoreEventView::ImageWriteFailed)
        }
    }

    /// The store after a record has been offered on the day `today`, and the
    /// report on it.
    pub open spec fn insert_record(
        self,
        title: Seq<char>,
        post_body: Seq<char>,
        image_file: Option<Seq<char>>,
        today: Seq<char>,
    ) -> (StoreView, StoreEventView) {
        if self.can_insert(title, post_body, image_file) {
            let post = self.next_post(title, post_body, image_file, today);
            (
                self.with_post(post),
                StoreEventView::RecordInserted { id: post.id, created_time: today },
            )
        } else {
            (self, StoreEventView::InsertFailed)
        }
    }

    /// The store after `entry` has been offered on the day `today`, with
    /// `file_name` at hand for its image, and the outcome.
    ///
    /// A request that is not acceptable is refused and changes nothing. An
    /// image is written before the record; if its name is taken, nothing is
    /// written and no record is inserted. If no identifier is left, no record
    /// is inserted, and an image that was written stays behind unreferenced.
    /// Otherwise the post is inserted under the next identifier, dated
    /// `today`, and returned.
    pub open spec fn create(self, entry: PostEntryView, file_name: Seq<char>, today: Seq<char>) -> (
        StoreView,
        Result<PostView, BlogError>,
    ) {
        if !entry.acceptable() {
            (self, Err(BlogError::MalformedRequest))
        } else if entry.image_data is Some && !self.can_write_image(file_name) {
            (self, Err(BlogError::ImagePersistError))
        } else {
            let (written, image_file) = match entry.image_data {
                Some(data) => (self.with_image(file_name, data), Some(file_name)),
                None => (self, None),
            };
            if self.last_id >= max_id() {
                (written, Err(BlogError::StorageWriteError))
            } else {
                let post = written.next_post(entry.title, entry.post_body, image_file, today);
                (written.with_post(post), Ok(post))
            }
        }
    }

    /// Whether `after` and `outcome` are what [`StoreView::create`] gives for
    /// `entry` on the day `today`, with the image, if one is to be written,
    /// named by some identifier of the right shape.
    pub open spec fn creates(
        self,
        entry: PostEntryView,
        today: Seq<char>,
        after: StoreView,
        outcome: Result<PostView, BlogError>,
    ) -> bool {
        if entry.acceptable() && entry.image_data is Some {
            exists|blob_id: Seq<char>|
                is_blob_id(blob_id) && (after, outcome) == self.create(
                    entry,
                    #[trigger] image_file_name(blob_id),
                    today,
                )
        } else {
            (after, outcome) == self.create(entry, Seq::empty(), today)
        }
    }

    /// The store and the state of a creation after the operation that `state`
    /// names has been carried out and reported. A final state names none.
    pub open spec fn step(self, state: CreateStateView, today: Seq<char>) -> (
        StoreView,
        CreateStateView,
    ) {
        match state {
            CreateStateView::WritingImage { file_name, data, .. } => {
                let (store, event) = self.write_image(file_name, data);
                (store, advance_spec(state, event))
            },
            CreateStateView::Inserting { title, post_body, image_file } => {
                let (store, event) = self.insert_record(title, post_body, image_file, today);
                (store, advance_spec(state, event))
            },
            _ => (self, state),
        }
    }

    /// The store after the creation in `state` has been carried through, and
    /// its outcome. Two steps end every creation.
    pub open spec fn settle(self, state: CreateStateView, today: Seq<char>) -> (
        StoreView,
        Result<PostView, BlogError>,
    ) {
        let (store, state) = self.step(state, today);
        let (store, state) = store.step(state, today);
        (
            store,
            match state {
                CreateStateView::Done(post) => Ok(post),
                CreateStateView::Failed(error) => Err(error),
                _ => arbitrary(),
            },
        )
    }
}

impl View for PostStore {
    type V = StoreView;

    closed spec fn view(&self) -> StoreView {
        StoreView {
            posts: post_views(self.posts@),
            images: image_map(self.images@),
            last_id: self.last_id as nat,
        }
    }
}

impl PostStore {
    /// A store that holds nothing. Its first post gets the identifier 1.
    pub fn new() -> (store: PostStore)
        ensures
            store@ == StoreView::empty(),
            store@.consistent(),
    {
        PostStore::starting_after(0)
    }

    /// A store that holds nothing and takes over from one that handed out
    /// `last_id` last: identifiers are never used again, so its first post
    /// gets the identifier after that.
    pub fn starting_after(last_id: u32) -> (store: PostStore)
        ensures
            store@ == (StoreView { last_id: last_id as nat, ..StoreView::empty() }),
            store@.consistent(),
    {
        let store = PostStore { posts: Vec::new(), images: Vec::new(), last_id };
        assert(store@.posts =~= Seq::empty());
        store
    }

    /// The position of the image stored as `name`.
    fn find_image(&self, name: &String) -> (found: Option<usize>)
        ensures
            match found {
                Some(i) => i < self.images@.len() && self@.image(name@) == Some(
                    self.images@[i as int].data@,
                ),
                None => self@.image(name@) is None,
            },
    {
        let mut i = self.images.len();
        assert(self.images@.take(i as int) == self.images@);
        while i > 0
            invariant
                i <= self.images@.len(),
                image_map(self.images@).dom().contains(name@) <==> image_map(
                    self.images@.take(i as int),
                ).dom().contains(name@),
                image_map(self.images@).dom().contains(name@) ==> image_map(self.images@)[name@]
                    == image_map(self.images@.take(i as int))[name@],
            decreases i,
        {
            proof {
                let upto = self.images@.take(i as int);
                assert(upto.drop_last() == self.images@.take(i - 1));
                assert(upto.last() == self.images@[i - 1]);
            }
            i = i - 1;
            if self.images[i].name == *name {
                return Some(i);
            }
        }
        assert(self.images@.take(0).len() == 0);
        None
    }

    /// The posts, most recent first.
    pub fn list(&self) -> (posts: Vec<Post>)
        ensures
            post_views(posts@) == self@.list(),
    {
        let mut posts: Vec<Post> = Vec::new();
        let mut i = self.posts.len();
        while i > 0
            invariant
                i <= self.posts@.len(),
                posts@.len() == self.posts@.len() - i,
                forall|k: int|
                    0 <= k < posts@.len() ==> (#[trigger] posts@[k])@
                        == self.posts@[self.posts@.len() - 1 - k]@,
            decreases i,
        {
            i = i - 1;
            posts.push(self.posts[i].duplicate());
        }
        assert(post_views(posts@) =~= self@.list());
        posts
    }

    /// The bytes of the image stored as `name`, if there is one.
    pub fn image(&self, name: &str) -> (data: Option<Vec<u8>>)
        ensures
            crate::post::bytes_of(data) == self@.image(name@),
    {
        let wanted = name.to_owned();
        match self.find_image(&wanted) {
            Some(i) => Some(self.images[i].data.clone()),
            None => None,
        }
    }

    /// Stores the image `data` as `name` and reports how that ended.
    pub fn write_image(&mut self, name: &str, data: &Vec<u8>) -> (event: StoreEvent)
        ensures
            (final(self)@, event@) == old(self)@.write_image(name@, data@),
            old(self)@.consistent() ==> final(self)@.consistent(),
    {
        let name = name.to_owned();
        if self.find_image(&name).is_some() {
            return StoreEvent::ImageWriteFailed;
        }
        let ghost before = self.images@;
        let image = StoredImage { name, data: data.clone() };
        self.images.push(image);
        proof {
            assert(self.images@.drop_last() == before);
            assert(self@.images == old(self)@.images.insert(name@, data@));
        }
        StoreEvent::ImageWritten
    }

    /// Inserts a record dated `today` and reports how that ended.
    pub fn insert_record(
        &mut self,
        title: &str,
        post_body: &str,
        image_file: &Option<String>,
        today: &str,
    ) -> (event: StoreEvent)
        ensures
            (final(self)@, event@) == old(self)@.insert_record(
                title@,
                post_body@,
                text_of(*image_file),
                today@,
            ),
            old(self)@.consistent() ==> final(self)@.consistent(),
    {
        if title.is_empty() || post_body.is_empty() || self.last_id == u32::MAX {
            return StoreEvent::InsertFailed;
        }
        let image_known = match image_file {
            Some(name) => self.find_image(name).is_some(),
            None => true,
        };
        if !image_known {
            return StoreEvent::InsertFailed;
        }
        let id = self.last_id + 1;
        let post = Post {
            id,
            title: title.to_owned(),
            post_body: post_body.to_owned(),
            image_file: copy_text(image_file),
            created_time: today.to_owned(),
        };
        let ghost before = self.posts@;
        self.last_id = id;
        self.posts.push(post);
        proof {
            assert(post_views(self.posts@) =~= post_views(before).push(post@));
        }
        StoreEvent::RecordInserted { id, created_time: today.to_owned() }
    }

    /// Carries out the operation that `state` names, if it names one, and
    /// moves the creation on by the report.
    fn step(&mut self, state: CreateState, today: &str) -> (next: CreateState)
        ensures
            (final(self)@, next@) == old(self)@.step(state@, today@),
            old(self)@.consistent() ==> final(self)@.consistent(),
    {
        let event = match &state {
            CreateState::WritingImage { file_name, data, .. } => Some(
                self.write_image(file_name.as_str(), data),
            ),
            CreateState::Inserting { title, post_body, image_file } => Some(
                self.insert_record(title.as_str(), post_body.as_str(), image_file, today),
            ),
            _ => None,
        };
        match event {
            Some(event) => advance(state, event),
            None => state,
        }
    }

    /// Creates a post from `entry`, dated `today`, storing its image, if it
    /// has one, under the identifier `blob_id`.
    pub fn create_named(&mut self, entry: PostEntry, blob_id: String, today: &str) -> (result:
        Result<Post, BlogError>)
        ensures
            (final(self)@, result_view(result)) == old(self)@.create(
                entry@,
                image_file_name(blob_id@),
                today@,
            ),
            old(self)@.consistent() ==> final(self)@.consistent(),
    {
        let state = begin_create_named(entry, blob_id);
        self.settle(state, today)
    }

    /// Creates a post from `entry`, dated `today`. An image is stored under a
    /// freshly drawn identifier.
    pub fn create(&mut self, entry: PostEntry, today: &str) -> (result: Result<Post, BlogError>)
        ensures
            old(self)@.creates(entry@, today@, final(self)@, result_view(result)),
            old(self)@.consistent() ==> final(self)@.consistent(),
    {
        let state = begin_create(entry);
        self.settle(state, today)
    }

    /// Carries a creation through to its end.
    fn settle(&mut self, state: CreateState, today: &str) -> (result: Result<Post, BlogError>)
        ensures
            (final(self)@, result_view(result)) == old(self)@.settle(state@, today@),
            old(self)@.consistent() ==> final(self)@.consistent(),
    {
        let state = self.step(state, today);
        let state = self.step(state, today);
        match state {
            CreateState::Done(post) => Ok(post),
            CreateState::Failed(error) => Err(error),
            _ => vstd::pervasive::unreached(),
        }
    }
}

} // verus!
