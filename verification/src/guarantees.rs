//! What the store guarantees, whatever it is asked to do.
//!
//! The statements here are about the mathematical value of a store. The
//! operations of [`crate::store::PostStore`] change that value exactly as the
//! functions of [`StoreView`] say, so each statement holds of every store that
//! a program can reach.

use vstd::prelude::*;
use crate::create::{begin_spec, CreateStateView};
use crate::error::BlogError;
use crate::post::{PostEntryView, PostView};
use crate::store::{max_id, StoreView};

verus! {

/// One call of `create`: the request, the file name at hand for its image,
/// and the day on which it is made.
pub struct CreateCall {
    pub entry: PostEntryView,
    pub file_name: Seq<char>,
    pub today: Seq<char>,
}

/// The store after the calls have been served one after the other. Calls of
/// concurrent clients are served in some order; this is the store for that
/// order.
pub open spec fn create_all(store: StoreView, calls: Seq<CreateCall>) -> StoreView
    decreases calls.len(),
{
    if calls.len() == 0 {
        store
    } else {
        let call = calls.last();
        create_all(store, calls.drop_last()).create(call.entry, call.file_name, call.today).0
    }
}

/// The posts that the calls created, in the order in which they were served.
/// A call that failed created none.
pub open spec fn created_posts(store: StoreView, calls: Seq<CreateCall>) -> Seq<PostView>
    decreases calls.len(),
{
    if calls.len() == 0 {
        Seq::empty()
    } else {
        let call = calls.last();
        let earlier = created_posts(store, calls.drop_last());
        let before = create_all(store, calls.drop_last());
        match before.create(call.entry, call.file_name, call.today).1 {
            Ok(post) => earlier.push(post),
            Err(_) => earlier,
        }
    }
}

/// Whether every one of the calls succeeded.
pub open spec fn all_succeed(store: StoreView, calls: Seq<CreateCall>) -> bool
    decreases calls.len(),
{
    calls.len() > 0 ==> {
        let call = calls.last();
        let before = create_all(store, calls.drop_last());
        &&& all_succeed(store, calls.drop_last())
        &&& before.create(call.entry, call.file_name, call.today).1 is Ok
    }
}

/// The empty store is consistent.
pub proof fn lemma_empty_is_consistent()
    ensures
        StoreView::empty().consistent(),
{
}

/// Every operation keeps a consistent store consistent.
pub proof fn lemma_operations_keep_consistency(
    store: StoreView,
    entry: PostEntryView,
    file_name: Seq<char>,
    today: Seq<char>,
)
    requires
        store.consistent(),
    ensures
        forall|data: Seq<u8>| (#[trigger] store.write_image(file_name, data)).0.consistent(),
        forall|image_file: Option<Seq<char>>|
            (#[trigger] store.insert_record(
                entry.title,
                entry.post_body,
                image_file,
                today,
            )).0.consistent(),
        store.create(entry, file_name, today).0.consistent(),
{
}

/// Carrying the creation of `entry` through, operation by operation, from
/// the state in which it begins gives what [`StoreView::create`] says.
pub proof fn lemma_settle_is_create(
    store: StoreView,
    entry: PostEntryView,
    file_name: Seq<char>,
    today: Seq<char>,
)
    ensures
        store.settle(begin_spec(entry, file_name), today) == store.create(entry, file_name, today),
{
}

/// Two operations end every creation, whatever state it is in.
pub proof fn lemma_two_steps_end(store: StoreView, state: CreateStateView, today: Seq<char>)
    ensures
        store.step(state, today).0.step(store.step(state, today).1, today).1.is_final(),
{
}

/// A successful `create` returns a post that has the next identifier, the
/// texts of the request and the day of the call, and makes it the first post
/// of the list, ahead of all earlier posts, which stay as they were.
pub proof fn lemma_created_post_is_listed(
    store: StoreView,
    entry: PostEntryView,
    file_name: Seq<char>,
    today: Seq<char>,
)
    requires
        store.create(entry, file_name, today).1 is Ok,
    ensures
        ({
            let (after, result) = store.create(entry, file_name, today);
            let post = result->Ok_0;
            &&& post.id == store.last_id + 1
            &&& post.title == entry.title
            &&& post.post_body == entry.post_body
            &&& post.created_time == today
            &&& after.list() == seq![post] + store.list()
            &&& after.last_id == post.id
        }),
{
    let (after, result) = store.create(entry, file_name, today);
    assert(after.list() =~= seq![result->Ok_0] + store.list());
}

/// An acceptable request without an image succeeds as long as an identifier
/// is left. The post has no image and comes first in the list.
pub proof fn lemma_create_without_image(
    store: StoreView,
    entry: PostEntryView,
    file_name: Seq<char>,
    today: Seq<char>,
)
    requires
        entry.acceptable(),
        entry.image_data is None,
        store.last_id < max_id(),
    ensures
        ({
            let (after, result) = store.create(entry, file_name, today);
            &&& result is Ok
            &&& result->Ok_0.image_file is None
            &&& after.list().len() > 0
            &&& after.list()[0] == result->Ok_0
            &&& after.images == store.images
        }),
{
}

/// A post that was created with an image refers to it, and the image
/// retrieved under that reference is the submitted one, byte for byte.
pub proof fn lemma_create_with_image(
    store: StoreView,
    entry: PostEntryView,
    file_name: Seq<char>,
    today: Seq<char>,
)
    requires
        entry.image_data is Some,
        store.create(entry, file_name, today).1 is Ok,
    ensures
        ({
            let (after, result) = store.create(entry, file_name, today);
            &&& result->Ok_0.image_file == Some(file_name)
            &&& after.image(file_name) == entry.image_data
        }),
{
}

/// A request with an empty title or an empty body is refused as malformed,
/// and the store stays as it was: no post appears and no image is written.
pub proof fn lemma_malformed_request_changes_nothing(
    store: StoreView,
    entry: PostEntryView,
    file_name: Seq<char>,
    today: Seq<char>,
)
    requires
        entry.title.len() == 0 || entry.post_body.len() == 0,
    ensures
        store.create(entry, file_name, today) == (store, Err::<PostView, BlogError>(
            BlogError::MalformedRequest,
        )),
{
}

/// `create` fails with exactly these errors: a request that is not
/// acceptable is malformed; an acceptable one whose image name is taken
/// fails to persist the image; and one for which no identifier is left
/// fails to write. Every other request succeeds.
pub proof fn lemma_create_errors(
    store: StoreView,
    entry: PostEntryView,
    file_name: Seq<char>,
    today: Seq<char>,
)
    ensures
        ({
            let result = store.create(entry, file_name, today).1;
            let name_taken = entry.image_data is Some && store.images.dom().contains(file_name);
            &&& result == Err::<PostView, BlogError>(BlogError::MalformedRequest)
                <==> !entry.acceptable()
            &&& result == Err::<PostView, BlogError>(BlogError::ImagePersistError) <==> (
            entry.acceptable() && name_taken)
            &&& result == Err::<PostView, BlogError>(BlogError::StorageWriteError) <==> (
            entry.acceptable() && !name_taken && store.last_id >= max_id())
            &&& result is Ok <==> (entry.acceptable() && !name_taken && store.last_id < max_id())
        }),
{
}

/// A `create` that fails shows no post: the list stays as it was. Unless
/// the failure was the record's, after the image had been written, the
/// images stay as they were too; and an image that was left behind is one
/// that no listed post refers to.
pub proof fn lemma_failed_create_shows_nothing(
    store: StoreView,
    entry: PostEntryView,
    file_name: Seq<char>,
    today: Seq<char>,
)
    requires
        store.consistent(),
        store.create(entry, file_name, today).1 is Err,
    ensures
        ({
            let (after, result) = store.create(entry, file_name, today);
            &&& after.posts == store.posts
            &&& after.list() == store.list()
            &&& after.last_id == store.last_id
            &&& result->Err_0 != BlogError::StorageWriteError ==> after == store
            &&& after != store ==> forall|i: int|
                0 <= i < after.posts.len() ==> (#[trigger] after.posts[i]).image_file != Some(
                    file_name,
                )
        }),
{
    let (after, result) = store.create(entry, file_name, today);
    if after != store {
        assert(!store.images.dom().contains(file_name));
    }
}

/// Whether `after` holds all that `before` holds, unchanged: the posts of
/// `before` in their places, and its images under their names.
pub open spec fn keeps(before: StoreView, after: StoreView) -> bool {
    &&& before.posts.len() <= after.posts.len()
    &&& after.posts.take(before.posts.len() as int) == before.posts
    &&& forall|name: Seq<char>| #[trigger]
        before.images.dom().contains(name) ==> after.image(name) == before.image(name)
    &&& before.last_id <= after.last_id
}

/// No operation changes a post or an image that the store holds, or hands
/// out an identifier again: what is stored stays as it is.
pub proof fn lemma_operations_keep_what_is_stored(
    store: StoreView,
    entry: PostEntryView,
    file_name: Seq<char>,
    today: Seq<char>,
)
    ensures
        forall|data: Seq<u8>| keeps(store, (#[trigger] store.write_image(file_name, data)).0),
        forall|image_file: Option<Seq<char>>|
            keeps(
                store,
                (#[trigger] store.insert_record(entry.title, entry.post_body, image_file, today)).0,
            ),
        keeps(store, store.create(entry, file_name, today).0),
{
    assert forall|data: Seq<u8>| keeps(
        store,
        (#[trigger] store.write_image(file_name, data)).0,
    ) by {
        let after = store.write_image(file_name, data).0;
        assert(after.posts.take(store.posts.len() as int) =~= store.posts);
    }
    assert forall|image_file: Option<Seq<char>>|
        keeps(
            store,
            (#[trigger] store.insert_record(entry.title, entry.post_body, image_file, today)).0,
        ) by {
        let after = store.insert_record(entry.title, entry.post_body, image_file, today).0;
        assert(after.posts.take(store.posts.len() as int) =~= store.posts);
    }
    let after = store.create(entry, file_name, today).0;
    assert(after.posts.take(store.posts.len() as int) =~= store.posts);
}

/// The list of a consistent store is in strictly descending order of
/// identifier, and holds every post of the store exactly once.
pub proof fn lemma_list_is_descending(store: StoreView)
    requires
        store.consistent(),
    ensures
        store.list().len() == store.posts.len(),
        forall|i: int, j: int|
            0 <= i < j < store.list().len() ==> (#[trigger] store.list()[i]).id > (
            #[trigger] store.list()[j]).id,
        forall|i: int|
            0 <= i < store.posts.len() ==> store.list()[store.posts.len() - 1 - i]
                == #[trigger] store.posts[i],
{
    let list = store.list();
    assert forall|i: int, j: int| 0 <= i < j < list.len() implies (#[trigger] list[i]).id > (
    #[trigger] list[j]).id by {
        let n = store.posts.len();
        assert(list[i] == store.posts[n - 1 - i]);
        assert(list[j] == store.posts[n - 1 - j]);
    }
}

/// Serving any calls one after the other keeps a consistent store
/// consistent, and adds exactly the posts that the calls created, in the
/// order in which they were served, after the posts that were there.
pub proof fn lemma_create_all_adds_created(store: StoreView, calls: Seq<CreateCall>)
    requires
        store.consistent(),
    ensures
        create_all(store, calls).consistent(),
        create_all(store, calls).posts == store.posts + created_posts(store, calls),
        create_all(store, calls).list() == created_posts(store, calls).reverse() + store.list(),
        create_all(store, calls).last_id == store.last_id + created_posts(store, calls).len(),
        created_posts(store, calls).len() <= calls.len(),
    decreases calls.len(),
{
    if calls.len() > 0 {
        let call = calls.last();
        let before = create_all(store, calls.drop_last());
        lemma_create_all_adds_created(store, calls.drop_last());
        let (after, result) = before.create(call.entry, call.file_name, call.today);
        assert(after.posts =~= store.posts + created_posts(store, calls));
    }
    assert(create_all(store, calls).list() =~= created_posts(store, calls).reverse()
        + store.list());
}

/// Whatever calls are served, what the store held before stays as it was:
/// a post that was listed stays listed unchanged, and an image that could be
/// retrieved is retrieved again, byte for byte.
pub proof fn lemma_create_all_keeps_what_is_stored(store: StoreView, calls: Seq<CreateCall>)
    ensures
        keeps(store, create_all(store, calls)),
    decreases calls.len(),
{
    if calls.len() == 0 {
        assert(store.posts.take(store.posts.len() as int) =~= store.posts);
    } else {
        let call = calls.last();
        let before = create_all(store, calls.drop_last());
        let after = create_all(store, calls);
        lemma_create_all_keeps_what_is_stored(store, calls.drop_last());
        lemma_operations_keep_what_is_stored(before, call.entry, call.file_name, call.today);
        assert(after.posts.take(store.posts.len() as int) =~= before.posts.take(
            store.posts.len() as int,
        ));
    }
}

/// The identifiers of the posts that any calls created are consecutive: the
/// first is the one after the last identifier handed out before, and each
/// next one is greater by one. There are no duplicates and no gaps.
pub proof fn lemma_created_ids_are_consecutive(store: StoreView, calls: Seq<CreateCall>)
    requires
        store.consistent(),
    ensures
        forall|k: int|
            0 <= k < created_posts(store, calls).len() ==> (#[trigger] created_posts(
                store,
                calls,
            )[k]).id == store.last_id + 1 + k,
    decreases calls.len(),
{
    if calls.len() > 0 {
        lemma_created_ids_are_consecutive(store, calls.drop_last());
        lemma_create_all_adds_created(store, calls.drop_last());
    }
}

/// If each of `calls.len()` calls succeeds, they create that many posts,
/// and the set of their identifiers is the range of that length that begins
/// after the last identifier handed out before.
pub proof fn lemma_successful_calls_fill_a_range(store: StoreView, calls: Seq<CreateCall>)
    requires
        store.consistent(),
        all_succeed(store, calls),
    ensures
        created_posts(store, calls).len() == calls.len(),
        created_posts(store, calls).map_values(|p: PostView| p.id).to_set() == Set::new(
            |id: nat| store.last_id < id <= store.last_id + calls.len(),
        ),
    decreases calls.len(),
{
    lemma_created_count(store, calls);
    lemma_created_ids_are_consecutive(store, calls);
    let ids = created_posts(store, calls).map_values(|p: PostView| p.id);
    let range = Set::new(|id: nat| store.last_id < id <= store.last_id + calls.len());
    assert forall|id: nat| ids.to_set().contains(id) <==> range.contains(id) by {
        if ids.to_set().contains(id) {
            let k = choose|k: int| 0 <= k < ids.len() && ids[k] == id;
            assert(ids[k] == created_posts(store, calls)[k].id);
        }
        if range.contains(id) {
            let k = id - store.last_id - 1;
            assert(ids[k] == created_posts(store, calls)[k].id);
            assert(ids.contains(id));
        }
    }
    assert(ids.to_set() =~= range);
}

/// Calls that all succeed create one post each.
proof fn lemma_created_count(store: StoreView, calls: Seq<CreateCall>)
    requires
        all_succeed(store, calls),
    ensures
        created_posts(store, calls).len() == calls.len(),
    decreases calls.len(),
{
    if calls.len() > 0 {
        lemma_created_count(store, calls.drop_last());
    }
}

} // verus!
