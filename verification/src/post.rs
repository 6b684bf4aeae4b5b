//! The persisted post and the request that creates one.

use vstd::prelude::*;

verus! {

/// A published post, as the store keeps it.
#[derive(Debug, Clone, PartialEq)]
pub struct Post {
    pub id: u32,
    pub title: String,
    pub post_body: String,
    pub image_file: Option<String>,
    pub created_time: String,
}

/// What a client submits to have a post created.
#[derive(Debug, Clone, PartialEq)]
pub struct PostEntry {
    pub title: String,
    pub post_body: String,
    pub image_data: Option<Vec<u8>>,
}

/// The mathematical value of a [`Post`].
pub struct PostView {
    pub id: nat,
    pub title: Seq<char>,
    pub post_body: Seq<char>,
    pub image_file: Option<Seq<char>>,
    pub created_time: Seq<char>,
}

/// The mathematical value of a [`PostEntry`].
pub struct PostEntryView {
    pub title: Seq<char>,
    pub post_body: Seq<char>,
    pub image_data: Option<Seq<u8>>,
}

/// The characters of an optional string.
pub open spec fn text_of(s: Option<String>) -> Option<Seq<char>> {
    match s {
        Some(t) => Some(t@),
        None => None,
    }
}

/// The bytes of an optional buffer.
pub open spec fn bytes_of(b: Option<Vec<u8>>) -> Option<Seq<u8>> {
    match b {
        Some(v) => Some(v@),
        None => None,
    }
}

impl View for Post {
    type V = PostView;

    open spec fn view(&self) -> PostView {
        PostView {
            id: self.id as nat,
            title: self.title@,
            post_body: self.post_body@,
            image_file: text_of(self.image_file),
            created_time: self.created_time@,
        }
    }
}

impl View for PostEntry {
    type V = PostEntryView;

    open spec fn view(&self) -> PostEntryView {
        PostEntryView {
            title: self.title@,
            post_body: self.post_body@,
            image_data: bytes_of(self.image_data),
        }
    }
}

impl PostEntryView {
    /// A request is acceptable when both texts are present and an attached
    /// image, if any, has at least one byte.
    pub open spec fn acceptable(self) -> bool {
        &&& self.title.len() > 0
        &&& self.post_body.len() > 0
        &&& (self.image_data matches Some(data) ==> data.len() > 0)
    }
}

/// A copy of an optional string.
pub fn copy_text(s: &Option<String>) -> (r: Option<String>)
    ensures
        text_of(r) == text_of(*s),
{
    match s {
        Some(t) => Some(t.clone()),
        None => None,
    }
}

impl Post {
    /// A copy of this post, field for field.
    pub fn duplicate(&self) -> (r: Post)
        ensures
            r@ == self@,
    {
        Post {
            id: self.id,
            title: self.title.clone(),
            post_body: self.post_body.clone(),
            image_file: copy_text(&self.image_file),
            created_time: self.created_time.clone(),
        }
    }
}

impl PostEntry {
    /// Whether the request may be handed to the store.
    pub fn is_acceptable(&self) -> (ok: bool)
        ensures
            ok == self@.acceptable(),
    {
        if self.title.as_str().is_empty() || self.post_body.as_str().is_empty() {
            return false;
        }
        match &self.image_data {
            Some(data) => data.len() > 0,
            None => true,
        }
    }
}

} // verus!
