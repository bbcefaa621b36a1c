//! The messages friends send each other, and the posts they carry.

use vstd::prelude::*;

use crate::profile::Profile;
use crate::response::{Response, ResponseRebroadcast};

verus! {

/// A picture or video attached to a post: its MIME type (as text) and its bytes.
#[derive(Clone, Debug, PartialEq)]
pub struct Media {
    pub mime: String,
    pub bytes: Vec<u8>,
}

/// The content of a post.
#[derive(Clone, Debug, PartialEq)]
pub struct PostContent {
    /// The plain-text content of the post.
    pub body: String,
    /// Unix time, in seconds, of when the post was created.
    pub created_at: u64,
    /// Attached pictures and videos.
    pub media: Vec<Media>,
}

impl PostContent {
    /// A post with the given text and no media, created at the Unix time `created_at`.
    pub fn from_body(body: String, created_at: u64) -> (p: PostContent)
        ensures
            p.body == body,
            p.created_at == created_at,
            p.media@.len() == 0,
    {
        PostContent { body, created_at, media: Vec::new() }
    }
}

/// Metadata common to every message.
#[derive(Clone, Debug)]
pub struct MessageMeta {
    pub created_at: u64,
}

/// Everything a message can carry. On the wire each variant is tagged with its position here
/// (post 0, profile 1, response 2, rebroadcast 3); a tag is never reused.
#[derive(Clone, Debug)]
pub enum MessageContent {
    Post(PostContent),
    Profile(Profile),
    Response(Response),
    ResponseRebroadcast(ResponseRebroadcast),
}

/// A wire message.
#[derive(Clone, Debug)]
pub struct Message {
    pub content: MessageContent,
    pub meta: MessageMeta,
}

impl Message {
    /// A message with `content`, stamped with the Unix time `created_at` (in seconds).
    pub fn new(content: MessageContent, created_at: u64) -> (m: Message)
        ensures
            m.content == content,
            m.meta.created_at == created_at,
    {
        Message { content, meta: MessageMeta { created_at } }
    }
}

/// A serialized value with its schema version attached.
#[derive(Clone, Debug)]
pub struct UntypedValue<'a> {
    pub version: &'a str,
    pub value: Vec<u8>,
}

/// A borrowed serialized value with its schema version attached.
#[derive(Clone, Debug)]
pub struct UntypedValueRef<'a> {
    pub version: &'a str,
    pub value: &'a [u8],
}

} // verus!
