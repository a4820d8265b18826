use vstd::prelude::*;

verus! {

/// A downloadable image referenced by a post body.
pub struct MediaAsset {
    pub id: String,
    pub extension: String,
    pub width: i32,
    pub height: i32,
    pub original_url: String,
    pub thumbnail_url: String,
}

/// One structural unit of a block-list body, as the feed carries it:
/// a paragraph carries `text`, an image block carries `image_id`.
pub struct Block {
    pub block_type: String,
    pub text: Option<String>,
    pub image_id: Option<String>,
}

/// A post body, in one of the two shapes that the feed has used.
/// The image map lists each media asset once, keyed by its `id`.
pub enum PostBody {
    FlatText { text: String, image_map: Vec<MediaAsset> },
    BlockList { blocks: Vec<Block>, image_map: Vec<MediaAsset> },
}

/// One post of the feed. A post without a body is restricted and is skipped.
pub struct Post {
    pub id: String,
    pub title: String,
    pub published_datetime: String,
    pub updated_datetime: String,
    pub cover_image_url: Option<String>,
    pub body: Option<PostBody>,
}

/// One page of the feed and the cursor to the next one.
pub struct FeedPage {
    pub items: Vec<Post>,
    pub next_url: Option<String>,
}

/// What can go wrong in a crawl. Page-level transport and decoding errors end
/// the run; the others end only the post at hand.
#[derive(Clone, Copy, Debug, PartialEq, Eq, Structural)]
pub enum CrawlError {
    TransportError,
    MalformedResponse,
    MissingMediaReference,
    RenderFailure,
    FilesystemError,
}

impl PostBody {
    /// The media mapping of the body, whatever its shape.
    pub open spec fn media(&self) -> Seq<MediaAsset> {
        match self {
            PostBody::FlatText { image_map, .. } => image_map@,
            PostBody::BlockList { image_map, .. } => image_map@,
        }
    }

    pub fn image_map(&self) -> (r: &Vec<MediaAsset>)
        ensures
            r@ == self.media(),
    {
        match self {
            PostBody::FlatText { image_map, .. } => image_map,
            PostBody::BlockList { image_map, .. } => image_map,
        }
    }
}

/// Decides the shape of a body from the fields that the feed sent: a body with
/// `text` alone is flat text, one with `blocks` alone is a block list, any
/// other combination matches neither shape.
pub fn classify_body(
    text: Option<String>,
    blocks: Option<Vec<Block>>,
    image_map: Vec<MediaAsset>,
) -> (r: Result<PostBody, CrawlError>)
    ensures
        match (text, blocks) {
            (Some(t), None) => r == Ok::<PostBody, CrawlError>(
                PostBody::FlatText { text: t, image_map },
            ),
            (None, Some(b)) => r == Ok::<PostBody, CrawlError>(
                PostBody::BlockList { blocks: b, image_map },
            ),
            _ => r == Err::<PostBody, CrawlError>(CrawlError::MalformedResponse),
        },
{
    match (text, blocks) {
        (Some(t), None) => Ok(PostBody::FlatText { text: t, image_map }),
        (None, Some(b)) => Ok(PostBody::BlockList { blocks: b, image_map }),
        _ => Err(CrawlError::MalformedResponse),
    }
}

} // verus!
