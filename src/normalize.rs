use vstd::prelude::*;

use crate::model::{Block, CrawlError, MediaAsset, PostBody};

verus! {

/// One element of a normalized body, in document order.
pub enum ContentSegment {
    /// Markup taken over as it stands (a flat-text body).
    Verbatim(String),
    /// The text of a paragraph block.
    Paragraph(String),
    /// An image, by media id and file extension.
    Image { media_id: String, extension: String },
}

/// The mathematical value of a segment.
pub enum SegmentView {
    Verbatim(Seq<char>),
    Paragraph(Seq<char>),
    Image(Seq<char>, Seq<char>),
}

impl View for ContentSegment {
    type V = SegmentView;

    open spec fn view(&self) -> SegmentView {
        match self {
            ContentSegment::Verbatim(t) => SegmentView::Verbatim(t@),
            ContentSegment::Paragraph(t) => SegmentView::Paragraph(t@),
            ContentSegment::Image { media_id, extension } => SegmentView::Image(
                media_id@,
                extension@,
            ),
        }
    }
}

/// The views of a sequence of segments.
pub open spec fn segment_views(s: Seq<ContentSegment>) -> Seq<SegmentView> {
    s.map_values(|c: ContentSegment| c@)
}

/// The extension of the first asset of `map` whose id is `id`.
pub open spec fn media_extension(map: Seq<MediaAsset>, id: Seq<char>) -> Option<Seq<char>>
    decreases map.len(),
{
    if map.len() == 0 {
        None
    } else {
        match media_extension(map.drop_last(), id) {
            Some(e) => Some(e),
            None => if map.last().id@ == id {
                Some(map.last().extension@)
            } else {
                None
            },
        }
    }
}

/// The segments of one block; `None` where its image is not in `map`.
pub open spec fn block_segments(b: Block, map: Seq<MediaAsset>) -> Option<Seq<SegmentView>> {
    let text_part = match b.text {
        Some(t) => if t@.len() > 0 {
            seq![SegmentView::Paragraph(t@)]
        } else {
            Seq::empty()
        },
        None => Seq::empty(),
    };
    match b.image_id {
        None => Some(text_part),
        Some(id) => match media_extension(map, id@) {
            Some(ext) => Some(text_part.push(SegmentView::Image(id@, ext))),
            None => None,
        },
    }
}

/// The segments of a block list, in order; `None` where any block refers
/// to an image that `map` lacks.
pub open spec fn blocks_segments(blocks: Seq<Block>, map: Seq<MediaAsset>) -> Option<
    Seq<SegmentView>,
>
    decreases blocks.len(),
{
    if blocks.len() == 0 {
        Some(Seq::empty())
    } else {
        match (blocks_segments(blocks.drop_last(), map), block_segments(blocks.last(), map)) {
            (Some(a), Some(b)) => Some(a + b),
            _ => None,
        }
    }
}

/// The segments of a body: flat text is one verbatim segment.
pub open spec fn body_segments(body: PostBody) -> Option<Seq<SegmentView>> {
    match body {
        PostBody::FlatText { text, .. } => Some(seq![SegmentView::Verbatim(text@)]),
        PostBody::BlockList { blocks, image_map } => blocks_segments(blocks@, image_map@),
    }
}

proof fn lemma_media_extension_prefix(map: Seq<MediaAsset>, id: Seq<char>, j: int, k: int)
    requires
        0 <= j <= k <= map.len(),
        media_extension(map.subrange(0, j), id) is Some,
    ensures
        media_extension(map.subrange(0, k), id) == media_extension(map.subrange(0, j), id),
    decreases k - j,
{
    if k > j {
        lemma_media_extension_prefix(map, id, j, k - 1);
        assert(map.subrange(0, k).drop_last() =~= map.subrange(0, k - 1));
    }
}

/// Finds the first asset of `map` whose id is `id`.
pub fn find_media(map: &Vec<MediaAsset>, id: &String) -> (r: Option<usize>)
    ensures
        match r {
            Some(i) => i < map@.len() && map@[i as int].id@ == id@ && media_extension(map@, id@)
                == Some(map@[i as int].extension@),
            None => media_extension(map@, id@) is None,
        },
{
    let mut i: usize = 0;
    while i < map.len()
        invariant
            i <= map@.len(),
            media_extension(map@.subrange(0, i as int), id@) is None,
        decreases map@.len() - i,
    {
        assert(map@.subrange(0, i as int + 1).drop_last() =~= map@.subrange(0, i as int));
        if map[i].id == *id {
            proof {
                lemma_media_extension_prefix(map@, id@, i as int + 1, map@.len() as int);
                assert(map@.subrange(0, map@.len() as int) =~= map@);
            }
            return Some(i);
        }
        i = i + 1;
    }
    assert(map@.subrange(0, i as int) =~= map@);
    None
}

/// Turns a body into its ordered segments: flat text becomes one verbatim
/// segment; each block gives a paragraph for non-empty text and an image for
/// an image id, whose extension comes from the media mapping. An image id
/// that the mapping lacks fails the body.
pub fn normalize_body(body: &PostBody) -> (r: Result<Vec<ContentSegment>, CrawlError>)
    ensures
        match body_segments(*body) {
            Some(s) => r matches Ok(v) && segment_views(v@) == s,
            None => r == Err::<Vec<ContentSegment>, CrawlError>(
                CrawlError::MissingMediaReference,
            ),
        },
{
    match body {
        PostBody::FlatText { text, .. } => {
            let mut v: Vec<ContentSegment> = Vec::new();
            v.push(ContentSegment::Verbatim(text.clone()));
            assert(segment_views(v@) =~= seq![SegmentView::Verbatim(text@)]);
            Ok(v)
        },
        PostBody::BlockList { blocks, image_map } => {
            let mut v: Vec<ContentSegment> = Vec::new();
            let mut i: usize = 0;
            while i < blocks.len()
                invariant
                    i <= blocks@.len(),
                    body_segments(*body) == blocks_segments(blocks@, image_map@),
                    blocks_segments(blocks@.subrange(0, i as int), image_map@) == Some(
                        segment_views(v@),
                    ),
                decreases blocks@.len() - i,
            {
                let ghost before = segment_views(v@);
                let b = &blocks[i];
                assert(blocks@.subrange(0, i as int + 1).drop_last() =~= blocks@.subrange(
                    0,
                    i as int,
                ));
                assert(blocks@.subrange(0, i as int + 1).last() == *b);
                match &b.text {
                    Some(t) => {
                        if t.unicode_len() > 0 {
                            v.push(ContentSegment::Paragraph(t.clone()));
                        }
                    },
                    None => {},
                }
                let ghost text_part = segment_views(v@).subrange(
                    before.len() as int,
                    segment_views(v@).len() as int,
                );
                assert(segment_views(v@) =~= before + text_part);
                match &b.image_id {
                    Some(id) => {
                        match find_media(image_map, id) {
                            Some(k) => {
                                v.push(
                                    ContentSegment::Image {
                                        media_id: id.clone(),
                                        extension: image_map[k].extension.clone(),
                                    },
                                );
                                assert(segment_views(v@) =~= before + text_part.push(
                                    SegmentView::Image(id@, image_map@[k as int].extension@),
                                ));
                            },
                            None => {
                                proof {
                                    assert(block_segments(blocks@[i as int], image_map@) is None);
                                    lemma_missing_block_fails(
                                        blocks@,
                                        image_map@,
                                        i as int,
                                    );
                                }
                                return Err(CrawlError::MissingMediaReference);
                            },
                        }
                    },
                    None => {},
                }
                i = i + 1;
            }
            assert(blocks@.subrange(0, i as int) =~= blocks@);
            Ok(v)
        },
    }
}

/// A block list with a block whose image the mapping lacks has no segments.
pub proof fn lemma_missing_block_fails(blocks: Seq<Block>, map: Seq<MediaAsset>, k: int)
    requires
        0 <= k < blocks.len(),
        block_segments(blocks[k], map) is None,
    ensures
        blocks_segments(blocks, map) is None,
    decreases blocks.len(),
{
    if k < blocks.len() - 1 {
        lemma_missing_block_fails(blocks.drop_last(), map, k);
    }
}

} // verus!
