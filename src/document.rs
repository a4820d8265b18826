use vstd::prelude::*;

use crate::model::{CrawlError, MediaAsset, Post, PostBody};
use crate::normalize::{body_segments, normalize_body, segment_views, ContentSegment, SegmentView};

verus! {

/// Opens the document and its header block, up to the post id.
pub const DOC_OPEN: &'static str = "<html><head><meta http-equiv=\"Content-Type\" content=\"text/html; charset=UTF-8\"></head><body>\n      <p>\n        id: ";

pub const DOC_TITLE: &'static str = "<br />\n        title: ";

pub const DOC_PUBLISHED: &'static str = "<br />\n        published: ";

pub const DOC_UPDATED: &'static str = "<br />\n        updated: ";

/// Closes the header block; the body markup follows.
pub const DOC_HEADER_END: &'static str = "<br />\n      </p>\n      ";

pub const DOC_CLOSE: &'static str = "\n    </body></html>";

/// The markup of one segment. Text is embedded as it stands, without escaping.
pub open spec fn segment_markup(s: SegmentView) -> Seq<char> {
    match s {
        SegmentView::Verbatim(t) => t,
        SegmentView::Paragraph(t) => "<p>"@ + t + "</p>"@,
        SegmentView::Image(id, ext) => "<p><img src=\"./"@ + id + "."@ + ext + "\" /></p>"@,
    }
}

/// The markup of a sequence of segments, in order.
pub open spec fn segments_markup(s: Seq<SegmentView>) -> Seq<char>
    decreases s.len(),
{
    if s.len() == 0 {
        Seq::empty()
    } else {
        segments_markup(s.drop_last()) + segment_markup(s.last())
    }
}

/// The whole document of a post around the markup of its body.
pub open spec fn document_markup(post: Post, body: Seq<char>) -> Seq<char> {
    DOC_OPEN@ + post.id@ + DOC_TITLE@ + post.title@ + DOC_PUBLISHED@ + post.published_datetime@
        + DOC_UPDATED@ + post.updated_datetime@ + DOC_HEADER_END@ + body + DOC_CLOSE@
}

/// The document of a post with the given body, or the error that fails it.
pub open spec fn post_document(post: Post, body: PostBody) -> Result<Seq<char>, CrawlError> {
    match body_segments(body) {
        Some(s) => Ok(document_markup(post, segments_markup(s))),
        None => Err(CrawlError::MissingMediaReference),
    }
}

/// The markup of one segment.
pub fn render_segment(s: &ContentSegment) -> (r: String)
    ensures
        r@ == segment_markup(s@),
{
    match s {
        ContentSegment::Verbatim(t) => t.clone(),
        ContentSegment::Paragraph(t) => {
            let mut r = String::from_str("<p>");
            r.append(t.as_str());
            r.append("</p>");
            r
        },
        ContentSegment::Image { media_id, extension } => {
            let mut r = String::from_str("<p><img src=\"./");
            r.append(media_id.as_str());
            r.append(".");
            r.append(extension.as_str());
            r.append("\" /></p>");
            r
        },
    }
}

/// The markup of the segments, one element per segment, in order.
pub fn render_segments(segs: &Vec<ContentSegment>) -> (r: String)
    ensures
        r@ == segments_markup(segment_views(segs@)),
{
    let mut r = String::new();
    let mut i: usize = 0;
    while i < segs.len()
        invariant
            i <= segs@.len(),
            r@ == segments_markup(segment_views(segs@.subrange(0, i as int))),
        decreases segs@.len() - i,
    {
        let m = render_segment(&segs[i]);
        assert(segment_views(segs@.subrange(0, i as int + 1)).drop_last() =~= segment_views(
            segs@.subrange(0, i as int),
        ));
        r.append(m.as_str());
        i = i + 1;
    }
    assert(segs@.subrange(0, i as int) =~= segs@);
    r
}

/// Puts the header block of a post (id, title, timestamps) before the body markup.
pub fn assemble_document(post: &Post, body_markup: &str) -> (r: String)
    ensures
        r@ == document_markup(*post, body_markup@),
{
    let mut r = String::from_str(DOC_OPEN);
    r.append(post.id.as_str());
    r.append(DOC_TITLE);
    r.append(post.title.as_str());
    r.append(DOC_PUBLISHED);
    r.append(post.published_datetime.as_str());
    r.append(DOC_UPDATED);
    r.append(post.updated_datetime.as_str());
    r.append(DOC_HEADER_END);
    r.append(body_markup);
    r.append(DOC_CLOSE);
    r
}

/// The document of a post with the given body; fails where a block refers
/// to an image that the media mapping lacks.
pub fn build_document(post: &Post, body: &PostBody) -> (r: Result<String, CrawlError>)
    ensures
        match post_document(*post, *body) {
            Ok(d) => r matches Ok(s) && s@ == d,
            Err(e) => r == Err::<String, CrawlError>(e),
        },
{
    match normalize_body(body) {
        Ok(segs) => {
            let markup = render_segments(&segs);
            Ok(assemble_document(post, markup.as_str()))
        },
        Err(e) => Err(e),
    }
}

} // verus!
