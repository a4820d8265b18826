use vstd::prelude::*;

use crate::crawl::{post_url, post_url_of};
use crate::document::{build_document, post_document};
use crate::model::{CrawlError, MediaAsset, Post, PostBody};

verus! {

/// The directory of a post's outputs.
pub open spec fn post_dir_of(id: Seq<char>) -> Seq<char> {
    "out/"@ + id
}

/// The path of a post's outputs without extension: `{dir}/{id}-{title}`.
pub open spec fn output_base_of(id: Seq<char>, title: Seq<char>) -> Seq<char> {
    post_dir_of(id) + "/"@ + id + "-"@ + title
}

/// Where a media asset is written: `{dir}/{mediaId}.{extension}`.
pub open spec fn media_path_of(dir: Seq<char>, a: MediaAsset) -> Seq<char> {
    dir + "/"@ + a.id@ + "."@ + a.extension@
}

/// One file to download: the asset's original URL and the path to write it to.
pub struct MediaDownload {
    pub url: String,
    pub path: String,
}

/// Everything needed to archive one post.
pub struct PostJob {
    /// The post's output directory.
    pub dir: String,
    /// The path of the assembled document.
    pub document_path: String,
    /// The assembled document.
    pub document: String,
    /// Every asset of the media mapping, whether or not the body refers to it.
    pub media: Vec<MediaDownload>,
    /// The live page that the rendering engine is pointed at.
    pub page_url: String,
    /// The path of the rendered PDF.
    pub pdf_path: String,
    /// The path of the screenshot.
    pub jpg_path: String,
}

pub fn post_dir(id: &str) -> (r: String)
    ensures
        r@ == post_dir_of(id@),
{
    let mut r = String::from_str("out/");
    r.append(id);
    r
}

pub fn output_base(id: &str, title: &str) -> (r: String)
    ensures
        r@ == output_base_of(id@, title@),
{
    let mut r = post_dir(id);
    r.append("/");
    r.append(id);
    r.append("-");
    r.append(title);
    r
}

/// One download for each asset of the mapping, in the mapping's order.
pub fn media_downloads(dir: &str, map: &Vec<MediaAsset>) -> (r: Vec<MediaDownload>)
    ensures
        r@.len() == map@.len(),
        forall|i: int|
            0 <= i < map@.len() ==> (#[trigger] r@[i]).url@ == map@[i].original_url@
                && r@[i].path@ == media_path_of(dir@, map@[i]),
{
    let mut r: Vec<MediaDownload> = Vec::new();
    let mut i: usize = 0;
    while i < map.len()
        invariant
            i <= map@.len(),
            r@.len() == i,
            forall|j: int|
                0 <= j < i ==> (#[trigger] r@[j]).url@ == map@[j].original_url@ && r@[j].path@
                    == media_path_of(dir@, map@[j]),
        decreases map@.len() - i,
    {
        let a = &map[i];
        let mut path = String::from_str(dir);
        path.append("/");
        path.append(a.id.as_str());
        path.append(".");
        path.append(a.extension.as_str());
        r.push(MediaDownload { url: a.original_url.clone(), path });
        i = i + 1;
    }
    r
}

/// Prepares the archiving of a post that has a body: its directory, its
/// document and the document's path, the downloads of its whole media
/// mapping, the page to render and the rendered files' paths. Fails, before
/// anything is written, where the body refers to an image that the mapping lacks.
pub fn prepare_post(creator: &str, post: &Post) -> (r: Result<PostJob, CrawlError>)
    requires
        post.body is Some,
    ensures
        match post_document(*post, post.body.unwrap()) {
            Ok(d) => r matches Ok(job) && {
                &&& job.document@ == d
                &&& job.dir@ == post_dir_of(post.id@)
                &&& job.document_path@ == output_base_of(post.id@, post.title@) + ".html"@
                &&& job.pdf_path@ == output_base_of(post.id@, post.title@) + ".pdf"@
                &&& job.jpg_path@ == output_base_of(post.id@, post.title@) + ".jpg"@
                &&& job.page_url@ == post_url_of(creator@, post.id@)
                &&& job.media@.len() == post.body.unwrap().media().len()
                &&& forall|i: int|
                    0 <= i < job.media@.len() ==> (#[trigger] job.media@[i]).url@
                        == post.body.unwrap().media()[i].original_url@ && job.media@[i].path@
                        == media_path_of(job.dir@, post.body.unwrap().media()[i])
            },
            Err(e) => r == Err::<PostJob, CrawlError>(e),
        },
{
    let body: &PostBody = post.body.as_ref().unwrap();
    let document = match build_document(post, body) {
        Ok(d) => d,
        Err(e) => {
            return Err(e);
        },
    };
    let dir = post_dir(post.id.as_str());
    let base = output_base(post.id.as_str(), post.title.as_str());
    let mut document_path = base.clone();
    document_path.append(".html");
    let mut pdf_path = base.clone();
    pdf_path.append(".pdf");
    let mut jpg_path = base;
    jpg_path.append(".jpg");
    let media = media_downloads(dir.as_str(), body.image_map());
    let page_url = post_url(creator, post.id.as_str());
    Ok(PostJob { dir, document_path, document, media, page_url, pdf_path, jpg_path })
}

} // verus!
