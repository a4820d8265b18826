//! Archiving a creator's paginated post feed into per-post offline documents.
//!
//! The library holds the decisions of the crawl: reading post ids, choosing
//! which posts of a page are archived, turning a post body into content
//! segments, assembling the markup document and naming every output file.
//! Fetching, rendering and writing files are left to the caller.

mod crawl;
mod document;
mod idle;
mod laws;
mod layout;
mod model;
mod normalize;
mod post_id;

pub use post_id::{decimal_value, digit_value, id_value, is_decimal, is_digit, parse_post_id};
pub use model::{classify_body, Block, CrawlError, FeedPage, MediaAsset, Post, PostBody};
pub use normalize::{
    block_segments, blocks_segments, body_segments, find_media, lemma_missing_block_fails,
    media_extension, normalize_body, segment_views, ContentSegment, SegmentView,
};
pub use document::{
    assemble_document, build_document, document_markup, post_document, render_segment,
    render_segments, segment_markup, segments_markup, DOC_CLOSE, DOC_HEADER_END, DOC_OPEN,
    DOC_PUBLISHED, DOC_TITLE, DOC_UPDATED,
};
pub use crawl::{
    decide_item, ids_valid, is_plan_of, item_step, plan_page, planned_next, planned_steps,
    origin_of, origin_url, post_url, post_url_of, seed_url, seed_url_of, state_after, step_for,
    CrawlBoundary, CrawlState, Crawler, ItemStep, PagePlan,
};
pub use idle::{EventHandler, WAIT_AFTER_LAST_IDLE_MS};
pub use layout::{
    media_downloads, media_path_of, output_base, output_base_of, post_dir, post_dir_of,
    prepare_post, MediaDownload, PostJob,
};
pub use laws::{
    lemma_empty_page_ends_crawl, lemma_lower_bound_ends_crawl,
    lemma_missing_reference_fails_only_its_post, lemma_plan_ignores_body_content,
    lemma_plan_reaches, lemma_plan_stops_at, lemma_plan_without_stop,
    lemma_restricted_post_skipped, lemma_step_at, lemma_upper_bound_skips,
};
