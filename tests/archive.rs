use fanbox_archive::{
    build_document, classify_body, media_downloads, normalize_body, parse_post_id, post_dir,
    prepare_post, render_segments, Block, ContentSegment, CrawlBoundary, CrawlError, CrawlState,
    Crawler, EventHandler, FeedPage, ItemStep, MediaAsset, Post, PostBody, DOC_CLOSE,
    DOC_HEADER_END, DOC_OPEN, DOC_PUBLISHED, DOC_TITLE, DOC_UPDATED,
};

fn asset(id: &str, ext: &str) -> MediaAsset {
    MediaAsset {
        id: id.to_string(),
        extension: ext.to_string(),
        width: 100,
        height: 50,
        original_url: format!("http://x/{}.{}", id, ext),
        thumbnail_url: format!("http://x/thumb/{}.{}", id, ext),
    }
}

fn paragraph(text: &str) -> Block {
    Block { block_type: "p".to_string(), text: Some(text.to_string()), image_id: None }
}

fn image(id: &str) -> Block {
    Block { block_type: "image".to_string(), text: None, image_id: Some(id.to_string()) }
}

fn post(id: &str, body: Option<PostBody>) -> Post {
    Post {
        id: id.to_string(),
        title: format!("title{}", id),
        published_datetime: "2020-01-02T03:04:05+09:00".to_string(),
        updated_datetime: "2020-01-03T03:04:05+09:00".to_string(),
        cover_image_url: None,
        body,
    }
}

fn flat(text: &str) -> Option<PostBody> {
    Some(PostBody::FlatText { text: text.to_string(), image_map: vec![] })
}

fn page(ids: &[&str], next: Option<&str>) -> FeedPage {
    FeedPage {
        items: ids.iter().map(|i| post(i, flat("x"))).collect(),
        next_url: next.map(|s| s.to_string()),
    }
}

fn header(p: &Post) -> String {
    format!(
        "{}{}{}{}{}{}{}{}{}",
        DOC_OPEN,
        p.id,
        DOC_TITLE,
        p.title,
        DOC_PUBLISHED,
        p.published_datetime,
        DOC_UPDATED,
        p.updated_datetime,
        DOC_HEADER_END
    )
}

fn bounds(lower: Option<u64>, upper: Option<u64>) -> CrawlBoundary {
    CrawlBoundary { lower_bound_id: lower, upper_bound_id: upper }
}

#[test]
fn block_list_renders_paragraph_then_image() {
    let body = PostBody::BlockList {
        blocks: vec![paragraph("hello"), image("img1")],
        image_map: vec![asset("img1", "png")],
    };
    let p = post("7", None);
    let doc = build_document(&p, &body).unwrap();
    let expected = format!(
        "{}<p>hello</p><p><img src=\"./img1.png\" /></p>{}",
        header(&p),
        DOC_CLOSE
    );
    assert_eq!(doc, expected);
    let hello = doc.find("<p>hello</p>").unwrap();
    let img = doc.find("./img1.png").unwrap();
    assert!(hello < img);
}

#[test]
fn flat_text_is_embedded_verbatim() {
    let p = post("8", None);
    let body = flat("<p>raw</p>").unwrap();
    let doc = build_document(&p, &body).unwrap();
    assert_eq!(doc, format!("{}<p>raw</p>{}", header(&p), DOC_CLOSE));
}

#[test]
fn document_header_is_exact() {
    let p = post("9", None);
    let doc = build_document(&p, &flat("").unwrap()).unwrap();
    assert_eq!(
        doc,
        "<html><head><meta http-equiv=\"Content-Type\" content=\"text/html; charset=UTF-8\"></head><body>\n      <p>\n        id: 9<br />\n        title: title9<br />\n        published: 2020-01-02T03:04:05+09:00<br />\n        updated: 2020-01-03T03:04:05+09:00<br />\n      </p>\n      \n    </body></html>"
    );
}

#[test]
fn missing_media_fails_post_but_crawl_goes_on() {
    let broken = PostBody::BlockList { blocks: vec![image("missing")], image_map: vec![] };
    let p = post("30", Some(broken));
    assert_eq!(prepare_post("alice", &p).err(), Some(CrawlError::MissingMediaReference));
    let fp = FeedPage { items: vec![p, post("29", flat("ok"))], next_url: Some("n".to_string()) };
    let mut c = Crawler::new("alice", bounds(None, None));
    let plan = c.on_page(&fp).unwrap();
    assert_eq!(plan.steps, vec![ItemStep::Archive, ItemStep::Archive]);
    assert!(prepare_post("alice", &fp.items[1]).is_ok());
    assert!(matches!(c.state, CrawlState::FetchingPage(ref u) if u == "n"));
}

#[test]
fn repeated_images_render_each_time_and_empty_text_is_dropped() {
    let body = PostBody::BlockList {
        blocks: vec![image("a"), paragraph(""), image("a")],
        image_map: vec![asset("a", "jpeg")],
    };
    let segs = normalize_body(&body).unwrap();
    assert_eq!(segs.len(), 2);
    assert_eq!(
        render_segments(&segs),
        "<p><img src=\"./a.jpeg\" /></p><p><img src=\"./a.jpeg\" /></p>"
    );
}

#[test]
fn verbatim_segment_is_not_wrapped() {
    let segs = vec![
        ContentSegment::Verbatim("<b>x</b>".to_string()),
        ContentSegment::Paragraph("y".to_string()),
    ];
    assert_eq!(render_segments(&segs), "<b>x</b><p>y</p>");
}

#[test]
fn empty_page_ends_crawl() {
    let mut c = Crawler::new("alice", bounds(None, None));
    let plan = c.on_page(&page(&[], Some("next"))).unwrap();
    assert!(plan.steps.is_empty());
    assert!(plan.next_url.is_none());
    assert!(matches!(c.state, CrawlState::Done));
    assert!(c.is_finished());
}

#[test]
fn lower_bound_stops_crawl() {
    let mut c = Crawler::new("alice", bounds(Some(20), None));
    let plan = c.on_page(&page(&["30", "20", "10"], Some("next"))).unwrap();
    assert_eq!(plan.steps, vec![ItemStep::Archive, ItemStep::Stop]);
    assert!(plan.next_url.is_none());
    assert!(matches!(c.state, CrawlState::Done));
}

#[test]
fn ids_compare_numerically() {
    let mut c = Crawler::new("alice", bounds(Some(9), None));
    let plan = c.on_page(&page(&["100", "9"], None)).unwrap();
    assert_eq!(plan.steps, vec![ItemStep::Archive, ItemStep::Stop]);
}

#[test]
fn upper_bound_skips_and_continues() {
    let mut c = Crawler::new("alice", bounds(Some(5), Some(25)));
    let plan = c.on_page(&page(&["40", "30", "20", "10"], Some("next"))).unwrap();
    assert_eq!(
        plan.steps,
        vec![ItemStep::SkipNewer, ItemStep::SkipNewer, ItemStep::Archive, ItemStep::Archive]
    );
    assert_eq!(plan.next_url.as_deref(), Some("next"));
    assert!(matches!(c.state, CrawlState::FetchingPage(ref u) if u == "next"));
    let plan2 = c.on_page(&page(&["8", "3"], Some("later"))).unwrap();
    assert_eq!(plan2.steps, vec![ItemStep::Archive, ItemStep::Stop]);
}

#[test]
fn restricted_post_is_skipped() {
    let fp = FeedPage { items: vec![post("12", None), post("11", flat("b"))], next_url: None };
    let mut c = Crawler::new("alice", bounds(None, None));
    let plan = c.on_page(&fp).unwrap();
    assert_eq!(plan.steps, vec![ItemStep::SkipRestricted, ItemStep::Archive]);
    assert!(matches!(c.state, CrawlState::Done));
}

#[test]
fn malformed_id_fails_page() {
    let mut c = Crawler::new("alice", bounds(None, None));
    let r = c.on_page(&page(&["12", "abc"], Some("next")));
    assert_eq!(r.err(), Some(CrawlError::MalformedResponse));
    assert!(matches!(c.state, CrawlState::Failed(CrawlError::MalformedResponse)));
}

#[test]
fn transport_error_ends_crawl() {
    let mut c = Crawler::new("alice", bounds(None, None));
    c.on_page_error(CrawlError::TransportError);
    assert!(matches!(c.state, CrawlState::Failed(CrawlError::TransportError)));
    assert!(c.is_finished());
}

#[test]
fn crawler_starts_at_seed_url() {
    let c = Crawler::new("alice", bounds(None, None));
    assert!(matches!(c.state,
        CrawlState::FetchingPage(ref u)
            if u == "https://api.fanbox.cc/post.listCreator?creatorId=alice&limit=10"));
    assert_eq!(c.origin(), "https://alice.fanbox.cc");
    assert!(!c.is_finished());
}

#[test]
fn five_media_entries_give_five_downloads() {
    let map: Vec<MediaAsset> =
        ["a", "b", "c", "d", "e"].iter().map(|i| asset(i, "png")).collect();
    let d = media_downloads("out/1", &map);
    assert_eq!(d.len(), 5);
    for (k, i) in ["a", "b", "c", "d", "e"].iter().enumerate() {
        assert_eq!(d[k].url, format!("http://x/{}.png", i));
        assert_eq!(d[k].path, format!("out/1/{}.png", i));
    }
}

#[test]
fn prepared_post_names_every_output() {
    let body = PostBody::FlatText { text: "t".to_string(), image_map: vec![asset("m", "gif")] };
    let job = prepare_post("bob", &post("42", Some(body))).unwrap();
    assert_eq!(job.dir, "out/42");
    assert_eq!(post_dir("42"), "out/42");
    assert_eq!(job.document_path, "out/42/42-title42.html");
    assert_eq!(job.pdf_path, "out/42/42-title42.pdf");
    assert_eq!(job.jpg_path, "out/42/42-title42.jpg");
    assert_eq!(job.page_url, "https://bob.fanbox.cc/posts/42");
    assert_eq!(job.media.len(), 1);
    assert_eq!(job.media[0].path, "out/42/m.gif");
    assert_eq!(job.media[0].url, "http://x/m.gif");
}

#[test]
fn post_ids_parse_as_decimal() {
    assert_eq!(parse_post_id("123"), Some(123));
    assert_eq!(parse_post_id("0"), Some(0));
    assert_eq!(parse_post_id(""), None);
    assert_eq!(parse_post_id("12a"), None);
    assert_eq!(parse_post_id("-1"), None);
    assert_eq!(parse_post_id("18446744073709551615"), Some(u64::MAX));
    assert_eq!(parse_post_id("18446744073709551616"), None);
    assert_eq!(parse_post_id("99999999999999999999x"), None);
}

#[test]
fn body_shape_follows_fields() {
    assert!(matches!(
        classify_body(Some("t".to_string()), None, vec![]),
        Ok(PostBody::FlatText { .. })
    ));
    assert!(matches!(
        classify_body(None, Some(vec![paragraph("p")]), vec![]),
        Ok(PostBody::BlockList { .. })
    ));
    assert_eq!(classify_body(None, None, vec![]).err(), Some(CrawlError::MalformedResponse));
    assert_eq!(
        classify_body(Some("t".to_string()), Some(vec![]), vec![]).err(),
        Some(CrawlError::MalformedResponse)
    );
}

#[test]
fn idle_needs_quiet_window_after_network_idle() {
    let mut h = EventHandler::new();
    assert!(!h.is_idle(5000));
    h.on_event("load", 500);
    assert_eq!(h.last_network_idle_ms, 0);
    h.on_event("networkIdle", 800);
    assert_eq!(h.last_network_idle_ms, 800);
    h.on_event("networkIdle", 700);
    assert_eq!(h.last_network_idle_ms, 800);
    assert!(!h.is_idle(1800));
    assert!(h.is_idle(1801));
    assert!(!h.is_idle(100));
}
