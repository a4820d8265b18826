use vstd::prelude::*;

use crate::model::{CrawlError, FeedPage, Post};
use crate::post_id::{id_value, parse_post_id};

verus! {

/// The caller's window of post ids. Posts at or below the lower bound end the
/// crawl; posts above the upper bound are skipped. `None` leaves a side open.
#[derive(Clone, Copy, Debug, PartialEq, Eq, Structural)]
pub struct CrawlBoundary {
    pub lower_bound_id: Option<u64>,
    pub upper_bound_id: Option<u64>,
}

/// What the crawl does with one post of a page.
#[derive(Clone, Copy, Debug, PartialEq, Eq, Structural)]
pub enum ItemStep {
    /// The post is at or below the lower bound: nothing after it is processed.
    Stop,
    /// The post is newer than the upper bound: skipped, the crawl goes on.
    SkipNewer,
    /// The post has no body (restricted): skipped, nothing is written.
    SkipRestricted,
    /// The post is archived.
    Archive,
}

/// The step for a post with numeric id `id`.
pub open spec fn step_for(id: u64, has_body: bool, b: CrawlBoundary) -> ItemStep {
    if b.lower_bound_id matches Some(lo) && id <= lo {
        ItemStep::Stop
    } else if b.upper_bound_id matches Some(hi) && id > hi {
        ItemStep::SkipNewer
    } else if !has_body {
        ItemStep::SkipRestricted
    } else {
        ItemStep::Archive
    }
}

/// Every post of the sequence has a numeric id.
pub open spec fn ids_valid(items: Seq<Post>) -> bool {
    forall|i: int| 0 <= i < items.len() ==> (#[trigger] id_value(items[i].id@)) is Some
}

/// The step for one post.
pub open spec fn item_step(p: Post, b: CrawlBoundary) -> ItemStep {
    step_for(id_value(p.id@).unwrap(), p.body is Some, b)
}

/// The steps for the posts in order, up to and including the first `Stop`.
pub open spec fn planned_steps(items: Seq<Post>, b: CrawlBoundary) -> Seq<ItemStep>
    decreases items.len(),
{
    if items.len() == 0 {
        Seq::empty()
    } else if item_step(items[0], b) == ItemStep::Stop {
        seq![ItemStep::Stop]
    } else {
        seq![item_step(items[0], b)] + planned_steps(items.drop_first(), b)
    }
}

/// The plan for one page: a step per post considered, and the cursor to
/// follow, if the crawl goes on.
pub struct PagePlan {
    pub steps: Vec<ItemStep>,
    pub next_url: Option<String>,
}

/// The cursor that follows a page: none where the page is empty or a post
/// stopped the crawl.
pub open spec fn planned_next(page: FeedPage, b: CrawlBoundary) -> Option<String> {
    if page.items@.len() == 0 || planned_steps(page.items@, b).contains(ItemStep::Stop) {
        None
    } else {
        page.next_url
    }
}

/// The plan for a page is the one `planned_steps` and `planned_next` give.
pub open spec fn is_plan_of(plan: PagePlan, page: FeedPage, b: CrawlBoundary) -> bool {
    plan.steps@ == planned_steps(page.items@, b) && plan.next_url == planned_next(page, b)
}

/// Decides the step for a post with numeric id `id`.
pub fn decide_item(id: u64, has_body: bool, b: &CrawlBoundary) -> (r: ItemStep)
    ensures
        r == step_for(id, has_body, *b),
{
    match b.lower_bound_id {
        Some(lo) => {
            if id <= lo {
                return ItemStep::Stop;
            }
        },
        None => {},
    }
    match b.upper_bound_id {
        Some(hi) => {
            if id > hi {
                return ItemStep::SkipNewer;
            }
        },
        None => {},
    }
    if has_body {
        ItemStep::Archive
    } else {
        ItemStep::SkipRestricted
    }
}

fn clone_url(u: &Option<String>) -> (r: Option<String>)
    ensures
        r == *u,
{
    match u {
        Some(s) => Some(s.clone()),
        None => None,
    }
}

/// Plans a decoded page: every post id must be numeric, else the page is
/// malformed. Posts are taken in order; the first at or below the lower bound
/// ends the crawl, and an empty page ends it too.
pub fn plan_page(page: &FeedPage, b: &CrawlBoundary) -> (r: Result<PagePlan, CrawlError>)
    ensures
        ids_valid(page.items@) ==> (r matches Ok(plan) && is_plan_of(plan, *page, *b)),
        !ids_valid(page.items@) ==> r == Err::<PagePlan, CrawlError>(
            CrawlError::MalformedResponse,
        ),
{
    let n = page.items.len();
    let mut ids: Vec<u64> = Vec::new();
    let mut i: usize = 0;
    while i < n
        invariant
            n == page.items@.len(),
            i <= n,
            ids@.len() == i,
            forall|j: int|
                0 <= j < i ==> id_value(#[trigger] page.items@[j].id@) == Some(ids@[j]),
        decreases n - i,
    {
        match parse_post_id(page.items[i].id.as_str()) {
            Some(v) => ids.push(v),
            None => {
                assert(id_value(page.items@[i as int].id@) is None);
                return Err(CrawlError::MalformedResponse);
            },
        }
        i = i + 1;
    }
    assert(ids_valid(page.items@));
    let mut steps: Vec<ItemStep> = Vec::new();
    let mut stopped = false;
    let mut i: usize = 0;
    assert(page.items@.subrange(0, n as int) =~= page.items@);
    assert(steps@ + planned_steps(page.items@, *b) =~= planned_steps(page.items@, *b));
    while i < n && !stopped
        invariant
            n == page.items@.len(),
            i <= n,
            ids@.len() == n,
            forall|j: int|
                0 <= j < n ==> id_value(#[trigger] page.items@[j].id@) == Some(ids@[j]),
            !stopped ==> steps@ + planned_steps(page.items@.subrange(i as int, n as int), *b)
                == planned_steps(page.items@, *b),
            !stopped ==> !steps@.contains(ItemStep::Stop),
            stopped ==> steps@ == planned_steps(page.items@, *b) && steps@.contains(
                ItemStep::Stop,
            ),
        decreases n - i,
    {
        let ghost rest = page.items@.subrange(i as int, n as int);
        assert(rest.drop_first() =~= page.items@.subrange(i as int + 1, n as int));
        assert(rest[0] == page.items@[i as int]);
        let s = decide_item(ids[i], page.items[i].body.is_some(), b);
        steps.push(s);
        if s == ItemStep::Stop {
            assert(steps@[steps@.len() - 1] == ItemStep::Stop);
            stopped = true;
        } else {
            proof {
                assert(steps@ =~= steps@.drop_last().push(s));
                assert forall|x: ItemStep| steps@.contains(x) implies x != ItemStep::Stop by {
                    let k = choose|k: int| 0 <= k < steps@.len() && steps@[k] == x;
                    if k < steps@.len() - 1 {
                        assert(steps@.drop_last()[k] == x);
                    }
                }
            }
        }
        i = i + 1;
    }
    if !stopped {
        assert(page.items@.subrange(n as int, n as int) =~= Seq::<Post>::empty());
        assert(steps@ =~= planned_steps(page.items@, *b));
    }
    let next_url = if n == 0 || stopped {
        None
    } else {
        clone_url(&page.next_url)
    };
    Ok(PagePlan { steps, next_url })
}

/// The first page of a creator's feed.
pub open spec fn seed_url_of(creator: Seq<char>) -> Seq<char> {
    "https://api.fanbox.cc/post.listCreator?creatorId="@ + creator + "&limit=10"@
}

/// The site of a creator, sent as the `Origin` of every feed request.
pub open spec fn origin_of(creator: Seq<char>) -> Seq<char> {
    "https://"@ + creator + ".fanbox.cc"@
}

/// The live page of one post.
pub open spec fn post_url_of(creator: Seq<char>, id: Seq<char>) -> Seq<char> {
    origin_of(creator) + "/posts/"@ + id
}

pub fn seed_url(creator: &str) -> (r: String)
    ensures
        r@ == seed_url_of(creator@),
{
    let mut r = String::from_str("https://api.fanbox.cc/post.listCreator?creatorId=");
    r.append(creator);
    r.append("&limit=10");
    r
}

pub fn origin_url(creator: &str) -> (r: String)
    ensures
        r@ == origin_of(creator@),
{
    let mut r = String::from_str("https://");
    r.append(creator);
    r.append(".fanbox.cc");
    r
}

pub fn post_url(creator: &str, id: &str) -> (r: String)
    ensures
        r@ == post_url_of(creator@, id@),
{
    let mut r = origin_url(creator);
    r.append("/posts/");
    r.append(id);
    r
}

/// Where the crawl stands between two pages.
pub enum CrawlState {
    /// The page at this URL is to be fetched next.
    FetchingPage(String),
    /// The crawl ended normally.
    Done,
    /// A page-level error ended the crawl.
    Failed(CrawlError),
}

/// The state after a page with the given plan has been decoded.
pub open spec fn state_after(plan: PagePlan) -> CrawlState {
    match plan.next_url {
        Some(u) => CrawlState::FetchingPage(u),
        None => CrawlState::Done,
    }
}

/// Drives the walk over the feed, one page at a time. The caller fetches the
/// page that `state` names, hands the decoded page to `on_page`, carries out
/// the plan's steps in order, and repeats until the state is no longer
/// `FetchingPage`.
pub struct Crawler {
    pub creator: String,
    pub boundary: CrawlBoundary,
    pub state: CrawlState,
}

impl Crawler {
    /// Starts a crawl at the first page of the creator's feed.
    pub fn new(creator: &str, boundary: CrawlBoundary) -> (r: Crawler)
        ensures
            r.creator@ == creator@,
            r.boundary == boundary,
            r.state matches CrawlState::FetchingPage(u) && u@ == seed_url_of(creator@),
    {
        Crawler {
            creator: String::from_str(creator),
            boundary,
            state: CrawlState::FetchingPage(seed_url(creator)),
        }
    }

    /// The `Origin` header for the creator's feed requests.
    pub fn origin(&self) -> (r: String)
        ensures
            r@ == origin_of(self.creator@),
    {
        origin_url(self.creator.as_str())
    }

    /// Takes in the page just fetched and returns its plan. The crawl moves to
    /// the page's cursor, or ends where the plan has none; a page with a post id
    /// that is not numeric ends the crawl with `MalformedResponse`.
    pub fn on_page(&mut self, page: &FeedPage) -> (r: Result<PagePlan, CrawlError>)
        requires
            old(self).state is FetchingPage,
        ensures
            final(self).creator == old(self).creator,
            final(self).boundary == old(self).boundary,
            ids_valid(page.items@) ==> (r matches Ok(plan) && is_plan_of(
                plan,
                *page,
                old(self).boundary,
            ) && final(self).state == state_after(plan)),
            !ids_valid(page.items@) ==> (r == Err::<PagePlan, CrawlError>(
                CrawlError::MalformedResponse,
            ) && final(self).state == CrawlState::Failed(CrawlError::MalformedResponse)),
    {
        match plan_page(page, &self.boundary) {
            Ok(plan) => {
                self.state = match &plan.next_url {
                    Some(u) => CrawlState::FetchingPage(u.clone()),
                    None => CrawlState::Done,
                };
                Ok(plan)
            },
            Err(e) => {
                self.state = CrawlState::Failed(e);
                Err(e)
            },
        }
    }

    /// A page could not be fetched or decoded: the crawl ends with that error.
    pub fn on_page_error(&mut self, e: CrawlError)
        ensures
            final(self).creator == old(self).creator,
            final(self).boundary == old(self).boundary,
            final(self).state == CrawlState::Failed(e),
    {
        self.state = CrawlState::Failed(e);
    }

    /// Whether the crawl has ended, normally or not.
    pub fn is_finished(&self) -> (r: bool)
        ensures
            r == !(self.state is FetchingPage),
    {
        match self.state {
            CrawlState::FetchingPage(_) => false,
            _ => true,
        }
    }
}

} // verus!
