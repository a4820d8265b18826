use vstd::prelude::*;

use crate::crawl::{
    ids_valid, is_plan_of, item_step, planned_next, planned_steps, state_after, CrawlBoundary,
    CrawlState, ItemStep, PagePlan,
};
use crate::document::post_document;
use crate::model::{CrawlError, FeedPage, Post, PostBody};
use crate::normalize::{block_segments, lemma_missing_block_fails, media_extension};
use crate::post_id::id_value;

verus! {

/// Each planned step is the step of the post at the same place.
pub proof fn lemma_step_at(items: Seq<Post>, b: CrawlBoundary, k: int)
    requires
        0 <= k < planned_steps(items, b).len(),
    ensures
        k < items.len(),
        planned_steps(items, b)[k] == item_step(items[k], b),
    decreases items.len(),
{
    if k > 0 && item_step(items[0], b) != ItemStep::Stop {
        lemma_step_at(items.drop_first(), b, k - 1);
    }
}

/// Where no post before `k` stops the crawl, the plan reaches the post at `k`.
pub proof fn lemma_plan_reaches(items: Seq<Post>, b: CrawlBoundary, k: int)
    requires
        0 <= k < items.len(),
        forall|j: int| 0 <= j < k ==> item_step(#[trigger] items[j], b) != ItemStep::Stop,
    ensures
        planned_steps(items, b).len() > k,
    decreases items.len(),
{
    if k > 0 {
        assert(item_step(items[0], b) != ItemStep::Stop);
        let rest = items.drop_first();
        assert forall|j: int| 0 <= j < k - 1 implies item_step(
            #[trigger] rest[j],
            b,
        ) != ItemStep::Stop by {
            assert(rest[j] == items[j + 1]);
        }
        lemma_plan_reaches(rest, b, k - 1);
    }
}

/// The plan ends at the first post that stops the crawl, and holds that stop.
pub proof fn lemma_plan_stops_at(items: Seq<Post>, b: CrawlBoundary, k: int)
    requires
        0 <= k < items.len(),
        item_step(items[k], b) == ItemStep::Stop,
    ensures
        planned_steps(items, b).len() <= k + 1,
        planned_steps(items, b).contains(ItemStep::Stop),
    decreases items.len(),
{
    if item_step(items[0], b) == ItemStep::Stop {
        assert(planned_steps(items, b)[0] == ItemStep::Stop);
    } else {
        let rest = items.drop_first();
        assert(rest[k - 1] == items[k]);
        lemma_plan_stops_at(rest, b, k - 1);
        let t = planned_steps(rest, b);
        let i = choose|i: int| 0 <= i < t.len() && t[i] == ItemStep::Stop;
        assert(planned_steps(items, b)[i + 1] == ItemStep::Stop);
    }
}

/// Where no post stops the crawl, no planned step is a stop.
pub proof fn lemma_plan_without_stop(items: Seq<Post>, b: CrawlBoundary)
    requires
        forall|j: int| 0 <= j < items.len() ==> item_step(#[trigger] items[j], b) != ItemStep::Stop,
    ensures
        !planned_steps(items, b).contains(ItemStep::Stop),
{
    let s = planned_steps(items, b);
    if s.contains(ItemStep::Stop) {
        let i = choose|i: int| 0 <= i < s.len() && s[i] == ItemStep::Stop;
        lemma_step_at(items, b, i);
    }
}

/// An empty page ends the crawl: nothing of it is processed and no further
/// page is requested.
pub proof fn lemma_empty_page_ends_crawl(page: FeedPage, b: CrawlBoundary, plan: PagePlan)
    requires
        page.items@.len() == 0,
        is_plan_of(plan, page, b),
    ensures
        plan.steps@.len() == 0,
        state_after(plan) == CrawlState::Done,
{
}

/// A post at or below the lower bound ends the crawl: no post after it is
/// processed and no further page is requested.
pub proof fn lemma_lower_bound_ends_crawl(
    page: FeedPage,
    b: CrawlBoundary,
    plan: PagePlan,
    k: int,
)
    requires
        ids_valid(page.items@),
        is_plan_of(plan, page, b),
        0 <= k < page.items@.len(),
        b.lower_bound_id matches Some(lo) && id_value(page.items@[k].id@).unwrap() <= lo,
    ensures
        plan.steps@.len() <= k + 1,
        state_after(plan) == CrawlState::Done,
{
    lemma_plan_stops_at(page.items@, b, k);
}

/// A post above the upper bound (and above the lower bound) is skipped, and the
/// crawl goes on: to the next post of the page, and to the next page where no
/// post of this one stops it.
pub proof fn lemma_upper_bound_skips(page: FeedPage, b: CrawlBoundary, plan: PagePlan, k: int)
    requires
        ids_valid(page.items@),
        is_plan_of(plan, page, b),
        0 <= k < page.items@.len(),
        forall|j: int| 0 <= j < k ==> item_step(#[trigger] page.items@[j], b) != ItemStep::Stop,
        b.upper_bound_id matches Some(hi) && id_value(page.items@[k].id@).unwrap() > hi,
        b.lower_bound_id matches Some(lo) ==> id_value(page.items@[k].id@).unwrap() > lo,
    ensures
        plan.steps@.len() > k,
        plan.steps@[k] == ItemStep::SkipNewer,
        k + 1 < page.items@.len() ==> plan.steps@.len() > k + 1,
        (forall|j: int|
            0 <= j < page.items@.len() ==> item_step(#[trigger] page.items@[j], b)
                != ItemStep::Stop) ==> plan.next_url == page.next_url,
{
    let items = page.items@;
    lemma_plan_reaches(items, b, k);
    lemma_step_at(items, b, k);
    if k + 1 < items.len() {
        lemma_plan_reaches(items, b, k + 1);
    }
    if forall|j: int| 0 <= j < items.len() ==> item_step(#[trigger] items[j], b) != ItemStep::Stop {
        lemma_plan_without_stop(items, b);
    }
}

/// A post without a body is never archived, so nothing is written for it.
pub proof fn lemma_restricted_post_skipped(
    page: FeedPage,
    b: CrawlBoundary,
    plan: PagePlan,
    k: int,
)
    requires
        is_plan_of(plan, page, b),
        0 <= k < plan.steps@.len(),
        page.items@[k].body is None,
    ensures
        plan.steps@[k] != ItemStep::Archive,
{
    lemma_step_at(page.items@, b, k);
}

/// The plan of a page depends on its posts' ids and on whether each has a
/// body, not on what the bodies hold.
pub proof fn lemma_plan_ignores_body_content(p1: FeedPage, p2: FeedPage, b: CrawlBoundary)
    requires
        p1.items@.len() == p2.items@.len(),
        p1.next_url == p2.next_url,
        forall|i: int|
            0 <= i < p1.items@.len() ==> (#[trigger] p1.items@[i]).id@ == p2.items@[i].id@
                && (p1.items@[i].body is Some) == (p2.items@[i].body is Some),
    ensures
        planned_steps(p1.items@, b) == planned_steps(p2.items@, b),
        planned_next(p1, b) == planned_next(p2, b),
{
    lemma_steps_ignore_body_content(p1.items@, p2.items@, b);
}

proof fn lemma_steps_ignore_body_content(s1: Seq<Post>, s2: Seq<Post>, b: CrawlBoundary)
    requires
        s1.len() == s2.len(),
        forall|i: int|
            0 <= i < s1.len() ==> (#[trigger] s1[i]).id@ == s2[i].id@ && (s1[i].body is Some) == (
            s2[i].body is Some),
    ensures
        planned_steps(s1, b) == planned_steps(s2, b),
    decreases s1.len(),
{
    if s1.len() > 0 {
        let (r1, r2) = (s1.drop_first(), s2.drop_first());
        assert forall|i: int| 0 <= i < r1.len() implies (#[trigger] r1[i]).id@ == r2[i].id@ && (
        r1[i].body is Some) == (r2[i].body is Some) by {
            assert(r1[i] == s1[i + 1] && r2[i] == s2[i + 1]);
        }
        lemma_steps_ignore_body_content(r1, r2, b);
        assert(s1[0].id@ == s2[0].id@);
    }
}

/// A block that refers to an image the mapping lacks fails its post with
/// `MissingMediaReference`, and the crawl still goes on to the next post.
pub proof fn lemma_missing_reference_fails_only_its_post(
    page: FeedPage,
    b: CrawlBoundary,
    plan: PagePlan,
    k: int,
    j: int,
)
    requires
        is_plan_of(plan, page, b),
        0 <= k && k + 1 < page.items@.len(),
        forall|i: int| 0 <= i <= k ==> item_step(#[trigger] page.items@[i], b) != ItemStep::Stop,
        page.items@[k].body matches Some(PostBody::BlockList { blocks, image_map }) && (0 <= j
            < blocks@.len() && (blocks@[j].image_id matches Some(id) && media_extension(
            image_map@,
            id@,
        ) is None)),
    ensures
        post_document(page.items@[k], page.items@[k].body.unwrap()) == Err::<Seq<char>, CrawlError>(
            CrawlError::MissingMediaReference,
        ),
        plan.steps@.len() > k + 1,
        plan.steps@[k + 1] == item_step(page.items@[k + 1], b),
{
    let body = page.items@[k].body.unwrap();
    if let PostBody::BlockList { blocks, image_map } = body {
        assert(block_segments(blocks@[j], image_map@) is None);
        lemma_missing_block_fails(blocks@, image_map@, j);
    }
    lemma_plan_reaches(page.items@, b, k + 1);
    lemma_step_at(page.items@, b, k + 1);
}

} // verus!
