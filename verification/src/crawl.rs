//! Walking a paginated listing: which page is fetched next, and what is
//! dispatched for the page that came.

use vstd::prelude::*;
use crate::model::{Issue, PaginationMeta, PaginationResult, Project, ProjectSlim};

verus! {

/// The number of items that a crawl asks for in one page.
pub const PAGE_SIZE: u32 = 50;

/// Where a crawl stands: the page to fetch, and whether to fetch it.
#[derive(Clone, Copy, Debug, PartialEq, Eq, Structural)]
pub struct PageCursor {
    /// The number of the page, counted from 1.
    pub page_number: u32,
    /// Whether the page is still to be fetched.
    pub has_more: bool,
}

/// Whether a page carries work: it holds items, and the listing reports
/// records. Both are asked, whatever the one says of the other.
pub open spec fn carries_work(meta: PaginationMeta, item_count: nat) -> bool {
    item_count > 0 && meta.total_records > 0
}

/// What a listing answers for one page, as far as a crawl reads it.
pub struct PageShape {
    pub meta: PaginationMeta,
    pub item_count: nat,
}

impl PageCursor {
    /// Whether the cursor stands on a page: pages are counted from 1.
    pub open spec fn is_valid(self) -> bool {
        self.page_number >= 1
    }

    /// The cursor of a crawl that has fetched nothing yet.
    pub open spec fn spec_start() -> PageCursor {
        PageCursor { page_number: 1, has_more: true }
    }

    /// The cursor after the page under this cursor came with `meta` and
    /// `item_count` items: one page further if the page carried work and the
    /// listing reports more pages, else at rest on the same page.
    pub open spec fn spec_advance(self, meta: PaginationMeta, item_count: nat) -> PageCursor {
        if carries_work(meta, item_count) && meta.total_pages > self.page_number {
            PageCursor { page_number: (self.page_number + 1) as u32, has_more: true }
        } else {
            PageCursor { page_number: self.page_number, has_more: false }
        }
    }

    /// How many pages a crawl can still fetch from this cursor at most.
    pub open spec fn pages_left(self) -> nat {
        if self.has_more {
            (u32::MAX - self.page_number + 1) as nat
        } else {
            0
        }
    }

    /// The cursor of a crawl that has fetched nothing yet: page 1 is due.
    pub fn start() -> (cursor: PageCursor)
        ensures
            cursor == PageCursor::spec_start(),
            cursor.is_valid(),
    {
        PageCursor { page_number: 1, has_more: true }
    }

    /// Moves on after the page under this cursor came. The page number grows
    /// by one as long as the crawl goes on, and stays once it has ended.
    pub fn advance(&self, meta: &PaginationMeta, item_count: usize) -> (next: PageCursor)
        ensures
            next == self.spec_advance(*meta, item_count as nat),
            self.is_valid() ==> next.is_valid(),
            next.has_more ==> next.page_number == self.page_number + 1,
            !next.has_more ==> next.page_number == self.page_number,
            next.pages_left() < self.pages_left() || !self.has_more,
    {
        if has_work(meta, item_count) && meta.total_pages > self.page_number {
            PageCursor { page_number: self.page_number + 1, has_more: true }
        } else {
            PageCursor { page_number: self.page_number, has_more: false }
        }
    }
}

/// Whether a page carries work.
pub fn has_work(meta: &PaginationMeta, item_count: usize) -> (work: bool)
    ensures
        work == carries_work(*meta, item_count as nat),
{
    item_count > 0 && meta.total_records > 0
}

/// The page numbers that a crawl fetches from `cursor` on, in the order in
/// which it fetches them, when `listing` gives the answer for each page.
pub open spec fn pages_visited(listing: spec_fn(u32) -> PageShape, cursor: PageCursor) -> Seq<u32>
    decreases cursor.pages_left(),
{
    if cursor.has_more {
        let shape = listing(cursor.page_number);
        seq![cursor.page_number] + pages_visited(
            listing,
            cursor.spec_advance(shape.meta, shape.item_count),
        )
    } else {
        Seq::empty()
    }
}

/// The number of units that a crawl dispatches from `cursor` on: one for each
/// item of each page that carries work.
pub open spec fn units_dispatched(listing: spec_fn(u32) -> PageShape, cursor: PageCursor) -> nat
    decreases cursor.pages_left(),
{
    if cursor.has_more {
        let shape = listing(cursor.page_number);
        let here = if carries_work(shape.meta, shape.item_count) {
            shape.item_count
        } else {
            0
        };
        here + units_dispatched(listing, cursor.spec_advance(shape.meta, shape.item_count))
    } else {
        0
    }
}

/// The page numbers from `first` to `last`, in increasing order.
pub open spec fn page_range(first: u32, last: u32) -> Seq<u32> {
    Seq::new((last - first + 1) as nat, |i: int| (first + i) as u32)
}

/// Whether `listing` reports `total_pages` pages on each of them, and each of
/// them carries work.
pub open spec fn stable_listing(listing: spec_fn(u32) -> PageShape, total_pages: u32) -> bool {
    forall|page: u32|
        1 <= page <= total_pages ==> {
            &&& (#[trigger] listing(page)).meta.total_pages == total_pages
            &&& carries_work(listing(page).meta, listing(page).item_count)
        }
}

proof fn lemma_visits_rest(listing: spec_fn(u32) -> PageShape, total_pages: u32, page: u32)
    requires
        stable_listing(listing, total_pages),
        1 <= page <= total_pages,
    ensures
        pages_visited(listing, PageCursor { page_number: page, has_more: true }) == page_range(
            page,
            total_pages,
        ),
    decreases total_pages - page,
{
    let cursor = PageCursor { page_number: page, has_more: true };
    let shape = listing(page);
    let next = cursor.spec_advance(shape.meta, shape.item_count);
    if page < total_pages {
        lemma_visits_rest(listing, total_pages, (page + 1) as u32);
        assert(next == PageCursor { page_number: (page + 1) as u32, has_more: true });
        assert(seq![page] + page_range((page + 1) as u32, total_pages) =~= page_range(
            page,
            total_pages,
        ));
    } else {
        assert(!next.has_more);
        assert(pages_visited(listing, next) =~= Seq::empty());
        assert(seq![page] + Seq::<u32>::empty() =~= page_range(page, total_pages));
    }
}

/// A crawl of a listing that reports the same number of pages on each of
/// them, and whose pages all carry work, fetches the pages 1 to that number,
/// each once, in increasing order, and then ends.
pub proof fn lemma_visits_each_page_once(listing: spec_fn(u32) -> PageShape, total_pages: u32)
    requires
        total_pages >= 1,
        stable_listing(listing, total_pages),
    ensures
        pages_visited(listing, PageCursor::spec_start()) == page_range(1, total_pages),
        pages_visited(listing, PageCursor::spec_start()).len() == total_pages,
        forall|i: int|
            0 <= i < total_pages ==> #[trigger] pages_visited(
                listing,
                PageCursor::spec_start(),
            )[i] == i + 1,
{
    lemma_visits_rest(listing, total_pages, 1);
}

proof fn lemma_visits_onward(listing: spec_fn(u32) -> PageShape, cursor: PageCursor)
    requires
        cursor.has_more,
    ensures
        pages_visited(listing, cursor).len() >= 1,
        forall|i: int|
            0 <= i < pages_visited(listing, cursor).len() ==> #[trigger] pages_visited(
                listing,
                cursor,
            )[i] == cursor.page_number + i,
    decreases cursor.pages_left(),
{
    let shape = listing(cursor.page_number);
    let next = cursor.spec_advance(shape.meta, shape.item_count);
    let rest = pages_visited(listing, next);
    let visited = pages_visited(listing, cursor);
    assert(visited == seq![cursor.page_number] + rest);
    if next.has_more {
        lemma_visits_onward(listing, next);
    } else {
        assert(rest.len() == 0);
    }
    assert forall|i: int| 0 <= i < visited.len() implies #[trigger] visited[i]
        == cursor.page_number + i by {
        if i > 0 {
            assert(visited[i] == rest[i - 1]);
        }
    }
}

/// Whatever the listing answers, a crawl fetches the pages 1, 2, 3 and so on
/// in this order, each of them once, and at least page 1.
pub proof fn lemma_visits_in_order(listing: spec_fn(u32) -> PageShape)
    ensures
        pages_visited(listing, PageCursor::spec_start()).len() >= 1,
        forall|i: int|
            0 <= i < pages_visited(listing, PageCursor::spec_start()).len()
                ==> #[trigger] pages_visited(listing, PageCursor::spec_start())[i] == i + 1,
{
    lemma_visits_onward(listing, PageCursor::spec_start());
}

/// A crawl always fetches page 1. When that page carries no work or is
/// reported as the last one, the crawl ends after it: no other page is
/// fetched, and what was dispatched is one unit for each item of page 1 if it
/// carried work, and nothing if it did not.
pub proof fn lemma_first_page_decides(listing: spec_fn(u32) -> PageShape)
    ensures
        pages_visited(listing, PageCursor::spec_start()).len() >= 1,
        pages_visited(listing, PageCursor::spec_start())[0] == 1,
        !carries_work(listing(1).meta, listing(1).item_count) || listing(1).meta.total_pages <= 1
            ==> {
            &&& pages_visited(listing, PageCursor::spec_start()) == seq![1u32]
            &&& units_dispatched(listing, PageCursor::spec_start()) == if carries_work(
                listing(1).meta,
                listing(1).item_count,
            ) {
                listing(1).item_count
            } else {
                0
            }
        },
{
    let cursor = PageCursor::spec_start();
    let shape = listing(1);
    let next = cursor.spec_advance(shape.meta, shape.item_count);
    if !carries_work(shape.meta, shape.item_count) || shape.meta.total_pages <= 1 {
        assert(!next.has_more);
        assert(pages_visited(listing, next) =~= Seq::empty());
        assert(pages_visited(listing, cursor) =~= seq![1u32]);
        assert(units_dispatched(listing, next) == 0);
    }
}

/// What a crawl does with one page of issues: the issues whose detail it
/// fetches, and where it goes next.
pub struct PagePlan {
    /// The ids of the issues to fetch, one unit of work each.
    pub issue_ids: Vec<String>,
    /// The cursor after this page.
    pub next: PageCursor,
}

/// The ids of the issues of a page, in the order of the page.
pub open spec fn ids_of(issues: Seq<Issue>) -> Seq<Seq<char>> {
    Seq::new(issues.len(), |i: int| issues[i].id@)
}

/// Plans the work for the page of issues that came under `cursor`: one unit
/// per issue of the page if the page carries work, none if it does not, and
/// the next cursor.
pub fn plan_page(cursor: &PageCursor, listing: &PaginationResult<Issue>) -> (plan: PagePlan)
    ensures
        plan.next == cursor.spec_advance(listing.meta, listing.data.len() as nat),
        carries_work(listing.meta, listing.data.len() as nat) ==> plan.issue_ids.deep_view()
            == ids_of(listing.data@),
        !carries_work(listing.meta, listing.data.len() as nat) ==> plan.issue_ids.len() == 0,
{
    let mut issue_ids: Vec<String> = Vec::new();
    if has_work(&listing.meta, listing.data.len()) {
        let mut i: usize = 0;
        while i < listing.data.len()
            invariant
                i <= listing.data.len(),
                issue_ids.len() == i,
                forall|j: int| 0 <= j < i ==> (#[trigger] issue_ids[j])@ == listing.data[j].id@,
            decreases listing.data.len() - i,
        {
            issue_ids.push(listing.data[i].id.clone());
            i = i + 1;
        }
        assert(issue_ids.deep_view() =~= ids_of(listing.data@));
    }
    PagePlan { issue_ids, next: cursor.advance(&listing.meta, listing.data.len()) }
}

/// Whether `slim` keeps the id, the key and the name of `project`.
pub open spec fn is_slim_of(slim: ProjectSlim, project: Project) -> bool {
    &&& slim.id@ == project.id@
    &&& slim.key@ == project.key@
    &&& slim.name@ == project.name@
}

/// Adds to `projects` what a crawl keeps of the projects of the page that
/// came under `cursor`, in the order of the page, if the page carries work;
/// and returns the next cursor.
pub fn collect_page(
    cursor: &PageCursor,
    listing: &PaginationResult<Project>,
    projects: &mut Vec<ProjectSlim>,
) -> (next: PageCursor)
    ensures
        next == cursor.spec_advance(listing.meta, listing.data.len() as nat),
        !carries_work(listing.meta, listing.data.len() as nat) ==> final(projects)@ == old(
            projects,
        )@,
        carries_work(listing.meta, listing.data.len() as nat) ==> {
            &&& final(projects).len() == old(projects).len() + listing.data.len()
            &&& final(projects)@.take(old(projects).len() as int) == old(projects)@
            &&& forall|k: int|
                old(projects).len() <= k < final(projects).len() ==> is_slim_of(
                    #[trigger] final(projects)[k],
                    listing.data[k - old(projects).len()],
                )
        },
{
    if has_work(&listing.meta, listing.data.len()) {
        let ghost before = projects@;
        let mut i: usize = 0;
        while i < listing.data.len()
            invariant
                i <= listing.data.len(),
                projects.len() == before.len() + i,
                projects@.take(before.len() as int) == before,
                forall|k: int|
                    before.len() <= k < projects.len() ==> is_slim_of(
                        #[trigger] projects[k],
                        listing.data[k - before.len()],
                    ),
            decreases listing.data.len() - i,
        {
            let project = &listing.data[i];
            let ghost grown = projects@;
            projects.push(
                ProjectSlim {
                    id: project.id.clone(),
                    key: project.key.clone(),
                    name: project.name.clone(),
                },
            );
            proof {
                assert(projects@.take(before.len() as int) =~= grown.take(before.len() as int));
                assert(forall|k: int| 0 <= k < grown.len() ==> projects[k] == grown[k]);
            }
            i = i + 1;
        }
    }
    cursor.advance(&listing.meta, listing.data.len())
}

} // verus!
