use vstd::prelude::*;

verus! {

/// The page asked for (1-based) and the number of rows per network page.
#[derive(Debug, PartialEq, Eq, Structural)]
pub struct PaginationParams {
    pub page: i32,
    pub page_size: i32,
}

/// A negative request value is replaced by 1; others are kept.
pub open spec fn normalized(v: i32) -> i32 {
    if v < 0 {
        1
    } else {
        v
    }
}

impl PaginationParams {
    pub fn new(page: i32, page_size: i32) -> (r: PaginationParams)
        ensures
            r.page == normalized(page),
            r.page_size == normalized(page_size),
    {
        let page = if page < 0 {
            1
        } else {
            page
        };
        let page_size = if page_size < 0 {
            1
        } else {
            page_size
        };
        PaginationParams { page, page_size }
    }
}

/// The state of one pagination call: the page asked for, how many network
/// pages were fetched, and whether the store reported more after the last one.
/// Each call owns its cursor.
#[derive(Debug)]
pub struct PageCursor {
    pub target: i32,
    pub rounds: i32,
    pub more: bool,
}

impl PageCursor {
    /// Another network page is to be fetched: the first always; after that,
    /// while the store has more and the page asked for is not reached.
    pub open spec fn wants_more(&self) -> bool {
        self.rounds == 0 || (self.more && self.rounds < self.target)
    }

    /// The last fetched page is the page asked for (or an earlier one, when
    /// the page asked for is below 1).
    pub open spec fn keeps(&self) -> bool {
        self.rounds >= self.target
    }

    pub open spec fn wf(&self) -> bool {
        &&& self.rounds >= 0
        &&& (self.rounds > 1 ==> self.rounds <= self.target)
    }

    /// The cursor after one more network page, after which the store reported
    /// `has_more`.
    pub open spec fn after(&self, has_more: bool) -> PageCursor {
        PageCursor { target: self.target, rounds: (self.rounds + 1) as i32, more: has_more }
    }

    /// A cursor before any network page.
    pub fn start(params: &PaginationParams) -> (r: PageCursor)
        ensures
            r.target == params.page,
            r.rounds == 0,
            r.more,
            r.wf(),
    {
        PageCursor { target: params.page, rounds: 0, more: true }
    }

    pub fn wants_more_pages(&self) -> (r: bool)
        ensures
            r == self.wants_more(),
    {
        self.rounds == 0 || (self.more && self.rounds < self.target)
    }

    /// Records a fetched network page.
    pub fn record_page(&mut self, has_more: bool)
        requires
            old(self).wf(),
            old(self).wants_more(),
        ensures
            *final(self) == old(self).after(has_more),
            final(self).wf(),
    {
        self.rounds = self.rounds + 1;
        self.more = has_more;
    }

    /// The rows of the call: those of the last fetched page when it is the
    /// page asked for, none when the data ended before it.
    pub fn finish<R>(&self, last_rows: Vec<R>) -> (r: Vec<R>)
        ensures
            self.keeps() ==> r@ == last_rows@,
            !self.keeps() ==> r@.len() == 0,
    {
        if self.rounds >= self.target {
            last_rows
        } else {
            Vec::new()
        }
    }
}

/// The cursor once a result set of `available` network pages has been walked
/// from `c`: the store reports more after every page but the last.
pub open spec fn walk(c: PageCursor, available: nat) -> PageCursor
    decreases (if c.wants_more() { 1int } else { 0int }), c.target - c.rounds,
{
    if c.wants_more() && c.rounds >= 0 && (c.rounds > 1 ==> c.rounds <= c.target) {
        walk(c.after((c.rounds + 1) < available), available)
    } else {
        c
    }
}

/// The number of network pages that a call for page `target` fetches from a
/// result set of `available` pages.
pub open spec fn expected_rounds(target: int, available: nat) -> int {
    if target <= 1 {
        1
    } else if target <= available {
        target
    } else {
        available as int
    }
}

/// Page-skip semantics: for page `target` of a result set of `available`
/// network pages, the cursor fetches pages one by one, stops as soon as the
/// page asked for is reached or the store reports no more, and keeps the last
/// fetched page exactly when the page asked for exists. A page beyond the
/// data gives no rows, not an error.
pub proof fn lemma_page_walk(target: i32, available: nat)
    requires
        available >= 1,
    ensures
        walk(PageCursor { target, rounds: 0, more: true }, available).rounds == expected_rounds(
            target as int,
            available,
        ),
        walk(PageCursor { target, rounds: 0, more: true }, available).keeps() <==> target
            <= available,
{
    let c0 = PageCursor { target, rounds: 0, more: true };
    let c1 = c0.after(1 < available);
    assert(walk(c0, available) == walk(c1, available));
    lemma_walk_from(c1, available);
}

proof fn lemma_walk_from(c: PageCursor, available: nat)
    requires
        available >= 1,
        1 <= c.rounds,
        c.rounds > 1 ==> c.rounds <= c.target,
        c.rounds <= available,
        c.more == (c.rounds < available),
    ensures
        walk(c, available).rounds == if c.target <= c.rounds {
            c.rounds as int
        } else {
            expected_rounds(c.target as int, available)
        },
        walk(c, available).keeps() <==> c.target <= available || c.target <= c.rounds,
    decreases c.target - c.rounds,
{
    if c.wants_more() {
        let n = c.after((c.rounds + 1) < available);
        lemma_walk_from(n, available);
    }
}

} // verus!
