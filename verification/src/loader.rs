//! The bulk loader: fetches the full remote entity set once, in bounded-size
//! pages, and streams every received record through the ingestion channel.
//!
//! The loader itself decides; the page fetching, which is network work, is
//! done by whoever drives it: ask `next_offset` whether (and where) to fetch,
//! hand each fetched page to `accept_page`, stop when `is_done`. The one
//! termination rule is the short page: a page shorter than the page size is
//! the last. A remote count that is an exact multiple of the page size must
//! therefore be followed by one empty page — a contract the server has to
//! keep, not one the loader could check.
use crate::err_tools::ErrorX;
use crate::portals::NetherPortalText;
use crate::thread_tools::mpsc_send;
use vstd::prelude::*;

verus! {

pub struct BulkLoader {
    limit: usize,
    done: bool,
    pages_fetched: usize,
    items_streamed: usize,
}

impl BulkLoader {
    /// The fixed page size.
    pub closed spec fn spec_limit(self) -> nat {
        self.limit as nat
    }

    pub closed spec fn spec_done(self) -> bool {
        self.done
    }

    pub closed spec fn spec_pages(self) -> nat {
        self.pages_fetched as nat
    }

    pub closed spec fn spec_items(self) -> nat {
        self.items_streamed as nat
    }

    /// Chooses the fetch strategy from the remote size estimate. An estimate
    /// of nothing yields a loader that is already done (an empty stream); a
    /// small table is fetched page by page; a table beyond a hundred rows
    /// would take the parallel strategy, which this loader does not offer.
    pub fn plan(estimate: i64, limit: usize) -> (r: Result<BulkLoader, ErrorX>)
        requires
            limit > 0,
        ensures
            r is Ok <==> estimate <= 100,
            r matches Ok(l) ==> {
                &&& l.spec_limit() == limit
                &&& l.spec_pages() == 0
                &&& l.spec_items() == 0
                &&& (l.spec_done() <==> estimate <= 0)
            },
    {
        if estimate > 100 {
            return Err(ErrorX::new("the estimate asks for the parallel strategy, which this loader does not offer"));
        }
        Ok(BulkLoader { limit, done: estimate <= 0, pages_fetched: 0, items_streamed: 0 })
    }

    pub fn is_done(&self) -> (r: bool)
        ensures
            r == self.spec_done(),
    {
        self.done
    }

    pub fn page_limit(&self) -> (r: usize)
        ensures
            r == self.spec_limit(),
    {
        self.limit
    }

    pub fn pages_fetched(&self) -> (r: usize)
        ensures
            r == self.spec_pages(),
    {
        self.pages_fetched
    }

    pub fn items_streamed(&self) -> (r: usize)
        ensures
            r == self.spec_items(),
    {
        self.items_streamed
    }

    /// Where the next page request starts, or `None` once the loader is done.
    /// The offset is the sentinel the server reads as "keep going": every
    /// request of one bulk load passes the same one.
    pub fn next_offset(&self) -> (r: Option<i32>)
        ensures
            r is Some <==> !self.spec_done(),
            r matches Some(o) ==> o == -1,
    {
        if self.done {
            None
        } else {
            Some(-1)
        }
    }

    /// Accepts one fetched page: streams every record of it through the
    /// channel, in page order, and stops the load exactly when the page came
    /// up short. Returns how many records were streamed. When the receiving
    /// half of the channel is gone no record can be delivered any more: the
    /// whole bulk load is aborted and the loader is done.
    pub fn accept_page(
        &mut self,
        page: Vec<NetherPortalText>,
        sender: &std::sync::mpsc::Sender<NetherPortalText>,
    ) -> (r: Result<usize, ErrorX>)
        requires
            !old(self).spec_done(),
            old(self).spec_items() + page@.len() <= usize::MAX,
            old(self).spec_pages() + 1 <= usize::MAX,
        ensures
            final(self).spec_limit() == old(self).spec_limit(),
            final(self).spec_pages() == old(self).spec_pages() + 1,
            r matches Ok(sent) ==> {
                &&& sent == page@.len()
                &&& (final(self).spec_done() <==> page@.len() < old(self).spec_limit())
                &&& final(self).spec_items() == old(self).spec_items() + page@.len()
            },
            r is Err ==> final(self).spec_done() && final(self).spec_items() <= old(
                self,
            ).spec_items() + page@.len(),
    {
        let n = page.len();
        let mut rest = page;
        let mut sent: usize = 0;
        while rest.len() > 0
            invariant
                sent + rest@.len() == n,
                n == page@.len(),
                *self == *old(self),
                old(self).spec_pages() + 1 <= usize::MAX,
                old(self).spec_items() + n <= usize::MAX,
            decreases rest@.len(),
        {
            let item = rest.remove(0);
            match mpsc_send(sender, item) {
                Ok(_) => {
                    sent = sent + 1;
                },
                Err(_) => {
                    self.done = true;
                    self.pages_fetched = self.pages_fetched + 1;
                    self.items_streamed = self.items_streamed + sent;
                    return Err(
                        ErrorX::new("the ingestion channel is closed; the bulk load is aborted"),
                    );
                },
            }
        }
        self.done = n < self.limit;
        self.pages_fetched = self.pages_fetched + 1;
        self.items_streamed = self.items_streamed + n;
        Ok(n)
    }
}

/// The length of page `j` that a well-behaved server with `n` rows returns
/// for page size `l`: full pages while more than a page remains, then the
/// remainder, then empty.
pub open spec fn server_page_len(n: int, l: int, j: int) -> int {
    let rest = n - j * l;
    if rest >= l {
        l
    } else if rest >= 0 {
        rest
    } else {
        0
    }
}

/// Pagination terminates: against a well-behaved server with `n` rows and
/// page size `l`, every page before page `n / l` is full, page `n / l` is the
/// first short one, and the short page stops the loader — so a bulk load
/// fetches exactly `n / l + 1` pages, and an empty table yields one empty
/// page (the empty stream). The page lengths sum to `n`: every row is
/// streamed once.
pub proof fn lemma_pagination_terminates(n: int, l: int)
    requires
        n >= 0,
        l >= 1,
    ensures
        server_page_len(n, l, n / l) < l,
        forall|j: int| 0 <= j < n / l ==> server_page_len(n, l, j) == l,
        n == 0 ==> server_page_len(n, l, 0) == 0,
        sum_page_lens(n, l, n / l + 1) == n,
{
    vstd::arithmetic::div_mod::lemma_fundamental_div_mod(n, l);
    vstd::arithmetic::div_mod::lemma_mod_bound(n, l);
    assert(n - (n / l) * l == n % l) by (nonlinear_arith)
        requires
            n == l * (n / l) + n % l,
    ;
    assert forall|j: int| 0 <= j < n / l implies server_page_len(n, l, j) == l by {
        assert((j + 1) * l <= (n / l) * l) by (nonlinear_arith)
            requires
                j + 1 <= n / l,
                l >= 1,
        ;
        assert(n - j * l >= l) by (nonlinear_arith)
            requires
                (j + 1) * l <= (n / l) * l,
                n - (n / l) * l == n % l,
                n % l >= 0,
        ;
    }
    lemma_sum_page_lens(n, l, n / l + 1);
    assert((n / l + 1) * l > n) by (nonlinear_arith)
        requires
            n == (n / l) * l + n % l,
            n % l < l,
    ;
}

/// The rows streamed by the first `k` pages.
pub open spec fn sum_page_lens(n: int, l: int, k: int) -> int
    decreases k,
{
    if k <= 0 {
        0
    } else {
        sum_page_lens(n, l, k - 1) + server_page_len(n, l, k - 1)
    }
}

proof fn lemma_sum_page_lens(n: int, l: int, k: int)
    requires
        l >= 1,
        k >= 0,
        k >= n / l + 1 || (k * l <= n),
        n >= 0,
    ensures
        sum_page_lens(n, l, k) == if k * l <= n {
            k * l
        } else {
            n
        },
    decreases k,
{
    if k == 0 {
        assert(k * l == 0) by (nonlinear_arith)
            requires
                k == 0,
        ;
        assert(sum_page_lens(n, l, 0) == 0);
    }
    if k > 0 {
        vstd::arithmetic::div_mod::lemma_fundamental_div_mod(n, l);
        vstd::arithmetic::div_mod::lemma_mod_bound(n, l);
        if k * l <= n {
            assert((k - 1) * l <= n && n - (k - 1) * l >= l && (k - 1) * l == k * l - l)
                by (nonlinear_arith)
                requires
                    k * l <= n,
                    l >= 1,
            ;
            lemma_sum_page_lens(n, l, k - 1);
            assert(server_page_len(n, l, k - 1) == l);
            assert(sum_page_lens(n, l, k) == k * l);
        } else {
            // k - 1 is at least n / l exactly when k * l exceeds n
            assert(k - 1 >= n / l) by (nonlinear_arith)
                requires
                    k * l > n,
                    l >= 1,
                    n == (n / l) * l + n % l,
                    0 <= n % l < l,
            ;
            if k - 1 == n / l {
                lemma_sum_page_lens(n, l, k - 1);
                assert((k - 1) * l <= n) by (nonlinear_arith)
                    requires
                        k - 1 == n / l,
                        n == (n / l) * l + n % l,
                        0 <= n % l,
                ;
                assert(server_page_len(n, l, k - 1) == n - (k - 1) * l);
                assert(sum_page_lens(n, l, k) == n);
            } else {
                lemma_sum_page_lens(n, l, k - 1);
                assert((k - 1) * l > n) by (nonlinear_arith)
                    requires
                        k - 1 > n / l,
                        l >= 1,
                        n == (n / l) * l + n % l,
                        0 <= n % l < l,
                ;
                assert(server_page_len(n, l, k - 1) == 0);
                assert(sum_page_lens(n, l, k) == n);
            }
        }
    }
}

} // verus!
