//! Listing a resource kind, one page or all pages.
//!
//! A `ListSession` drives the fetch loop as a step machine: `next_request`
//! names the page to fetch, `feed` takes the page the service returned, and
//! the session is done after one page when `paginate` is off, or at the
//! first short page or missing continuation when it is on.  The records
//! accumulate in the order the pages arrived, never re-sorted.
//! `lemma_paginate_fetches_all` states the pagination property: a paginated
//! session fed consecutive pages of a fixed server listing holds exactly
//! that listing when it finishes on a short page.

use vstd::prelude::*;

use crate::api::ApiCall;
use crate::error::CmdError;
use crate::record::{RecordView, ResourceRecord, records_view};
use crate::scope::scope_ok;

verus! {

/// The concatenation of the given pages, in order.
pub open spec fn concat_pages(ps: Seq<Seq<RecordView>>) -> Seq<RecordView>
    decreases ps.len(),
{
    if ps.len() == 0 {
        Seq::<RecordView>::empty()
    } else {
        concat_pages(ps.drop_last()) + ps.last()
    }
}

/// The `i`-th page of a fixed listing `all`, with page size `k`.
pub open spec fn server_page(all: Seq<RecordView>, k: nat, i: nat) -> Seq<RecordView> {
    let lo = if i * k <= all.len() {
        i * k
    } else {
        all.len() as nat
    };
    let hi = if (i + 1) * k <= all.len() {
        (i + 1) * k
    } else {
        all.len() as nat
    };
    all.subrange(lo as int, hi as int)
}

/// An in-progress listing.
pub struct ListSession {
    /// Plural name of the resource kind being listed.
    pub plural: String,
    /// The organization scope.
    pub organization: String,
    /// The project scope.
    pub project: String,
    /// The page size.
    pub limit: u32,
    /// Whether to keep fetching pages until the listing is exhausted.
    pub paginate: bool,
    /// Whether to render the result as structured text.
    pub json: bool,
    /// The records fetched so far, in arrival order.
    pub acc: Vec<ResourceRecord>,
    /// The continuation token for the next page; empty on the first page.
    pub token: String,
    /// Whether the listing is complete.
    pub done: bool,
    /// The pages fed so far.
    pub pages: Ghost<Seq<Seq<RecordView>>>,
}

impl ListSession {
    /// The session's records and page history agree, every page that was
    /// followed by another fetch was full, and an unpaginated session stops
    /// after one page.
    pub open spec fn wf(&self) -> bool {
        &&& self.limit >= 1
        &&& records_view(self.acc@) == concat_pages(self.pages@)
        &&& (forall|i: int|
            0 <= i < self.pages@.len() - 1 ==> (#[trigger] self.pages@[i]).len()
                >= self.limit as nat)
        &&& (!self.done && self.pages@.len() > 0 ==> self.pages@.last().len() >= self.limit as nat)
        &&& (!self.paginate ==> self.pages@.len() <= 1)
        &&& (!self.done && !self.paginate ==> self.pages@.len() == 0)
    }

    /// The request to make next: one page, or nothing once done.
    pub fn next_request(&self) -> (r: Option<ApiCall>)
        ensures
            r is Some <==> !self.done,
            !self.done ==> r == Some(
                ApiCall::GetPage {
                    plural: self.plural,
                    organization: self.organization,
                    project: self.project,
                    limit: self.limit,
                    token: self.token,
                },
            ),
    {
        if self.done {
            None
        } else {
            Some(
                ApiCall::GetPage {
                    plural: self.plural.clone(),
                    organization: self.organization.clone(),
                    project: self.project.clone(),
                    limit: self.limit,
                    token: self.token.clone(),
                },
            )
        }
    }

    /// Takes one page as the service returned it: the records are appended
    /// in order, and the session finishes unless pagination is on, the page
    /// was full, and a continuation token came back.
    pub fn feed(&mut self, page: Vec<ResourceRecord>, next_token: Option<String>)
        requires
            old(self).wf(),
            !old(self).done,
        ensures
            final(self).wf(),
            final(self).done == (!old(self).paginate || page@.len() < old(self).limit as nat
                || next_token is None),
            next_token matches Some(t) ==> final(self).token == t,
            next_token is None ==> final(self).token == old(self).token,
            final(self).pages@ == old(self).pages@.push(records_view(page@)),
            records_view(final(self).acc@) == records_view(old(self).acc@) + records_view(page@),
            final(self).plural == old(self).plural,
            final(self).organization == old(self).organization,
            final(self).project == old(self).project,
            final(self).limit == old(self).limit,
            final(self).paginate == old(self).paginate,
            final(self).json == old(self).json,
    {
        let full = page.len() >= self.limit as usize;
        let ghost page_view = records_view(page@);
        let mut page = page;
        while page.len() > 0
            invariant
                records_view(self.acc@) + records_view(page@) == concat_pages(self.pages@)
                    + page_view,
                self.pages == old(self).pages,
                self.plural == old(self).plural,
                self.organization == old(self).organization,
                self.project == old(self).project,
                self.limit == old(self).limit,
                self.paginate == old(self).paginate,
                self.json == old(self).json,
                self.token == old(self).token,
                self.done == old(self).done,
            decreases page.len(),
        {
            let ghost acc0 = self.acc@;
            let ghost rem0 = page@;
            let r = page.remove(0);
            self.acc.push(r);
            proof {
                assert(records_view(acc0.push(r)) =~= records_view(acc0).push(r@));
                assert(rem0.drop_first() == page@);
                assert(records_view(rem0) =~= seq![r@] + records_view(page@));
                assert(records_view(acc0).push(r@) + records_view(page@) =~= records_view(acc0)
                    + (seq![r@] + records_view(page@)));
            }
        }
        proof {
            assert(records_view(page@) =~= Seq::<RecordView>::empty());
            assert(records_view(self.acc@) + records_view(page@) =~= records_view(self.acc@));
            assert(records_view(self.acc@) == concat_pages(self.pages@) + page_view);
        }
        match next_token {
            Some(t) => {
                self.token = t;
                self.done = !self.paginate || !full;
            },
            None => {
                self.done = true;
            },
        }
        let ghost ps = old(self).pages@.push(page_view);
        self.pages = Ghost(ps);
        proof {
            assert(concat_pages(ps) == concat_pages(ps.drop_last()) + ps.last());
            assert(ps.drop_last() =~= old(self).pages@);
            assert forall|i: int| 0 <= i < ps.len() - 1 implies (#[trigger] ps[i]).len()
                >= self.limit as nat by {
                if i < ps.len() - 2 {
                    assert(ps[i] == old(self).pages@[i]);
                } else {
                    assert(ps[i] == old(self).pages@.last());
                }
            }
        }
    }

    /// The fetched records, in order, once the listing is complete.
    pub fn into_records(self) -> (r: Vec<ResourceRecord>)
        ensures
            records_view(r@) == records_view(self.acc@),
    {
        self.acc
    }
}

/// Starts a listing of the given resource kind.
///
/// Fails with `InvalidArgument` exactly when the limit is zero or a scope
/// field is missing, and produces no request in that case.
pub fn list_start(
    plural: String,
    organization: String,
    project: String,
    limit: u32,
    paginate: bool,
    json: bool,
) -> (r: Result<ListSession, CmdError>)
    ensures
        r is Ok <==> (limit >= 1 && scope_ok(organization@, project@)),
        limit < 1 ==> crate::error::is_invalid_argument(
            r->Err_0,
            "--limit must be greater than 0"@,
        ),
        (limit >= 1 && !scope_ok(organization@, project@)) ==> crate::error::is_invalid_argument(
            r->Err_0,
            "--organization and --project are required"@,
        ),
        r is Ok ==> {
            let s = r->Ok_0;
            &&& s.wf()
            &&& !s.done
            &&& s.acc@.len() == 0
            &&& s.pages@ =~= Seq::<Seq<RecordView>>::empty()
            &&& s.plural == plural
            &&& s.organization == organization
            &&& s.project == project
            &&& s.limit == limit
            &&& s.paginate == paginate
            &&& s.json == json
            &&& s.token@.len() == 0
        },
{
    if limit < 1 {
        return Err(CmdError::InvalidArgument(String::from_str("--limit must be greater than 0")));
    }
    match crate::scope::check_scope(&organization, &project) {
        Err(e) => Err(e),
        Ok(()) => {
            let s = ListSession {
                plural,
                organization,
                project,
                limit,
                paginate,
                json,
                acc: Vec::new(),
                token: String::new(),
                done: false,
                pages: Ghost(Seq::empty()),
            };
            proof {
                assert(records_view(s.acc@) =~= Seq::<RecordView>::empty());
                assert(concat_pages(s.pages@) == Seq::<RecordView>::empty());
            }
            Ok(s)
        },
    }
}

/// The pages of a fixed listing concatenate back to the listing, as soon as
/// enough pages are taken to reach its end.
proof fn lemma_concat_server_pages(all: Seq<RecordView>, k: nat, n: nat)
    requires
        k >= 1,
        all.len() <= n * k,
    ensures
        concat_pages(Seq::new(n as nat, |i: int| server_page(all, k, i as nat))) == all,
    decreases n,
{
    let ps = Seq::new(n as nat, |i: int| server_page(all, k, i as nat));
    if n == 0 {
        assert(n * k == 0) by (nonlinear_arith)
            requires
                n == 0,
        ;
        assert(all =~= Seq::<RecordView>::empty());
        assert(concat_pages(ps) =~= all);
    } else {
        let m = (n - 1) as nat;
        assert(m * k + k == n * k) by (nonlinear_arith)
            requires
                n >= 1,
                m == n - 1,
        ;
        if all.len() <= m * k {
            lemma_concat_server_pages(all, k, m);
            let qs = Seq::new(m as nat, |i: int| server_page(all, k, i as nat));
            assert(ps.drop_last() =~= qs);
            assert(ps.last() == server_page(all, k, m));
            assert(ps.last() =~= Seq::<RecordView>::empty());
            assert(concat_pages(ps) =~= all);
        } else {
            let front = all.subrange(0, (m * k) as int);
            assert(front.len() == m * k);
            lemma_concat_server_pages(front, k, m);
            let qs = Seq::new(m as nat, |i: int| server_page(all, k, i as nat));
            let fs = Seq::new(m as nat, |i: int| server_page(front, k, i as nat));
            assert forall|i: int| 0 <= i < m implies #[trigger] qs[i] == fs[i] by {
                let ii = i as nat;
                assert(ii * k + k == (ii + 1) * k && ii * k <= m * k && (ii + 1) * k <= m * k)
                    by (nonlinear_arith)
                    requires
                        0 <= ii,
                        ii + 1 <= m,
                        k >= 1,
                ;
                assert(front.subrange((ii * k) as int, ((ii + 1) * k) as int) =~= all.subrange(
                    (ii * k) as int,
                    ((ii + 1) * k) as int,
                ));
            }
            assert(qs =~= fs);
            assert(ps.drop_last() =~= qs);
            assert(concat_pages(qs) == front);
            assert(ps.last() == server_page(all, k, m));
            assert(ps.last() =~= all.subrange((m * k) as int, all.len() as int));
            assert(concat_pages(ps) =~= all);
        }
    }
}

/// The pagination property: a finished paginated session whose pages are
/// the consecutive pages of a fixed server listing, ending on a short page,
/// holds exactly that listing, in order.
pub proof fn lemma_paginate_fetches_all(s: ListSession, all: Seq<RecordView>)
    requires
        s.wf(),
        s.done,
        s.paginate,
        s.pages@.len() > 0,
        forall|i: int|
            0 <= i < s.pages@.len() ==> #[trigger] s.pages@[i] == server_page(
                all,
                s.limit as nat,
                i as nat,
            ),
        s.pages@.last().len() < s.limit as nat,
    ensures
        records_view(s.acc@) == all,
{
    let n = s.pages@.len() as nat;
    let k = s.limit as nat;
    let last = s.pages@[n - 1];
    assert(last == server_page(all, k, (n - 1) as nat));
    assert(all.len() <= n * k) by {
        if all.len() > n * k {
            assert((n - 1) as nat * k + k == n * k) by (nonlinear_arith)
                requires
                    n >= 1,
            ;
            assert(((n - 1) as nat + 1) * k == n * k) by (nonlinear_arith)
                requires
                    n >= 1,
            ;
            assert(last.len() == k);
        }
    }
    lemma_concat_server_pages(all, k, n);
    let ps = Seq::new(n as nat, |i: int| server_page(all, k, i as nat));
    assert(s.pages@ =~= ps);
}

} // verus!
