//! Best-effort broadcasting of one payload to every gateway instance.
//!
//! A registration call is sent to each configured endpoint in turn; an
//! endpoint counts as a success exactly when its response body is the
//! literal text `success`.  Every endpoint is attempted regardless of
//! earlier failures, and the operation as a whole succeeds when at least
//! one endpoint did.

use vstd::prelude::*;

use crate::text::views_of;

verus! {

/// Whether one endpoint's outcome counts as a success: there was a
/// response at all and its body is exactly `success`.  Any other body —
/// or a transport error, given as `None` — counts as a failure.
pub open spec fn spec_outcome_success(outcome: Option<&String>) -> bool {
    outcome matches Some(b) && b@ == "success"@
}

/// Judge one endpoint's outcome; `None` stands for a transport error.
pub fn endpoint_success(outcome: Option<&String>) -> (r: bool)
    ensures
        r == spec_outcome_success(outcome),
{
    match outcome {
        Some(b) => {
            let lit: String = "success".to_owned();
            b.eq(&lit)
        },
        None => false,
    }
}

/// Whether any entry of a list of per-endpoint results is a success:
/// the logical or over the whole list.
pub open spec fn spec_any_success(s: Seq<bool>) -> bool {
    exists|i: int| 0 <= i < s.len() && #[trigger] s[i]
}

/// One pass of a payload over a list of endpoints.  The caller contacts
/// `next_url()`, records each outcome with `record`, and reads the
/// overall result with `overall` once every endpoint was attempted.
pub struct BroadcastRun {
    urls: Vec<String>,
    next: usize,
    successes: Vec<bool>,
}

impl BroadcastRun {
    /// The endpoints of this run.
    pub closed spec fn spec_urls(self) -> Seq<Seq<char>> {
        views_of(self.urls@)
    }

    /// How many endpoints were attempted so far.
    pub closed spec fn spec_next(self) -> int {
        self.next as int
    }

    /// The per-endpoint results recorded so far, in endpoint order.
    pub closed spec fn spec_successes(self) -> Seq<bool> {
        self.successes@
    }

    /// One result is recorded per attempted endpoint, and the run never
    /// walks past the endpoint list.
    pub closed spec fn wf(self) -> bool {
        self.next == self.successes.len() && self.next <= self.urls.len()
    }

    /// A fresh run over the given endpoints.
    pub fn new(urls: Vec<String>) -> (r: Self)
        ensures
            r.wf(),
            r.spec_urls() == views_of(urls@),
            r.spec_next() == 0,
            r.spec_successes() == Seq::<bool>::empty(),
    {
        let r = BroadcastRun { urls, next: 0, successes: Vec::new() };
        proof {
            assert(r.spec_successes() =~= Seq::<bool>::empty());
        }
        r
    }

    /// The endpoint to contact next; `None` once every endpoint was
    /// attempted.
    pub fn next_url(&self) -> (r: Option<&String>)
        ensures
            r is Some <==> self.spec_next() < self.spec_urls().len(),
            r matches Some(u) ==> u@ == self.spec_urls()[self.spec_next()],
    {
        if self.next < self.urls.len() {
            Some(&self.urls[self.next])
        } else {
            None
        }
    }

    /// Record one endpoint's outcome (`None` for a transport error) and
    /// say whether that endpoint succeeded.  Failures never cut the run
    /// short: the walk always moves on to the next endpoint.
    pub fn record(&mut self, outcome: Option<&String>) -> (ok: bool)
        requires
            old(self).wf(),
            old(self).spec_next() < old(self).spec_urls().len(),
        ensures
            final(self).wf(),
            final(self).spec_urls() == old(self).spec_urls(),
            ok == spec_outcome_success(outcome),
            final(self).spec_successes() == old(self).spec_successes().push(ok),
            final(self).spec_next() == old(self).spec_next() + 1,
    {
        let ok = endpoint_success(outcome);
        self.successes.push(ok);
        self.next = self.next + 1;
        ok
    }

    /// Whether every endpoint was attempted.
    pub fn finished(&self) -> (r: bool)
        ensures
            r == (self.spec_next() == self.spec_urls().len()),
    {
        self.next == self.urls.len()
    }

    /// The overall result of a complete run: `true` exactly when at
    /// least one endpoint succeeded.  Demanding a finished run makes the
    /// policy explicit: the result speaks for every endpoint, because
    /// every endpoint was attempted.
    pub fn overall(&self) -> (r: bool)
        requires
            self.wf(),
            self.spec_next() == self.spec_urls().len(),
        ensures
            r == spec_any_success(self.spec_successes()),
    {
        let mut any = false;
        let mut i: usize = 0;
        while i < self.successes.len()
            invariant
                i <= self.successes@.len(),
                any == spec_any_success(self.successes@.take(i as int)),
            decreases self.successes@.len() - i,
        {
            proof {
                assert(self.successes@.take(i + 1).drop_last() =~= self.successes@.take(i as int));
                if self.successes@[i as int] {
                    assert(self.successes@.take(i + 1)[i as int]);
                }
                if spec_any_success(self.successes@.take(i as int)) {
                    let j = choose|j: int|
                        0 <= j < i && #[trigger] self.successes@.take(i as int)[j];
                    assert(self.successes@.take(i + 1)[j]);
                }
                if spec_any_success(self.successes@.take(i + 1)) {
                    let j = choose|j: int|
                        0 <= j < i + 1 && #[trigger] self.successes@.take(i + 1)[j];
                    if j < i {
                        assert(self.successes@.take(i as int)[j]);
                    }
                }
            }
            if self.successes[i] {
                any = true;
            }
            i = i + 1;
        }
        proof {
            assert(self.successes@.take(self.successes@.len() as int) =~= self.successes@);
        }
        any
    }
}

} // verus!
