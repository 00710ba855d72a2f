//! Obtaining the register token.
//!
//! The gateway's login endpoint answers with a JSON document; the token,
//! when one was granted, sits at `data.token`.  `TokenFetch` walks the
//! login endpoints in order and stops at the first response that carries
//! a token.

use vstd::prelude::*;

use crate::text::views_of;

verus! {

/// The string at `data.token` of the body parsed as JSON, when the body
/// is valid JSON and that member is a string; a function of the body text
/// alone.
pub uninterp spec fn spec_token_of(body: Seq<char>) -> Option<Seq<char>>;

/// Relies on serde_json::from_str and Value::{get, as_str}: parses the
/// body as JSON and reads the string member at `data.token`; the result
/// depends on the body text alone.
#[verifier::external_body]
fn parse_token_body(body: &str) -> (r: Option<String>)
    ensures
        r is Some <==> spec_token_of(body@) is Some,
        r matches Some(t) ==> spec_token_of(body@) == Some(t@),
{
    match serde_json::from_str::<serde_json::Value>(body) {
        Ok(v) => v
            .get("data")
            .and_then(|d| d.get("token"))
            .and_then(|t| t.as_str())
            .map(|s| s.to_string()),
        Err(_) => None,
    }
}

/// The token carried by a login response body, if any.
pub fn extract_token(body: &str) -> (r: Option<String>)
    ensures
        r is Some <==> spec_token_of(body@) is Some,
        r matches Some(t) ==> spec_token_of(body@) == Some(t@),
{
    parse_token_body(body)
}

/// The token carried by one endpoint's outcome: `None` both for a
/// transport error (no body at all) and for a body without a token.
pub open spec fn spec_body_token(body: Option<Seq<char>>) -> Option<Seq<char>> {
    match body {
        Some(b) => spec_token_of(b),
        None => None,
    }
}

/// The token a whole fetch yields over a list of outcomes: the token of
/// the first outcome that carries one.
pub open spec fn spec_first_token(bodies: Seq<Option<Seq<char>>>) -> Option<Seq<char>>
    decreases bodies.len(),
{
    if bodies.len() == 0 {
        None
    } else if spec_body_token(bodies.first()) is Some {
        spec_body_token(bodies.first())
    } else {
        spec_first_token(bodies.drop_first())
    }
}

/// Law: when the outcomes before position `i` carry no token and the one
/// at `i` does, the fetch yields exactly the token at `i` — later
/// outcomes cannot change it.
pub proof fn lemma_first_token_hit(bodies: Seq<Option<Seq<char>>>, i: int)
    requires
        0 <= i < bodies.len(),
        forall|j: int| 0 <= j < i ==> spec_body_token(#[trigger] bodies[j]) is None,
        spec_body_token(bodies[i]) is Some,
    ensures
        spec_first_token(bodies) == spec_body_token(bodies[i]),
    decreases i,
{
    if i > 0 {
        assert(forall|j: int|
            0 <= j < i - 1 ==> spec_body_token(#[trigger] bodies.drop_first()[j]) is None);
        lemma_first_token_hit(bodies.drop_first(), i - 1);
    }
}

/// Law: when no outcome carries a token, the fetch yields none.
pub proof fn lemma_first_token_none(bodies: Seq<Option<Seq<char>>>)
    requires
        forall|j: int| 0 <= j < bodies.len() ==> spec_body_token(#[trigger] bodies[j]) is None,
    ensures
        spec_first_token(bodies) is None,
    decreases bodies.len(),
{
    if bodies.len() > 0 {
        lemma_first_token_none(bodies.drop_first());
    }
}

/// A walk over the login endpoints, in order, that stops at the first
/// response carrying a token.  The caller contacts `next_url()`, hands
/// the outcome to `on_response`, and stops as soon as a token comes back
/// or `next_url()` runs out.
pub struct TokenFetch {
    urls: Vec<String>,
    next: usize,
}

impl TokenFetch {
    /// The login endpoints being walked.
    pub closed spec fn spec_urls(self) -> Seq<Seq<char>> {
        views_of(self.urls@)
    }

    /// How many endpoints were already contacted without a token.
    pub closed spec fn spec_next(self) -> int {
        self.next as int
    }

    /// The walk never runs past the endpoint list.
    pub closed spec fn wf(self) -> bool {
        self.next <= self.urls.len()
    }

    /// A fresh walk over the given endpoints.
    pub fn new(urls: Vec<String>) -> (r: Self)
        ensures
            r.wf(),
            r.spec_urls() == views_of(urls@),
            r.spec_next() == 0,
    {
        TokenFetch { urls, next: 0 }
    }

    /// The endpoint to contact next; `None` once every endpoint was tried.
    pub fn next_url(&self) -> (r: Option<&String>)
        ensures
            r is Some <==> self.spec_next() < self.spec_urls().len(),
            r matches Some(u) ==> u@ == self.spec_urls()[self.spec_next()],
    {
        if self.next < self.urls.len() {
            Some(&self.urls[self.next])
        } else {
            None
        }
    }

    /// Digest one endpoint's outcome: `body` is its response text, or
    /// `None` on a transport error.  Returns the token exactly when the
    /// response carries one; otherwise the walk moves to the next
    /// endpoint.
    pub fn on_response(&mut self, body: Option<&str>) -> (r: Option<String>)
        requires
            old(self).wf(),
            old(self).spec_next() < old(self).spec_urls().len(),
        ensures
            final(self).wf(),
            final(self).spec_urls() == old(self).spec_urls(),
            r is Some <==> (body matches Some(b) && spec_token_of(b@) is Some),
            r matches Some(t) ==> (body matches Some(b) && spec_token_of(b@) == Some(t@)),
            r is Some ==> final(self).spec_next() == old(self).spec_next(),
            r is None ==> final(self).spec_next() == old(self).spec_next() + 1,
    {
        match body {
            Some(b) => {
                match extract_token(b) {
                    Some(t) => Some(t),
                    None => {
                        self.next = self.next + 1;
                        None
                    },
                }
            },
            None => {
                self.next = self.next + 1;
                None
            },
        }
    }
}

} // verus!
