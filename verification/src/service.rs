//! The two request flows. The store flow validates the submitted URL, draws
//! a fresh id, composes the short link, and persists the record; the
//! redirect flow resolves an id and maps absence to "not found". Every
//! failure becomes exactly one HTTP-level reply.
use crate::ids;
use crate::ids::is_valid_id;
use crate::response::HtmlResponse;
use crate::response::STATUS_BAD_REQUEST;
use crate::response::STATUS_NOT_FOUND;
use crate::response::STATUS_OK;
use crate::response::STATUS_SERVER_ERROR;
use crate::store::LinkStore;
use crate::urls::anchor_html;
use crate::urls::anchor_of;
use crate::urls::compose_short_url;
use crate::urls::joined_url;
use crate::urls::normalized_url;
use crate::urls::validate_url;
use vstd::prelude::*;

verus! {

/// One link record, as the store flow prepares it: the fresh id, the
/// canonical form of the submitted URL (the only form ever persisted), the
/// composed short URL, and the HTML anchor the success reply carries.
pub struct LinkRecord {
    pub id: String,
    pub url: String,
    pub short_url: String,
    pub html: String,
}

/// Everything of the store flow up to the insert itself: validate the
/// submitted URL, draw a fresh id, and compose the short link. A malformed
/// submission is the client's error; a base URL that cannot absorb the id is
/// the service's own, and is never blamed on the client.
pub fn prepare_store(input: &str, base: &str) -> (r: Result<LinkRecord, HtmlResponse>)
    ensures
        r matches Ok(rec) ==> {
            &&& is_valid_id(rec.id@)
            &&& normalized_url(input@) == Some(rec.url@)
            &&& joined_url(base@, rec.id@) == Some(rec.short_url@)
            &&& rec.html@ == anchor_of(rec.short_url@)
        },
        normalized_url(input@) is None ==> r is Err,
        r matches Err(e) ==> {
            ||| (normalized_url(input@) is None && e.status == STATUS_BAD_REQUEST && e.body@
                == "invalid url"@)
            ||| (normalized_url(input@) is Some && e.status == STATUS_SERVER_ERROR && e.body@
                == "server error"@)
        },
{
    let url = match validate_url(input) {
        Ok(u) => u,
        Err(e) => {
            return Err(HtmlResponse::from_error(e));
        },
    };
    let id = ids::generate();
    let short_url = match compose_short_url(base, id.as_str()) {
        Ok(s) => s,
        Err(e) => {
            return Err(HtmlResponse::from_error(e));
        },
    };
    let html = anchor_html(short_url.as_str());
    Ok(LinkRecord { id, url, short_url, html })
}

/// What the store answered to a lookup, reduced to the three outcomes the
/// redirect flow distinguishes.
pub enum LookupOutcome {
    /// A record exists; it maps the id to this URL.
    Found(String),
    /// No record exists under the id.
    Missing,
    /// The store itself failed.
    Failed,
}

/// Decide the redirect flow's answer from the store's outcome: a found
/// record yields its URL as the redirect target, absence yields "not found",
/// and a store failure yields the generic server error.
pub fn redirect_decision(outcome: LookupOutcome) -> (r: Result<String, HtmlResponse>)
    ensures
        outcome matches LookupOutcome::Found(u) ==> (r matches Ok(loc) && loc@ == u@),
        outcome is Missing ==> (r matches Err(e) && e.status == STATUS_NOT_FOUND && e.body@
            == "not found"@),
        outcome is Failed ==> (r matches Err(e) && e.status == STATUS_SERVER_ERROR && e.body@
            == "server error"@),
{
    match outcome {
        LookupOutcome::Found(u) => Ok(u),
        LookupOutcome::Missing => Err(HtmlResponse::not_found()),
        LookupOutcome::Failed => Err(HtmlResponse::server_error()),
    }
}

/// Decide the store flow's answer once the insert has been attempted: on
/// success the reply carries the record's anchor; a refused or failed insert
/// is a server-side error.
pub fn store_decision(rec: LinkRecord, inserted: bool) -> (r: HtmlResponse)
    ensures
        inserted ==> r.status == STATUS_OK && r.body@ == rec.html@,
        !inserted ==> r.status == STATUS_SERVER_ERROR && r.body@ == "server error"@,
{
    if inserted {
        HtmlResponse::ok(rec.html)
    } else {
        HtmlResponse::server_error()
    }
}

/// The service: the configured base URL and the link store, shared by the
/// two flows.
pub struct Service {
    base: String,
    store: LinkStore,
}

impl Service {
    /// The configured base URL.
    pub closed spec fn base_url(&self) -> Seq<char> {
        self.base@
    }

    /// The id-to-URL mapping the service currently holds.
    pub closed spec fn contents(&self) -> Map<Seq<char>, Seq<char>> {
        self.store.contents()
    }

    /// Well-formedness: the store holds at most one record per id.
    pub closed spec fn wf(&self) -> bool {
        self.store.wf()
    }

    /// A fresh service around an empty store.
    pub fn new(base: String) -> (s: Self)
        ensures
            s.wf(),
            s.base_url() == base@,
            s.contents() == Map::<Seq<char>, Seq<char>>::empty(),
    {
        Service { base, store: LinkStore::new() }
    }

    /// The store flow. On success a new record exists: the fresh id, absent
    /// from the store before the call, now maps to the canonical form of the
    /// submitted URL, and the reply material (short URL, anchor) describes
    /// it. On any failure the store is unchanged; a malformed submission is
    /// answered as the client's error, everything else as the server's.
    pub fn store_url(&mut self, input: &str) -> (r: Result<LinkRecord, HtmlResponse>)
        requires
            old(self).wf(),
        ensures
            final(self).wf(),
            final(self).base_url() == old(self).base_url(),
            r matches Ok(rec) ==> {
                &&& is_valid_id(rec.id@)
                &&& normalized_url(input@) == Some(rec.url@)
                &&& joined_url(old(self).base_url(), rec.id@) == Some(rec.short_url@)
                &&& rec.html@ == anchor_of(rec.short_url@)
                &&& !old(self).contents().contains_key(rec.id@)
                &&& final(self).contents() == old(self).contents().insert(rec.id@, rec.url@)
            },
            r is Err ==> final(self).contents() == old(self).contents(),
            normalized_url(input@) is None ==> r is Err,
            r matches Err(e) ==> {
                ||| (normalized_url(input@) is None && e.status == STATUS_BAD_REQUEST && e.body@
                    == "invalid url"@)
                ||| (normalized_url(input@) is Some && e.status == STATUS_SERVER_ERROR && e.body@
                    == "server error"@)
            },
    {
        let rec = match prepare_store(input, self.base.as_str()) {
            Ok(rec) => rec,
            Err(e) => {
                return Err(e);
            },
        };
        match self.store.put(rec.id.clone(), rec.url.clone()) {
            Ok(_) => Ok(rec),
            Err(e) => Err(HtmlResponse::from_error(e)),
        }
    }

    /// The redirect flow. An id that holds a record resolves to exactly the
    /// URL stored under it; an id that holds none is answered "not found".
    pub fn redirect(&self, id: &str) -> (r: Result<String, HtmlResponse>)
        requires
            self.wf(),
        ensures
            r is Ok <==> self.contents().contains_key(id@),
            r matches Ok(loc) ==> loc@ == self.contents()[id@],
            r matches Err(e) ==> e.status == STATUS_NOT_FOUND && e.body@ == "not found"@,
    {
        match self.store.get(id) {
            Ok(u) => Ok(u),
            Err(e) => Err(HtmlResponse::from_error(e)),
        }
    }
}

/// Round trip: in the state a successful store flow leaves behind — the
/// fresh id now mapping to the canonical form of the submitted URL — a
/// lookup of that id finds a record, and its target is exactly that
/// canonical form.
pub proof fn lemma_store_then_lookup(
    pre: Map<Seq<char>, Seq<char>>,
    input: Seq<char>,
    id: Seq<char>,
    url: Seq<char>,
)
    requires
        normalized_url(input) == Some(url),
    ensures
        pre.insert(id, url).contains_key(id),
        pre.insert(id, url)[id] == url,
        Some(pre.insert(id, url)[id]) == normalized_url(input),
{
}

/// No deduplication: two successful store flows hand out distinct ids, even
/// for one and the same URL. The first flow's id holds a record once it
/// succeeds, and a store flow only succeeds on an id that held none.
pub proof fn lemma_successful_stores_give_distinct_ids(
    pre: Map<Seq<char>, Seq<char>>,
    id1: Seq<char>,
    url1: Seq<char>,
    id2: Seq<char>,
)
    requires
        !pre.contains_key(id1),
        !pre.insert(id1, url1).contains_key(id2),
    ensures
        id1 != id2,
{
}

} // verus!
