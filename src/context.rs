//! The state of a host process and the handling of one request.
use vstd::prelude::*;
use crate::HostError;
use crate::message::{
    CorrelationId, MessageVersion, Query, RemoveResponsePayload, Request, RequestAction, Response,
    ResponseAction, SaveResponsePayload, SearchResponseHeaderPayload, SearchResponseSitePayload,
    VersionParts,
};
use crate::sanitize::{sanitized, QuerySanitizer};
use crate::schema::{current_row, init_tables, recorded_row, refused, rows_after_init, VersionRow};
use crate::sqlite::{
    self, at_current_schema, fts_matches, fts_snippet, in_transaction, matching_urls, schema_rows, stored_sites,
};
use crate::store::{
    self, after_remove, after_save, is_page, left_from, page_has_more, page_len, site_row,
    SiteMap, SiteRow,
};

verus! {

/// Where the store of a context lives.
#[derive(Clone, Copy, Debug, PartialEq, Eq, Structural)]
pub enum ConnectionMode {
    /// An empty database in memory, gone when the process ends.
    InMemory,
    /// A database file that outlives the process.
    Persistent,
}

/// One open store, with its schema brought up to date, and the sanitizer
/// that its searches use.
pub struct Context {
    mode: ConnectionMode,
    connection: rusqlite::Connection,
    sanitizer: QuerySanitizer,
}

impl Context {
    /// The pages saved in the store.
    pub closed spec fn sites(&self) -> SiteMap {
        stored_sites(self.connection)
    }

    /// The schema version rows of the store, most recently applied first.
    pub closed spec fn version_rows(&self) -> Option<Seq<VersionRow>> {
        schema_rows(self.connection)
    }

    /// Whether the store records the current schema version and has no
    /// transaction open, as every context once opened.
    pub closed spec fn wf(&self) -> bool {
        at_current_schema(self.connection) && !in_transaction(self.connection)
    }

    pub closed spec fn spec_mode(&self) -> ConnectionMode {
        self.mode
    }

    /// Where the store lives.
    pub fn mode(&self) -> (r: ConnectionMode)
        ensures
            r == self.spec_mode(),
    {
        self.mode
    }

    fn open(mode: ConnectionMode, opened: Result<rusqlite::Connection, rusqlite::Error>) -> (r: Result<Context, HostError>)
        ensures
            r matches Ok(c) ==> {
                &&& opened is Ok
                &&& !refused(schema_rows(opened->Ok_0))
                &&& c.spec_mode() == mode
                &&& c.sites() == stored_sites(opened->Ok_0)
                &&& c.version_rows() == rows_after_init(schema_rows(opened->Ok_0))
                &&& recorded_row(c.version_rows()) == Some(current_row())
                &&& c.wf()
            },
            r matches Err(e) ==> (e is Storage || e is RollbackFailed || (e is InvalidSchemaVersion
                && opened is Ok && refused(schema_rows(opened->Ok_0)))),
    {
        let mut connection = match opened {
            Ok(c) => c,
            Err(e) => return Err(HostError::Storage(e)),
        };
        init_tables(&mut connection)?;
        let sanitizer = match QuerySanitizer::new() {
            Ok(s) => s,
            Err(e) => return Err(HostError::Pattern(e)),
        };
        Ok(Context { mode, connection, sanitizer })
    }

    /// A context over a new, empty database in memory, with the current schema.
    pub fn in_memory() -> (r: Result<Context, HostError>)
        ensures
            r matches Ok(c) ==> {
                &&& c.spec_mode() == ConnectionMode::InMemory
                &&& c.sites() == Map::<Seq<char>, (Seq<char>, Seq<char>)>::empty()
                &&& c.version_rows() == Some(seq![current_row()])
                &&& c.wf()
            },
            r matches Err(e) ==> (e is Storage || e is RollbackFailed),
    {
        let opened = sqlite::open_in_memory();
        let r = Context::open(ConnectionMode::InMemory, opened);
        proof {
            if r is Ok {
                assert(r->Ok_0.sites() =~= Map::<Seq<char>, (Seq<char>, Seq<char>)>::empty());
            }
        }
        r
    }

    /// A context over the database file at `db_path`, created where there is
    /// none, with its schema brought up to the current version. A file whose
    /// recorded schema is newer, or cannot be read, is refused.
    pub fn persistent(db_path: &str) -> (r: Result<Context, HostError>)
        ensures
            r matches Ok(c) ==> {
                &&& c.spec_mode() == ConnectionMode::Persistent
                &&& recorded_row(c.version_rows()) == Some(current_row())
                &&& c.wf()
            },
            r matches Err(e) ==> (e is Storage || e is InvalidSchemaVersion || e is RollbackFailed),
    {
        Context::open(ConnectionMode::Persistent, sqlite::open_file(db_path))
    }
}

/// Whether `rs` is the answer to a save: one empty save response that
/// carries the request's version and correlation id.
pub open spec fn save_answer(rs: Seq<Response>, request: Request) -> bool {
    &&& rs.len() == 1
    &&& rs[0].answers(request)
    &&& rs[0].action is SaveResponse
}

/// Whether `rs` is the answer to a remove: one empty remove response that
/// carries the request's version and correlation id.
pub open spec fn remove_answer(rs: Seq<Response>, request: Request) -> bool {
    &&& rs.len() == 1
    &&& rs[0].answers(request)
    &&& rs[0].action is RemoveResponse
}

/// Whether `rs` are the frames of a search answer: a header with the query as
/// asked, the page number, the number of results and whether more follow,
/// then one frame per result of `found`, in its order. Every frame carries
/// `version` and `correlation_id`.
pub open spec fn search_frames(
    rs: Seq<Response>,
    version: VersionParts,
    correlation_id: Seq<char>,
    query: Seq<char>,
    page_num: usize,
    found: Seq<SiteRow>,
    more: bool,
) -> bool {
    &&& rs.len() == found.len() + 1
    &&& forall|i: int|
        0 <= i < rs.len() ==> (#[trigger] rs[i]).version@ == version && rs[i].correlation_id@
            == correlation_id
    &&& (rs[0].action matches ResponseAction::SearchResponseHeader { payload } && {
        &&& payload.query@ == query
        &&& payload.page_num == page_num
        &&& payload.page_length == found.len()
        &&& payload.has_more == more
    })
    &&& forall|i: int|
        1 <= i < rs.len() ==> ((#[trigger] rs[i]).action matches ResponseAction::SearchResponseSite {
            payload,
        } && site_row(payload) == found[i - 1])
}

/// The search result that a frame carries.
pub open spec fn frame_row(r: Response) -> SiteRow {
    match r.action {
        ResponseAction::SearchResponseSite { payload } => site_row(payload),
        _ => (Seq::empty(), Seq::empty(), Seq::empty()),
    }
}

/// The search results that the frames after the header carry, in order.
pub open spec fn frame_rows(rs: Seq<Response>) -> Seq<SiteRow> {
    rs.drop_first().map_values(|r: Response| frame_row(r))
}

/// Whether the header of a search answer reports more results.
pub open spec fn frame_more(rs: Seq<Response>) -> bool {
    match rs[0].action {
        ResponseAction::SearchResponseHeader { payload } => payload.has_more,
        _ => false,
    }
}

/// Builds the frames of a search answer: the header, then one frame per
/// result in the order given, each with the request's version and correlation id.
pub fn search_responses(
    version: &MessageVersion,
    correlation_id: &CorrelationId,
    query: &Query,
    page_num: usize,
    found: Vec<SearchResponseSitePayload>,
    has_more: bool,
) -> (r: Vec<Response>)
    ensures
        search_frames(
            r@,
            version@,
            correlation_id@,
            query@,
            page_num,
            found@.map_values(|p: SearchResponseSitePayload| site_row(p)),
            has_more,
        ),
{
    let ghost all = found@;
    let n = found.len();
    let header = Response {
        version: version.duplicate(),
        action: ResponseAction::SearchResponseHeader {
            payload: SearchResponseHeaderPayload {
                query: query.duplicate(),
                page_num,
                page_length: n,
                has_more,
            },
        },
        correlation_id: correlation_id.duplicate(),
    };
    let mut responses: Vec<Response> = vec![header];
    let mut rest = found;
    // Results are taken from the back and then put in order, so that each one
    // is moved, not copied.
    let mut reversed: Vec<Response> = Vec::new();
    let mut i: usize = 0;
    while i < n
        invariant
            n == all.len(),
            i <= n,
            rest@ == all.subrange(0, n - i),
            reversed@.len() == i,
            forall|k: int|
                0 <= k < i ==> {
                    &&& (#[trigger] reversed@[k]).version@ == version@
                    &&& reversed@[k].correlation_id@ == correlation_id@
                    &&& (reversed@[k].action matches ResponseAction::SearchResponseSite { payload }
                        && site_row(payload) == site_row(all[n - 1 - k]))
                },
        decreases n - i,
    {
        let site = rest.pop().unwrap();
        reversed.push(
            Response {
                version: version.duplicate(),
                action: ResponseAction::SearchResponseSite { payload: site },
                correlation_id: correlation_id.duplicate(),
            },
        );
        i = i + 1;
    }
    let mut j: usize = 0;
    while j < n
        invariant
            n == all.len(),
            j <= n,
            reversed@.len() == n - j,
            responses@.len() == 1 + j,
            forall|k: int|
                0 <= k < n - j ==> {
                    &&& (#[trigger] reversed@[k]).version@ == version@
                    &&& reversed@[k].correlation_id@ == correlation_id@
                    &&& (reversed@[k].action matches ResponseAction::SearchResponseSite { payload }
                        && site_row(payload) == site_row(all[n - 1 - k]))
                },
            responses@[0].version@ == version@,
            responses@[0].correlation_id@ == correlation_id@,
            (responses@[0].action matches ResponseAction::SearchResponseHeader { payload: h } && {
                &&& h.query@ == query@
                &&& h.page_num == page_num
                &&& h.page_length == n
                &&& h.has_more == has_more
            }),
            forall|k: int|
                1 <= k < 1 + j ==> {
                    &&& (#[trigger] responses@[k]).version@ == version@
                    &&& responses@[k].correlation_id@ == correlation_id@
                    &&& (responses@[k].action matches ResponseAction::SearchResponseSite { payload }
                        && site_row(payload) == site_row(all[k - 1]))
                },
        decreases n - j,
    {
        let r = reversed.pop().unwrap();
        responses.push(r);
        j = j + 1;
    }
    responses
}

/// Carries out a request on the store and builds its responses: one for a
/// save or a remove, a header and then one per result for a search. Every
/// response carries the request's version and correlation id. A storage
/// failure is passed on, with no response and the store unchanged.
pub fn handle_request(context: &mut Context, request: Request) -> (r: Result<Vec<Response>, HostError>)
    requires
        old(context).wf(),
    ensures
        final(context).wf(),
        final(context).spec_mode() == old(context).spec_mode(),
        final(context).version_rows() == old(context).version_rows(),
        request.action matches RequestAction::SaveRequest { payload } ==> {
            &&& (r matches Err(e) ==> e is Storage && final(context).sites() == old(context).sites())
            &&& (r matches Ok(rs) ==> {
                &&& final(context).sites() == after_save(
                    old(context).sites(),
                    payload.url@,
                    payload.title@,
                    payload.inner_text@,
                )
                &&& save_answer(rs@, request)
            })
        },
        request.action matches RequestAction::RemoveRequest { payload } ==> {
            &&& (r matches Err(e) ==> e is Storage && final(context).sites() == old(context).sites())
            &&& (r matches Ok(rs) ==> {
                &&& final(context).sites() == after_remove(old(context).sites(), payload.url@)
                &&& remove_answer(rs@, request)
            })
        },
        request.action matches RequestAction::SearchRequest { payload } ==> {
            &&& final(context).sites() == old(context).sites()
            &&& ((payload.page_length >= store::SQL_INT_MAX || payload.page_num * payload.page_length
                > store::SQL_INT_MAX) <==> (r matches Err(HostError::PageOutOfRange)))
            &&& (r matches Err(e) ==> (e is Storage || e is PageOutOfRange))
            &&& (r matches Ok(rs) ==> {
                &&& old(context).sites().dom().finite()
                &&& search_frames(
                    rs@,
                    request.version@,
                    request.correlation_id@,
                    payload.query@,
                    payload.page_num,
                    frame_rows(rs@),
                    frame_more(rs@),
                )
                &&& is_page(
                    old(context).sites(),
                    sanitized(payload.query@),
                    payload.page_num * payload.page_length,
                    payload.page_length as int,
                    frame_rows(rs@),
                    frame_more(rs@),
                )
            })
        },
{
    let version = request.version;
    let correlation_id = request.correlation_id;
    match request.action {
        RequestAction::SaveRequest { payload } => {
            store::upsert_site(&mut context.connection, &payload)?;
            let action = ResponseAction::SaveResponse { payload: SaveResponsePayload {  } };
            Ok(vec![Response { version, action, correlation_id }])
        },
        RequestAction::RemoveRequest { payload } => {
            store::remove(&mut context.connection, &payload)?;
            let action = ResponseAction::RemoveResponse { payload: RemoveResponsePayload {  } };
            Ok(vec![Response { version, action, correlation_id }])
        },
        RequestAction::SearchRequest { payload } => {
            let (found, more) = store::search_sites(&context.connection, &payload, &context.sanitizer)?;
            let ghost rows = found@.map_values(|p: SearchResponseSitePayload| site_row(p));
            let rs = search_responses(&version, &correlation_id, &payload.query, payload.page_num, found, more);
            proof {
                assert(frame_rows(rs@) =~= rows);
                assert(frame_more(rs@) == more);
            }
            Ok(rs)
        },
    }
}

/// Saving the same page twice leaves the store as saving it once does, with
/// one entry for its url, and both saves are answered alike.
pub proof fn lemma_save_twice(
    sites: SiteMap,
    url: Seq<char>,
    title: Seq<char>,
    text: Seq<char>,
    request: Request,
    first: Seq<Response>,
    second: Seq<Response>,
)
    requires
        save_answer(first, request),
        save_answer(second, request),
    ensures
        after_save(after_save(sites, url, title, text), url, title, text) == after_save(
            sites,
            url,
            title,
            text,
        ),
        after_save(sites, url, title, text)[url] == (title, text),
        first.len() == second.len() == 1,
        first[0].version@ == second[0].version@,
        first[0].correlation_id@ == second[0].correlation_id@,
        first[0].action is SaveResponse && second[0].action is SaveResponse,
{
    assert(after_save(after_save(sites, url, title, text), url, title, text) =~= after_save(
        sites,
        url,
        title,
        text,
    ));
}

/// Saving a url again replaces its title and text: the store is as if only
/// the second save had happened, and a page of search results lists the url
/// under the new title alone.
pub proof fn lemma_save_replaces(
    sites: SiteMap,
    url: Seq<char>,
    old_title: Seq<char>,
    old_text: Seq<char>,
    title: Seq<char>,
    text: Seq<char>,
    q: Seq<char>,
    offset: int,
    page_length: int,
    found: Seq<SiteRow>,
    more: bool,
)
    requires
        is_page(
            after_save(after_save(sites, url, old_title, old_text), url, title, text),
            q,
            offset,
            page_length,
            found,
            more,
        ),
    ensures
        after_save(after_save(sites, url, old_title, old_text), url, title, text) == after_save(
            sites,
            url,
            title,
            text,
        ),
        after_save(after_save(sites, url, old_title, old_text), url, title, text)[url] == (
            title,
            text,
        ),
        forall|i: int| 0 <= i < found.len() && (#[trigger] found[i]).0 == url ==> found[i].1 == title,
{
    assert(after_save(after_save(sites, url, old_title, old_text), url, title, text) =~= after_save(
        sites,
        url,
        title,
        text,
    ));
}

/// Once a url is removed no page of search results lists it; and where it was
/// the only saved page, a search then finds nothing and reports no more.
pub proof fn lemma_remove_then_search(
    sites: SiteMap,
    url: Seq<char>,
    q: Seq<char>,
    offset: int,
    page_length: int,
    found: Seq<SiteRow>,
    more: bool,
)
    requires
        offset >= 0,
        is_page(after_remove(sites, url), q, offset, page_length, found, more),
    ensures
        forall|i: int| 0 <= i < found.len() ==> (#[trigger] found[i]).0 != url,
        sites.dom() =~= set![url] ==> found.len() == 0 && !more,
{
    if sites.dom() =~= set![url] {
        assert(after_remove(sites, url).dom() =~= Set::<Seq<char>>::empty());
        assert(matching_urls(after_remove(sites, url), q) =~= Set::<Seq<char>>::empty());
    }
}

/// In a store that holds one page, a search finds that page, under its title
/// and with the snippet of its text, exactly where the query matches it, and reports no more.
pub proof fn lemma_single_page_search(
    url: Seq<char>,
    title: Seq<char>,
    text: Seq<char>,
    q: Seq<char>,
    page_length: int,
    found: Seq<SiteRow>,
    more: bool,
)
    requires
        page_length > 0,
        is_page(map![url => (title, text)], q, 0, page_length, found, more),
    ensures
        found.len() == (if fts_matches(q, title, text) {
            1int
        } else {
            0int
        }),
        !more,
        found.len() == 1 ==> found[0].0 == url && found[0].1 == title && found[0].2 == fts_snippet(q, text),
{
    let sites = map![url => (title, text)];
    if fts_matches(q, title, text) {
        assert(matching_urls(sites, q) =~= set![url]);
    } else {
        assert(matching_urls(sites, q) =~= Set::<Seq<char>>::empty());
    }
}

/// With pages of `page_length > 0`, a page after which `page_length + 1` or
/// more matches are left is full and reports more; otherwise it holds what is
/// left and reports no more.
pub proof fn lemma_pagination(count: nat, page_num: usize, page_length: usize)
    requires
        page_length > 0,
    ensures
        left_from(count as int, page_num * page_length) >= page_length + 1 ==> {
            &&& page_len(count as int, page_num * page_length, page_length as int) == page_length
            &&& page_has_more(count as int, page_num * page_length, page_length as int)
        },
        left_from(count as int, page_num * page_length) <= page_length ==> {
            &&& page_len(count as int, page_num * page_length, page_length as int) == left_from(
                count as int,
                page_num * page_length,
            )
            &&& !page_has_more(count as int, page_num * page_length, page_length as int)
        },
{
}

} // verus!
