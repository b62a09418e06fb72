//! The content store: saving, forgetting and searching pages.
use vstd::prelude::*;
use crate::HostError;
use crate::message::{
    RemoveRequestPayload, SaveRequestPayload, SearchRequestPayload, SearchResponseSitePayload,
    Snippet, Title, Url,
};
use crate::sanitize::{sanitized, QuerySanitizer};
use crate::sqlite::{
    self, at_current_schema, fts_matches, fts_snippet, in_transaction, matching_urls, schema_rows, stored_sites, REMOVE_SITE,
    SEARCH_SITES, UPSERT_SITE,
};

verus! {

/// The saved pages: url to title and text.
pub type SiteMap = Map<Seq<char>, (Seq<char>, Seq<char>)>;

/// The pages after saving `url` with `title` and `text`: a new entry, or the
/// old one replaced.
pub open spec fn after_save(sites: SiteMap, url: Seq<char>, title: Seq<char>, text: Seq<char>) -> SiteMap {
    sites.insert(url, (title, text))
}

/// The pages after forgetting `url`; the same pages where it was not saved.
pub open spec fn after_remove(sites: SiteMap, url: Seq<char>) -> SiteMap {
    sites.remove(url)
}

/// How many matches are left from `offset` on, when there are `count`.
pub open spec fn left_from(count: int, offset: int) -> int {
    if count > offset {
        count - offset
    } else {
        0
    }
}

/// How many results a page of `page_length` at `offset` holds, of `count` matches.
pub open spec fn page_len(count: int, offset: int, page_length: int) -> int {
    if left_from(count, offset) < page_length {
        left_from(count, offset)
    } else {
        page_length
    }
}

/// Whether matches are left after a page of `page_length` at `offset`, of
/// `count` matches. A page of length zero never reports more.
pub open spec fn page_has_more(count: int, offset: int, page_length: int) -> bool {
    page_length > 0 && left_from(count, offset) > page_length
}

/// A search result as plain text: url, title and snippet.
pub type SiteRow = (Seq<char>, Seq<char>, Seq<char>);

/// The plain text of a search result.
pub open spec fn site_row(p: SearchResponseSitePayload) -> SiteRow {
    (p.url@, p.title@, p.snippet@)
}

/// Whether `found` and `more` are a right page of results for the full-text
/// query `q` in a store with pages `sites`: as many results as the page holds
/// of the matches left from `offset`, each a distinct saved page that `q`
/// matches, with its saved title and the snippet of its text for `q`; and
/// whether matches are left after it.
pub open spec fn is_page(
    sites: SiteMap,
    q: Seq<char>,
    offset: int,
    page_length: int,
    found: Seq<SiteRow>,
    more: bool,
) -> bool {
    let count = matching_urls(sites, q).len() as int;
    &&& found.len() == page_len(count, offset, page_length)
    &&& more == page_has_more(count, offset, page_length)
    &&& forall|i: int|
        0 <= i < found.len() ==> {
            &&& matching_urls(sites, q).contains(#[trigger] found[i].0)
            &&& sites[found[i].0].0 == found[i].1
            &&& found[i].2 == fts_snippet(q, sites[found[i].0].1)
        }
    &&& forall|i: int, j: int| 0 <= i < j < found.len() ==> (#[trigger] found[i]).0 != (#[trigger] found[j]).0
}

/// The largest value of a signed 64-bit integer, which bounds the storage
/// engine's row limits and offsets.
pub const SQL_INT_MAX: u64 = 0x7fff_ffff_ffff_ffff;

/// Saves a page under its url, replacing what was saved there before.
pub fn upsert_site(connection: &mut rusqlite::Connection, payload: &SaveRequestPayload) -> (r: Result<(), HostError>)
    ensures
        r is Ok && at_current_schema(*old(connection)) ==> stored_sites(*final(connection)) == after_save(
            stored_sites(*old(connection)),
            payload.url@,
            payload.title@,
            payload.inner_text@,
        ),
        r is Err && !in_transaction(*old(connection)) ==> stored_sites(*final(connection)) == stored_sites(
            *old(connection),
        ),
        r is Ok || !in_transaction(*old(connection)) ==> schema_rows(*final(connection)) == schema_rows(
            *old(connection),
        ),
        !in_transaction(*old(connection)) ==> !in_transaction(*final(connection)),
        r matches Err(e) ==> e is Storage,
{
    let args = [payload.url.as_str(), payload.title.as_str(), payload.inner_text.as_str()];
    match sqlite::execute(connection, UPSERT_SITE, &args) {
        Ok(_) => Ok(()),
        Err(e) => Err(HostError::Storage(e)),
    }
}

/// Forgets the page saved under a url; nothing happens where there is none.
pub fn remove(connection: &mut rusqlite::Connection, payload: &RemoveRequestPayload) -> (r: Result<(), HostError>)
    ensures
        r is Ok && at_current_schema(*old(connection)) ==> stored_sites(*final(connection)) == after_remove(
            stored_sites(*old(connection)),
            payload.url@,
        ),
        r is Err && !in_transaction(*old(connection)) ==> stored_sites(*final(connection)) == stored_sites(
            *old(connection),
        ),
        r is Ok || !in_transaction(*old(connection)) ==> schema_rows(*final(connection)) == schema_rows(
            *old(connection),
        ),
        !in_transaction(*old(connection)) ==> !in_transaction(*final(connection)),
        r matches Err(e) ==> e is Storage,
{
    let args = [payload.url.as_str()];
    match sqlite::execute(connection, REMOVE_SITE, &args) {
        Ok(_) => Ok(()),
        Err(e) => Err(HostError::Storage(e)),
    }
}

/// Keeps the first `page_length` of `rows` (url, title, snippet) as results,
/// and says whether a row was left over. A page of length zero never reports
/// more.
pub fn paginate(rows: &Vec<(String, String, String)>, page_length: usize) -> (r: (
    Vec<SearchResponseSitePayload>,
    bool,
))
    ensures
        r.0@.len() == if rows@.len() < page_length {
            rows@.len()
        } else {
            page_length as nat
        },
        forall|i: int|
            0 <= i < r.0@.len() ==> {
                &&& (#[trigger] r.0@[i]).url@ == rows@[i].0@
                &&& r.0@[i].title@ == rows@[i].1@
                &&& r.0@[i].snippet@ == rows@[i].2@
            },
        r.1 == (page_length > 0 && rows@.len() > page_length),
{
    let mut results: Vec<SearchResponseSitePayload> = Vec::new();
    let mut i: usize = 0;
    while i < rows.len() && i < page_length
        invariant
            i <= rows@.len(),
            i <= page_length,
            results@.len() == i,
            forall|k: int|
                0 <= k < i ==> {
                    &&& (#[trigger] results@[k]).url@ == rows@[k].0@
                    &&& results@[k].title@ == rows@[k].1@
                    &&& results@[k].snippet@ == rows@[k].2@
                },
        decreases rows@.len() - i,
    {
        let row = &rows[i];
        results.push(
            SearchResponseSitePayload {
                url: Url::new(row.0.clone()),
                title: Title::new(row.1.clone()),
                snippet: Snippet::new(row.2.clone()),
            },
        );
        i = i + 1;
    }
    let has_more = page_length > 0 && rows.len() > page_length;
    (results, has_more)
}

/// Searches the saved pages for the words of the query, best match first, and
/// returns one page of results and whether more follow.
///
/// The query is sanitized first, so that no character of it is read as the
/// index's query syntax. The page is `page_length` results from offset
/// `page_num * page_length`.
pub fn search_sites(
    connection: &rusqlite::Connection,
    payload: &SearchRequestPayload,
    sanitizer: &QuerySanitizer,
) -> (r: Result<(Vec<SearchResponseSitePayload>, bool), HostError>)
    ensures
        (payload.page_length >= SQL_INT_MAX || payload.page_num * payload.page_length > SQL_INT_MAX)
            <==> r matches Err(HostError::PageOutOfRange),
        r matches Err(e) ==> (e is Storage || e is PageOutOfRange),
        r matches Ok((found, more)) ==> (at_current_schema(*connection) ==> {
            &&& stored_sites(*connection).dom().finite()
            &&& is_page(
                stored_sites(*connection),
                sanitized(payload.query@),
                payload.page_num * payload.page_length,
                payload.page_length as int,
                found@.map_values(|p: SearchResponseSitePayload| site_row(p)),
                more,
            )
        }),
{
    let page_length = payload.page_length as u64;
    let page_num = payload.page_num as u64;
    if page_length >= SQL_INT_MAX {
        return Err(HostError::PageOutOfRange);
    }
    let offset = match page_num.checked_mul(page_length) {
        Some(o) => o,
        None => return Err(HostError::PageOutOfRange),
    };
    if offset > SQL_INT_MAX {
        return Err(HostError::PageOutOfRange);
    }
    let query = sanitizer.sanitize(payload.query.as_str());
    let limit = page_length + 1;
    let rows = match sqlite::query_sites(connection, SEARCH_SITES, query.as_str(), limit as i64, offset as i64) {
        Ok(rows) => rows,
        Err(e) => return Err(HostError::Storage(e)),
    };
    let (found, more) = paginate(&rows, payload.page_length);
    proof {
        if at_current_schema(*connection) {
            let q = sanitized(payload.query@);
            let sites = stored_sites(*connection);
            let view = found@.map_values(|p: SearchResponseSitePayload| site_row(p));
            assert forall|i: int| 0 <= i < view.len() implies {
                &&& matching_urls(sites, q).contains(#[trigger] view[i].0)
                &&& sites[view[i].0].0 == view[i].1
                &&& view[i].2 == fts_snippet(q, sites[view[i].0].1)
            } by {
                assert(found@[i].url@ == rows@[i].0@);
                assert(found@[i].snippet@ == rows@[i].2@);
                assert(fts_matches(q, sites[rows@[i].0@].0, sites[rows@[i].0@].1));
            }
            assert forall|i: int, j: int| 0 <= i < j < view.len() implies (#[trigger] view[i]).0 != (
            #[trigger] view[j]).0 by {
                assert(found@[i].url@ == rows@[i].0@);
                assert(found@[j].url@ == rows@[j].0@);
                assert(rows@[i].0@ != rows@[j].0@);
            }
        }
    }
    Ok((found, more))
}

} // verus!
