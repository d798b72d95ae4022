use crate::codes::{generate_short_code, is_valid_code};
use crate::models::{CreateUrlResponse, UrlError, UrlStatsResponse};
use crate::store::{bump, Mapping, UrlStore};
use vstd::prelude::*;

verus! {

/// Upper bound on insert attempts before the shorten service fails closed.
pub const MAX_ATTEMPTS: u64 = 5;

/// The model entry that a fresh shorten success stores.
pub open spec fn fresh_mapping(url: Seq<char>, created_at: i64) -> Mapping {
    Mapping { url: url, created_at: created_at, visit_count: 0 }
}

/// The fully qualified short URL for a code: the base URL, a slash, the code.
pub open spec fn short_url_of(base: Seq<char>, code: Seq<char>) -> Seq<char> {
    base + seq!['/'] + code
}

/// Builds the short URL that a shorten response reports.
pub fn make_short_url(base_url: &String, code: &String) -> (r: String)
    ensures
        r@ == short_url_of(base_url@, code@),
{
    let mut s = base_url.clone();
    s.append("/");
    s.append(code.as_str());
    proof {
        reveal_strlit("/");
        assert(s@ =~= short_url_of(base_url@, code@));
    }
    s
}

/// The decision core of the shorten service, with the candidate codes drawn
/// for the request handed in: tries them in order and stores the first that
/// is free. Succeeds if and only if some candidate is free; an exhausted
/// candidate list surfaces a collision failure and leaves the store as it
/// was.
pub fn shorten_with_candidates(
    store: &mut UrlStore,
    original_url: &String,
    base_url: &String,
    created_at: i64,
    candidates: &Vec<String>,
) -> (r: Result<CreateUrlResponse, UrlError>)
    requires
        old(store).wf(),
    ensures
        final(store).wf(),
        match r {
            Ok(resp) => exists|k: int|
                {
                    &&& 0 <= k < candidates@.len()
                    &&& resp.short_code@ == candidates@[k]@
                    &&& !old(store)@.contains_key(candidates@[k]@)
                    &&& (forall|j: int|
                        0 <= j < k ==> old(store)@.contains_key(#[trigger] candidates@[j]@))
                    &&& final(store)@ == old(store)@.insert(
                        candidates@[k]@,
                        fresh_mapping(original_url@, created_at),
                    )
                    &&& resp.short_url@ == short_url_of(base_url@, resp.short_code@)
                },
            Err(e) => {
                &&& e == UrlError::Collision
                &&& (forall|j: int|
                    0 <= j < candidates@.len() ==> old(store)@.contains_key(
                        #[trigger] candidates@[j]@,
                    ))
                &&& final(store)@ == old(store)@
            },
        },
{
    let mut i: usize = 0;
    while i < candidates.len()
        invariant
            store.wf(),
            store@ == old(store)@,
            i <= candidates@.len(),
            forall|j: int| 0 <= j < i ==> old(store)@.contains_key(#[trigger] candidates@[j]@),
        decreases candidates@.len() - i,
    {
        let code = &candidates[i];
        match store.insert(code, original_url, created_at) {
            Ok(_) => {
                let short_url = make_short_url(base_url, code);
                return Ok(CreateUrlResponse { short_code: code.clone(), short_url: short_url });
            },
            Err(_) => {
                i = i + 1;
            },
        }
    }
    Err(UrlError::Collision)
}

/// Shorten Service: draws up to `MAX_ATTEMPTS` candidate codes and stores
/// the first free one under a zero visit count. On success the response
/// carries a well-formed fresh code and the short URL built from `base_url`;
/// after `MAX_ATTEMPTS` collisions it fails closed with a collision error
/// and the store is unchanged. Failure can only happen when some valid code
/// is already taken: on a store that holds no valid code — the empty store
/// in particular — success is owed.
pub fn shorten(
    store: &mut UrlStore,
    original_url: &String,
    base_url: &String,
    created_at: i64,
) -> (r: Result<CreateUrlResponse, UrlError>)
    requires
        old(store).wf(),
    ensures
        final(store).wf(),
        match r {
            Ok(resp) => {
                &&& is_valid_code(resp.short_code@)
                &&& !old(store)@.contains_key(resp.short_code@)
                &&& final(store)@ == old(store)@.insert(
                    resp.short_code@,
                    fresh_mapping(original_url@, created_at),
                )
                &&& resp.short_url@ == short_url_of(base_url@, resp.short_code@)
            },
            Err(e) => {
                &&& e == UrlError::Collision
                &&& final(store)@ == old(store)@
                &&& exists|c: Seq<char>| is_valid_code(c) && #[trigger] old(store)@.contains_key(c)
            },
        },
{
    let mut candidates: Vec<String> = Vec::new();
    let mut i: u64 = 0;
    while i < MAX_ATTEMPTS
        invariant
            i <= MAX_ATTEMPTS,
            candidates@.len() == i,
            forall|j: int| 0 <= j < candidates@.len() ==> is_valid_code(#[trigger] candidates@[j]@),
        decreases MAX_ATTEMPTS - i,
    {
        candidates.push(generate_short_code());
        i = i + 1;
    }
    let r = shorten_with_candidates(store, original_url, base_url, created_at, &candidates);
    proof {
        if r is Err {
            assert(is_valid_code(candidates@[0]@));
            assert(old(store)@.contains_key(candidates@[0]@));
        }
    }
    r
}

/// Redirect Service: resolves a code to its original URL, counting the visit
/// in the same atomic store step, so that a visit is counted if and only if
/// a URL is returned. An unknown code reports `NotFound`, never a store
/// failure, and changes nothing.
pub fn resolve(store: &mut UrlStore, code: &String) -> (r: Result<String, UrlError>)
    requires
        old(store).wf(),
        old(store)@.contains_key(code@) ==> old(store)@[code@].visit_count < u64::MAX,
    ensures
        final(store).wf(),
        old(store)@.contains_key(code@) ==> {
            &&& (r matches Ok(u) && u@ == old(store)@[code@].url)
            &&& final(store)@ == bump(old(store)@, code@)
        },
        !old(store)@.contains_key(code@) ==> {
            &&& r == Err::<String, UrlError>(UrlError::NotFound)
            &&& final(store)@ == old(store)@
        },
{
    store.fetch_and_increment(code)
}

/// Stats Service: the read-only projection of one code's mapping — its
/// original URL, visit count and creation time. An unknown code reports
/// `NotFound`, never a store failure.
pub fn stats(store: &UrlStore, code: &String) -> (r: Result<UrlStatsResponse, UrlError>)
    requires
        store.wf(),
    ensures
        store@.contains_key(code@) ==> (r matches Ok(s) && s.original_url@ == store@[code@].url
            && s.visit_count == store@[code@].visit_count
            && s.created_at == store@[code@].created_at),
        !store@.contains_key(code@) ==> r == Err::<UrlStatsResponse, UrlError>(UrlError::NotFound),
{
    match store.read(code) {
        Ok(row) => Ok(
            UrlStatsResponse {
                original_url: row.original_url,
                visit_count: row.visit_count,
                created_at: row.created_at,
            },
        ),
        Err(_) => Err(UrlError::NotFound),
    }
}

/// Retry policy of the shorten path: a collision is the only retryable
/// failure, and only while attempts remain; any other failure is terminal.
pub fn should_retry(e: &UrlError, attempts_made: u64) -> (r: bool)
    ensures
        r == (*e == UrlError::Collision && attempts_made < MAX_ATTEMPTS),
{
    match e {
        UrlError::Collision => attempts_made < MAX_ATTEMPTS,
        _ => false,
    }
}

/// Round trip: a successful shorten for `url` leaves the store mapping the
/// returned code to `url` with a zero visit count — so a resolve of that
/// code against the new store returns exactly `url`.
pub proof fn lemma_shorten_resolve_round_trip(
    pre: Map<Seq<char>, Mapping>,
    post: Map<Seq<char>, Mapping>,
    code: Seq<char>,
    url: Seq<char>,
    created_at: i64,
)
    requires
        !pre.contains_key(code),
        post == pre.insert(code, fresh_mapping(url, created_at)),
    ensures
        post.contains_key(code),
        post[code].url == url,
        post[code].visit_count == 0,
{
}

/// Idempotent read: the stats projection is a function of the store state
/// alone, so two reads of the same code against the same state agree on the
/// visit count, the URL and the creation time.
pub proof fn lemma_stats_idempotent(
    m: Map<Seq<char>, Mapping>,
    code: Seq<char>,
    first: Mapping,
    second: Mapping,
)
    requires
        m.contains_key(code),
        first == m[code],
        second == m[code],
    ensures
        first.visit_count == second.visit_count,
        first.url == second.url,
        first.created_at == second.created_at,
{
}

} // verus!
