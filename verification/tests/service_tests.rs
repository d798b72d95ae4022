use url_shortener::codes::generate_short_code;
use url_shortener::models::UrlError;
use url_shortener::service::{
    make_short_url, resolve, shorten, shorten_with_candidates, should_retry, stats,
};
use url_shortener::store::UrlStore;

fn is_alphanumeric_ascii(c: char) -> bool {
    ('0'..='9').contains(&c) || ('A'..='Z').contains(&c) || ('a'..='z').contains(&c)
}

#[test]
fn generated_codes_are_fixed_length_alphanumeric() {
    for _ in 0..100 {
        let code = generate_short_code();
        assert_eq!(code.chars().count(), 6);
        assert!(code.chars().all(is_alphanumeric_ascii));
    }
}

#[test]
fn insert_collision_preserves_original_row() {
    let mut store = UrlStore::new();
    let code = String::from("abc123");
    let first_url = String::from("https://example.com/first");
    let second_url = String::from("https://example.com/second");

    let first = store.insert(&code, &first_url, 11).expect("first insert succeeds");
    assert_eq!(first.id, "abc123");
    assert_eq!(first.original_url, first_url);
    assert_eq!(first.created_at, 11);
    assert_eq!(first.visit_count, 0);

    let second = store.insert(&code, &second_url, 99);
    assert_eq!(second.unwrap_err(), UrlError::Collision);

    let kept = stats(&store, &code).expect("row still there");
    assert_eq!(kept.original_url, first_url);
    assert_eq!(kept.created_at, 11);
    assert_eq!(kept.visit_count, 0);
}

#[test]
fn shorten_then_resolve_round_trip() {
    let mut store = UrlStore::new();
    let url = String::from("https://example.com/some/long/path");
    let base = String::from("http://localhost:4000");

    let resp = shorten(&mut store, &url, &base, 5).expect("shorten succeeds");
    assert_eq!(resp.short_code.len(), 6);
    assert_eq!(resp.short_url, format!("{}/{}", base, resp.short_code));

    let resolved = resolve(&mut store, &resp.short_code).expect("code resolves");
    assert_eq!(resolved, url);
}

#[test]
fn fifty_redirects_count_fifty() {
    let mut store = UrlStore::new();
    let url = String::from("https://example.com/busy");
    let base = String::from("http://localhost:4000");
    let resp = shorten(&mut store, &url, &base, 0).expect("shorten succeeds");

    for _ in 0..50 {
        let resolved = resolve(&mut store, &resp.short_code).expect("code resolves");
        assert_eq!(resolved, url);
    }

    let s = stats(&store, &resp.short_code).expect("stats succeeds");
    assert_eq!(s.visit_count, 50);
}

#[test]
fn repeated_stats_reads_are_identical() {
    let mut store = UrlStore::new();
    let code = String::from("qwerty");
    let url = String::from("https://example.com/q");
    store.insert(&code, &url, 3).expect("insert succeeds");
    resolve(&mut store, &code).expect("code resolves");

    let first = stats(&store, &code).expect("stats succeeds");
    let second = stats(&store, &code).expect("stats succeeds");
    assert_eq!(first.visit_count, second.visit_count);
    assert_eq!(first.original_url, second.original_url);
    assert_eq!(first.created_at, second.created_at);
    assert_eq!(first.visit_count, 1);
}

#[test]
fn unknown_code_is_not_found_for_resolve_and_stats() {
    let mut store = UrlStore::new();
    let code = String::from("nosuch");
    assert_eq!(resolve(&mut store, &code).unwrap_err(), UrlError::NotFound);
    assert_eq!(stats(&store, &code).unwrap_err(), UrlError::NotFound);

    let other = String::from("present");
    let url = String::from("https://example.com/p");
    store.insert(&other, &url, 1).expect("insert succeeds");
    assert_eq!(resolve(&mut store, &code).unwrap_err(), UrlError::NotFound);
    assert_eq!(stats(&store, &code).unwrap_err(), UrlError::NotFound);
}

#[test]
fn shorten_redirect_twice_then_stats_scenario() {
    let mut store = UrlStore::new();
    let url = String::from("https://example.com/a");
    let base = String::from("http://localhost:4000");

    let resp = shorten(&mut store, &url, &base, 42).expect("shorten succeeds");
    assert_eq!(resp.short_code.len(), 6);

    let first = resolve(&mut store, &resp.short_code).expect("code resolves");
    assert_eq!(first, "https://example.com/a");
    assert_eq!(stats(&store, &resp.short_code).unwrap().visit_count, 1);

    let second = resolve(&mut store, &resp.short_code).expect("code resolves");
    assert_eq!(second, "https://example.com/a");

    let s = stats(&store, &resp.short_code).expect("stats succeeds");
    assert_eq!(s.visit_count, 2);
    assert_eq!(s.original_url, "https://example.com/a");
    assert_eq!(s.created_at, 42);
}

#[test]
fn short_url_is_base_slash_code() {
    let base = String::from("http://localhost:4000");
    let code = String::from("aB3xYz");
    assert_eq!(make_short_url(&base, &code), "http://localhost:4000/aB3xYz");
}

#[test]
fn retry_policy_retries_collisions_within_budget_only() {
    assert!(should_retry(&UrlError::Collision, 0));
    assert!(should_retry(&UrlError::Collision, 4));
    assert!(!should_retry(&UrlError::Collision, 5));
    assert!(!should_retry(&UrlError::Store, 0));
    assert!(!should_retry(&UrlError::NotFound, 0));
}

#[test]
fn exhausted_candidates_fail_closed_and_change_nothing() {
    let mut store = UrlStore::new();
    let base = String::from("http://localhost:4000");
    let old_url = String::from("https://example.com/old");
    let taken_a = String::from("taken1");
    let taken_b = String::from("taken2");
    store.insert(&taken_a, &old_url, 1).expect("insert succeeds");
    store.insert(&taken_b, &old_url, 2).expect("insert succeeds");

    let new_url = String::from("https://example.com/new");
    let candidates = vec![taken_a.clone(), taken_b.clone(), taken_a.clone()];
    let r = shorten_with_candidates(&mut store, &new_url, &base, 9, &candidates);
    assert_eq!(r.unwrap_err(), UrlError::Collision);

    // The colliding attempts overwrote nothing.
    assert_eq!(stats(&store, &taken_a).unwrap().original_url, old_url);
    assert_eq!(stats(&store, &taken_a).unwrap().created_at, 1);
    assert_eq!(stats(&store, &taken_b).unwrap().original_url, old_url);
}

#[test]
fn first_free_candidate_is_taken_in_order() {
    let mut store = UrlStore::new();
    let base = String::from("http://localhost:4000");
    let old_url = String::from("https://example.com/old");
    let taken = String::from("taken1");
    store.insert(&taken, &old_url, 1).expect("insert succeeds");

    let new_url = String::from("https://example.com/new");
    let candidates = vec![taken.clone(), String::from("free01"), String::from("free02")];
    let r = shorten_with_candidates(&mut store, &new_url, &base, 9, &candidates)
        .expect("a free candidate exists");
    assert_eq!(r.short_code, "free01");
    assert_eq!(r.short_url, "http://localhost:4000/free01");
    assert_eq!(resolve(&mut store, &r.short_code).unwrap(), new_url);
}

#[test]
fn shorten_retries_collisions_and_inserts_fresh_code() {
    let mut store = UrlStore::new();
    let base = String::from("http://localhost:4000");
    // Two distinct shorten calls for the same URL yield two distinct codes:
    // the second sees the first one's row and may not reuse its code.
    let url = String::from("https://example.com/same");
    let a = shorten(&mut store, &url, &base, 1).expect("shorten succeeds");
    let b = shorten(&mut store, &url, &base, 2).expect("shorten succeeds");
    assert_ne!(a.short_code, b.short_code);
    assert_eq!(resolve(&mut store, &a.short_code).unwrap(), url);
    assert_eq!(resolve(&mut store, &b.short_code).unwrap(), url);
}
