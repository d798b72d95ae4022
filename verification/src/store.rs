use crate::models::{Url, UrlError};
use vstd::prelude::*;

verus! {

/// The mathematical content of one stored row: everything but the code,
/// which serves as the key of the store model.
pub ghost struct Mapping {
    pub url: Seq<char>,
    pub created_at: i64,
    pub visit_count: u64,
}

/// The model entry that a row carries.
pub open spec fn row_model(r: Url) -> Mapping {
    Mapping { url: r.original_url@, created_at: r.created_at, visit_count: r.visit_count }
}

/// The store model after one counted visit to `code`: that mapping's visit
/// count is one higher, everything else unchanged.
pub open spec fn bump(m: Map<Seq<char>, Mapping>, code: Seq<char>) -> Map<Seq<char>, Mapping>
    recommends
        m.contains_key(code),
        m[code].visit_count < u64::MAX,
{
    m.insert(
        code,
        Mapping {
            url: m[code].url,
            created_at: m[code].created_at,
            visit_count: (m[code].visit_count + 1) as u64,
        },
    )
}

/// `bump` applied `k` times to the same code.
pub open spec fn bump_n(m: Map<Seq<char>, Mapping>, code: Seq<char>, k: nat) -> Map<
    Seq<char>,
    Mapping,
>
    decreases k,
{
    if k == 0 {
        m
    } else {
        bump(bump_n(m, code, (k - 1) as nat), code)
    }
}

/// Counter correctness: `k` counted visits to `code` raise its visit count by
/// exactly `k` and change nothing else — neither the code's URL and creation
/// time nor any other mapping.
pub proof fn lemma_visit_count_accumulates(m: Map<Seq<char>, Mapping>, code: Seq<char>, k: nat)
    requires
        m.contains_key(code),
        m[code].visit_count + k <= u64::MAX,
    ensures
        bump_n(m, code, k).contains_key(code),
        bump_n(m, code, k)[code].visit_count == m[code].visit_count + k,
        bump_n(m, code, k)[code].url == m[code].url,
        bump_n(m, code, k)[code].created_at == m[code].created_at,
        forall|c: Seq<char>|
            c != code ==> bump_n(m, code, k).contains_key(c) == #[trigger] m.contains_key(c),
        forall|c: Seq<char>|
            c != code && m.contains_key(c) ==> bump_n(m, code, k)[c] == #[trigger] m[c],
    decreases k,
{
    if k > 0 {
        lemma_visit_count_accumulates(m, code, (k - 1) as nat);
    }
}

/// In-memory realization of the persistence contract: a table of rows keyed
/// by their codes. Its model is the finite map from each live code to the
/// mathematical content of its row.
pub struct UrlStore {
    urls: Vec<Url>,
}

impl View for UrlStore {
    type V = Map<Seq<char>, Mapping>;

    closed spec fn view(&self) -> Map<Seq<char>, Mapping> {
        Map::new(
            |c: Seq<char>| exists|i: int| 0 <= i < self.urls@.len() && self.urls@[i].id@ == c,
            |c: Seq<char>|
                row_model(
                    self.urls@[choose|i: int|
                        0 <= i < self.urls@.len() && self.urls@[i].id@ == c],
                ),
        )
    }
}

impl UrlStore {
    /// Codes are unique across all live rows.
    pub closed spec fn wf(self) -> bool {
        forall|i: int, j: int|
            0 <= i < self.urls@.len() && 0 <= j < self.urls@.len() && i != j
                ==> self.urls@[i].id@ != self.urls@[j].id@
    }

    proof fn lemma_model_at(self, i: int)
        requires
            self.wf(),
            0 <= i < self.urls@.len(),
        ensures
            self@.contains_key(self.urls@[i].id@),
            self@[self.urls@[i].id@] == row_model(self.urls@[i]),
    {
        let c = self.urls@[i].id@;
        assert(0 <= i < self.urls@.len() && self.urls@[i].id@ == c);
        let j = choose|k: int| 0 <= k < self.urls@.len() && self.urls@[k].id@ == c;
        assert(j == i);
    }

    /// An empty store.
    pub fn new() -> (s: UrlStore)
        ensures
            s.wf(),
            s@ == Map::<Seq<char>, Mapping>::empty(),
    {
        let s = UrlStore { urls: Vec::new() };
        proof {
            assert(s@ =~= Map::<Seq<char>, Mapping>::empty());
        }
        s
    }

    fn find_index(&self, code: &String) -> (r: Option<usize>)
        requires
            self.wf(),
        ensures
            match r {
                Some(i) => {
                    &&& i < self.urls@.len()
                    &&& self.urls@[i as int].id@ == code@
                    &&& self@.contains_key(code@)
                    &&& self@[code@] == row_model(self.urls@[i as int])
                },
                None => !self@.contains_key(code@),
            },
    {
        let mut i: usize = 0;
        while i < self.urls.len()
            invariant
                self.wf(),
                i <= self.urls@.len(),
                forall|j: int| 0 <= j < i ==> self.urls@[j].id@ != code@,
            decreases self.urls@.len() - i,
        {
            if self.urls[i].id == *code {
                proof {
                    self.lemma_model_at(i as int);
                }
                return Some(i);
            }
            i = i + 1;
        }
        proof {
            if self@.contains_key(code@) {
                let k = choose|k: int| 0 <= k < self.urls@.len() && self.urls@[k].id@ == code@;
                assert(self.urls@[k].id@ != code@);
            }
        }
        None
    }

    /// Creates the mapping for `code` if and only if no row holds it yet.
    /// A collision leaves every existing row untouched; a success appends the
    /// new row with a zero visit count and hands back a copy of it.
    pub fn insert(&mut self, code: &String, original_url: &String, created_at: i64) -> (r: Result<
        Url,
        UrlError,
    >)
        requires
            old(self).wf(),
        ensures
            final(self).wf(),
            old(self)@.contains_key(code@) ==> {
                &&& r == Err::<Url, UrlError>(UrlError::Collision)
                &&& final(self)@ == old(self)@
            },
            !old(self)@.contains_key(code@) ==> {
                &&& final(self)@ == old(self)@.insert(
                    code@,
                    Mapping { url: original_url@, created_at: created_at, visit_count: 0 },
                )
                &&& (r matches Ok(row) && row.id@ == code@ && row.original_url@ == original_url@
                    && row.created_at == created_at && row.visit_count == 0)
            },
    {
        match self.find_index(code) {
            Some(_) => Err(UrlError::Collision),
            None => {
                let row = Url {
                    id: code.clone(),
                    original_url: original_url.clone(),
                    created_at: created_at,
                    visit_count: 0,
                };
                let copy = row.duplicate();
                let ghost pre = *self;
                let ghost the_row = row;
                self.urls.push(row);
                proof {
                    lemma_push_model(pre, *self, the_row);
                }
                Ok(copy)
            },
        }
    }

    /// The atomic read-and-count step of the redirect path: in one operation,
    /// increments the visit count of the row holding `code` and returns its
    /// original URL; reports `NotFound`, and changes nothing, when no row
    /// holds `code`.
    pub fn fetch_and_increment(&mut self, code: &String) -> (r: Result<String, UrlError>)
        requires
            old(self).wf(),
            old(self)@.contains_key(code@) ==> old(self)@[code@].visit_count < u64::MAX,
        ensures
            final(self).wf(),
            old(self)@.contains_key(code@) ==> {
                &&& final(self)@ == bump(old(self)@, code@)
                &&& (r matches Ok(u) && u@ == old(self)@[code@].url)
            },
            !old(self)@.contains_key(code@) ==> {
                &&& r == Err::<String, UrlError>(UrlError::NotFound)
                &&& final(self)@ == old(self)@
            },
    {
        match self.find_index(code) {
            None => Err(UrlError::NotFound),
            Some(i) => {
                let url = self.urls[i].original_url.clone();
                let count = self.urls[i].visit_count;
                let ghost pre = *self;
                self.urls[i].visit_count = count + 1;
                proof {
                    lemma_update_model(pre, *self, i as int);
                }
                Ok(url)
            },
        }
    }

    /// Plain lookup with no mutation: a copy of the row holding `code`, or
    /// `NotFound`.
    pub fn read(&self, code: &String) -> (r: Result<Url, UrlError>)
        requires
            self.wf(),
        ensures
            self@.contains_key(code@) ==> (r matches Ok(row) && row.id@ == code@
                && row.original_url@ == self@[code@].url
                && row.created_at == self@[code@].created_at
                && row.visit_count == self@[code@].visit_count),
            !self@.contains_key(code@) ==> r == Err::<Url, UrlError>(UrlError::NotFound),
    {
        match self.find_index(code) {
            Some(i) => Ok(self.urls[i].duplicate()),
            None => Err(UrlError::NotFound),
        }
    }
}

/// Appending a row with a fresh code extends the model by exactly that
/// code's mapping.
proof fn lemma_push_model(pre: UrlStore, post: UrlStore, row: Url)
    requires
        pre.wf(),
        !pre@.contains_key(row.id@),
        post.urls@ == pre.urls@.push(row),
    ensures
        post.wf(),
        post@ == pre@.insert(row.id@, row_model(row)),
{
    let n = pre.urls@.len() as int;
    assert(post.urls@[n] == row);
    assert forall|i: int| 0 <= i < pre.urls@.len() implies pre.urls@[i].id@ != row.id@ by {
        if pre.urls@[i].id@ == row.id@ {
            assert(pre@.contains_key(row.id@));
        }
    }
    assert(post.wf());
    let target = pre@.insert(row.id@, row_model(row));
    assert forall|c: Seq<char>| post@.contains_key(c) == target.contains_key(c) by {
        if c == row.id@ {
            post.lemma_model_at(n);
        } else {
            if post@.contains_key(c) {
                let i = choose|i: int| 0 <= i < post.urls@.len() && post.urls@[i].id@ == c;
                assert(0 <= i < pre.urls@.len() && pre.urls@[i].id@ == c);
                assert(pre@.contains_key(c));
            }
            if pre@.contains_key(c) {
                let i = choose|i: int| 0 <= i < pre.urls@.len() && pre.urls@[i].id@ == c;
                assert(post.urls@[i].id@ == c);
                assert(post@.contains_key(c));
            }
        }
    }
    assert forall|c: Seq<char>| post@.contains_key(c) implies post@[c] == target[c] by {
        if c == row.id@ {
            post.lemma_model_at(n);
        } else {
            let i = choose|i: int| 0 <= i < post.urls@.len() && post.urls@[i].id@ == c;
            assert(0 <= i < pre.urls@.len() && pre.urls@[i].id@ == c);
            pre.lemma_model_at(i);
            post.lemma_model_at(i);
        }
    }
    assert(post@ =~= target);
}

/// Replacing one row by another with the same code rewrites the model at
/// exactly that code.
proof fn lemma_update_model(pre: UrlStore, post: UrlStore, i: int)
    requires
        pre.wf(),
        0 <= i < pre.urls@.len(),
        post.urls@.len() == pre.urls@.len(),
        post.urls@ == pre.urls@.update(i, post.urls@[i]),
        post.urls@[i].id@ == pre.urls@[i].id@,
    ensures
        post.wf(),
        post@ == pre@.insert(pre.urls@[i].id@, row_model(post.urls@[i])),
{
    let code = pre.urls@[i].id@;
    assert forall|a: int|
        0 <= a < post.urls@.len() implies post.urls@[a].id@ == pre.urls@[a].id@ by {}
    assert(post.wf());
    let target = pre@.insert(code, row_model(post.urls@[i]));
    assert forall|c: Seq<char>| post@.contains_key(c) == target.contains_key(c) by {
        if c == code {
            post.lemma_model_at(i);
        } else {
            if post@.contains_key(c) {
                let a = choose|a: int| 0 <= a < post.urls@.len() && post.urls@[a].id@ == c;
                assert(pre.urls@[a].id@ == c);
            }
            if pre@.contains_key(c) {
                let a = choose|a: int| 0 <= a < pre.urls@.len() && pre.urls@[a].id@ == c;
                assert(post.urls@[a].id@ == c);
            }
        }
    }
    assert forall|c: Seq<char>| post@.contains_key(c) implies post@[c] == target[c] by {
        if c == code {
            post.lemma_model_at(i);
        } else {
            let a = choose|a: int| 0 <= a < post.urls@.len() && post.urls@[a].id@ == c;
            assert(a != i);
            assert(post.urls@[a] == pre.urls@[a]);
            pre.lemma_model_at(a);
            post.lemma_model_at(a);
        }
    }
    assert(post@ =~= target);
}

} // verus!
