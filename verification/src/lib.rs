//! A small cross-environment persistence facade.
//!
//! A [`Store`] holds up to six optional candidate locations, one per
//! target-environment category.  Resolution picks the first populated
//! candidate of the chain that belongs to the active build target and
//! yields a single string: a filesystem path on desktop targets, or a
//! key for the browser's local storage on the sandboxed-web target.
//! The host program performs the actual I/O against the resolved
//! location; this crate supplies the resolution policy, the
//! home-marker expansion, and the binary-to-text codec that the
//! key-value backend stores.

pub mod codec;
pub mod error;
pub mod hashing;
pub mod homedir;

pub use crate::hashing::hash;

use crate::error::StoreError;
use crate::hashing::hash_of;
use vstd::prelude::*;

verus! {

/// The target-environment category a build is made for.  Desktop
/// targets resolve to filesystem paths; the sandboxed-web target
/// resolves to a key in the browser's local storage.
#[derive(Clone, Copy, Debug)]
pub enum Target {
    /// A Linux build.
    Linux,
    /// A macOS build.
    Macos,
    /// Another unix-family build.
    Unix,
    /// A Windows-family build.
    Windows,
    /// A sandboxed-web build.
    Browser,
}

/// The mathematical content of a [`Store`]: its six candidates as
/// optional character sequences.
pub ghost struct StoreView {
    /// The `linux` candidate.
    pub linux: Option<Seq<char>>,
    /// The `macos` candidate.
    pub macos: Option<Seq<char>>,
    /// The `unix` candidate.
    pub unix: Option<Seq<char>>,
    /// The `windows` candidate.
    pub windows: Option<Seq<char>>,
    /// The `generic` candidate.
    pub generic: Option<Seq<char>>,
    /// The `browser` candidate.
    pub browser: Option<Seq<char>>,
}

impl StoreView {
    /// A record with no candidate set.
    pub open spec fn empty() -> StoreView {
        StoreView {
            linux: None,
            macos: None,
            unix: None,
            windows: None,
            generic: None,
            browser: None,
        }
    }
}

/// A caller-populated set of named candidate storage locations.
pub struct Store {
    /// Candidate for Linux builds (falls back to `unix`, then `generic`).
    pub linux: Option<String>,
    /// Candidate for macOS builds (falls back to `unix`, then `generic`).
    pub macos: Option<String>,
    /// Candidate for other unix-family builds (falls back to `generic`).
    pub unix: Option<String>,
    /// Candidate for Windows-family builds (falls back to `generic`).
    pub windows: Option<String>,
    /// Fallback candidate for every target.
    pub generic: Option<String>,
    /// Key for the browser's local storage (falls back to a hash of `generic`).
    pub browser: Option<String>,
}

impl View for Store {
    type V = StoreView;

    open spec fn view(&self) -> StoreView {
        StoreView {
            linux: self.linux.deep_view(),
            macos: self.macos.deep_view(),
            unix: self.unix.deep_view(),
            windows: self.windows.deep_view(),
            generic: self.generic.deep_view(),
            browser: self.browser.deep_view(),
        }
    }
}

/// The first populated candidate of a fallback chain, if any.
pub open spec fn spec_first_some(cands: Seq<Option<Seq<char>>>) -> Option<Seq<char>>
    decreases cands.len(),
{
    if cands.len() == 0 {
        None
    } else if cands[0] is Some {
        cands[0]
    } else {
        spec_first_some(cands.drop_first())
    }
}

/// The ordered fallback chain evaluated for a desktop target.  The
/// sandboxed-web target does not use a plain chain: see
/// [`spec_filename`].
pub open spec fn spec_chain(s: StoreView, t: Target) -> Seq<Option<Seq<char>>> {
    match t {
        Target::Linux => seq![s.linux, s.unix, s.generic],
        Target::Macos => seq![s.macos, s.unix, s.generic],
        Target::Unix => seq![s.unix, s.generic],
        Target::Windows => seq![s.windows, s.generic],
        Target::Browser => seq![s.browser, s.generic],
    }
}

/// The resolved location of a record for a target: the first populated
/// candidate of the target's chain, except that on the sandboxed-web
/// target a missing `browser` key falls back to the hash of `generic`.
/// `None` when no candidate applies.
pub open spec fn spec_filename(s: StoreView, t: Target) -> Option<Seq<char>> {
    match t {
        Target::Browser => if s.browser is Some {
            s.browser
        } else if s.generic is Some {
            Some(hash_of(s.generic->0))
        } else {
            None
        },
        _ => spec_first_some(spec_chain(s, t)),
    }
}

impl Store {
    /// A record with no candidate set.
    pub fn new() -> (s: Store)
        ensures
            s@ == StoreView::empty(),
    {
        Store {
            linux: None,
            macos: None,
            unix: None,
            windows: None,
            generic: None,
            browser: None,
        }
    }

    /// Resolves the record to the single location used on `target`:
    /// the first populated candidate of the target's fallback chain.
    /// On the sandboxed-web target, a missing `browser` key falls back
    /// to the hash of `generic`.  With no applicable candidate set,
    /// resolution fails with a configuration error.
    pub fn filename(&self, target: Target) -> (r: Result<String, StoreError>)
        ensures
            r matches Ok(f) ==> Some(f@) == spec_filename(self@, target),
            r matches Err(e) ==> (spec_filename(self@, target) is None && e is NoCandidate),
    {
        match target {
            Target::Browser => {
                if let Some(browser) = &self.browser {
                    Ok(browser.clone())
                } else if let Some(generic) = &self.generic {
                    Ok(hash(generic.as_str()))
                } else {
                    Err(StoreError::NoCandidate)
                }
            },
            Target::Linux => {
                let chain = [self.linux.as_ref(), self.unix.as_ref(), self.generic.as_ref()];
                let slice = chain.as_slice();
                proof {
                    assert(slice.deep_view() =~= spec_chain(self@, target));
                }
                resolve_chain(slice)
            },
            Target::Macos => {
                let chain = [self.macos.as_ref(), self.unix.as_ref(), self.generic.as_ref()];
                let slice = chain.as_slice();
                proof {
                    assert(slice.deep_view() =~= spec_chain(self@, target));
                }
                resolve_chain(slice)
            },
            Target::Unix => {
                let chain = [self.unix.as_ref(), self.generic.as_ref()];
                let slice = chain.as_slice();
                proof {
                    assert(slice.deep_view() =~= spec_chain(self@, target));
                }
                resolve_chain(slice)
            },
            Target::Windows => {
                let chain = [self.windows.as_ref(), self.generic.as_ref()];
                let slice = chain.as_slice();
                proof {
                    assert(slice.deep_view() =~= spec_chain(self@, target));
                }
                resolve_chain(slice)
            },
        }
    }

    /// Sets the `linux` candidate, overwriting any prior value.
    pub fn with_linux(&mut self, linux: &str) -> (r: &mut Store)
        ensures
            r@ == (StoreView { linux: Some(linux@), ..old(self)@ }),
            *final(self) == *final(r),
    {
        self.linux = Some(linux.to_owned());
        self
    }

    /// Sets the `macos` candidate, overwriting any prior value.
    pub fn with_macos(&mut self, macos: &str) -> (r: &mut Store)
        ensures
            r@ == (StoreView { macos: Some(macos@), ..old(self)@ }),
            *final(self) == *final(r),
    {
        self.macos = Some(macos.to_owned());
        self
    }

    /// Sets the `unix` candidate, overwriting any prior value.
    pub fn with_unix(&mut self, unix: &str) -> (r: &mut Store)
        ensures
            r@ == (StoreView { unix: Some(unix@), ..old(self)@ }),
            *final(self) == *final(r),
    {
        self.unix = Some(unix.to_owned());
        self
    }

    /// Sets the `windows` candidate, overwriting any prior value.
    pub fn with_windows(&mut self, windows: &str) -> (r: &mut Store)
        ensures
            r@ == (StoreView { windows: Some(windows@), ..old(self)@ }),
            *final(self) == *final(r),
    {
        self.windows = Some(windows.to_owned());
        self
    }

    /// Sets the `generic` candidate, overwriting any prior value.
    pub fn with_generic(&mut self, generic: &str) -> (r: &mut Store)
        ensures
            r@ == (StoreView { generic: Some(generic@), ..old(self)@ }),
            *final(self) == *final(r),
    {
        self.generic = Some(generic.to_owned());
        self
    }

    /// Sets the `browser` candidate, overwriting any prior value.
    pub fn with_browser(&mut self, browser: &str) -> (r: &mut Store)
        ensures
            r@ == (StoreView { browser: Some(browser@), ..old(self)@ }),
            *final(self) == *final(r),
    {
        self.browser = Some(browser.to_owned());
        self
    }
}

/// Skipping a prefix of unpopulated candidates does not change what a
/// chain resolves to.
proof fn lemma_first_some_skip(cands: Seq<Option<Seq<char>>>, k: int)
    requires
        0 <= k <= cands.len(),
        forall|j: int| 0 <= j < k ==> cands[j] is None,
    ensures
        spec_first_some(cands) == spec_first_some(cands.skip(k)),
    decreases k,
{
    if k == 0 {
        assert(cands.skip(0) =~= cands);
    } else {
        assert(cands[0] is None);
        assert(cands.drop_first() =~= cands.skip(1));
        assert forall|j: int| 0 <= j < k - 1 implies cands.skip(1)[j] is None by {
            assert(cands[j + 1] is None);
        }
        lemma_first_some_skip(cands.skip(1), k - 1);
        assert(cands.skip(1).skip(k - 1) =~= cands.skip(k));
    }
}

/// A chain resolves exactly when one of its candidates is populated.
proof fn lemma_first_some_exists(cands: Seq<Option<Seq<char>>>)
    ensures
        spec_first_some(cands) is Some <==> exists|i: int|
            0 <= i < cands.len() && cands[i] is Some,
    decreases cands.len(),
{
    if cands.len() > 0 {
        lemma_first_some_exists(cands.drop_first());
        if cands[0] is Some {
        } else if exists|i: int| 0 <= i < cands.len() && cands[i] is Some {
            let i = choose|i: int| 0 <= i < cands.len() && cands[i] is Some;
            assert(cands.drop_first()[i - 1] is Some);
        }
    }
}

/// Resolves one fallback chain: the first populated candidate, or a
/// configuration error when every candidate is unset.
fn resolve_chain(paths: &[Option<&String>]) -> (r: Result<String, StoreError>)
    ensures
        r matches Ok(f) ==> Some(f@) == spec_first_some(paths.deep_view()),
        r matches Err(e) ==> (spec_first_some(paths.deep_view()) is None && e is NoCandidate),
{
    let ghost cands = paths.deep_view();
    let n = paths.len();
    let mut i: usize = 0;
    let mut found: bool = false;
    while i < n
        invariant
            i <= n,
            n == cands.len(),
            cands == paths.deep_view(),
            found <==> exists|j: int| 0 <= j < i && cands[j] is Some,
        decreases n - i,
    {
        let cand = *vstd::slice::slice_index_get(paths, i);
        proof {
            assert(cands[i as int] == paths@[i as int].deep_view());
        }
        if cand.is_some() {
            found = true;
        }
        i = i + 1;
    }
    proof {
        lemma_first_some_exists(cands);
    }
    if found {
        Ok(find(paths))
    } else {
        Err(StoreError::NoCandidate)
    }
}

/// Returns the first populated candidate of `paths`.  At least one
/// candidate must be populated; [`Store::filename`] reports the empty
/// chain as a configuration error instead of calling this.
pub fn find(paths: &[Option<&String>]) -> (r: String)
    requires
        spec_first_some(paths.deep_view()) is Some,
    ensures
        Some(r@) == spec_first_some(paths.deep_view()),
{
    let ghost cands = paths.deep_view();
    let n = paths.len();
    let mut i: usize = 0;
    while i < n
        invariant
            i <= n,
            n == cands.len(),
            cands == paths.deep_view(),
            spec_first_some(cands) is Some,
            forall|j: int| 0 <= j < i ==> cands[j] is None,
        decreases n - i,
    {
        let cand = *vstd::slice::slice_index_get(paths, i);
        if let Some(path) = cand {
            proof {
                lemma_first_some_skip(cands, i as int);
                assert(cands.skip(i as int)[0] == cands[i as int]);
            }
            return path.clone();
        }
        proof {
            assert(cands[i as int] is None);
        }
        i = i + 1;
    }
    proof {
        lemma_first_some_skip(cands, n as int);
        assert(cands.skip(n as int) =~= Seq::<Option<Seq<char>>>::empty());
        assert(false);
    }
    String::new()
}

/// Spells out a three-candidate fallback chain.
proof fn lemma_first_some_three(a: Option<Seq<char>>, b: Option<Seq<char>>, c: Option<Seq<char>>)
    ensures
        spec_first_some(seq![a, b, c]) == (if a is Some {
            a
        } else if b is Some {
            b
        } else {
            c
        }),
{
    lemma_first_some_two(b, c);
    let s2 = seq![b, c];
    let s3 = seq![a, b, c];
    assert(s3.drop_first() =~= s2);
    assert(spec_first_some(s3) == (if a is Some {
        a
    } else {
        spec_first_some(s2)
    }));
}

/// Spells out a two-candidate fallback chain.
proof fn lemma_first_some_two(a: Option<Seq<char>>, b: Option<Seq<char>>)
    ensures
        spec_first_some(seq![a, b]) == (if a is Some {
            a
        } else {
            b
        }),
{
    let e = Seq::<Option<Seq<char>>>::empty();
    assert(spec_first_some(e) is None);
    let s1 = seq![b];
    assert(s1.drop_first() =~= e);
    assert(spec_first_some(s1) == (if b is Some {
        b
    } else {
        spec_first_some(e)
    }));
    let s2 = seq![a, b];
    assert(s2.drop_first() =~= s1);
    assert(spec_first_some(s2) == (if a is Some {
        a
    } else {
        spec_first_some(s1)
    }));
}

/// With only `generic` populated, every desktop target resolves to the
/// `generic` candidate verbatim, and the sandboxed-web target resolves
/// to its hash.
pub proof fn lemma_generic_only_resolution(s: StoreView, t: Target, g: Seq<char>)
    requires
        s.generic == Some(g),
        s.linux is None,
        s.macos is None,
        s.unix is None,
        s.windows is None,
        s.browser is None,
    ensures
        !(t is Browser) ==> spec_filename(s, t) == Some(g),
        t is Browser ==> spec_filename(s, t) == Some(hash_of(g)),
{
    lemma_first_some_three(s.linux, s.unix, s.generic);
    lemma_first_some_three(s.macos, s.unix, s.generic);
    lemma_first_some_two(s.unix, s.generic);
    lemma_first_some_two(s.windows, s.generic);
}

/// If the candidate specific to the active target is populated,
/// resolution returns it, whatever the other fields hold.
pub proof fn lemma_specific_candidate_wins(s: StoreView, t: Target, v: Seq<char>)
    requires
        t is Linux ==> s.linux == Some(v),
        t is Macos ==> s.macos == Some(v),
        t is Unix ==> s.unix == Some(v),
        t is Windows ==> s.windows == Some(v),
        t is Browser ==> s.browser == Some(v),
    ensures
        spec_filename(s, t) == Some(v),
{
    lemma_first_some_three(s.linux, s.unix, s.generic);
    lemma_first_some_three(s.macos, s.unix, s.generic);
    lemma_first_some_two(s.unix, s.generic);
    lemma_first_some_two(s.windows, s.generic);
}

/// A record with no candidate populated fails resolution on every
/// target: there is no input on which an empty record yields a
/// location.
pub proof fn lemma_empty_record_fails(s: StoreView, t: Target)
    requires
        s == StoreView::empty(),
    ensures
        spec_filename(s, t) is None,
{
    lemma_first_some_three(s.linux, s.unix, s.generic);
    lemma_first_some_three(s.macos, s.unix, s.generic);
    lemma_first_some_two(s.unix, s.generic);
    lemma_first_some_two(s.windows, s.generic);
}

impl Default for Store {
    /// A record with no candidate set.
    fn default() -> (s: Store)
        ensures
            s@ == StoreView::empty(),
    {
        Store::new()
    }
}

} // verus!
