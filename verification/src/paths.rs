//! A structured model of canonical filesystem paths.
//!
//! The surrounding process canonicalizes paths and splits them into
//! components before handing them to this crate; every path-valued
//! decision (relative placement, extension rewriting, sibling names)
//! is then made here, over plain component lists.

use vstd::prelude::*;

verus! {

/// A directory as a list of path components, outermost first.
#[derive(Clone, Debug)]
pub struct DirPath {
    pub comps: Vec<String>,
}

impl View for DirPath {
    type V = Seq<Seq<char>>;

    open spec fn view(&self) -> Seq<Seq<char>> {
        self.comps.deep_view()
    }
}

impl DirPath {
    /// An empty relative location.
    pub fn empty() -> (r: DirPath)
        ensures
            r@ == Seq::<Seq<char>>::empty(),
    {
        DirPath { comps: Vec::new() }
    }

    /// This directory extended by all components of `other`.
    pub fn join_dir(&self, other: &DirPath) -> (r: DirPath)
        ensures
            r@ == self@ + other@,
    {
        let mut comps: Vec<String> = Vec::new();
        let n = self.comps.len();
        let mut i: usize = 0;
        while i < n
            invariant
                i <= n,
                n == self.comps.len(),
                comps@.len() == i,
                forall|k: int| 0 <= k < i ==> comps@[k]@ == self@[k],
            decreases n - i,
        {
            comps.push(self.comps[i].clone());
            i = i + 1;
        }
        let m = other.comps.len();
        let mut j: usize = 0;
        while j < m
            invariant
                j <= m,
                m == other.comps.len(),
                n == self.comps.len(),
                comps@.len() == n + j,
                forall|k: int| 0 <= k < n ==> comps@[k]@ == self@[k],
                forall|k: int| 0 <= k < j ==> comps@[n + k]@ == other@[k],
            decreases m - j,
        {
            comps.push(other.comps[j].clone());
            j = j + 1;
        }
        proof {
            assert(comps.deep_view() =~= self@ + other@);
        }
        DirPath { comps }
    }

    /// Whether `prefix` is an initial run of this directory's components.
    pub fn starts_with(&self, prefix: &DirPath) -> (r: bool)
        ensures
            r == (prefix@.len() <= self@.len() && prefix@ == self@.take(prefix@.len() as int)),
    {
        let pn = prefix.comps.len();
        if pn > self.comps.len() {
            proof {
                assert(prefix@.len() > self@.len());
            }
            return false;
        }
        let mut i: usize = 0;
        while i < pn
            invariant
                i <= pn,
                pn == prefix.comps.len(),
                pn <= self.comps.len(),
                forall|j: int| 0 <= j < i ==> prefix@[j] == self@[j],
            decreases pn - i,
        {
            proof {
                assert(prefix@[i as int] == prefix.comps@[i as int]@);
                assert(self@[i as int] == self.comps@[i as int]@);
            }
            if !self.comps[i].eq(&prefix.comps[i]) {
                proof {
                    assert(prefix@[i as int] != self@[i as int]);
                    assert(self@.take(pn as int)[i as int] == self@[i as int]);
                }
                return false;
            }
            i = i + 1;
        }
        proof {
            assert(prefix@ =~= self@.take(pn as int));
        }
        true
    }

    /// The components after an initial run already known to match.
    pub fn skip_prefix(&self, count: usize) -> (r: DirPath)
        requires
            count <= self@.len(),
        ensures
            r@ == self@.skip(count as int),
    {
        let mut comps: Vec<String> = Vec::new();
        let n = self.comps.len();
        let mut i: usize = count;
        while i < n
            invariant
                count <= i <= n,
                n == self.comps.len(),
                comps@.len() == i - count,
                forall|k: int| 0 <= k < comps@.len() ==> comps@[k]@ == self@[count + k],
            decreases n - i,
        {
            comps.push(self.comps[i].clone());
            i = i + 1;
        }
        proof {
            assert(comps.deep_view() =~= self@.skip(count as int));
        }
        DirPath { comps }
    }

    /// The first `count` components.
    pub fn take_prefix(&self, count: usize) -> (r: DirPath)
        requires
            count <= self@.len(),
        ensures
            r@ == self@.take(count as int),
    {
        let mut comps: Vec<String> = Vec::new();
        let mut i: usize = 0;
        while i < count
            invariant
                i <= count,
                count <= self.comps.len(),
                comps@.len() == i,
                forall|k: int| 0 <= k < i ==> comps@[k]@ == self@[k],
            decreases count - i,
        {
            comps.push(self.comps[i].clone());
            i = i + 1;
        }
        proof {
            assert(comps.deep_view() =~= self@.take(count as int));
        }
        DirPath { comps }
    }

    /// The last component alone, as a relative location; empty when the
    /// directory itself is empty.
    pub fn last_component(&self) -> (r: DirPath)
        ensures
            self@.len() == 0 ==> r@ == Seq::<Seq<char>>::empty(),
            self@.len() > 0 ==> r@ == seq![self@.last()],
    {
        let n = self.comps.len();
        if n == 0 {
            DirPath { comps: Vec::new() }
        } else {
            let mut comps: Vec<String> = Vec::new();
            comps.push(self.comps[n - 1].clone());
            proof {
                assert(comps.deep_view() =~= seq![self@.last()]);
            }
            DirPath { comps }
        }
    }
}

/// A canonical file location: its directory, the file stem, and the
/// extension when one is present.
#[derive(Clone, Debug)]
pub struct FilePath {
    pub dir: DirPath,
    pub stem: String,
    pub ext: Option<String>,
}

/// The extension's characters, or the empty sequence when there is none.
pub open spec fn ext_chars(p: &FilePath) -> Seq<char> {
    match p.ext {
        Some(e) => e@,
        None => Seq::empty(),
    }
}

} // verus!
