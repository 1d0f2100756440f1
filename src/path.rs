//! Paths as sequences of components, and the mapping of a source entry to its
//! destination.
use vstd::prelude::*;

verus! {

/// A filesystem path, held as its components (a root marker, if any, is a
/// component of its own).
pub struct FsPath {
    pub parts: Vec<String>,
}

impl View for FsPath {
    type V = Seq<Seq<char>>;

    open spec fn view(&self) -> Seq<Seq<char>> {
        self.parts@.map_values(|s: String| s@)
    }
}

/// `p` lies strictly below `root`: `root` is a proper prefix of `p`.
pub open spec fn is_strictly_under(p: Seq<Seq<char>>, root: Seq<Seq<char>>) -> bool {
    root.len() < p.len() && p.subrange(0, root.len() as int) == root
}

/// The components of `p` after those of `root`.
pub open spec fn relative_to(p: Seq<Seq<char>>, root: Seq<Seq<char>>) -> Seq<Seq<char>> {
    p.subrange(root.len() as int, p.len() as int)
}

/// Where an entry `p` below `from` lands below `to`: its relative path joined
/// onto `to`.
pub open spec fn relocated(
    p: Seq<Seq<char>>,
    from: Seq<Seq<char>>,
    to: Seq<Seq<char>>,
) -> Seq<Seq<char>> {
    to + relative_to(p, from)
}

impl FsPath {
    /// An independent copy with the same components.
    pub fn duplicate(&self) -> (r: FsPath)
        ensures
            r@ == self@,
    {
        let mut parts: Vec<String> = Vec::new();
        let mut i: usize = 0;
        while i < self.parts.len()
            invariant
                i <= self.parts.len(),
                parts@.len() == i,
                forall|j: int| 0 <= j < i ==> parts@[j]@ == self.parts@[j]@,
            decreases self.parts.len() - i,
        {
            parts.push(self.parts[i].clone());
            i += 1;
        }
        let r = FsPath { parts };
        assert(r@ =~= self@);
        r
    }

    /// Maps this path, which must lie strictly below `from`, to the same
    /// relative position below `to`. Returns `None` when it does not lie
    /// strictly below `from` (the relative path cannot be computed).
    pub fn relocate(&self, from: &FsPath, to: &FsPath) -> (r: Option<FsPath>)
        ensures
            r.is_some() <==> is_strictly_under(self@, from@),
            r matches Some(q) ==> q@ == relocated(self@, from@, to@),
    {
        let n = from.parts.len();
        let m = self.parts.len();
        if n >= m {
            return None;
        }
        let mut i: usize = 0;
        while i < n
            invariant
                n == from.parts.len(),
                m == self.parts.len(),
                n < m,
                i <= n,
                forall|j: int| 0 <= j < i ==> self.parts@[j]@ == from.parts@[j]@,
            decreases n - i,
        {
            if !(self.parts[i] == from.parts[i]) {
                assert(self@.subrange(0, n as int)[i as int] != from@[i as int]);
                return None;
            }
            i += 1;
        }
        assert(self@.subrange(0, n as int) =~= from@);
        let mut parts = to.duplicate().parts;
        let base = parts.len();
        let mut k: usize = n;
        while k < m
            invariant
                n <= k <= m,
                m == self.parts.len(),
                base == to@.len(),
                parts@.len() == base + (k - n),
                forall|j: int| 0 <= j < base ==> parts@[j]@ == to@[j],
                forall|j: int| n <= j < k ==> parts@[base + j - n]@ == self.parts@[j]@,
            decreases m - k,
        {
            parts.push(self.parts[k].clone());
            k += 1;
        }
        let q = FsPath { parts };
        assert(q@ =~= relocated(self@, from@, to@));
        Some(q)
    }
}

} // verus!
