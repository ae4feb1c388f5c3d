use vstd::prelude::*;

verus! {

/// An opaque selection handle handed out by a navigation index. It names a
/// slot of one particular build of the index.
#[derive(Debug, Clone, Copy, PartialEq, Eq, Structural)]
pub struct NavHandle {
    pub generation: u64,
    pub slot: usize,
}

/// One entry of the navigation index.
#[derive(Debug, Clone, Copy, PartialEq, Eq, Structural)]
pub enum NavEntry {
    /// The synthetic "create a new collection" entry; it selects nothing.
    CreateNew,
    /// The collection at this position.
    CollectionIndex(usize),
}

/// A derived map from handles to collection positions, rebuilt whole
/// whenever the collections change shape. Each build has its own
/// generation, so handles of an earlier build never resolve.
pub struct NavModel {
    pub generation: u64,
    pub entries: Vec<NavEntry>,
}

impl NavModel {
    /// The index lists, for `n` collections, the creation entry first and
    /// then one entry per collection, in order.
    pub open spec fn indexes(self, n: nat) -> bool {
        &&& self.entries@.len() == n + 1
        &&& self.entries@[0] == NavEntry::CreateNew
        &&& forall|k: int| 1 <= k <= n ==> #[trigger] self.entries@[k] == NavEntry::CollectionIndex(
            (k - 1) as usize,
        )
    }

    /// What `h` stands for in this build, if anything.
    pub open spec fn spec_entry(self, h: NavHandle) -> Option<NavEntry> {
        if h.generation == self.generation && h.slot < self.entries@.len() {
            Some(self.entries@[h.slot as int])
        } else {
            None
        }
    }

    /// The collection position that `h` resolves to, if any.
    pub open spec fn spec_data(self, h: NavHandle) -> Option<usize> {
        match self.spec_entry(h) {
            Some(NavEntry::CollectionIndex(p)) => Some(p),
            _ => None,
        }
    }

    /// Builds the index for `n` collections under the given generation.
    pub fn build(n: usize, generation: u64) -> (r: NavModel)
        requires
            n < usize::MAX,
        ensures
            r.indexes(n as nat),
            r.generation == generation,
    {
        let mut entries: Vec<NavEntry> = Vec::new();
        entries.push(NavEntry::CreateNew);
        let mut i: usize = 0;
        while i < n
            invariant
                i <= n,
                entries@.len() == i + 1,
                entries@[0] == NavEntry::CreateNew,
                forall|k: int| 1 <= k <= i ==> #[trigger] entries@[k] == NavEntry::CollectionIndex(
                    (k - 1) as usize,
                ),
            decreases n - i,
        {
            entries.push(NavEntry::CollectionIndex(i));
            i = i + 1;
        }
        NavModel { generation, entries }
    }

    /// A fresh build of this index for `n` collections, under a generation
    /// that differs from this one.
    pub fn rebuilt(&self, n: usize) -> (r: NavModel)
        requires
            n < usize::MAX,
        ensures
            r.indexes(n as nat),
            r.generation != self.generation,
    {
        let generation: u64 = if self.generation < u64::MAX {
            self.generation + 1
        } else {
            0
        };
        NavModel::build(n, generation)
    }

    /// The entry that `h` stands for in this build, if any.
    pub fn entry(&self, h: NavHandle) -> (r: Option<NavEntry>)
        ensures
            r == self.spec_entry(h),
    {
        if h.generation == self.generation && h.slot < self.entries.len() {
            Some(self.entries[h.slot])
        } else {
            None
        }
    }

    /// The collection position that `h` resolves to; `None` for the
    /// creation entry and for handles of another build.
    pub fn data(&self, h: NavHandle) -> (r: Option<usize>)
        ensures
            r == self.spec_data(h),
    {
        match self.entry(h) {
            Some(NavEntry::CollectionIndex(p)) => Some(p),
            _ => None,
        }
    }

    /// The handle of the creation entry in this build.
    pub fn create_handle(&self) -> (r: NavHandle)
        ensures
            r == (NavHandle { generation: self.generation, slot: 0 }),
    {
        NavHandle { generation: self.generation, slot: 0 }
    }

    /// The handle of the collection at `pos` in this build.
    pub fn collection_handle(&self, pos: usize) -> (r: NavHandle)
        requires
            pos < usize::MAX,
        ensures
            r == (NavHandle { generation: self.generation, slot: (pos + 1) as usize }),
    {
        NavHandle { generation: self.generation, slot: pos + 1 }
    }

    /// Number of entries, the creation entry included.
    pub fn len(&self) -> (r: usize)
        ensures
            r == self.entries@.len(),
    {
        self.entries.len()
    }
}

/// In an index built for `n` collections, the handle of slot `p + 1`
/// resolves to position `p` for every `p < n`, and slot 0 to nothing.
pub proof fn lemma_handles_resolve(m: NavModel, n: nat, p: usize)
    requires
        m.indexes(n),
        n < usize::MAX,
        p < n,
    ensures
        m.spec_data(NavHandle { generation: m.generation, slot: (p + 1) as usize }) == Some(p),
        m.spec_data(NavHandle { generation: m.generation, slot: 0 }) == None::<usize>,
{
    assert(m.entries@[p + 1] == NavEntry::CollectionIndex(p));
}

/// A handle of one build resolves to nothing in a build of another
/// generation, so positions never drift under a handle kept across a
/// rebuild.
pub proof fn lemma_stale_handle_unresolved(before: NavModel, after: NavModel, h: NavHandle)
    requires
        h.generation == before.generation,
        after.generation != before.generation,
    ensures
        after.spec_entry(h) == None::<NavEntry>,
        after.spec_data(h) == None::<usize>,
{
}

} // verus!
