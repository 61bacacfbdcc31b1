//! Descriptor-pool sizing.
//!
//! A pool is a reservation: so many descriptors of each kind, so many sets.
//! A stage draws exactly one set from its pool, so the pool is sized by the
//! stage's declaration and by nothing else.

use vstd::prelude::*;
use crate::declaration::{count_kind, BindingDeclaration, BindingEntry, ResourceKind};
use crate::error::StageError;

verus! {

/// Room for `count` descriptors of `kind`, as the device is asked for it.
#[derive(Clone, Copy, Debug, PartialEq, Eq, Structural)]
pub struct PoolRange {
    pub kind: ResourceKind,
    pub count: usize,
}

/// The capacity of a descriptor pool.
#[derive(Clone, Copy, Debug, PartialEq, Eq, Structural)]
pub struct PoolSizing {
    pub max_sets: usize,
    pub uniform_buffers: usize,
    pub storage_buffers: usize,
}

impl PoolSizing {
    /// The number of descriptors of `kind` that the pool has room for.
    pub open spec fn capacity(self, kind: ResourceKind) -> nat {
        match kind {
            ResourceKind::UniformBuffer => self.uniform_buffers as nat,
            ResourceKind::StorageBuffer => self.storage_buffers as nat,
        }
    }

    /// The pool has exactly the room that one set of `entries` takes: per
    /// kind the number of slots of that kind, and as many sets as there are
    /// slots.
    pub open spec fn exact_for(self, entries: Seq<BindingEntry>) -> bool {
        &&& self.max_sets == entries.len()
        &&& forall|kind: ResourceKind| #[trigger] self.capacity(kind) == count_kind(entries, kind)
    }

    /// One set of `entries` can be drawn from the pool.
    pub open spec fn covers(self, entries: Seq<BindingEntry>) -> bool {
        &&& self.max_sets >= 1
        &&& forall|kind: ResourceKind| #[trigger] self.capacity(kind) >= count_kind(entries, kind)
    }

    /// The ranges to ask the device for: uniform buffers first, then storage
    /// buffers, a kind without room left out.
    pub open spec fn ranges_spec(self) -> Seq<PoolRange> {
        let uniform = if self.uniform_buffers > 0 {
            seq![PoolRange { kind: ResourceKind::UniformBuffer, count: self.uniform_buffers }]
        } else {
            Seq::<PoolRange>::empty()
        };
        let storage = if self.storage_buffers > 0 {
            seq![PoolRange { kind: ResourceKind::StorageBuffer, count: self.storage_buffers }]
        } else {
            Seq::<PoolRange>::empty()
        };
        uniform + storage
    }

    /// The sizing for a stage that declares `declaration`: no room that the
    /// stage's one set does not take, and none missing.
    pub fn for_declaration(declaration: &BindingDeclaration) -> (sizing: PoolSizing)
        ensures
            sizing.exact_for(declaration@.entries),
            sizing == sizing_of(declaration@.entries),
    {
        let sizing = PoolSizing {
            max_sets: declaration.entries().len(),
            uniform_buffers: declaration.count_of(ResourceKind::UniformBuffer),
            storage_buffers: declaration.count_of(ResourceKind::StorageBuffer),
        };
        proof {
            lemma_sizing_exact(declaration@.entries);
        }
        sizing
    }

    /// The ranges to ask the device for.
    pub fn ranges(&self) -> (ranges: Vec<PoolRange>)
        ensures
            ranges@ == self.ranges_spec(),
    {
        let mut ranges: Vec<PoolRange> = Vec::new();
        if self.uniform_buffers > 0 {
            ranges.push(PoolRange { kind: ResourceKind::UniformBuffer, count: self.uniform_buffers });
        }
        if self.storage_buffers > 0 {
            ranges.push(PoolRange { kind: ResourceKind::StorageBuffer, count: self.storage_buffers });
        }
        assert(ranges@ =~= self.ranges_spec());
        ranges
    }

    /// Checks that one set laid out as `layout` can be drawn from a pool of
    /// this size. A pool that was sized for another declaration may be too
    /// small: that is found here, before the device is asked.
    pub fn check_allocation(&self, layout: &BindingDeclaration) -> (checked: Result<(), StageError>)
        ensures
            checked is Ok <==> self.covers(layout@.entries),
            checked is Err ==> checked == Err::<(), StageError>(StageError::AllocationExhausted),
    {
        let uniform = layout.count_of(ResourceKind::UniformBuffer);
        let storage = layout.count_of(ResourceKind::StorageBuffer);
        if self.max_sets >= 1 && self.uniform_buffers >= uniform && self.storage_buffers >= storage {
            assert forall|kind: ResourceKind| #[trigger]
                self.capacity(kind) >= count_kind(layout@.entries, kind) by {
                match kind {
                    ResourceKind::UniformBuffer => {},
                    ResourceKind::StorageBuffer => {},
                }
            }
            Ok(())
        } else {
            proof {
                if self.max_sets >= 1 {
                    if self.uniform_buffers < uniform {
                        assert(self.capacity(ResourceKind::UniformBuffer) < count_kind(
                            layout@.entries,
                            ResourceKind::UniformBuffer,
                        ));
                    } else {
                        assert(self.capacity(ResourceKind::StorageBuffer) < count_kind(
                            layout@.entries,
                            ResourceKind::StorageBuffer,
                        ));
                    }
                }
            }
            Err(StageError::AllocationExhausted)
        }
    }
}

/// The pool sizing that a declaration of `entries` calls for.
pub open spec fn sizing_of(entries: Seq<BindingEntry>) -> PoolSizing {
    PoolSizing {
        max_sets: entries.len() as usize,
        uniform_buffers: count_kind(entries, ResourceKind::UniformBuffer) as usize,
        storage_buffers: count_kind(entries, ResourceKind::StorageBuffer) as usize,
    }
}

/// A kind has no more slots than the declaration has entries.
pub proof fn lemma_count_bounded(entries: Seq<BindingEntry>, kind: ResourceKind)
    ensures
        count_kind(entries, kind) <= entries.len(),
{
    entries.lemma_filter_len(|e: BindingEntry| e.kind == kind);
}

/// Every slot is of one of the two kinds: the per-kind counts add up to the
/// number of slots.
pub proof fn lemma_counts_add_up(entries: Seq<BindingEntry>)
    ensures
        count_kind(entries, ResourceKind::UniformBuffer) + count_kind(
            entries,
            ResourceKind::StorageBuffer,
        ) == entries.len(),
    decreases entries.len(),
{
    let uniform = |e: BindingEntry| e.kind == ResourceKind::UniformBuffer;
    let storage = |e: BindingEntry| e.kind == ResourceKind::StorageBuffer;
    if entries.len() == 0 {
        entries.lemma_filter_len(uniform);
        entries.lemma_filter_len(storage);
    } else {
        let init = entries.drop_last();
        lemma_counts_add_up(init);
        assert(entries == init.push(entries.last()));
        init.lemma_filter_len_push(uniform, entries.last());
        init.lemma_filter_len_push(storage, entries.last());
    }
}

/// The sizing derived from a declaration is exact for it, as long as the
/// number of its slots fits in a `usize`.
pub proof fn lemma_sizing_exact(entries: Seq<BindingEntry>)
    requires
        entries.len() <= usize::MAX,
    ensures
        sizing_of(entries).exact_for(entries),
{
    lemma_count_bounded(entries, ResourceKind::UniformBuffer);
    lemma_count_bounded(entries, ResourceKind::StorageBuffer);
    let sizing = sizing_of(entries);
    assert forall|kind: ResourceKind| #[trigger] sizing.capacity(kind) == count_kind(
        entries,
        kind,
    ) by {
        match kind {
            ResourceKind::UniformBuffer => {},
            ResourceKind::StorageBuffer => {},
        }
    }
}

} // verus!
