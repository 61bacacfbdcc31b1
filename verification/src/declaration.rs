//! Binding declarations: the resource slots a stage's program expects.

use vstd::prelude::*;

verus! {

/// The kind of buffer a slot refers to.
#[derive(Clone, Copy, Debug, PartialEq, Eq, Structural)]
pub enum ResourceKind {
    UniformBuffer,
    StorageBuffer,
}

/// One slot of a descriptor-set layout. Every slot is visible to the compute
/// stage and holds a single descriptor.
#[derive(Clone, Copy, Debug, PartialEq, Eq, Structural)]
pub struct BindingEntry {
    pub slot: u32,
    pub kind: ResourceKind,
}

/// A byte range of push constants, visible to the compute stage.
#[derive(Clone, Copy, Debug, PartialEq, Eq, Structural)]
pub struct PushConstantRange {
    pub offset: u32,
    pub len: u32,
}

impl PushConstantRange {
    /// The range ends at a byte offset that a `u32` can hold.
    pub open spec fn fits(self) -> bool {
        self.offset + self.len <= u32::MAX
    }
}

/// No slot index occurs twice.
pub open spec fn slots_unique(entries: Seq<BindingEntry>) -> bool {
    forall|i: int, j: int|
        0 <= i < j < entries.len() ==> (#[trigger] entries[i]).slot != (#[trigger] entries[j]).slot
}

/// The number of slots of `kind`.
pub open spec fn count_kind(entries: Seq<BindingEntry>, kind: ResourceKind) -> nat {
    entries.filter(|e: BindingEntry| e.kind == kind).len()
}

/// What a binding declaration says, as mathematical values.
pub struct DeclarationView {
    pub entries: Seq<BindingEntry>,
    pub push_constants: Option<PushConstantRange>,
}

impl DeclarationView {
    /// Slot indices are unique and the push-constant range, if any, fits.
    pub open spec fn wf(self) -> bool {
        &&& slots_unique(self.entries)
        &&& self.push_constants matches Some(range) ==> range.fits()
    }

    /// The number of push-constant bytes every dispatch has to supply.
    pub open spec fn push_constant_len(self) -> u32 {
        match self.push_constants {
            Some(range) => range.len,
            None => 0,
        }
    }
}

/// An ordered list of resource slots and an optional push-constant range.
#[derive(Debug)]
pub struct BindingDeclaration {
    entries: Vec<BindingEntry>,
    push_constants: Option<PushConstantRange>,
}

impl View for BindingDeclaration {
    type V = DeclarationView;

    closed spec fn view(&self) -> DeclarationView {
        DeclarationView { entries: self.entries@, push_constants: self.push_constants }
    }
}

/// Whether no slot index occurs twice in `entries`.
pub fn has_unique_slots(entries: &Vec<BindingEntry>) -> (unique: bool)
    ensures
        unique == slots_unique(entries@),
{
    let mut j: usize = 0;
    while j < entries.len()
        invariant
            j <= entries.len(),
            forall|a: int, b: int|
                0 <= a < b < j ==> (#[trigger] entries@[a]).slot != (#[trigger] entries@[b]).slot,
        decreases entries.len() - j,
    {
        let mut i: usize = 0;
        while i < j
            invariant
                i <= j < entries.len(),
                forall|a: int| 0 <= a < i ==> (#[trigger] entries@[a]).slot != entries@[j as int].slot,
            decreases j - i,
        {
            if entries[i].slot == entries[j].slot {
                return false;
            }
            i += 1;
        }
        j += 1;
    }
    true
}

impl BindingDeclaration {
    /// Every declaration that exists is well formed.
    #[verifier::type_invariant]
    pub open spec fn wf(&self) -> bool {
        self@.wf()
    }

    /// Makes a declaration of `entries`, in this order, and `push_constants`.
    /// Refuses a list in which a slot index occurs twice and a range whose end
    /// no `u32` can hold.
    pub fn new(entries: Vec<BindingEntry>, push_constants: Option<PushConstantRange>) -> (made:
        Option<BindingDeclaration>)
        ensures
            made is Some <==> (DeclarationView { entries: entries@, push_constants }).wf(),
            made matches Some(d) ==> d@ == (DeclarationView { entries: entries@, push_constants }),
    {
        if !has_unique_slots(&entries) {
            return None;
        }
        match push_constants {
            Some(range) => {
                if range.len > u32::MAX - range.offset {
                    return None;
                }
            },
            None => {},
        }
        Some(BindingDeclaration { entries, push_constants })
    }

    /// The declared slots, in order.
    pub fn entries(&self) -> (entries: &Vec<BindingEntry>)
        ensures
            entries@ == self@.entries,
            self@.wf(),
    {
        proof {
            use_type_invariant(self);
        }
        &self.entries
    }

    /// The declared push-constant range.
    pub fn push_constants(&self) -> (range: Option<PushConstantRange>)
        ensures
            range == self@.push_constants,
            self@.wf(),
    {
        proof {
            use_type_invariant(self);
        }
        self.push_constants
    }

    /// The number of push-constant bytes every dispatch has to supply: the
    /// length of the declared range, and 0 where none is declared.
    pub fn push_constant_len(&self) -> (len: u32)
        ensures
            len == self@.push_constant_len(),
    {
        match self.push_constants {
            Some(range) => range.len,
            None => 0,
        }
    }

    /// The number of declared slots of `kind`.
    pub fn count_of(&self, kind: ResourceKind) -> (count: usize)
        ensures
            count == count_kind(self@.entries, kind),
    {
        let ghost of_kind = |e: BindingEntry| e.kind == kind;
        let mut count: usize = 0;
        let mut i: usize = 0;
        while i < self.entries.len()
            invariant
                i <= self.entries.len(),
                of_kind == (|e: BindingEntry| e.kind == kind),
                count == self.entries@.take(i as int).filter(of_kind).len(),
                count <= i,
            decreases self.entries.len() - i,
        {
            proof {
                let seen = self.entries@.take(i as int);
                assert(self.entries@.take(i + 1) == seen.push(self.entries@[i as int]));
                seen.lemma_filter_len_push(of_kind, self.entries@[i as int]);
            }
            if self.entries[i].kind == kind {
                count += 1;
            }
            i += 1;
        }
        assert(self.entries@.take(i as int) == self.entries@);
        count
    }

    /// Whether `other` declares the same slots in the same order, with the same
    /// push-constant range.
    pub fn same_as(&self, other: &BindingDeclaration) -> (same: bool)
        ensures
            same == (self@ == other@),
    {
        if self.push_constants != other.push_constants {
            return false;
        }
        if self.entries.len() != other.entries.len() {
            return false;
        }
        let mut i: usize = 0;
        while i < self.entries.len()
            invariant
                i <= self.entries.len(),
                self.entries.len() == other.entries.len(),
                forall|k: int| 0 <= k < i ==> self.entries@[k] == other.entries@[k],
            decreases self.entries.len() - i,
        {
            if self.entries[i] != other.entries[i] {
                return false;
            }
            i += 1;
        }
        assert(self.entries@ =~= other.entries@);
        true
    }
}

} // verus!
