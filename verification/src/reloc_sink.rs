//! A relocation sink that just saves all the information for later.

use std::collections::HashMap;
use vstd::prelude::*;

verus! {

broadcast use vstd::std_specs::hash::group_hash_axioms;

/// The number under which the code generator reports a relocation.
pub type RelocRef = u16;

/// Offset in bytes from the beginning of a function's machine code.
pub type CodeOffset = u32;

/// Relocation kind as the code generator hands it to a sink, with its number.
#[derive(Clone, Copy, Debug)]
pub struct Reloc(pub RelocRef);

/// Reference to an extended basic block of a function.
#[derive(Clone, Copy, Debug)]
pub struct Ebb(pub u32);

/// Reference to a function that the compiled function calls.
#[derive(Clone, Copy, Debug)]
pub struct FuncRef(pub u32);

/// Reference to a jump table of a function.
#[derive(Clone, Copy, Debug)]
pub struct JumpTable(pub u32);

/// The relocations recorded while the machine code of one function was
/// emitted, keyed by the number each was reported under. Every entry says
/// that at its offset in the function's code a reference to its target is to
/// be patched in once the target's address is known.
pub struct FaerieRelocSink {
    /// References to extended basic blocks.
    pub ebbs: HashMap<RelocRef, (Ebb, CodeOffset)>,
    /// References to functions.
    pub funcs: HashMap<RelocRef, (FuncRef, CodeOffset)>,
    /// References to jump tables.
    pub jts: HashMap<RelocRef, (JumpTable, CodeOffset)>,
}

/// What a [`FaerieRelocSink`] has recorded.
pub struct RelocSinkView {
    pub ebbs: Map<RelocRef, (Ebb, CodeOffset)>,
    pub funcs: Map<RelocRef, (FuncRef, CodeOffset)>,
    pub jts: Map<RelocRef, (JumpTable, CodeOffset)>,
}

impl RelocSinkView {
    /// Nothing recorded.
    pub open spec fn empty() -> RelocSinkView {
        RelocSinkView { ebbs: Map::empty(), funcs: Map::empty(), jts: Map::empty() }
    }

    /// No relocation of any kind is recorded.
    pub open spec fn is_empty(self) -> bool {
        self.ebbs.is_empty() && self.funcs.is_empty() && self.jts.is_empty()
    }
}

impl View for FaerieRelocSink {
    type V = RelocSinkView;

    open spec fn view(&self) -> RelocSinkView {
        RelocSinkView { ebbs: self.ebbs@, funcs: self.funcs@, jts: self.jts@ }
    }
}

impl FaerieRelocSink {
    /// A sink with nothing recorded.
    pub fn new() -> (sink: FaerieRelocSink)
        ensures
            sink@ == RelocSinkView::empty(),
    {
        FaerieRelocSink { ebbs: HashMap::new(), funcs: HashMap::new(), jts: HashMap::new() }
    }

    /// Records that at `offset` a reference to the block `ebb` is to be
    /// patched in. An entry recorded earlier under the same number is
    /// replaced.
    pub fn reloc_ebb(&mut self, offset: CodeOffset, reloc: Reloc, ebb: Ebb)
        ensures
            final(self)@ == (RelocSinkView {
                ebbs: old(self)@.ebbs.insert(reloc.0, (ebb, offset)),
                ..old(self)@
            }),
    {
        self.ebbs.insert(reloc.0, (ebb, offset));
    }

    /// Records that at `offset` a reference to the function `func` is to be
    /// patched in. An entry recorded earlier under the same number is
    /// replaced.
    pub fn reloc_func(&mut self, offset: CodeOffset, reloc: Reloc, func: FuncRef)
        ensures
            final(self)@ == (RelocSinkView {
                funcs: old(self)@.funcs.insert(reloc.0, (func, offset)),
                ..old(self)@
            }),
    {
        self.funcs.insert(reloc.0, (func, offset));
    }

    /// Records that at `offset` a reference to the jump table `jt` is to be
    /// patched in. An entry recorded earlier under the same number is
    /// replaced.
    pub fn reloc_jt(&mut self, offset: CodeOffset, reloc: Reloc, jt: JumpTable)
        ensures
            final(self)@ == (RelocSinkView {
                jts: old(self)@.jts.insert(reloc.0, (jt, offset)),
                ..old(self)@
            }),
    {
        self.jts.insert(reloc.0, (jt, offset));
    }
}

} // verus!
