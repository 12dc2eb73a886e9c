//! The table of forwarding slots: one slot per export, in export order.

use crate::error::FileFormatError;
use crate::export_table::ExportSymbol;
use crate::export_table::ExportSymbolView;
use vstd::prelude::*;

verus! {

/// One forwarding slot: the export it stands for, and the address it was
/// resolved to, once it was.
#[derive(Debug, Clone, PartialEq, Eq)]
pub struct Slot {
    pub ordinal: u32,
    pub name: Option<String>,
    pub resolved_address: Option<usize>,
}

pub struct SlotView {
    pub ordinal: u32,
    pub name: Option<Seq<char>>,
    pub resolved_address: Option<usize>,
}

impl View for Slot {
    type V = SlotView;

    open spec fn view(&self) -> SlotView {
        SlotView {
            ordinal: self.ordinal,
            name: match self.name {
                Some(n) => Some(n@),
                None => None,
            },
            resolved_address: self.resolved_address,
        }
    }
}

/// The slot that a fresh table holds for an export: nothing resolved yet.
pub open spec fn fresh_slot(symbol: ExportSymbolView) -> SlotView {
    SlotView { ordinal: symbol.ordinal, name: symbol.name, resolved_address: None }
}

/// The export that a slot stands for.
pub open spec fn slot_symbol(slot: SlotView) -> ExportSymbolView {
    ExportSymbolView { ordinal: slot.ordinal, name: slot.name }
}

/// The table built from a list of exports: `fresh_slot` of each, in order.
pub open spec fn fresh_table(symbols: Seq<ExportSymbolView>) -> Seq<SlotView> {
    Seq::new(symbols.len(), |i: int| fresh_slot(symbols[i]))
}

/// What storing `address` into slot `index` makes of a table: a slot that is
/// already resolved keeps its address, an unresolved one takes the new one,
/// and no other slot changes.
pub open spec fn stored(table: Seq<SlotView>, index: int, address: usize) -> Seq<SlotView> {
    if table[index].resolved_address is Some {
        table
    } else {
        table.update(
            index,
            SlotView {
                ordinal: table[index].ordinal,
                name: table[index].name,
                resolved_address: Some(address),
            },
        )
    }
}

/// The address that slot `index` holds, or zero where it holds none.
pub open spec fn held_address(slots: Seq<SlotView>, index: int) -> usize {
    match slots[index].resolved_address {
        Some(a) => a,
        None => 0,
    }
}

/// A fixed sequence of slots, never empty once built. The index of a slot is the position
/// of its export in the list the table was built from, and never changes.
#[derive(Debug, Clone, PartialEq, Eq)]
pub struct SlotTable {
    slots: Vec<Slot>,
}

impl View for SlotTable {
    type V = Seq<SlotView>;

    closed spec fn view(&self) -> Seq<SlotView> {
        Seq::new(self.slots@.len(), |i: int| self.slots@[i]@)
    }
}

impl SlotTable {
    /// A table holds at least one slot.
    pub open spec fn wf(&self) -> bool {
        self@.len() > 0
    }

    /// Builds the table for a list of exports. An empty list has no table.
    pub fn build(exports: &Vec<ExportSymbol>) -> (r: Result<SlotTable, FileFormatError>)
        ensures
            exports@.len() == 0 ==> r == Err::<SlotTable, FileFormatError>(
                FileFormatError::NoExportTable,
            ),
            exports@.len() > 0 ==> r is Ok && r->Ok_0.wf() && r->Ok_0@ == fresh_table(
                crate::export_table::symbol_views(exports@),
            ),
    {
        if exports.len() == 0 {
            return Err(FileFormatError::NoExportTable);
        }
        let mut slots: Vec<Slot> = Vec::new();
        let mut i: usize = 0;
        while i < exports.len()
            invariant
                exports@.len() > 0,
                i <= exports@.len(),
                slots@.len() == i,
                forall|k: int| 0 <= k < i ==> slots@[k]@ == fresh_slot(exports@[k]@),
            decreases exports@.len() - i,
        {
            let name = match &exports[i].name {
                Some(n) => Some(n.clone()),
                None => None,
            };
            slots.push(Slot { ordinal: exports[i].ordinal, name, resolved_address: None });
            i = i + 1;
        }
        let table = SlotTable { slots };
        assert(table@ =~= fresh_table(crate::export_table::symbol_views(exports@)));
        Ok(table)
    }

    /// The number of slots.
    pub fn len(&self) -> (n: usize)
        ensures
            n == self@.len(),
    {
        self.slots.len()
    }

    /// The ordinal of the export in slot `index`.
    pub fn ordinal(&self, index: usize) -> (ordinal: u32)
        requires
            index < self@.len(),
        ensures
            ordinal == self@[index as int].ordinal,
    {
        self.slots[index].ordinal
    }

    /// The name of the export in slot `index`, if it has one.
    pub fn name(&self, index: usize) -> (name: Option<&String>)
        requires
            index < self@.len(),
        ensures
            name is Some <==> self@[index as int].name is Some,
            name matches Some(n) ==> self@[index as int].name == Some(n@),
            self@.len() <= usize::MAX,
    {
        assert(self.slots@.len() == self.slots.len());
        match &self.slots[index].name {
            Some(n) => Some(n),
            None => None,
        }
    }

    /// The address that slot `index` was resolved to, if it was.
    pub fn resolved_address(&self, index: usize) -> (address: Option<usize>)
        requires
            index < self@.len(),
        ensures
            address == self@[index as int].resolved_address,
    {
        self.slots[index].resolved_address
    }

    /// The address that each slot holds, in slot order, with zero for a slot
    /// that is not resolved: the form in which trampolines read the table.
    pub fn addresses(&self) -> (list: Vec<usize>)
        ensures
            list@.len() == self@.len(),
            forall|i: int| 0 <= i < list@.len() ==> list@[i] == held_address(self@, i),
    {
        let mut list: Vec<usize> = Vec::new();
        let mut i: usize = 0;
        while i < self.slots.len()
            invariant
                i <= self.slots@.len(),
                list@.len() == i,
                forall|k: int| 0 <= k < i ==> list@[k] == held_address(self@, k),
            decreases self.slots@.len() - i,
        {
            let address = match self.slots[i].resolved_address {
                Some(a) => a,
                None => 0,
            };
            list.push(address);
            i = i + 1;
        }
        list
    }

    /// Records the address that slot `index` resolved to, and returns the
    /// address the slot holds from now on. A slot is written once: if it is
    /// resolved already it keeps what it has.
    pub fn store(&mut self, index: usize, address: usize) -> (held: usize)
        requires
            index < old(self)@.len(),
        ensures
            final(self)@ == stored(old(self)@, index as int, address),
            final(self)@[index as int].resolved_address == Some(held),
            final(self)@.len() <= usize::MAX,
            held == match old(self)@[index as int].resolved_address {
                Some(a) => a,
                None => address,
            },
    {
        assert(self.slots@.len() == self.slots.len());
        match self.slots[index].resolved_address {
            Some(a) => a,
            None => {
                let ghost before = self@;
                let slot = &self.slots[index];
                let name = match &slot.name {
                    Some(n) => Some(n.clone()),
                    None => None,
                };
                let updated = Slot { ordinal: slot.ordinal, name, resolved_address: Some(address) };
                self.slots.set(index, updated);
                assert(self@ =~= stored(before, index as int, address));
                address
            },
        }
    }
}

} // verus!
