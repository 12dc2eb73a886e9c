//! What holds of the forwarder as a whole, proved from the contracts of its
//! parts.

use crate::definition::Machine;
use crate::error::FileFormatError;
use crate::error::ForwardErrorView;
use crate::export_table::symbols_of_image;
use crate::export_table::ExportScanView;
use crate::export_table::ExportSymbolView;
use crate::export_table::ImageKind;
use crate::linktime::plan_of_read;
use crate::linktime::plan_of_symbols;
use crate::runtime::bulk_action;
use crate::runtime::bulk_begin;
use crate::runtime::bulk_next;
use crate::runtime::bulk_state_valid;
use crate::runtime::lazy_action;
use crate::runtime::lazy_begin;
use crate::runtime::lazy_next;
use crate::runtime::lazy_state_valid;
use crate::runtime::symbol_of_slot;
use crate::runtime::BulkActionView;
use crate::runtime::BulkStateView;
use crate::runtime::DllForwarderView;
use crate::runtime::LazyActionView;
use crate::runtime::LazyStateView;
use crate::runtime::LoaderCallView;
use crate::runtime::LoaderReplyView;
use crate::slots::fresh_table;
use crate::slots::slot_symbol;
use crate::slots::stored;
use crate::slots::SlotView;
use vstd::prelude::*;

verus! {


/// A table has one slot per export, at the export's position, standing for
/// that export and not yet resolved.
pub proof fn law_slots_follow_exports(symbols: Seq<ExportSymbolView>)
    ensures
        fresh_table(symbols).len() == symbols.len(),
        forall|i: int|
            0 <= i < symbols.len() ==> slot_symbol(#[trigger] fresh_table(symbols)[i])
                == symbols[i] && fresh_table(symbols)[i].resolved_address is None,
{
}

/// Storing an address renumbers nothing: the table keeps its length, and
/// every slot keeps the export it stands for.
pub proof fn law_store_keeps_the_layout(table: Seq<SlotView>, index: int, address: usize)
    requires
        0 <= index < table.len(),
    ensures
        stored(table, index, address).len() == table.len(),
        forall|i: int|
            0 <= i < table.len() ==> slot_symbol(#[trigger] stored(table, index, address)[i])
                == slot_symbol(table[i]),
{
}

/// A slot is written once: what a resolved slot holds survives every later
/// store, into that slot or into another.
pub proof fn law_store_once(table: Seq<SlotView>, index: int, address: usize, slot: int)
    requires
        0 <= index < table.len(),
        0 <= slot < table.len(),
        table[slot].resolved_address is Some,
    ensures
        stored(table, index, address)[slot].resolved_address == table[slot].resolved_address,
{
}

/// An image without an export directory has no export list, and nothing can
/// be generated from it; neither from an empty export list.
pub proof fn law_no_export_table_stops_generation(
    path: Seq<char>,
    kind: ImageKind,
    scan32: ExportScanView,
    scan64: ExportScanView,
    machine: Machine,
)
    requires
        kind == ImageKind::Pe32 ==> scan32 is Absent,
        kind == ImageKind::Pe64 ==> scan64 is Absent,
        kind == ImageKind::Pe32 || kind == ImageKind::Pe64,
    ensures
        symbols_of_image(kind, scan32, scan64) == Err::<Seq<ExportSymbolView>, FileFormatError>(
            FileFormatError::NoExportTable,
        ),
        plan_of_read(path, symbols_of_image(kind, scan32, scan64), machine) is Err,
        plan_of_read(path, symbols_of_image(kind, scan32, scan64), machine)->Err_0
            == ForwardErrorView::FileFormat(FileFormatError::NoExportTable),
        plan_of_symbols(path, Seq::<ExportSymbolView>::empty(), machine) is Err,
        plan_of_symbols(path, Seq::<ExportSymbolView>::empty(), machine)->Err_0
            == ForwardErrorView::FileFormat(FileFormatError::NoExportTable),
{
}

/// What a loader answers that holds the target under the handle `acquired`,
/// or fails to load it, and that finds symbols as `lookup` says.
pub open spec fn loader_reply(
    call: LoaderCallView,
    acquired: Result<isize, ForwardErrorView>,
    lookup: spec_fn(Seq<char>) -> Result<usize, ForwardErrorView>,
) -> LoaderReplyView {
    match call {
        LoaderCallView::Acquire { .. } => LoaderReplyView::Acquired(acquired),
        LoaderCallView::Resolve { symbol, .. } => LoaderReplyView::Resolved(lookup(symbol)),
        LoaderCallView::Release { .. } => LoaderReplyView::Released,
    }
}

/// Bulk resolution driven against such a loader for at most `steps` calls.
pub open spec fn bulk_run(
    fwd: DllForwarderView,
    state: BulkStateView,
    acquired: Result<isize, ForwardErrorView>,
    lookup: spec_fn(Seq<char>) -> Result<usize, ForwardErrorView>,
    steps: nat,
) -> (DllForwarderView, BulkStateView)
    decreases steps,
{
    if steps == 0 {
        (fwd, state)
    } else {
        match bulk_action(fwd, state) {
            BulkActionView::Done(_) => (fwd, state),
            BulkActionView::Call(call) => {
                let next = bulk_next(fwd, state, loader_reply(call, acquired, lookup));
                bulk_run(next.0, next.1, acquired, lookup, (steps - 1) as nat)
            },
        }
    }
}

/// Slot `i` holds what the loader finds for its symbol.
pub open spec fn slot_agrees(
    slots: Seq<SlotView>,
    i: int,
    lookup: spec_fn(Seq<char>) -> Result<usize, ForwardErrorView>,
) -> bool {
    lookup(symbol_of_slot(slots, i)) is Ok && slots[i].resolved_address == Some(
        lookup(symbol_of_slot(slots, i))->Ok_0,
    )
}

proof fn lemma_bulk_resolves_from(
    fwd: DllForwarderView,
    module: isize,
    index: int,
    lookup: spec_fn(Seq<char>) -> Result<usize, ForwardErrorView>,
    steps: nat,
)
    requires
        0 <= index <= fwd.slots.len(),
        fwd.slots.len() <= usize::MAX,
        steps >= fwd.slots.len() - index,
        forall|i: int| 0 <= i < fwd.slots.len() ==> lookup(symbol_of_slot(fwd.slots, i)) is Ok,
        forall|i: int| 0 <= i < index ==> slot_agrees(fwd.slots, i, lookup),
        forall|i: int|
            index <= i < fwd.slots.len() && fwd.slots[i].resolved_address is Some ==> slot_agrees(
                fwd.slots,
                i,
                lookup,
            ),
    ensures
        ({
            let start = crate::runtime::bulk_resume(fwd, module, index);
            let end = bulk_run(start.0, start.1, Ok(module), lookup, steps);
            &&& end.1 == BulkStateView::Finished { result: Ok(()) }
            &&& end.0.initialized
            &&& end.0.module_handle == Some(module)
            &&& end.0.lib_name == fwd.lib_name
            &&& end.0.slots.len() == fwd.slots.len()
            &&& forall|i: int|
                0 <= i < fwd.slots.len() ==> slot_symbol(#[trigger] end.0.slots[i]) == slot_symbol(
                    fwd.slots[i],
                ) && slot_agrees(end.0.slots, i, lookup)
        }),
    decreases fwd.slots.len() - index,
{
    let start = crate::runtime::bulk_resume(fwd, module, index);
    if index < fwd.slots.len() {
        let address = lookup(symbol_of_slot(fwd.slots, index))->Ok_0;
        let slots = stored(fwd.slots, index, address);
        let after = crate::runtime::with_slots(fwd, slots);
        assert forall|i: int| 0 <= i < slots.len() implies symbol_of_slot(slots, i)
            == symbol_of_slot(fwd.slots, i) by {}
        assert forall|i: int| 0 <= i < index + 1 implies slot_agrees(slots, i, lookup) by {
            if i < index {
                assert(slot_agrees(fwd.slots, i, lookup));
            }
        }
        assert forall|i: int|
            index + 1 <= i < slots.len()
                && slots[i].resolved_address is Some implies slot_agrees(slots, i, lookup) by {
            assert(slot_agrees(fwd.slots, i, lookup));
        }
        lemma_bulk_resolves_from(after, module, index + 1, lookup, (steps - 1) as nat);
        assert(bulk_next(start.0, start.1, LoaderReplyView::Resolved(Ok(address)))
            == crate::runtime::bulk_resume(after, module, index + 1));
    } else {
        assert(bulk_run(start.0, start.1, Ok(module), lookup, steps) == start);
    }
}

/// Bulk resolution against a loaded copy of the target resolves every slot to
/// the address that the loader finds for the slot's symbol, keeps the module
/// handle and marks the forwarder initialized. It is stated for a forwarder
/// whose slots, where lazy resolution got to them first, were resolved
/// against that same copy.
pub proof fn law_bulk_resolves_every_slot(
    fwd: DllForwarderView,
    module: isize,
    lookup: spec_fn(Seq<char>) -> Result<usize, ForwardErrorView>,
    steps: nat,
)
    requires
        !fwd.initialized,
        fwd.slots.len() <= usize::MAX,
        steps > fwd.slots.len(),
        forall|i: int| 0 <= i < fwd.slots.len() ==> lookup(symbol_of_slot(fwd.slots, i)) is Ok,
        forall|i: int|
            0 <= i < fwd.slots.len() && fwd.slots[i].resolved_address is Some ==> slot_agrees(
                fwd.slots,
                i,
                lookup,
            ),
    ensures
        ({
            let end = bulk_run(fwd, bulk_begin(fwd), Ok(module), lookup, steps);
            &&& end.1 == BulkStateView::Finished { result: Ok(()) }
            &&& end.0.initialized
            &&& end.0.module_handle == Some(module)
            &&& end.0.lib_name == fwd.lib_name
            &&& end.0.slots.len() == fwd.slots.len()
            &&& forall|i: int|
                0 <= i < fwd.slots.len() ==> slot_symbol(#[trigger] end.0.slots[i]) == slot_symbol(
                    fwd.slots[i],
                ) && slot_agrees(end.0.slots, i, lookup)
        }),
{
    lemma_bulk_resolves_from(fwd, module, 0, lookup, (steps - 1) as nat);
}

proof fn lemma_finished_ok_means_initialized(
    fwd: DllForwarderView,
    state: BulkStateView,
    acquired: Result<isize, ForwardErrorView>,
    lookup: spec_fn(Seq<char>) -> Result<usize, ForwardErrorView>,
    steps: nat,
)
    requires
        state == (BulkStateView::Finished { result: Ok(()) }) ==> fwd.initialized,
    ensures
        bulk_run(fwd, state, acquired, lookup, steps).1 == (BulkStateView::Finished {
            result: Ok(()),
        }) ==> bulk_run(fwd, state, acquired, lookup, steps).0.initialized,
    decreases steps,
{
    if steps > 0 {
        match bulk_action(fwd, state) {
            BulkActionView::Done(_) => {},
            BulkActionView::Call(call) => {
                let next = bulk_next(fwd, state, loader_reply(call, acquired, lookup));
                lemma_finished_ok_means_initialized(
                    next.0,
                    next.1,
                    acquired,
                    lookup,
                    (steps - 1) as nat,
                );
            },
        }
    }
}

/// Bulk resolution runs once: after a run that ended well, every further run
/// ends at once with `AlreadyInitialized`, whatever the loader would answer,
/// and leaves the forwarder as it was.
pub proof fn law_bulk_runs_once(
    fwd: DllForwarderView,
    acquired: Result<isize, ForwardErrorView>,
    lookup: spec_fn(Seq<char>) -> Result<usize, ForwardErrorView>,
    steps: nat,
    acquired_again: Result<isize, ForwardErrorView>,
    lookup_again: spec_fn(Seq<char>) -> Result<usize, ForwardErrorView>,
    steps_again: nat,
)
    requires
        bulk_run(fwd, bulk_begin(fwd), acquired, lookup, steps).1 == (BulkStateView::Finished {
            result: Ok(()),
        }),
    ensures
        ({
            let first = bulk_run(fwd, bulk_begin(fwd), acquired, lookup, steps).0;
            bulk_run(first, bulk_begin(first), acquired_again, lookup_again, steps_again) == (
                first,
                BulkStateView::Finished { result: Err(ForwardErrorView::AlreadyInitialized) },
            )
        }),
{
    lemma_finished_ok_means_initialized(fwd, bulk_begin(fwd), acquired, lookup, steps);
}

/// A target that fails to load ends bulk resolution with the loader's error
/// as it came, and nothing is written.
pub proof fn law_load_failure_is_reported(
    fwd: DllForwarderView,
    error: ForwardErrorView,
    lookup: spec_fn(Seq<char>) -> Result<usize, ForwardErrorView>,
    steps: nat,
)
    requires
        !fwd.initialized,
        steps > 0,
    ensures
        bulk_run(fwd, bulk_begin(fwd), Err(error), lookup, steps) == (
            fwd,
            BulkStateView::Finished { result: Err(error) },
        ),
{
    let next = bulk_next(fwd, BulkStateView::Acquiring, LoaderReplyView::Acquired(Err(error)));
    assert(bulk_run(next.0, next.1, Err(error), lookup, (steps - 1) as nat) == next);
}

/// Once a forwarder is initialized it stays so: no step of bulk or lazy
/// resolution takes that back, and a new bulk resolution ends where it starts.
pub proof fn law_initialized_never_reverts(
    fwd: DllForwarderView,
    bulk: BulkStateView,
    lazy: LazyStateView,
    reply: LoaderReplyView,
)
    requires
        fwd.initialized,
    ensures
        bulk_begin(fwd) == (BulkStateView::Finished {
            result: Err(ForwardErrorView::AlreadyInitialized),
        }),
        lazy_next(fwd, lazy, reply).0.initialized,
        lazy_next(fwd, lazy, reply).0.module_handle == fwd.module_handle,
        bulk_next(fwd, bulk, reply).0.initialized,
{
}

/// No step of bulk or lazy resolution rewrites a resolved slot.
pub proof fn law_resolved_slots_stay(
    fwd: DllForwarderView,
    bulk: BulkStateView,
    lazy: LazyStateView,
    reply: LoaderReplyView,
    slot: int,
)
    requires
        bulk_state_valid(fwd, bulk),
        lazy_state_valid(fwd, lazy),
        0 <= slot < fwd.slots.len(),
        fwd.slots[slot].resolved_address is Some,
    ensures
        bulk_next(fwd, bulk, reply).0.slots[slot] == fwd.slots[slot],
        lazy_next(fwd, lazy, reply).0.slots[slot] == fwd.slots[slot],
{
}

/// Lazy resolution keeps the library. No state of it asks for a release; and
/// for a slot that is not resolved, once the library is loaded and the symbol
/// is found, the next thing is the jump to the address found, which the slot
/// holds from then on.
pub proof fn law_lazy_resolution_keeps_the_library(
    fwd: DllForwarderView,
    state: LazyStateView,
    index: usize,
    module: isize,
    address: usize,
)
    requires
        index < fwd.slots.len(),
        fwd.slots[index as int].resolved_address is None,
    ensures
        !(lazy_action(fwd, state) matches LazyActionView::Call(LoaderCallView::Release { .. })),
        ({
            let acquired = lazy_next(
                fwd,
                lazy_begin(fwd, index as int),
                LoaderReplyView::Acquired(Ok(module)),
            );
            let resolved = lazy_next(acquired.0, acquired.1, LoaderReplyView::Resolved(Ok(address)));
            &&& lazy_action(acquired.0, acquired.1) == LazyActionView::Call(
                LoaderCallView::Resolve { module, symbol: symbol_of_slot(fwd.slots, index as int) },
            )
            &&& lazy_action(resolved.0, resolved.1) == LazyActionView::Jump(address)
            &&& resolved.0.slots[index as int].resolved_address == Some(address)
        }),
{
}

/// Two lazy resolutions of one slot that are under way together converge:
/// the address that is stored first stays in the slot, and both jump to it,
/// whatever the loader answered to the second.
pub proof fn law_lazy_resolutions_converge(
    fwd: DllForwarderView,
    index: usize,
    first_module: isize,
    first_address: usize,
    second_module: isize,
    second_address: usize,
)
    requires
        index < fwd.slots.len(),
        fwd.slots[index as int].resolved_address is None,
    ensures
        ({
            let first = lazy_next(
                fwd,
                LazyStateView::Resolving { index, module: first_module },
                LoaderReplyView::Resolved(Ok(first_address)),
            );
            let second = lazy_next(
                first.0,
                LazyStateView::Resolving { index, module: second_module },
                LoaderReplyView::Resolved(Ok(second_address)),
            );
            &&& first.1 == LazyStateView::Finished { outcome: Ok(first_address) }
            &&& second.1 == LazyStateView::Finished { outcome: Ok(first_address) }
            &&& second.0 == first.0
            &&& second.0.slots[index as int].resolved_address == Some(first_address)
            &&& lazy_begin(second.0, index as int) == LazyStateView::Finished {
                outcome: Ok(first_address),
            }
        }),
{
}

} // verus!
