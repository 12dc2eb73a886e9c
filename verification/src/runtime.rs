//! Run-time forwarding: resolving the slots of a table against the loaded
//! target, all at once or one slot at its first use.
//!
//! Loading a library and looking a symbol up are the host's business. A
//! resolution therefore proceeds in steps: each step names the one call the
//! host has to make next, and the next step takes what the loader answered.

use crate::error::outcome_view;
use crate::error::ForwardError;
use crate::error::ForwardErrorView;
use crate::slots::held_address;
use crate::slots::stored;
use crate::slots::SlotTable;
use crate::slots::SlotView;
use vstd::prelude::*;

verus! {

/// What a generated module offers its host: the one entry point that starts
/// bulk resolution, to be called once when the module is loaded.
pub trait ForwardModule {
    /// Resolves every export of the target.
    fn init(&self) -> Result<(), ForwardError>;
}

/// A call the host makes to the loader on behalf of a resolution.
#[derive(Debug, Clone, PartialEq, Eq)]
pub enum LoaderCall {
    /// Load the library of this name, or take one more reference to it.
    Acquire { library: String },
    /// Look this symbol up in the loaded module.
    Resolve { module: isize, symbol: String },
    /// Give one reference to the module back.
    Release { module: isize },
}

pub enum LoaderCallView {
    Acquire { library: Seq<char> },
    Resolve { module: isize, symbol: Seq<char> },
    Release { module: isize },
}

impl View for LoaderCall {
    type V = LoaderCallView;

    open spec fn view(&self) -> LoaderCallView {
        match *self {
            LoaderCall::Acquire { library } => LoaderCallView::Acquire { library: library@ },
            LoaderCall::Resolve { module, symbol } => LoaderCallView::Resolve {
                module,
                symbol: symbol@,
            },
            LoaderCall::Release { module } => LoaderCallView::Release { module },
        }
    }
}

/// What the loader answered to a call.
#[derive(Debug, PartialEq, Eq)]
pub enum LoaderReply {
    Acquired(Result<isize, ForwardError>),
    Resolved(Result<usize, ForwardError>),
    Released,
}

pub enum LoaderReplyView {
    Acquired(Result<isize, ForwardErrorView>),
    Resolved(Result<usize, ForwardErrorView>),
    Released,
}

impl View for LoaderReply {
    type V = LoaderReplyView;

    open spec fn view(&self) -> LoaderReplyView {
        match *self {
            LoaderReply::Acquired(r) => LoaderReplyView::Acquired(outcome_view(r)),
            LoaderReply::Resolved(r) => LoaderReplyView::Resolved(outcome_view(r)),
            LoaderReply::Released => LoaderReplyView::Released,
        }
    }
}

/// Where a bulk resolution stands.
#[derive(Debug, PartialEq, Eq)]
pub enum BulkState {
    /// The target library was asked for.
    Acquiring,
    /// The symbol of slot `index` was asked for; the slots before it are done.
    Resolving { module: isize, index: usize },
    /// A symbol was missing; the reference that this run took is being given
    /// back, since the forwarder does not come to own it.
    Releasing { module: isize, error: ForwardError },
    /// Nothing is left to do.
    Finished { result: Result<(), ForwardError> },
}

pub enum BulkStateView {
    Acquiring,
    Resolving { module: isize, index: usize },
    Releasing { module: isize, error: ForwardErrorView },
    Finished { result: Result<(), ForwardErrorView> },
}

impl View for BulkState {
    type V = BulkStateView;

    open spec fn view(&self) -> BulkStateView {
        match *self {
            BulkState::Acquiring => BulkStateView::Acquiring,
            BulkState::Resolving { module, index } => BulkStateView::Resolving { module, index },
            BulkState::Releasing { module, error } => BulkStateView::Releasing {
                module,
                error: error@,
            },
            BulkState::Finished { result } => BulkStateView::Finished {
                result: outcome_view(result),
            },
        }
    }
}

/// What the host does next in a bulk resolution.
#[derive(Debug, PartialEq, Eq)]
pub enum BulkAction {
    /// Make this call and hand the answer to the next step.
    Call(LoaderCall),
    /// Stop: this is the outcome of the resolution.
    Done(Result<(), ForwardError>),
}

pub enum BulkActionView {
    Call(LoaderCallView),
    Done(Result<(), ForwardErrorView>),
}

impl View for BulkAction {
    type V = BulkActionView;

    open spec fn view(&self) -> BulkActionView {
        match *self {
            BulkAction::Call(c) => BulkActionView::Call(c@),
            BulkAction::Done(r) => BulkActionView::Done(outcome_view(r)),
        }
    }
}

/// Where the lazy resolution of one slot stands.
#[derive(Debug, PartialEq, Eq)]
pub enum LazyState {
    /// The target library was asked for.
    Acquiring { index: usize },
    /// The slot's symbol was asked for.
    Resolving { index: usize, module: isize },
    /// Nothing is left to do.
    Finished { outcome: Result<usize, ForwardError> },
}

pub enum LazyStateView {
    Acquiring { index: usize },
    Resolving { index: usize, module: isize },
    Finished { outcome: Result<usize, ForwardErrorView> },
}

impl View for LazyState {
    type V = LazyStateView;

    open spec fn view(&self) -> LazyStateView {
        match *self {
            LazyState::Acquiring { index } => LazyStateView::Acquiring { index },
            LazyState::Resolving { index, module } => LazyStateView::Resolving { index, module },
            LazyState::Finished { outcome } => LazyStateView::Finished {
                outcome: outcome_view(outcome),
            },
        }
    }
}

/// What a trampoline's host does next.
#[derive(Debug, PartialEq, Eq)]
pub enum LazyAction {
    /// Make this call and hand the answer to the next step.
    Call(LoaderCall),
    /// Transfer control to this address.
    Jump(usize),
    /// The slot cannot be resolved: end the process.
    Exit(ForwardError),
}

pub enum LazyActionView {
    Call(LoaderCallView),
    Jump(usize),
    Exit(ForwardErrorView),
}

impl View for LazyAction {
    type V = LazyActionView;

    open spec fn view(&self) -> LazyActionView {
        match *self {
            LazyAction::Call(c) => LazyActionView::Call(c@),
            LazyAction::Jump(a) => LazyActionView::Jump(a),
            LazyAction::Exit(e) => LazyActionView::Exit(e@),
        }
    }
}

/// The forwarder of one target library: its table of slots, and whether bulk
/// resolution ran and which module handle it kept.
#[derive(Debug, Clone, PartialEq, Eq)]
pub struct DllForwarder {
    pub initialized: bool,
    pub module_handle: Option<isize>,
    pub lib_name: String,
    pub table: SlotTable,
}

pub struct DllForwarderView {
    pub initialized: bool,
    pub module_handle: Option<isize>,
    pub lib_name: Seq<char>,
    pub slots: Seq<SlotView>,
}

impl View for DllForwarder {
    type V = DllForwarderView;

    open spec fn view(&self) -> DllForwarderView {
        DllForwarderView {
            initialized: self.initialized,
            module_handle: self.module_handle,
            lib_name: self.lib_name@,
            slots: self.table@,
        }
    }
}

/// The symbol by which slot `index` is looked up: its name, or the empty name
/// where the export has none.
pub open spec fn symbol_of_slot(slots: Seq<SlotView>, index: int) -> Seq<char> {
    match slots[index].name {
        Some(n) => n,
        None => Seq::empty(),
    }
}

/// A forwarder with other slots.
pub open spec fn with_slots(fwd: DllForwarderView, slots: Seq<SlotView>) -> DllForwarderView {
    DllForwarderView {
        initialized: fwd.initialized,
        module_handle: fwd.module_handle,
        lib_name: fwd.lib_name,
        slots,
    }
}

/// A forwarder after bulk resolution succeeded with this module.
pub open spec fn initialized_with(fwd: DllForwarderView, module: isize) -> DllForwarderView {
    DllForwarderView {
        initialized: true,
        module_handle: Some(module),
        lib_name: fwd.lib_name,
        slots: fwd.slots,
    }
}

/// A state of bulk resolution that this forwarder can be in.
pub open spec fn bulk_state_valid(fwd: DllForwarderView, state: BulkStateView) -> bool {
    state matches BulkStateView::Resolving { index, .. } ==> index < fwd.slots.len()
}

/// A state of lazy resolution that this forwarder can be in.
pub open spec fn lazy_state_valid(fwd: DllForwarderView, state: LazyStateView) -> bool {
    match state {
        LazyStateView::Acquiring { index } => index < fwd.slots.len(),
        LazyStateView::Resolving { index, .. } => index < fwd.slots.len(),
        _ => true,
    }
}

/// The state in which bulk resolution starts: over at once where it ran
/// before, else asking for the library.
pub open spec fn bulk_begin(fwd: DllForwarderView) -> BulkStateView {
    if fwd.initialized {
        BulkStateView::Finished { result: Err(ForwardErrorView::AlreadyInitialized) }
    } else {
        BulkStateView::Acquiring
    }
}

/// What the host does in a state of bulk resolution.
pub open spec fn bulk_action(fwd: DllForwarderView, state: BulkStateView) -> BulkActionView {
    match state {
        BulkStateView::Acquiring => BulkActionView::Call(
            LoaderCallView::Acquire { library: fwd.lib_name },
        ),
        BulkStateView::Resolving { module, index } => BulkActionView::Call(
            LoaderCallView::Resolve { module, symbol: symbol_of_slot(fwd.slots, index as int) },
        ),
        BulkStateView::Releasing { module, .. } => BulkActionView::Call(
            LoaderCallView::Release { module },
        ),
        BulkStateView::Finished { result } => BulkActionView::Done(result),
    }
}

/// Bulk resolution with the slots before `index` done: the next slot is asked
/// for, or, past the last one, the module is kept and the forwarder is marked
/// initialized.
pub open spec fn bulk_resume(fwd: DllForwarderView, module: isize, index: int) -> (
    DllForwarderView,
    BulkStateView,
) {
    if index < fwd.slots.len() {
        (fwd, BulkStateView::Resolving { module, index: index as usize })
    } else {
        (initialized_with(fwd, module), BulkStateView::Finished { result: Ok(()) })
    }
}

/// One step of bulk resolution: forwarder and state after the loader's answer.
/// An answer that the state did not ask for changes nothing.
pub open spec fn bulk_next(fwd: DllForwarderView, state: BulkStateView, reply: LoaderReplyView) -> (
    DllForwarderView,
    BulkStateView,
) {
    match (state, reply) {
        (BulkStateView::Acquiring, LoaderReplyView::Acquired(Ok(module))) => bulk_resume(
            fwd,
            module,
            0,
        ),
        (BulkStateView::Acquiring, LoaderReplyView::Acquired(Err(e))) => (
            fwd,
            BulkStateView::Finished { result: Err(e) },
        ),
        (
            BulkStateView::Resolving { module, index },
            LoaderReplyView::Resolved(Ok(address)),
        ) => bulk_resume(
            with_slots(fwd, stored(fwd.slots, index as int, address)),
            module,
            index + 1,
        ),
        (BulkStateView::Resolving { module, index }, LoaderReplyView::Resolved(Err(e))) => (
            fwd,
            BulkStateView::Releasing { module, error: e },
        ),
        (BulkStateView::Releasing { module, error }, LoaderReplyView::Released) => (
            fwd,
            BulkStateView::Finished { result: Err(error) },
        ),
        _ => (fwd, state),
    }
}

/// The state in which the lazy resolution of slot `index` starts: over at
/// once where the slot is resolved, else asking for the library.
pub open spec fn lazy_begin(fwd: DllForwarderView, index: int) -> LazyStateView {
    match fwd.slots[index].resolved_address {
        Some(address) => LazyStateView::Finished { outcome: Ok(address) },
        None => LazyStateView::Acquiring { index: index as usize },
    }
}

/// What the host does in a state of lazy resolution.
pub open spec fn lazy_action(fwd: DllForwarderView, state: LazyStateView) -> LazyActionView {
    match state {
        LazyStateView::Acquiring { .. } => LazyActionView::Call(
            LoaderCallView::Acquire { library: fwd.lib_name },
        ),
        LazyStateView::Resolving { index, module } => LazyActionView::Call(
            LoaderCallView::Resolve { module, symbol: symbol_of_slot(fwd.slots, index as int) },
        ),
        LazyStateView::Finished { outcome: Ok(address) } => LazyActionView::Jump(address),
        LazyStateView::Finished { outcome: Err(e) } => LazyActionView::Exit(e),
    }
}

/// One step of lazy resolution: forwarder and state after the loader's
/// answer. A resolved address is stored into the slot, and the jump goes to
/// what the slot then holds. The reference to the library that the lookup
/// went through is kept: the address is in use from now on. An answer that
/// the state did not ask for changes nothing.
pub open spec fn lazy_next(fwd: DllForwarderView, state: LazyStateView, reply: LoaderReplyView) -> (
    DllForwarderView,
    LazyStateView,
) {
    match (state, reply) {
        (LazyStateView::Acquiring { index }, LoaderReplyView::Acquired(Ok(module))) => (
            fwd,
            LazyStateView::Resolving { index, module },
        ),
        (LazyStateView::Acquiring { .. }, LoaderReplyView::Acquired(Err(e))) => (
            fwd,
            LazyStateView::Finished { outcome: Err(e) },
        ),
        (LazyStateView::Resolving { index, .. }, LoaderReplyView::Resolved(Ok(address))) => {
            let slots = stored(fwd.slots, index as int, address);
            (
                with_slots(fwd, slots),
                LazyStateView::Finished { outcome: Ok(held_address(slots, index as int)) },
            )
        },
        (LazyStateView::Resolving { .. }, LoaderReplyView::Resolved(Err(e))) => (
            fwd,
            LazyStateView::Finished { outcome: Err(e) },
        ),
        _ => (fwd, state),
    }
}

/// A copy of an error.
pub fn copy_error(e: &ForwardError) -> (r: ForwardError)
    ensures
        r@ == e@,
{
    match e {
        ForwardError::FileFormat(f) => ForwardError::FileFormat(*f),
        ForwardError::UnsupportedMachine => ForwardError::UnsupportedMachine,
        ForwardError::DefinitionRejected(m) => ForwardError::DefinitionRejected(m.clone()),
        ForwardError::ImportLibraryWrite(m) => ForwardError::ImportLibraryWrite(m.clone()),
        ForwardError::EncodingError => ForwardError::EncodingError,
        ForwardError::LoadError { name, system_code } => ForwardError::LoadError {
            name: name.clone(),
            system_code: *system_code,
        },
        ForwardError::SymbolNotFound { name, system_code } => ForwardError::SymbolNotFound {
            name: name.clone(),
            system_code: *system_code,
        },
        ForwardError::AlreadyInitialized => ForwardError::AlreadyInitialized,
    }
}

impl DllForwarder {
    /// A forwarder for the library `lib_name` with nothing resolved by bulk.
    pub fn new(lib_name: &str, table: SlotTable) -> (fwd: DllForwarder)
        ensures
            fwd@ == (DllForwarderView {
                initialized: false,
                module_handle: None,
                lib_name: lib_name@,
                slots: table@,
            }),
    {
        DllForwarder {
            initialized: false,
            module_handle: None,
            lib_name: String::from_str(lib_name),
            table,
        }
    }

    /// The symbol by which slot `index` is looked up.
    fn symbol(&self, index: usize) -> (symbol: String)
        requires
            index < self@.slots.len(),
        ensures
            symbol@ == symbol_of_slot(self@.slots, index as int),
    {
        match self.table.name(index) {
            Some(n) => n.clone(),
            None => String::new(),
        }
    }

    /// The action that belongs to a state of bulk resolution.
    fn bulk_pending(&self, state: &BulkState) -> (action: BulkAction)
        requires
            bulk_state_valid(self@, state@),
        ensures
            action@ == bulk_action(self@, state@),
    {
        match state {
            BulkState::Acquiring => BulkAction::Call(
                LoaderCall::Acquire { library: self.lib_name.clone() },
            ),
            BulkState::Resolving { module, index } => BulkAction::Call(
                LoaderCall::Resolve { module: *module, symbol: self.symbol(*index) },
            ),
            BulkState::Releasing { module, .. } => BulkAction::Call(
                LoaderCall::Release { module: *module },
            ),
            BulkState::Finished { result } => match result {
                Ok(()) => BulkAction::Done(Ok(())),
                Err(e) => BulkAction::Done(Err(copy_error(e))),
            },
        }
    }

    /// Goes on with slot `index`, or finishes past the last slot.
    fn bulk_resume(&mut self, module: isize, index: usize) -> (state: BulkState)
        requires
            index <= old(self)@.slots.len(),
        ensures
            (final(self)@, state@) == bulk_resume(old(self)@, module, index as int),
            bulk_state_valid(final(self)@, state@),
    {
        if index < self.table.len() {
            BulkState::Resolving { module, index }
        } else {
            self.module_handle = Some(module);
            self.initialized = true;
            BulkState::Finished { result: Ok(()) }
        }
    }

    /// Starts bulk resolution: every slot is to be resolved by name, in index
    /// order, against one reference to the target library. Where bulk
    /// resolution ran before, it is over at once with `AlreadyInitialized`.
    pub fn forward_all(&self) -> (step: (BulkState, BulkAction))
        ensures
            step.0@ == bulk_begin(self@),
            step.1@ == bulk_action(self@, step.0@),
            bulk_state_valid(self@, step.0@),
    {
        let state = if self.initialized {
            BulkState::Finished { result: Err(ForwardError::AlreadyInitialized) }
        } else {
            BulkState::Acquiring
        };
        let action = self.bulk_pending(&state);
        (state, action)
    }

    /// Takes bulk resolution one step further with the loader's answer to the
    /// call that the state asked for.
    pub fn forward_all_step(&mut self, state: BulkState, reply: LoaderReply) -> (step: (
        BulkState,
        BulkAction,
    ))
        requires
            bulk_state_valid(old(self)@, state@),
        ensures
            (final(self)@, step.0@) == bulk_next(old(self)@, state@, reply@),
            step.1@ == bulk_action(final(self)@, step.0@),
            bulk_state_valid(final(self)@, step.0@),
    {
        let next = match state {
            BulkState::Acquiring => match reply {
                LoaderReply::Acquired(Ok(module)) => self.bulk_resume(module, 0),
                LoaderReply::Acquired(Err(e)) => BulkState::Finished { result: Err(e) },
                _ => BulkState::Acquiring,
            },
            BulkState::Resolving { module, index } => match reply {
                LoaderReply::Resolved(Ok(address)) => {
                    self.table.store(index, address);
                    self.bulk_resume(module, index + 1)
                },
                LoaderReply::Resolved(Err(e)) => BulkState::Releasing { module, error: e },
                _ => BulkState::Resolving { module, index },
            },
            BulkState::Releasing { module, error } => match reply {
                LoaderReply::Released => BulkState::Finished { result: Err(error) },
                _ => BulkState::Releasing { module, error },
            },
            BulkState::Finished { result } => BulkState::Finished { result },
        };
        let action = self.bulk_pending(&next);
        (next, action)
    }

    /// The action that belongs to a state of lazy resolution.
    fn lazy_pending(&self, state: &LazyState) -> (action: LazyAction)
        requires
            lazy_state_valid(self@, state@),
        ensures
            action@ == lazy_action(self@, state@),
    {
        match state {
            LazyState::Acquiring { .. } => LazyAction::Call(
                LoaderCall::Acquire { library: self.lib_name.clone() },
            ),
            LazyState::Resolving { index, module } => LazyAction::Call(
                LoaderCall::Resolve { module: *module, symbol: self.symbol(*index) },
            ),
            LazyState::Finished { outcome } => match outcome {
                Ok(address) => LazyAction::Jump(*address),
                Err(e) => LazyAction::Exit(copy_error(e)),
            },
        }
    }

    /// Starts the lazy resolution of slot `index`, as the slot's trampoline
    /// does when it is entered: a resolved slot is jumped to at once, an
    /// unresolved one resolves itself first. No step of it gives the library
    /// back: a trampoline may jump into it at any later time.
    pub fn default_jumper(&self, index: usize) -> (step: (LazyState, LazyAction))
        requires
            index < self@.slots.len(),
        ensures
            step.0@ == lazy_begin(self@, index as int),
            step.1@ == lazy_action(self@, step.0@),
            lazy_state_valid(self@, step.0@),
    {
        let state = match self.table.resolved_address(index) {
            Some(address) => LazyState::Finished { outcome: Ok(address) },
            None => LazyState::Acquiring { index },
        };
        let action = self.lazy_pending(&state);
        (state, action)
    }

    /// Takes a lazy resolution one step further with the loader's answer to
    /// the call that the state asked for.
    pub fn default_jumper_step(&mut self, state: LazyState, reply: LoaderReply) -> (step: (
        LazyState,
        LazyAction,
    ))
        requires
            lazy_state_valid(old(self)@, state@),
        ensures
            (final(self)@, step.0@) == lazy_next(old(self)@, state@, reply@),
            step.1@ == lazy_action(final(self)@, step.0@),
            lazy_state_valid(final(self)@, step.0@),
    {
        let next = match state {
            LazyState::Acquiring { index } => match reply {
                LoaderReply::Acquired(Ok(module)) => LazyState::Resolving { index, module },
                LoaderReply::Acquired(Err(e)) => LazyState::Finished { outcome: Err(e) },
                _ => LazyState::Acquiring { index },
            },
            LazyState::Resolving { index, module } => match reply {
                LoaderReply::Resolved(Ok(address)) => {
                    let held = self.table.store(index, address);
                    LazyState::Finished { outcome: Ok(held) }
                },
                LoaderReply::Resolved(Err(e)) => LazyState::Finished { outcome: Err(e) },
                _ => LazyState::Resolving { index, module },
            },
            LazyState::Finished { outcome } => LazyState::Finished { outcome },
        };
        let action = self.lazy_pending(&next);
        (next, action)
    }
}

} // verus!
