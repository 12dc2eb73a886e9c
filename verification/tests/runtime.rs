use forward_dll::error::ForwardError;
use forward_dll::export_table::ExportSymbol;
use forward_dll::runtime::copy_error;
use forward_dll::runtime::BulkAction;
use forward_dll::runtime::BulkState;
use forward_dll::runtime::DllForwarder;
use forward_dll::runtime::LazyAction;
use forward_dll::runtime::LazyState;
use forward_dll::runtime::LoaderCall;
use forward_dll::runtime::LoaderReply;
use forward_dll::slots::SlotTable;
use forward_dll::utils::get_proc_address_by_module;
use forward_dll::utils::load_library;

/// A loader that holds one library, or none, and a list of its symbols.
struct Loader {
    module: isize,
    load_error: u32,
    symbols: Vec<(String, usize)>,
    calls: Vec<LoaderCall>,
}

impl Loader {
    fn with(module: isize, symbols: &[(&str, usize)]) -> Loader {
        Loader {
            module,
            load_error: 126,
            symbols: symbols.iter().map(|(n, a)| (n.to_string(), *a)).collect(),
            calls: Vec::new(),
        }
    }

    fn answer(&mut self, call: LoaderCall) -> LoaderReply {
        let reply = match &call {
            LoaderCall::Acquire { library } => {
                LoaderReply::Acquired(load_library(library, self.module, self.load_error))
            }
            LoaderCall::Resolve { module, symbol } => {
                assert_eq!(*module, self.module);
                let found = self.symbols.iter().find(|(n, _)| n == symbol).map(|(_, a)| *a);
                LoaderReply::Resolved(get_proc_address_by_module(symbol, found.unwrap_or(0), 127))
            }
            LoaderCall::Release { module } => {
                assert_eq!(*module, self.module);
                LoaderReply::Released
            }
        };
        self.calls.push(call);
        reply
    }
}

fn forwarder(names: &[Option<&str>]) -> DllForwarder {
    let exports: Vec<ExportSymbol> = names
        .iter()
        .enumerate()
        .map(|(i, n)| ExportSymbol { ordinal: i as u32 + 1, name: n.map(|n| n.to_string()) })
        .collect();
    DllForwarder::new("target.dll", SlotTable::build(&exports).unwrap())
}

fn run_bulk(fwd: &mut DllForwarder, loader: &mut Loader) -> Result<(), ForwardError> {
    let (mut state, mut action) = fwd.forward_all();
    loop {
        match action {
            BulkAction::Done(result) => return result,
            BulkAction::Call(call) => {
                let reply = loader.answer(call);
                let step = fwd.forward_all_step(state, reply);
                state = step.0;
                action = step.1;
            }
        }
    }
}

fn run_lazy(fwd: &mut DllForwarder, index: usize, loader: &mut Loader) -> Result<usize, ForwardError> {
    let (mut state, mut action) = fwd.default_jumper(index);
    loop {
        match action {
            LazyAction::Jump(address) => return Ok(address),
            LazyAction::Exit(error) => return Err(error),
            LazyAction::Call(call) => {
                let reply = loader.answer(call);
                let step = fwd.default_jumper_step(state, reply);
                state = step.0;
                action = step.1;
            }
        }
    }
}

fn acquire() -> LoaderCall {
    LoaderCall::Acquire { library: "target.dll".to_string() }
}

fn resolve(module: isize, symbol: &str) -> LoaderCall {
    LoaderCall::Resolve { module, symbol: symbol.to_string() }
}

#[test]
fn bulk_resolution_resolves_every_slot() {
    let mut fwd = forwarder(&[Some("Foo"), Some("Bar"), Some("Baz")]);
    let mut loader = Loader::with(77, &[("Bar", 0x2000), ("Baz", 0x3000), ("Foo", 0x1000)]);
    assert_eq!(run_bulk(&mut fwd, &mut loader), Ok(()));
    assert_eq!(fwd.table.resolved_address(0), Some(0x1000));
    assert_eq!(fwd.table.resolved_address(1), Some(0x2000));
    assert_eq!(fwd.table.resolved_address(2), Some(0x3000));
    assert!(fwd.initialized);
    assert_eq!(fwd.module_handle, Some(77));
    assert_eq!(
        loader.calls,
        vec![acquire(), resolve(77, "Foo"), resolve(77, "Bar"), resolve(77, "Baz")]
    );
}

#[test]
fn bulk_resolution_runs_once() {
    let mut fwd = forwarder(&[Some("Foo")]);
    let mut loader = Loader::with(77, &[("Foo", 0x1000)]);
    assert_eq!(run_bulk(&mut fwd, &mut loader), Ok(()));
    let before = fwd.clone();
    let mut other = Loader::with(88, &[("Foo", 0x9000)]);
    assert_eq!(run_bulk(&mut fwd, &mut other), Err(ForwardError::AlreadyInitialized));
    assert_eq!(other.calls, vec![]);
    assert_eq!(fwd, before);
    assert_eq!(fwd.table.resolved_address(0), Some(0x1000));
    assert_eq!(fwd.module_handle, Some(77));
}

#[test]
fn a_library_that_does_not_load_ends_bulk_resolution() {
    let mut fwd = forwarder(&[Some("Foo"), Some("Bar")]);
    let before = fwd.clone();
    let mut loader = Loader::with(0, &[]);
    loader.load_error = 126;
    assert_eq!(
        run_bulk(&mut fwd, &mut loader),
        Err(ForwardError::LoadError { name: "target.dll".to_string(), system_code: 126 })
    );
    assert_eq!(loader.calls, vec![acquire()]);
    assert_eq!(fwd, before);
}

#[test]
fn a_missing_symbol_aborts_and_keeps_what_was_written() {
    let mut fwd = forwarder(&[Some("Foo"), Some("Bar"), Some("Baz")]);
    let mut loader = Loader::with(77, &[("Foo", 0x1000), ("Baz", 0x3000)]);
    assert_eq!(
        run_bulk(&mut fwd, &mut loader),
        Err(ForwardError::SymbolNotFound { name: "Bar".to_string(), system_code: 127 })
    );
    assert_eq!(
        loader.calls,
        vec![
            acquire(),
            resolve(77, "Foo"),
            resolve(77, "Bar"),
            LoaderCall::Release { module: 77 },
        ]
    );
    assert_eq!(fwd.table.resolved_address(0), Some(0x1000));
    assert_eq!(fwd.table.resolved_address(1), None);
    assert_eq!(fwd.table.resolved_address(2), None);
    assert!(!fwd.initialized);
    assert_eq!(fwd.module_handle, None);
    // A later run against a complete library resolves the rest.
    let mut complete = Loader::with(78, &[("Foo", 0x1111), ("Bar", 0x2000), ("Baz", 0x3000)]);
    assert_eq!(run_bulk(&mut fwd, &mut complete), Ok(()));
    assert_eq!(fwd.table.resolved_address(0), Some(0x1000));
    assert_eq!(fwd.table.resolved_address(1), Some(0x2000));
    assert_eq!(fwd.module_handle, Some(78));
}

#[test]
fn a_nameless_slot_is_looked_up_by_the_empty_name() {
    let mut fwd = forwarder(&[Some("Foo"), None]);
    let mut loader = Loader::with(5, &[("Foo", 0x1000)]);
    assert_eq!(
        run_bulk(&mut fwd, &mut loader),
        Err(ForwardError::SymbolNotFound { name: String::new(), system_code: 127 })
    );
    assert_eq!(loader.calls[2], resolve(5, ""));
}

#[test]
fn an_answer_that_was_not_asked_for_changes_nothing() {
    let mut fwd = forwarder(&[Some("Foo")]);
    let before = fwd.clone();
    let (state, action) = fwd.forward_all();
    assert_eq!(state, BulkState::Acquiring);
    assert_eq!(action, BulkAction::Call(acquire()));
    let (state, action) = fwd.forward_all_step(state, LoaderReply::Released);
    assert_eq!(state, BulkState::Acquiring);
    assert_eq!(action, BulkAction::Call(acquire()));
    let (state, action) = fwd.forward_all_step(state, LoaderReply::Resolved(Ok(0x1000)));
    assert_eq!(state, BulkState::Acquiring);
    assert_eq!(action, BulkAction::Call(acquire()));
    assert_eq!(fwd, before);
    let (state, action) = fwd.forward_all_step(state, LoaderReply::Acquired(Ok(3)));
    assert_eq!(state, BulkState::Resolving { module: 3, index: 0 });
    assert_eq!(action, BulkAction::Call(resolve(3, "Foo")));
    let (state, _) = fwd.forward_all_step(state, LoaderReply::Acquired(Ok(4)));
    assert_eq!(state, BulkState::Resolving { module: 3, index: 0 });
    let (state, action) = fwd.forward_all_step(state, LoaderReply::Resolved(Ok(0x1000)));
    assert_eq!(state, BulkState::Finished { result: Ok(()) });
    assert_eq!(action, BulkAction::Done(Ok(())));
    let (state, action) = fwd.forward_all_step(state, LoaderReply::Released);
    assert_eq!(state, BulkState::Finished { result: Ok(()) });
    assert_eq!(action, BulkAction::Done(Ok(())));
}

#[test]
fn a_trampoline_resolves_its_own_slot() {
    let mut fwd = forwarder(&[Some("Foo"), Some("Bar")]);
    let mut loader = Loader::with(9, &[("Foo", 0x1000), ("Bar", 0x2000)]);
    assert_eq!(run_lazy(&mut fwd, 1, &mut loader), Ok(0x2000));
    // The library is asked for and the symbol looked up; nothing is given back.
    assert_eq!(loader.calls, vec![acquire(), resolve(9, "Bar")]);
    assert_eq!(fwd.table.resolved_address(1), Some(0x2000));
    assert_eq!(fwd.table.resolved_address(0), None);
    assert!(!fwd.initialized);
    // The next entry jumps at once.
    let mut silent = Loader::with(0, &[]);
    assert_eq!(run_lazy(&mut fwd, 1, &mut silent), Ok(0x2000));
    assert_eq!(silent.calls, vec![]);
}

#[test]
fn a_trampoline_that_cannot_resolve_ends_the_process() {
    let mut fwd = forwarder(&[Some("Foo")]);
    let mut no_library = Loader::with(0, &[]);
    no_library.load_error = 2;
    assert_eq!(
        run_lazy(&mut fwd, 0, &mut no_library),
        Err(ForwardError::LoadError { name: "target.dll".to_string(), system_code: 2 })
    );
    assert_eq!(no_library.calls, vec![acquire()]);
    let mut no_symbol = Loader::with(4, &[("Other", 0x10)]);
    assert_eq!(
        run_lazy(&mut fwd, 0, &mut no_symbol),
        Err(ForwardError::SymbolNotFound { name: "Foo".to_string(), system_code: 127 })
    );
    assert_eq!(no_symbol.calls, vec![acquire(), resolve(4, "Foo")]);
    assert_eq!(fwd.table.resolved_address(0), None);
}

#[test]
fn lazy_resolutions_under_way_together_converge() {
    let mut fwd = forwarder(&[Some("Foo")]);
    let (first, _) = fwd.default_jumper(0);
    let (second, _) = fwd.default_jumper(0);
    let (first, _) = fwd.default_jumper_step(first, LoaderReply::Acquired(Ok(1)));
    let (second, _) = fwd.default_jumper_step(second, LoaderReply::Acquired(Ok(1)));
    let (first, first_action) = fwd.default_jumper_step(first, LoaderReply::Resolved(Ok(0x1000)));
    let (second, second_action) =
        fwd.default_jumper_step(second, LoaderReply::Resolved(Ok(0x7777)));
    assert_eq!(first, LazyState::Finished { outcome: Ok(0x1000) });
    assert_eq!(second, LazyState::Finished { outcome: Ok(0x1000) });
    assert_eq!(first_action, LazyAction::Jump(0x1000));
    assert_eq!(second_action, LazyAction::Jump(0x1000));
    assert_eq!(fwd.table.resolved_address(0), Some(0x1000));
}

#[test]
fn bulk_resolution_keeps_what_lazy_resolution_stored() {
    let mut fwd = forwarder(&[Some("Foo"), Some("Bar")]);
    let mut loader = Loader::with(9, &[("Foo", 0x1000), ("Bar", 0x2000)]);
    assert_eq!(run_lazy(&mut fwd, 0, &mut loader), Ok(0x1000));
    assert_eq!(run_bulk(&mut fwd, &mut loader), Ok(()));
    assert_eq!(fwd.table.resolved_address(0), Some(0x1000));
    assert_eq!(fwd.table.resolved_address(1), Some(0x2000));
}

#[test]
fn errors_are_copied_whole() {
    let errors = vec![
        ForwardError::AlreadyInitialized,
        ForwardError::EncodingError,
        ForwardError::UnsupportedMachine,
        ForwardError::DefinitionRejected("a".to_string()),
        ForwardError::ImportLibraryWrite("b".to_string()),
        ForwardError::LoadError { name: "c".to_string(), system_code: 1 },
        ForwardError::SymbolNotFound { name: "d".to_string(), system_code: 2 },
        ForwardError::FileFormat(forward_dll::error::FileFormatError::Malformed),
    ];
    for e in &errors {
        assert_eq!(&copy_error(e), e);
    }
}

#[test]
fn lazy_resolution_keeps_the_library_loaded() {
    let mut fwd = forwarder(&[Some("Foo")]);
    let (state, action) = fwd.default_jumper(0);
    assert_eq!(state, LazyState::Acquiring { index: 0 });
    assert_eq!(action, LazyAction::Call(acquire()));
    let (state, action) = fwd.default_jumper_step(state, LoaderReply::Acquired(Ok(21)));
    assert_eq!(state, LazyState::Resolving { index: 0, module: 21 });
    assert_eq!(action, LazyAction::Call(resolve(21, "Foo")));
    let (state, action) = fwd.default_jumper_step(state, LoaderReply::Resolved(Ok(0xA000)));
    assert_eq!(state, LazyState::Finished { outcome: Ok(0xA000) });
    assert_eq!(action, LazyAction::Jump(0xA000));
    assert_eq!(fwd.table.resolved_address(0), Some(0xA000));
    // Nothing that is answered afterwards makes it ask for a release.
    let (state, action) = fwd.default_jumper_step(state, LoaderReply::Released);
    assert_eq!(state, LazyState::Finished { outcome: Ok(0xA000) });
    assert_eq!(action, LazyAction::Jump(0xA000));
}

#[test]
fn a_failed_lookup_ends_without_a_release() {
    let mut fwd = forwarder(&[Some("Foo")]);
    let (state, _) = fwd.default_jumper(0);
    let (state, _) = fwd.default_jumper_step(state, LoaderReply::Acquired(Ok(21)));
    let missing = ForwardError::SymbolNotFound { name: "Foo".to_string(), system_code: 127 };
    let (state, action) = fwd.default_jumper_step(state, LoaderReply::Resolved(Err(missing.clone())));
    assert_eq!(state, LazyState::Finished { outcome: Err(missing.clone()) });
    assert_eq!(action, LazyAction::Exit(missing));
    assert_eq!(fwd.table.resolved_address(0), None);
}

#[test]
fn a_name_with_a_zero_byte_is_never_looked_up() {
    let mut fwd = DllForwarder::new(
        "tar\0get.dll",
        SlotTable::build(&vec![ExportSymbol { ordinal: 1, name: Some("Foo".to_string()) }]).unwrap(),
    );
    let mut loader = Loader::with(77, &[("Foo", 0x1000)]);
    assert_eq!(run_bulk(&mut fwd, &mut loader), Err(ForwardError::EncodingError));
    assert!(!fwd.initialized);
    assert_eq!(fwd.table.resolved_address(0), None);
}
