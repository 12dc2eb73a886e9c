//! The generator of a run-time forwarder: from a configuration and the
//! target's exports to the entry points that the generated module exports and
//! the forwarder they resolve through.

use crate::error::FileFormatError;
use crate::error::ForwardError;
use crate::error::ForwardErrorView;
use crate::export_table::get_dll_export_names;
use crate::export_table::image_kind;
use crate::export_table::pe32_export_scan;
use crate::export_table::pe64_export_scan;
use crate::export_table::symbols_of_image;
use crate::export_table::ExportSymbolView;
use crate::linktime::anonymous_count;
use crate::linktime::export_name;
use crate::linktime::render_export_name;
use crate::runtime::symbol_of_slot;
use crate::runtime::DllForwarder;
use crate::runtime::DllForwarderView;
use crate::slots::fresh_table;
use crate::slots::SlotTable;
use crate::slots::SlotView;
use crate::text::contains_text;
use crate::text::decimal;
use crate::text::decimal_string;
use crate::text::has_text;
use crate::text::same_text;
use crate::text::texts;
use vstd::prelude::*;

verus! {

/// What a forwarder is generated from.
#[derive(Debug, Clone, PartialEq, Eq)]
pub struct ForwardConfig {
    /// The library that is loaded at run time.
    pub target_library_path: String,
    /// Where a copy of the target is read for its exports while generating,
    /// if that is not the target's own path.
    pub development_path: Option<String>,
    /// Whether the generated module keeps the target's ordinals exactly.
    pub use_ordinal_exact_forwarding: bool,
}

impl ForwardConfig {
    /// Where the target's exports are read while generating.
    pub fn export_source(&self) -> (path: &String)
        ensures
            path@ == match self.development_path {
                Some(p) => p@,
                None => self.target_library_path@,
            },
    {
        match &self.development_path {
            Some(p) => p,
            None => &self.target_library_path,
        }
    }
}

/// One generated entry point: the identifier it is defined under, and the
/// symbol of the target that it transfers to.
#[derive(Debug, Clone, PartialEq, Eq)]
pub struct EntryPoint {
    pub export_name: String,
    pub symbol: String,
}

pub struct EntryPointView {
    pub export_name: Seq<char>,
    pub symbol: Seq<char>,
}

impl View for EntryPoint {
    type V = EntryPointView;

    open spec fn view(&self) -> EntryPointView {
        EntryPointView { export_name: self.export_name@, symbol: self.symbol@ }
    }
}

/// What the generator hands out.
#[derive(Debug, Clone, PartialEq, Eq)]
pub struct RuntimePlan {
    /// The forwarder, with one unresolved slot per export.
    pub forwarder: DllForwarder,
    /// One entry point per slot, in slot order.
    pub entry_points: Vec<EntryPoint>,
    /// With exact ordinals: the linker directives, one per line, that a later
    /// build step passes on.
    pub ordinal_link_args: Option<String>,
}

pub struct RuntimePlanView {
    pub forwarder: DllForwarderView,
    pub entry_points: Seq<EntryPointView>,
    pub ordinal_link_args: Option<Seq<char>>,
}

impl View for RuntimePlan {
    type V = RuntimePlanView;

    open spec fn view(&self) -> RuntimePlanView {
        RuntimePlanView {
            forwarder: self.forwarder@,
            entry_points: Seq::new(self.entry_points@.len(), |i: int| self.entry_points@[i]@),
            ordinal_link_args: match self.ordinal_link_args {
                Some(t) => Some(t@),
                None => None,
            },
        }
    }
}

pub open spec fn runtime_plan_view(r: Result<RuntimePlan, ForwardError>) -> Result<
    RuntimePlanView,
    ForwardErrorView,
> {
    match r {
        Ok(p) => Ok(p@),
        Err(e) => Err(e@),
    }
}

/// The entry point of slot `i`. With exact ordinals the identifier is the
/// export's name behind an underscore, and a directive gives it its name
/// back; else it is the export's name itself.
pub open spec fn entry_point(slots: Seq<SlotView>, i: int, ordinal_exact: bool) -> EntryPointView {
    EntryPointView {
        export_name: if ordinal_exact {
            "_"@ + export_name(slots, i)
        } else {
            export_name(slots, i)
        },
        symbol: symbol_of_slot(slots, i),
    }
}

/// The directive that exports the entry point of slot `i` under the export's
/// name and ordinal.
pub open spec fn ordinal_directive(slots: Seq<SlotView>, i: int) -> Seq<char> {
    let ordinal = decimal(slots[i].ordinal as nat);
    let base = "/EXPORT:"@ + export_name(slots, i) + "=_"@ + export_name(slots, i) + ",@"@
        + ordinal;
    if slots[i].name is None {
        base + ",NONAME"@
    } else {
        base
    }
}

/// The directives of the first `upto` slots, one per line.
pub open spec fn ordinal_link_args(slots: Seq<SlotView>, upto: int) -> Seq<char>
    decreases upto,
{
    if upto <= 0 {
        Seq::empty()
    } else if upto == 1 {
        ordinal_directive(slots, 0)
    } else {
        ordinal_link_args(slots, upto - 1) + "\n"@ + ordinal_directive(slots, upto - 1)
    }
}

/// What is generated for a table of slots.
pub open spec fn runtime_plan_of_table(
    target: Seq<char>,
    ordinal_exact: bool,
    slots: Seq<SlotView>,
) -> RuntimePlanView {
    RuntimePlanView {
        forwarder: DllForwarderView {
            initialized: false,
            module_handle: None,
            lib_name: target,
            slots,
        },
        entry_points: Seq::new(slots.len(), |i: int| entry_point(slots, i, ordinal_exact)),
        ordinal_link_args: if ordinal_exact {
            Some(ordinal_link_args(slots, slots.len() as int))
        } else {
            None
        },
    }
}

/// What is generated from what was read of the target's image.
pub open spec fn runtime_plan_of(
    target: Seq<char>,
    ordinal_exact: bool,
    read: Result<Seq<ExportSymbolView>, FileFormatError>,
) -> Result<RuntimePlanView, ForwardErrorView> {
    match read {
        Err(e) => Err(ForwardErrorView::FileFormat(e)),
        Ok(symbols) => if symbols.len() == 0 {
            Err(ForwardErrorView::FileFormat(FileFormatError::NoExportTable))
        } else {
            Ok(runtime_plan_of_table(target, ordinal_exact, fresh_table(symbols)))
        },
    }
}

/// Writes the linker directives that give every entry point of a table its
/// export's name and ordinal, one directive per line.
pub fn generate_linker_args(table: &SlotTable) -> (args: String)
    ensures
        args@ == ordinal_link_args(table@, table@.len() as int),
{
    let count = table.len();
    let mut args = String::new();
    let mut anonymous: usize = 0;
    let mut i: usize = 0;
    while i < count
        invariant
            count == table@.len(),
            i <= count,
            anonymous <= i,
            anonymous == anonymous_count(table@, i as int),
            args@ == ordinal_link_args(table@, i as int),
        decreases count - i,
    {
        let ghost before = args@;
        let name = render_export_name(table, i, anonymous);
        let ordinal = decimal_string(table.ordinal(i) as u64);
        if i > 0 {
            args.append("\n");
        }
        args.append("/EXPORT:");
        args.append(name.as_str());
        args.append("=_");
        args.append(name.as_str());
        args.append(",@");
        args.append(ordinal.as_str());
        if table.name(i).is_none() {
            args.append(",NONAME");
            anonymous = anonymous + 1;
        }
        proof {
            if i == 0 {
                assert(before =~= Seq::<char>::empty());
                assert(args@ =~= ordinal_directive(table@, 0));
            } else {
                assert(args@ =~= before + "\n"@ + ordinal_directive(table@, i as int));
            }
        }
        i = i + 1;
    }
    args
}

/// Whether a directory belongs to one package's corner of a build tree: it is
/// called `out` or `build`, or its name holds the package's name.
pub open spec fn is_build_component(component: Seq<char>, package: Seq<char>) -> bool {
    component == "out"@ || contains_text(component, package) || component == "build"@
}

/// The directory that a later build step shares with the generator: the
/// generator's output directory, given by its components, without the
/// components at its end that belong to the generator's package alone.
pub open spec fn shared_directory(components: Seq<Seq<char>>, package: Seq<char>) -> Seq<
    Seq<char>,
>
    decreases components.len(),
{
    if components.len() > 0 && is_build_component(components.last(), package) {
        shared_directory(components.drop_last(), package)
    } else {
        components
    }
}

/// Dropping the build components at the end leaves the components up to the
/// last one that is none.
proof fn lemma_shared_directory(components: Seq<Seq<char>>, package: Seq<char>, kept: int)
    requires
        0 <= kept <= components.len(),
        forall|i: int| kept <= i < components.len() ==> is_build_component(components[i], package),
        kept == 0 || !is_build_component(components[kept - 1], package),
    ensures
        shared_directory(components, package) == components.subrange(0, kept),
    decreases components.len() - kept,
{
    if kept == components.len() {
        assert(components.subrange(0, kept) =~= components);
    } else {
        let shorter = components.drop_last();
        lemma_shared_directory(shorter, package, kept);
        assert(shorter.subrange(0, kept) =~= components.subrange(0, kept));
    }
}

/// Finds the directory in which the linker arguments are left for a later
/// build step, from the components of the generator's own output directory
/// and the name of the generator's package.
pub fn linker_args_directory(components: &Vec<String>, package: &str) -> (kept: Vec<String>)
    ensures
        texts(kept@) == shared_directory(texts(components@), package@),
{
    let mut count: usize = components.len();
    loop
        invariant_except_break
            count <= components@.len(),
            forall|i: int|
                count <= i < components@.len() ==> is_build_component(components@[i]@, package@),
        ensures
            count <= components@.len(),
            forall|i: int|
                count <= i < components@.len() ==> is_build_component(components@[i]@, package@),
            count == 0 || !is_build_component(components@[count - 1]@, package@),
        decreases count,
    {
        if count == 0 {
            break;
        }
        let name = components[count - 1].as_str();
        if !(same_text(name, "out") || has_text(name, package) || same_text(name, "build")) {
            break;
        }
        count = count - 1;
    }
    let mut kept: Vec<String> = Vec::new();
    let mut i: usize = 0;
    while i < count
        invariant
            i <= count,
            count <= components@.len(),
            kept@.len() == i,
            forall|k: int| 0 <= k < i ==> kept@[k]@ == components@[k]@,
        decreases count - i,
    {
        kept.push(components[i].clone());
        i = i + 1;
    }
    proof {
        lemma_shared_directory(texts(components@), package@, count as int);
        assert(texts(kept@) =~= texts(components@).subrange(0, count as int));
    }
    kept
}

/// Writes the entry points of a table, one per slot.
pub fn entry_points(table: &SlotTable, ordinal_exact: bool) -> (entries: Vec<EntryPoint>)
    ensures
        entries@.len() == table@.len(),
        forall|i: int|
            0 <= i < entries@.len() ==> entries@[i]@ == entry_point(table@, i, ordinal_exact),
{
    let count = table.len();
    let mut entries: Vec<EntryPoint> = Vec::new();
    let mut anonymous: usize = 0;
    let mut i: usize = 0;
    while i < count
        invariant
            count == table@.len(),
            i <= count,
            anonymous <= i,
            anonymous == anonymous_count(table@, i as int),
            entries@.len() == i,
            forall|k: int| 0 <= k < i ==> entries@[k]@ == entry_point(table@, k, ordinal_exact),
        decreases count - i,
    {
        let name = render_export_name(table, i, anonymous);
        let export_name = if ordinal_exact {
            let mut decorated = String::from_str("_");
            decorated.append(name.as_str());
            decorated
        } else {
            name
        };
        let symbol = match table.name(i) {
            Some(n) => n.clone(),
            None => {
                anonymous = anonymous + 1;
                String::new()
            },
        };
        entries.push(EntryPoint { export_name, symbol });
        i = i + 1;
    }
    entries
}

/// Generates a run-time forwarder for the target whose image these bytes
/// are: one slot and one entry point per export, in the order of the export
/// directory.
pub fn derive_forward_module(config: &ForwardConfig, image: &[u8]) -> (r: Result<
    RuntimePlan,
    ForwardError,
>)
    ensures
        runtime_plan_view(r) == runtime_plan_of(
            config.target_library_path@,
            config.use_ordinal_exact_forwarding,
            symbols_of_image(
                image_kind(image@),
                pe32_export_scan(image@),
                pe64_export_scan(image@),
            ),
        ),
{
    let exports = match get_dll_export_names(image) {
        Ok(exports) => exports,
        Err(e) => {
            return Err(ForwardError::FileFormat(e));
        },
    };
    let table = match SlotTable::build(&exports) {
        Ok(table) => table,
        Err(e) => {
            return Err(ForwardError::FileFormat(e));
        },
    };
    let entry_points = entry_points(&table, config.use_ordinal_exact_forwarding);
    let ordinal_link_args = if config.use_ordinal_exact_forwarding {
        Some(generate_linker_args(&table))
    } else {
        None
    };
    let forwarder = DllForwarder::new(config.target_library_path.as_str(), table);
    let plan = RuntimePlan { forwarder, entry_points, ordinal_link_args };
    assert(plan@.entry_points =~= runtime_plan_of_table(
        config.target_library_path@,
        config.use_ordinal_exact_forwarding,
        forwarder@.slots,
    ).entry_points);
    Ok(plan)
}

} // verus!
