//! Link-time forwarding: linker directives that make the loader itself forward
//! each export, and the import library that declares the exports.

use crate::definition::check_tame;
use crate::definition::import_library_image;
use crate::definition::is_tame;
use crate::definition::parsed_definition;
use crate::definition::undecorated;
use crate::definition::Machine;
use crate::error::FileFormatError;
use crate::error::ForwardError;
use crate::error::ForwardErrorView;
use crate::export_table::get_dll_export_names;
use crate::export_table::image_kind;
use crate::export_table::pe32_export_scan;
use crate::export_table::pe64_export_scan;
use crate::export_table::symbol_views;
use crate::export_table::symbols_of_image;
use crate::export_table::ExportSymbol;
use crate::export_table::ExportSymbolView;
use crate::slots::fresh_table;
use crate::slots::SlotTable;
use crate::slots::SlotView;
use crate::text::decimal;
use crate::text::decimal_string;
use crate::text::strip_dll_suffix;
use crate::text::without_dll_suffix;
use vstd::prelude::*;

verus! {

/// How many of the first `upto` slots stand for an export without a name.
pub open spec fn anonymous_count(slots: Seq<SlotView>, upto: int) -> nat
    decreases upto,
{
    if upto <= 0 {
        0
    } else if slots[upto - 1].name is None {
        anonymous_count(slots, upto - 1) + 1
    } else {
        anonymous_count(slots, upto - 1)
    }
}

/// The name made up for the `k`-th export without a name.
pub open spec fn placeholder_name(k: nat) -> Seq<char> {
    "forward_anon_"@ + decimal(k)
}

/// The name under which the generated module exports slot `i`: the export's
/// own name, or a placeholder numbered by how many nameless exports there are
/// up to and including this one.
pub open spec fn export_name(slots: Seq<SlotView>, i: int) -> Seq<char> {
    match slots[i].name {
        Some(n) => n,
        None => placeholder_name(anonymous_count(slots, i + 1)),
    }
}

/// The linker directive that forwards slot `i` to the library called `base`.
pub open spec fn directive(base: Seq<char>, slots: Seq<SlotView>, i: int) -> Seq<char> {
    let ordinal = decimal(slots[i].ordinal as nat);
    match slots[i].name {
        Some(n) => "/EXPORT:"@ + n + "="@ + base + "."@ + n + ",@"@ + ordinal,
        None => "/EXPORT:"@ + export_name(slots, i) + "="@ + base + ".#"@ + ordinal + ",@"@
            + ordinal + ",NONAME"@,
    }
}

/// One directive per slot, in slot order.
pub open spec fn directives(base: Seq<char>, slots: Seq<SlotView>) -> Seq<Seq<char>> {
    Seq::new(slots.len(), |i: int| directive(base, slots, i))
}

/// The entry of the import library's descriptor for slot `i`: the exported
/// name with the ordinal, marked where the export is by ordinal only.
pub open spec fn descriptor_entry(slots: Seq<SlotView>, i: int) -> Seq<char> {
    let ordinal = decimal(slots[i].ordinal as nat);
    match slots[i].name {
        Some(n) => n + "@"@ + ordinal,
        None => export_name(slots, i) + "@"@ + ordinal + " NONAME"@,
    }
}

/// One descriptor entry per slot, in slot order.
pub open spec fn descriptor(slots: Seq<SlotView>) -> Seq<Seq<char>> {
    Seq::new(slots.len(), |i: int| descriptor_entry(slots, i))
}

/// The line of the module definition that declares slot `i`.
pub open spec fn definition_line(slots: Seq<SlotView>, i: int) -> Seq<char> {
    let ordinal = decimal(slots[i].ordinal as nat);
    match slots[i].name {
        Some(n) => "  "@ + n + " @"@ + ordinal + "\n"@,
        None => "  "@ + export_name(slots, i) + " @"@ + ordinal + " NONAME\n"@,
    }
}

/// The lines of the first `upto` slots, one after the other.
pub open spec fn definition_lines(slots: Seq<SlotView>, upto: int) -> Seq<char>
    decreases upto,
{
    if upto <= 0 {
        Seq::empty()
    } else {
        definition_lines(slots, upto - 1) + definition_line(slots, upto - 1)
    }
}

/// The module definition of a table: the header, then a line per slot.
pub open spec fn definition_text(slots: Seq<SlotView>) -> Seq<char> {
    "LIBRARY version\nEXPORTS\n"@ + definition_lines(slots, slots.len() as int)
}

/// What link-time generation hands to the build. The directives are there
/// whenever there are exports; making the import library can still fail.
#[derive(Debug, PartialEq, Eq)]
pub struct LinkPlan {
    /// One linker directive per export, in export order.
    pub directives: Vec<String>,
    /// What the import library declares: one entry per export, in export order.
    pub descriptor: Vec<String>,
    /// The module definition the import library was made from.
    pub definition: String,
    /// The bytes of the import library, or why there is none.
    pub import_library: Result<Vec<u8>, ForwardError>,
}

pub struct LinkPlanView {
    pub directives: Seq<Seq<char>>,
    pub descriptor: Seq<Seq<char>>,
    pub definition: Seq<char>,
    pub import_library: Result<Seq<u8>, ForwardErrorView>,
}

impl View for LinkPlan {
    type V = LinkPlanView;

    open spec fn view(&self) -> LinkPlanView {
        LinkPlanView {
            directives: Seq::new(self.directives@.len(), |i: int| self.directives@[i]@),
            descriptor: Seq::new(self.descriptor@.len(), |i: int| self.descriptor@[i]@),
            definition: self.definition@,
            import_library: library_view(self.import_library),
        }
    }
}

pub open spec fn plan_view(r: Result<LinkPlan, ForwardError>) -> Result<
    LinkPlanView,
    ForwardErrorView,
> {
    match r {
        Ok(p) => Ok(p@),
        Err(e) => Err(e@),
    }
}

pub open spec fn library_view(r: Result<Vec<u8>, ForwardError>) -> Result<
    Seq<u8>,
    ForwardErrorView,
> {
    match r {
        Ok(b) => Ok(b@),
        Err(e) => Err(e@),
    }
}

/// The import library of a definition text: none for a text that is not tame
/// or that the parser refuses; else what is written for the parsed definition
/// once its symbols are undecorated.
pub open spec fn import_library_of(text: Seq<char>, machine: Machine) -> Result<
    Seq<u8>,
    ForwardErrorView,
> {
    if !is_tame(text) {
        Err(ForwardErrorView::EncodingError)
    } else {
        match parsed_definition(text, machine) {
            Err(m) => Err(ForwardErrorView::DefinitionRejected(m)),
            Ok(def) => match import_library_image(undecorated(def), machine) {
                Err(m) => Err(ForwardErrorView::ImportLibraryWrite(m)),
                Ok(bytes) => Ok(bytes),
            },
        }
    }
}

/// The plan for a table of slots and the path of the target library.
pub open spec fn plan_of_table(path: Seq<char>, slots: Seq<SlotView>, machine: Machine) -> LinkPlanView {
    LinkPlanView {
        directives: directives(without_dll_suffix(path), slots),
        descriptor: descriptor(slots),
        definition: definition_text(slots),
        import_library: import_library_of(definition_text(slots), machine),
    }
}

/// The plan for a list of exports: none for an empty list.
pub open spec fn plan_of_symbols(
    path: Seq<char>,
    symbols: Seq<ExportSymbolView>,
    machine: Machine,
) -> Result<LinkPlanView, ForwardErrorView> {
    if symbols.len() == 0 {
        Err(ForwardErrorView::FileFormat(FileFormatError::NoExportTable))
    } else {
        Ok(plan_of_table(path, fresh_table(symbols), machine))
    }
}

/// The plan for what was read of an image.
pub open spec fn plan_of_read(
    path: Seq<char>,
    read: Result<Seq<ExportSymbolView>, FileFormatError>,
    machine: Machine,
) -> Result<LinkPlanView, ForwardErrorView> {
    match read {
        Err(e) => Err(ForwardErrorView::FileFormat(e)),
        Ok(symbols) => plan_of_symbols(path, symbols, machine),
    }
}

/// The exports that a list of ordinals and names declares: all of them named.
pub open spec fn named_symbols(exports: Seq<(u32, &str)>) -> Seq<ExportSymbolView> {
    Seq::new(
        exports.len(),
        |i: int| ExportSymbolView { ordinal: exports[i].0, name: Some(exports[i].1@) },
    )
}

/// Makes the import library of a module definition for a machine.
pub fn import_library_for(definition: &str, machine: Machine) -> (r: Result<Vec<u8>, ForwardError>)
    ensures
        library_view(r) == import_library_of(definition@, machine),
{
    if !check_tame(definition) {
        return Err(ForwardError::EncodingError);
    }
    match crate::definition::parse_definition(definition, machine) {
        Err(m) => Err(ForwardError::DefinitionRejected(m)),
        Ok(def) => {
            let fixed = crate::definition::undecorate_symbols(&def);
            match crate::definition::write_import_library(fixed, machine) {
                Err(m) => Err(ForwardError::ImportLibraryWrite(m)),
                Ok(bytes) => Ok(bytes),
            }
        },
    }
}

/// Writes the name under which slot `index` is exported, given how many
/// nameless exports come before it.
pub(crate) fn render_export_name(table: &SlotTable, index: usize, anonymous_before: usize) -> (name: String)
    requires
        index < table@.len(),
        anonymous_before <= index,
        anonymous_before == anonymous_count(table@, index as int),
    ensures
        name@ == export_name(table@, index as int),
{
    match table.name(index) {
        Some(n) => n.clone(),
        None => {
            let mut name = String::from_str("forward_anon_");
            let number = decimal_string((anonymous_before + 1) as u64);
            name.append(number.as_str());
            name
        },
    }
}

/// Writes the linker directive of slot `index`.
fn render_directive(base: &str, table: &SlotTable, index: usize, anonymous_before: usize) -> (line:
    String)
    requires
        index < table@.len(),
        anonymous_before <= index,
        anonymous_before == anonymous_count(table@, index as int),
    ensures
        line@ == directive(base@, table@, index as int),
{
    let ordinal = decimal_string(table.ordinal(index) as u64);
    let name = render_export_name(table, index, anonymous_before);
    let mut line = String::from_str("/EXPORT:");
    line.append(name.as_str());
    line.append("=");
    line.append(base);
    match table.name(index) {
        Some(n) => {
            line.append(".");
            line.append(n.as_str());
            line.append(",@");
            line.append(ordinal.as_str());
        },
        None => {
            line.append(".#");
            line.append(ordinal.as_str());
            line.append(",@");
            line.append(ordinal.as_str());
            line.append(",NONAME");
        },
    }
    line
}

/// Writes the descriptor entry of slot `index`.
fn render_descriptor_entry(table: &SlotTable, index: usize, anonymous_before: usize) -> (entry:
    String)
    requires
        index < table@.len(),
        anonymous_before <= index,
        anonymous_before == anonymous_count(table@, index as int),
    ensures
        entry@ == descriptor_entry(table@, index as int),
{
    let mut entry = render_export_name(table, index, anonymous_before);
    entry.append("@");
    entry.append(decimal_string(table.ordinal(index) as u64).as_str());
    if table.name(index).is_none() {
        entry.append(" NONAME");
    }
    entry
}

/// Appends the definition line of slot `index` to `text`.
fn append_definition_line(
    text: &mut String,
    table: &SlotTable,
    index: usize,
    anonymous_before: usize,
)
    requires
        index < table@.len(),
        anonymous_before <= index,
        anonymous_before == anonymous_count(table@, index as int),
    ensures
        final(text)@ == old(text)@ + definition_line(table@, index as int),
{
    let ordinal = decimal_string(table.ordinal(index) as u64);
    let name = render_export_name(table, index, anonymous_before);
    let ghost before = text@;
    text.append("  ");
    text.append(name.as_str());
    text.append(" @");
    text.append(ordinal.as_str());
    match table.name(index) {
        Some(_) => {
            text.append("\n");
        },
        None => {
            text.append(" NONAME\n");
        },
    }
    assert(text@ =~= before + definition_line(table@, index as int));
}

/// Generates the directives and the import library that forward every slot
/// of a table to the library at `dll_path`.
pub fn plan_for_table(dll_path: &str, table: &SlotTable, machine: Machine) -> (plan: LinkPlan)
    ensures
        plan@ == plan_of_table(dll_path@, table@, machine),
{
    let base = strip_dll_suffix(dll_path);
    let count = table.len();
    let mut lines: Vec<String> = Vec::new();
    let mut entries: Vec<String> = Vec::new();
    let mut definition = String::from_str("LIBRARY version\nEXPORTS\n");
    let mut anonymous: usize = 0;
    let mut i: usize = 0;
    while i < count
        invariant
            count == table@.len(),
            i <= count,
            anonymous <= i,
            anonymous == anonymous_count(table@, i as int),
            lines@.len() == i,
            forall|k: int| 0 <= k < i ==> lines@[k]@ == directive(base@, table@, k),
            entries@.len() == i,
            forall|k: int| 0 <= k < i ==> entries@[k]@ == descriptor_entry(table@, k),
            definition@ == "LIBRARY version\nEXPORTS\n"@ + definition_lines(table@, i as int),
        decreases count - i,
    {
        lines.push(render_directive(base, table, i, anonymous));
        entries.push(render_descriptor_entry(table, i, anonymous));
        append_definition_line(&mut definition, table, i, anonymous);
        assert(definition@ =~= "LIBRARY version\nEXPORTS\n"@ + definition_lines(
            table@,
            i as int + 1,
        ));
        if table.name(i).is_none() {
            anonymous = anonymous + 1;
        }
        i = i + 1;
    }
    let import_library = import_library_for(definition.as_str(), machine);
    let plan = LinkPlan { directives: lines, descriptor: entries, definition, import_library };
    assert(plan@.directives =~= directives(base@, table@));
    assert(plan@.descriptor =~= descriptor(table@));
    plan
}

/// Generates the link-time forwarder for a list of exports.
pub fn forward_dll_impl(dll_path: &str, exports: &Vec<ExportSymbol>, machine: Machine) -> (r:
    Result<LinkPlan, ForwardError>)
    ensures
        plan_view(r) == plan_of_symbols(dll_path@, symbol_views(exports@), machine),
{
    match SlotTable::build(exports) {
        Err(e) => Err(ForwardError::FileFormat(e)),
        Ok(table) => Ok(plan_for_table(dll_path, &table, machine)),
    }
}

/// Forwards the given exports, each with its ordinal and its name, to the
/// library at `dll_path`; the target itself need not exist when this runs.
pub fn forward_dll_with_exports(dll_path: &str, exports: &[(u32, &str)], machine: Machine) -> (r:
    Result<LinkPlan, ForwardError>)
    ensures
        plan_view(r) == plan_of_symbols(dll_path@, named_symbols(exports@), machine),
{
    let mut symbols: Vec<ExportSymbol> = Vec::new();
    let mut i: usize = 0;
    while i < exports.len()
        invariant
            i <= exports@.len(),
            symbols@.len() == i,
            forall|k: int| 0 <= k < i ==> symbols@[k]@ == named_symbols(exports@)[k],
        decreases exports@.len() - i,
    {
        let (ordinal, name) = exports[i];
        symbols.push(ExportSymbol { ordinal, name: Some(String::from_str(name)) });
        i = i + 1;
    }
    assert(symbol_views(symbols@) =~= named_symbols(exports@));
    forward_dll_impl(dll_path, &symbols, machine)
}

/// Forwards every export of a target to the library at `dll_path`, reading
/// the exports from the bytes of a copy of the target that may live elsewhere.
pub fn forward_dll_with_dev_path(dll_path: &str, dev_image: &[u8], machine: Machine) -> (r: Result<
    LinkPlan,
    ForwardError,
>)
    ensures
        plan_view(r) == plan_of_read(
            dll_path@,
            symbols_of_image(
                image_kind(dev_image@),
                pe32_export_scan(dev_image@),
                pe64_export_scan(dev_image@),
            ),
            machine,
        ),
{
    match get_dll_export_names(dev_image) {
        Err(e) => Err(ForwardError::FileFormat(e)),
        Ok(exports) => forward_dll_impl(dll_path, &exports, machine),
    }
}

/// Forwards every export of the library at `dll_path`, whose bytes are
/// `image`, to that library, keeping each ordinal.
pub fn forward_dll(dll_path: &str, image: &[u8], machine: Machine) -> (r: Result<
    LinkPlan,
    ForwardError,
>)
    ensures
        plan_view(r) == plan_of_read(
            dll_path@,
            symbols_of_image(
                image_kind(image@),
                pe32_export_scan(image@),
                pe64_export_scan(image@),
            ),
            machine,
        ),
{
    forward_dll_with_dev_path(dll_path, image, machine)
}

} // verus!
