//! Module definitions and the import library made from them.
//!
//! The definition text is parsed, and the import library written, by the
//! `implib` crate. Between the two the parsed definition is held here as plain
//! values, so that the symbol names can be set on it.

use crate::error::ForwardError;
use crate::text::same_text;
use crate::text::trim_leading;
use crate::text::without_leading;
use implib::def::ModuleDef;
use implib::def::ShortExport;
use implib::Flavor;
use implib::ImportLibrary;
use implib::MachineType;
use std::io::Cursor;
use vstd::prelude::*;

verus! {

/// The machines an import library can be made for.
#[derive(Debug, Clone, Copy, PartialEq, Eq, Structural)]
pub enum Machine {
    /// 32-bit x86.
    I386,
    /// 64-bit x86.
    Amd64,
}

/// The machine that goes with the name of a processor architecture, where an
/// import library can be made for it.
pub open spec fn machine_of_arch(arch: Seq<char>) -> Option<Machine> {
    if arch == "x86"@ {
        Some(Machine::I386)
    } else if arch == "x86_64"@ {
        Some(Machine::Amd64)
    } else {
        None
    }
}

impl Machine {
    /// Picks the machine for an architecture by its name, `x86` or `x86_64`;
    /// for any other there is no import library.
    pub fn for_arch(arch: &str) -> (r: Result<Machine, ForwardError>)
        ensures
            match machine_of_arch(arch@) {
                Some(m) => r == Ok::<Machine, ForwardError>(m),
                None => r == Err::<Machine, ForwardError>(ForwardError::UnsupportedMachine),
            },
    {
        if same_text(arch, "x86") {
            Ok(Machine::I386)
        } else if same_text(arch, "x86_64") {
            Ok(Machine::Amd64)
        } else {
            Err(ForwardError::UnsupportedMachine)
        }
    }
}

/// One export of a parsed module definition.
#[derive(Debug, Clone, PartialEq, Eq)]
pub struct DefinitionExport {
    pub name: String,
    pub ext_name: Option<String>,
    pub symbol_name: String,
    pub alias_target: String,
    pub ordinal: u16,
    pub no_name: bool,
    pub data: bool,
    pub private: bool,
    pub constant: bool,
}

pub struct DefinitionExportView {
    pub name: Seq<char>,
    pub ext_name: Option<Seq<char>>,
    pub symbol_name: Seq<char>,
    pub alias_target: Seq<char>,
    pub ordinal: u16,
    pub no_name: bool,
    pub data: bool,
    pub private: bool,
    pub constant: bool,
}

impl View for DefinitionExport {
    type V = DefinitionExportView;

    open spec fn view(&self) -> DefinitionExportView {
        DefinitionExportView {
            name: self.name@,
            ext_name: match self.ext_name {
                Some(n) => Some(n@),
                None => None,
            },
            symbol_name: self.symbol_name@,
            alias_target: self.alias_target@,
            ordinal: self.ordinal,
            no_name: self.no_name,
            data: self.data,
            private: self.private,
            constant: self.constant,
        }
    }
}

/// What a parsed module definition says of the library it describes: its
/// exports and the name it is imported under.
#[derive(Debug, Clone, PartialEq, Eq)]
pub struct ModuleDefinition {
    pub exports: Vec<DefinitionExport>,
    pub import_name: String,
}

pub struct ModuleDefinitionView {
    pub exports: Seq<DefinitionExportView>,
    pub import_name: Seq<char>,
}

impl View for ModuleDefinition {
    type V = ModuleDefinitionView;

    open spec fn view(&self) -> ModuleDefinitionView {
        ModuleDefinitionView {
            exports: Seq::new(self.exports@.len(), |i: int| self.exports@[i]@),
            import_name: self.import_name@,
        }
    }
}

/// Characters between which the definition parser finds no word.
pub open spec fn is_separator(c: char) -> bool {
    c == ' ' || c == '\n' || c == '=' || c == ','
}

/// White space that the definition parser strips off a word without taking
/// it for the end of the word: every character with the Unicode property
/// White_Space but the blank and the line feed.
pub open spec fn is_stripped_space(c: char) -> bool {
    ||| c == '\t'
    ||| c == '\u{b}'
    ||| c == '\u{c}'
    ||| c == '\r'
    ||| c == '\u{85}'
    ||| c == '\u{a0}'
    ||| c == '\u{1680}'
    ||| ('\u{2000}' <= c && c <= '\u{200a}')
    ||| c == '\u{2028}'
    ||| c == '\u{2029}'
    ||| c == '\u{202f}'
    ||| c == '\u{205f}'
    ||| c == '\u{3000}'
}

/// Characters a definition text may hold: any but the semicolon, which would
/// open a comment, and the white space that is stripped off a word.
pub open spec fn is_definition_char(c: char) -> bool {
    c != ';' && !is_stripped_space(c)
}

/// The length of the run of separators that ends just before `upto`.
pub open spec fn separator_run(text: Seq<char>, upto: int) -> nat
    decreases upto,
{
    if upto <= 0 || upto > text.len() || !is_separator(text[upto - 1]) {
        0
    } else {
        1 + separator_run(text, upto - 1)
    }
}

/// The longest run of separators a definition text may hold.
pub const MAX_SEPARATOR_RUN: usize = 8;

/// A definition text that the parser can be handed: every character is a
/// definition character, and no run of separators exceeds the limit.
pub open spec fn is_tame(text: Seq<char>) -> bool {
    &&& forall|i: int| 0 <= i < text.len() ==> is_definition_char(#[trigger] text[i])
    &&& forall|i: int|
        0 <= i <= text.len() ==> #[trigger] separator_run(text, i) <= MAX_SEPARATOR_RUN
}

/// Decides whether a character is white space that is stripped off a word.
fn is_stripped(c: char) -> (r: bool)
    ensures
        r == is_stripped_space(c),
{
    c == '\t' || c == '\u{b}' || c == '\u{c}' || c == '\r' || c == '\u{85}' || c == '\u{a0}' || c
        == '\u{1680}' || ('\u{2000}' <= c && c <= '\u{200a}') || c == '\u{2028}' || c == '\u{2029}'
        || c == '\u{202f}' || c == '\u{205f}' || c == '\u{3000}'
}

/// Decides whether a definition text is tame.
pub fn check_tame(text: &str) -> (tame: bool)
    ensures
        tame == is_tame(text@),
{
    let mut run: usize = 0;
    for c in it: text.chars()
        invariant
            it.seq() == text@,
            run == separator_run(text@, it.index() as int),
            run <= MAX_SEPARATOR_RUN,
            forall|i: int| 0 <= i < it.index() ==> is_definition_char(#[trigger] text@[i]),
            forall|i: int|
                0 <= i <= it.index() ==> #[trigger] separator_run(text@, i) <= MAX_SEPARATOR_RUN,
    {
        if c == ';' || is_stripped(c) {
            assert(!is_definition_char(text@[it.index() as int]));
            return false;
        }
        if c == ' ' || c == '\n' || c == '=' || c == ',' {
            if run == MAX_SEPARATOR_RUN {
                assert(separator_run(text@, it.index() + 1) == MAX_SEPARATOR_RUN + 1);
                return false;
            }
            run = run + 1;
        } else {
            run = 0;
        }
    }
    true
}

/// The exports and the import name that `implib` parses out of a definition
/// text for a machine, or the parser's message.
pub uninterp spec fn parsed_definition(text: Seq<char>, machine: Machine) -> Result<
    ModuleDefinitionView,
    Seq<char>,
>;

/// The import library that `implib` writes in the MSVC flavour for a machine
/// and a definition with these exports and this import name: the bytes of the
/// archive, or the writer's message.
pub uninterp spec fn import_library_image(def: ModuleDefinitionView, machine: Machine) -> Result<
    Seq<u8>,
    Seq<char>,
>;

pub open spec fn definition_view(r: Result<ModuleDefinition, String>) -> Result<
    ModuleDefinitionView,
    Seq<char>,
> {
    match r {
        Ok(d) => Ok(d@),
        Err(m) => Err(m@),
    }
}

pub open spec fn image_view(r: Result<Vec<u8>, String>) -> Result<Seq<u8>, Seq<char>> {
    match r {
        Ok(b) => Ok(b@),
        Err(m) => Err(m@),
    }
}

/// Calls `implib::def::ModuleDef::parse` and hands over, field by field, the
/// exports and the import name of what it parsed; an error is handed over as
/// its message. The outcome depends on the text and the machine alone. The
/// parser's lexer calls itself once for every comment and for every word
/// that is nothing but white space, so the text must be tame. Then there is
/// no comment, and a word of white space is one blank or line feed with a
/// separator right behind it: the lexer skips at most a handful in a row.
#[verifier::external_body]
pub(crate) fn parse_definition(text: &str, machine: Machine) -> (r: Result<ModuleDefinition, String>)
    requires
        is_tame(text@),
    ensures
        definition_view(r) == parsed_definition(text@, machine),
{
    let m = if let Machine::I386 = machine { MachineType::I386 } else { MachineType::AMD64 };
    let d = ModuleDef::parse(text, m).map_err(|e| e.to_string())?;
    let exports = d.exports.into_iter().map(|e| DefinitionExport {
        name: e.name, ext_name: e.ext_name, symbol_name: e.symbol_name,
        alias_target: e.alias_target, ordinal: e.ordinal, no_name: e.no_name,
        data: e.data, private: e.private, constant: e.constant,
    });
    Ok(ModuleDefinition { exports: exports.collect(), import_name: d.import_name })
}

/// Makes `implib`'s `ModuleDef` of the exports and the import name, field by
/// field, with every other field as `ModuleDef::default` has it; then calls
/// `ImportLibrary::from_def` for the MSVC flavour and `write_to` into a buffer
/// in memory. That flavour reads nothing of a definition but its exports and
/// its import name, so the bytes written, or the writer's message, depend on
/// those and the machine alone.
#[verifier::external_body]
pub(crate) fn write_import_library(def: ModuleDefinition, machine: Machine) -> (r: Result<Vec<u8>, String>)
    ensures
        image_view(r) == import_library_image(def@, machine),
{
    let m = if let Machine::I386 = machine { MachineType::I386 } else { MachineType::AMD64 };
    let exports = def.exports.into_iter().map(|e| ShortExport {
        name: e.name, ext_name: e.ext_name, symbol_name: e.symbol_name,
        alias_target: e.alias_target, ordinal: e.ordinal, no_name: e.no_name,
        data: e.data, private: e.private, constant: e.constant,
    });
    let d = ModuleDef { exports: exports.collect(), import_name: def.import_name, ..Default::default() };
    let mut out = Cursor::new(Vec::new());
    ImportLibrary::from_def(d, m, Flavor::Msvc).write_to(&mut out)
        .map(|_| out.into_inner()).map_err(|e| e.to_string())
}

/// An export whose symbol name is its name without leading underscores.
pub open spec fn undecorated_export(e: DefinitionExportView) -> DefinitionExportView {
    DefinitionExportView {
        name: e.name,
        ext_name: e.ext_name,
        symbol_name: without_leading(e.name, '_'),
        alias_target: e.alias_target,
        ordinal: e.ordinal,
        no_name: e.no_name,
        data: e.data,
        private: e.private,
        constant: e.constant,
    }
}

/// A definition with every export undecorated and nothing else changed.
pub open spec fn undecorated(def: ModuleDefinitionView) -> ModuleDefinitionView {
    ModuleDefinitionView {
        exports: Seq::new(def.exports.len(), |i: int| undecorated_export(def.exports[i])),
        import_name: def.import_name,
    }
}

/// Sets the symbol name of every export to the export's name without its
/// leading underscores: the name under which the target really exports it.
pub fn undecorate_symbols(def: &ModuleDefinition) -> (r: ModuleDefinition)
    ensures
        r@ == undecorated(def@),
{
    let mut exports: Vec<DefinitionExport> = Vec::new();
    let mut i: usize = 0;
    while i < def.exports.len()
        invariant
            i <= def.exports@.len(),
            exports@.len() == i,
            forall|k: int| 0 <= k < i ==> exports@[k]@ == undecorated_export(def.exports@[k]@),
        decreases def.exports@.len() - i,
    {
        let e = &def.exports[i];
        let ext_name = match &e.ext_name {
            Some(n) => Some(n.clone()),
            None => None,
        };
        exports.push(
            DefinitionExport {
                name: e.name.clone(),
                ext_name,
                symbol_name: trim_leading(e.name.as_str(), '_'),
                alias_target: e.alias_target.clone(),
                ordinal: e.ordinal,
                no_name: e.no_name,
                data: e.data,
                private: e.private,
                constant: e.constant,
            },
        );
        i = i + 1;
    }
    let r = ModuleDefinition { exports, import_name: def.import_name.clone() };
    assert(r@.exports =~= undecorated(def@).exports);
    r
}

} // verus!
