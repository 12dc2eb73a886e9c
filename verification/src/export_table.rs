//! Reading the export directory of a Portable Executable image.
//!
//! The image is parsed by the `object` crate; what it reports is carried over
//! here entry by entry, in the directory's order.

use crate::error::FileFormatError;
use object::read::pe::PeFile32;
use object::read::pe::PeFile64;
use object::FileKind;
use vstd::prelude::*;
use vstd::utf8::decode_utf8;
use vstd::utf8::valid_utf8;

verus! {

/// One export of the target: its ordinal, and its name unless it is exported
/// by ordinal only.
#[derive(Debug, Clone, PartialEq, Eq)]
pub struct ExportSymbol {
    pub ordinal: u32,
    pub name: Option<String>,
}

pub struct ExportSymbolView {
    pub ordinal: u32,
    pub name: Option<Seq<char>>,
}

impl View for ExportSymbol {
    type V = ExportSymbolView;

    open spec fn view(&self) -> ExportSymbolView {
        ExportSymbolView {
            ordinal: self.ordinal,
            name: match self.name {
                Some(n) => Some(n@),
                None => None,
            },
        }
    }
}

/// The views of a list of export symbols, in order.
pub open spec fn symbol_views(symbols: Seq<ExportSymbol>) -> Seq<ExportSymbolView> {
    Seq::new(symbols.len(), |i: int| symbols[i]@)
}

/// What kind of binary an image is, as far as forwarding cares.
#[derive(Debug, Clone, Copy, PartialEq, Eq, Structural)]
pub enum ImageKind {
    /// Not a binary of any known format.
    Unrecognized,
    /// A 32-bit Portable Executable.
    Pe32,
    /// A 64-bit Portable Executable.
    Pe64,
    /// A known format other than the two above.
    Other,
}

/// An export directory entry as the image stores it: the name is raw bytes.
#[derive(Debug, Clone, PartialEq, Eq)]
pub struct RawExport {
    pub ordinal: u32,
    pub name: Option<Vec<u8>>,
}

pub struct RawExportView {
    pub ordinal: u32,
    pub name: Option<Seq<u8>>,
}

impl View for RawExport {
    type V = RawExportView;

    open spec fn view(&self) -> RawExportView {
        RawExportView {
            ordinal: self.ordinal,
            name: match self.name {
                Some(n) => Some(n@),
                None => None,
            },
        }
    }
}

/// The outcome of looking for the export directory of an image.
#[derive(Debug, Clone, PartialEq, Eq)]
pub enum ExportScan {
    /// Headers or directory could not be parsed.
    Invalid,
    /// The image has no export directory.
    Absent,
    /// The directory's entries, in the directory's order.
    Entries(Vec<RawExport>),
}

pub enum ExportScanView {
    Invalid,
    Absent,
    Entries(Seq<RawExportView>),
}

impl View for ExportScan {
    type V = ExportScanView;

    open spec fn view(&self) -> ExportScanView {
        match *self {
            ExportScan::Invalid => ExportScanView::Invalid,
            ExportScan::Absent => ExportScanView::Absent,
            ExportScan::Entries(v) => ExportScanView::Entries(
                Seq::new(v@.len(), |i: int| v@[i]@),
            ),
        }
    }
}

/// The kind that `object::FileKind::parse` finds for these bytes.
pub uninterp spec fn image_kind(image: Seq<u8>) -> ImageKind;

/// What `object` reports of the export directory when the bytes are read as a
/// 32-bit image.
pub uninterp spec fn pe32_export_scan(image: Seq<u8>) -> ExportScanView;

/// What `object` reports of the export directory when the bytes are read as a
/// 64-bit image.
pub uninterp spec fn pe64_export_scan(image: Seq<u8>) -> ExportScanView;

/// The text that `String::from_utf8_lossy` makes of these bytes.
pub uninterp spec fn utf8_lossy(bytes: Seq<u8>) -> Seq<char>;

/// Calls `object::FileKind::parse`, which looks at the magic numbers at the
/// start of the file. Its answer depends on the bytes alone; the two Portable
/// Executable kinds are kept apart, every other kind is `Other`, and a failure
/// to recognise the bytes is `Unrecognized`.
#[verifier::external_body]
fn detect_image_kind(image: &[u8]) -> (kind: ImageKind)
    ensures
        kind == image_kind(image@),
{
    match FileKind::parse(image) {
        Ok(FileKind::Pe32) => ImageKind::Pe32,
        Ok(FileKind::Pe64) => ImageKind::Pe64,
        Ok(_) => ImageKind::Other,
        Err(_) => ImageKind::Unrecognized,
    }
}

/// Calls `PeFile32::parse`, then `export_table` on the file and `exports` on
/// the table. An error of any of the three is `Invalid`; a file whose data
/// directory has no export entry is `Absent`. The entries come out in the
/// order of the export address table, each with its ordinal and, where the
/// name table points at it, its name. The outcome depends on the bytes alone.
#[verifier::external_body]
fn scan_pe32_exports(image: &[u8]) -> (scan: ExportScan)
    ensures
        scan@ == pe32_export_scan(image@),
{
    let table = match PeFile32::parse(image) {
        Ok(file) => file.export_table(),
        Err(e) => Err(e),
    };
    match table {
        Ok(Some(t)) => match t.exports() {
            Ok(v) => ExportScan::Entries(
                v.iter().map(|e| RawExport { ordinal: e.ordinal, name: e.name.map(|n| n.to_vec()) }).collect(),
            ),
            Err(_) => ExportScan::Invalid,
        },
        Ok(None) => ExportScan::Absent,
        Err(_) => ExportScan::Invalid,
    }
}

/// As `scan_pe32_exports`, with `PeFile64::parse` for a 64-bit image.
#[verifier::external_body]
fn scan_pe64_exports(image: &[u8]) -> (scan: ExportScan)
    ensures
        scan@ == pe64_export_scan(image@),
{
    let table = match PeFile64::parse(image) {
        Ok(file) => file.export_table(),
        Err(e) => Err(e),
    };
    match table {
        Ok(Some(t)) => match t.exports() {
            Ok(v) => ExportScan::Entries(
                v.iter().map(|e| RawExport { ordinal: e.ordinal, name: e.name.map(|n| n.to_vec()) }).collect(),
            ),
            Err(_) => ExportScan::Invalid,
        },
        Ok(None) => ExportScan::Absent,
        Err(_) => ExportScan::Invalid,
    }
}

/// Calls `String::from_utf8_lossy`: valid UTF-8 is decoded as it stands, and
/// every invalid sequence is replaced by U+FFFD.
#[verifier::external_body]
fn lossy_text(bytes: &Vec<u8>) -> (text: String)
    ensures
        text@ == utf8_lossy(bytes@),
        valid_utf8(bytes@) ==> text@ == decode_utf8(bytes@),
{
    String::from_utf8_lossy(bytes).into_owned()
}

/// The symbol that a raw directory entry stands for: the same ordinal, and
/// the name decoded where there is one.
pub open spec fn symbol_of(raw: RawExportView) -> ExportSymbolView {
    ExportSymbolView {
        ordinal: raw.ordinal,
        name: match raw.name {
            Some(bytes) => Some(utf8_lossy(bytes)),
            None => None,
        },
    }
}

/// The export list that a scan amounts to.
pub open spec fn symbols_of_scan(scan: ExportScanView) -> Result<
    Seq<ExportSymbolView>,
    FileFormatError,
> {
    match scan {
        ExportScanView::Invalid => Err(FileFormatError::Malformed),
        ExportScanView::Absent => Err(FileFormatError::NoExportTable),
        ExportScanView::Entries(entries) => Ok(
            Seq::new(entries.len(), |i: int| symbol_of(entries[i])),
        ),
    }
}

/// The export list of an image, given what was found of its kind and of its
/// export directory under either width.
pub open spec fn symbols_of_image(
    kind: ImageKind,
    scan32: ExportScanView,
    scan64: ExportScanView,
) -> Result<Seq<ExportSymbolView>, FileFormatError> {
    match kind {
        ImageKind::Unrecognized => Err(FileFormatError::NotRecognized),
        ImageKind::Other => Err(FileFormatError::UnsupportedArchitecture),
        ImageKind::Pe32 => symbols_of_scan(scan32),
        ImageKind::Pe64 => symbols_of_scan(scan64),
    }
}

/// A result of reading exports, with the symbols as views.
pub open spec fn read_view(r: Result<Vec<ExportSymbol>, FileFormatError>) -> Result<
    Seq<ExportSymbolView>,
    FileFormatError,
> {
    match r {
        Ok(v) => Ok(symbol_views(v@)),
        Err(e) => Err(e),
    }
}

/// Whether a symbol carries an entry over: the same ordinal; no name where
/// the entry has none; and where it has one that is valid UTF-8, that name
/// decoded.
pub open spec fn carries_over(symbol: ExportSymbolView, entry: RawExportView) -> bool {
    &&& symbol.ordinal == entry.ordinal
    &&& (symbol.name is Some <==> entry.name is Some)
    &&& (entry.name is Some && valid_utf8(entry.name->Some_0) ==> symbol.name == Some(
        decode_utf8(entry.name->Some_0),
    ))
}

/// Turns the outcome of a scan into the export list: one symbol per entry, in
/// the same order, with the ordinal kept and the name present exactly where
/// the entry has one.
pub fn export_symbols(scan: &ExportScan) -> (r: Result<Vec<ExportSymbol>, FileFormatError>)
    ensures
        read_view(r) == symbols_of_scan(scan@),
        r matches Ok(v) ==> scan matches ExportScan::Entries(entries) && v@.len()
            == entries@.len() && forall|i: int|
            0 <= i < v@.len() ==> carries_over(#[trigger] v@[i]@, entries@[i]@),
        scan is Absent ==> r == Err::<Vec<ExportSymbol>, FileFormatError>(
            FileFormatError::NoExportTable,
        ),
{
    match scan {
        ExportScan::Invalid => Err(FileFormatError::Malformed),
        ExportScan::Absent => Err(FileFormatError::NoExportTable),
        ExportScan::Entries(entries) => {
            let mut symbols: Vec<ExportSymbol> = Vec::new();
            let mut i: usize = 0;
            while i < entries.len()
                invariant
                    i <= entries@.len(),
                    symbols@.len() == i,
                    forall|k: int| 0 <= k < i ==> symbols@[k]@ == symbol_of(entries@[k]@),
                    forall|k: int|
                        0 <= k < i ==> carries_over(#[trigger] symbols@[k]@, entries@[k]@),
                decreases entries@.len() - i,
            {
                let entry = &entries[i];
                let name = match &entry.name {
                    Some(bytes) => Some(lossy_text(bytes)),
                    None => None,
                };
                symbols.push(ExportSymbol { ordinal: entry.ordinal, name });
                i = i + 1;
            }
            proof {
                let views = Seq::new(entries@.len(), |i: int| entries@[i]@);
                assert(scan@ == ExportScanView::Entries(views));
                assert(symbol_views(symbols@) =~= Seq::new(
                    views.len(),
                    |i: int| symbol_of(views[i]),
                ));
            }
            Ok(symbols)
        },
    }
}

/// The scan that counts for an image of a kind: that of its own width.
pub open spec fn scan_of_kind(
    kind: ImageKind,
    scan32: ExportScanView,
    scan64: ExportScanView,
) -> ExportScanView {
    match kind {
        ImageKind::Pe32 => scan32,
        ImageKind::Pe64 => scan64,
        _ => ExportScanView::Invalid,
    }
}

/// Whether a list of symbols carries a list of entries over, one by one and
/// in order.
pub open spec fn carry_over(symbols: Seq<ExportSymbolView>, entries: Seq<RawExportView>) -> bool {
    &&& symbols.len() == entries.len()
    &&& forall|i: int| 0 <= i < symbols.len() ==> carries_over(#[trigger] symbols[i], entries[i])
}

/// Reads the export directory out of the bytes of a 32- or 64-bit Portable
/// Executable image. The list holds the directory's entries in the
/// directory's order, each with its ordinal, and with its name where it has
/// one: decoded as it stands where the bytes are valid UTF-8.
pub fn get_dll_export_names(image: &[u8]) -> (r: Result<Vec<ExportSymbol>, FileFormatError>)
    ensures
        read_view(r) == symbols_of_image(
            image_kind(image@),
            pe32_export_scan(image@),
            pe64_export_scan(image@),
        ),
        r is Ok ==> {
            let scan = scan_of_kind(
                image_kind(image@),
                pe32_export_scan(image@),
                pe64_export_scan(image@),
            );
            scan is Entries && carry_over(symbol_views(r->Ok_0@), scan->Entries_0)
        },
{
    match detect_image_kind(image) {
        ImageKind::Unrecognized => Err(FileFormatError::NotRecognized),
        ImageKind::Other => Err(FileFormatError::UnsupportedArchitecture),
        ImageKind::Pe32 => {
            let scan = scan_pe32_exports(image);
            export_symbols(&scan)
        },
        ImageKind::Pe64 => {
            let scan = scan_pe64_exports(image);
            export_symbols(&scan)
        },
    }
}

} // verus!
