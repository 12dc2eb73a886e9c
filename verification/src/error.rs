//! What can go wrong while generating or running a forwarder.

use crate::text::decimal;
use crate::text::decimal_string;
use vstd::prelude::*;

verus! {

/// Why a binary image yielded no export list.
#[derive(Debug, Clone, Copy, PartialEq, Eq, Structural)]
pub enum FileFormatError {
    /// The bytes are not any binary format that is known.
    NotRecognized,
    /// A known format, but neither a 32-bit nor a 64-bit Portable Executable.
    UnsupportedArchitecture,
    /// A well-formed image without an export directory, or an empty export list.
    NoExportTable,
    /// Headers or export directory are damaged.
    Malformed,
}

/// Errors of generation and of run-time resolution.
#[derive(Debug, Clone, PartialEq, Eq)]
pub enum ForwardError {
    /// The target's image could not be read for exports.
    FileFormat(FileFormatError),
    /// No import library can be produced for the requested machine.
    UnsupportedMachine,
    /// The import-library generator refused the module definition; its message.
    DefinitionRejected(String),
    /// The import library could not be written; the writer's message.
    ImportLibraryWrite(String),
    /// A path or symbol name cannot be written in the encoding that is needed.
    EncodingError,
    /// The target library failed to load; the loader's error code.
    LoadError { name: String, system_code: u32 },
    /// The loaded target lacks this export; the loader's error code.
    SymbolNotFound { name: String, system_code: u32 },
    /// Bulk resolution already ran.
    AlreadyInitialized,
}

/// `ForwardError` with its texts as sequences of characters.
pub enum ForwardErrorView {
    FileFormat(FileFormatError),
    UnsupportedMachine,
    DefinitionRejected(Seq<char>),
    ImportLibraryWrite(Seq<char>),
    EncodingError,
    LoadError { name: Seq<char>, system_code: u32 },
    SymbolNotFound { name: Seq<char>, system_code: u32 },
    AlreadyInitialized,
}

impl View for ForwardError {
    type V = ForwardErrorView;

    open spec fn view(&self) -> ForwardErrorView {
        match *self {
            ForwardError::FileFormat(e) => ForwardErrorView::FileFormat(e),
            ForwardError::UnsupportedMachine => ForwardErrorView::UnsupportedMachine,
            ForwardError::DefinitionRejected(m) => ForwardErrorView::DefinitionRejected(m@),
            ForwardError::ImportLibraryWrite(m) => ForwardErrorView::ImportLibraryWrite(m@),
            ForwardError::EncodingError => ForwardErrorView::EncodingError,
            ForwardError::LoadError { name, system_code } => ForwardErrorView::LoadError {
                name: name@,
                system_code,
            },
            ForwardError::SymbolNotFound { name, system_code } => ForwardErrorView::SymbolNotFound {
                name: name@,
                system_code,
            },
            ForwardError::AlreadyInitialized => ForwardErrorView::AlreadyInitialized,
        }
    }
}

/// A result whose error is taken by its view.
pub open spec fn outcome_view<T>(r: Result<T, ForwardError>) -> Result<T, ForwardErrorView> {
    match r {
        Ok(v) => Ok(v),
        Err(e) => Err(e@),
    }
}

/// The text that reports a file format error.
pub open spec fn format_message(e: FileFormatError) -> Seq<char> {
    match e {
        FileFormatError::NotRecognized => "Invalid file"@,
        FileFormatError::UnsupportedArchitecture => "Unsupported architecture"@,
        FileFormatError::NoExportTable => "No export table"@,
        FileFormatError::Malformed => "Invalid pe file"@,
    }
}

/// The text that reports an error: its kind, and behind it what the error
/// carries, a system error code in decimal.
pub open spec fn message(e: ForwardErrorView) -> Seq<char> {
    match e {
        ForwardErrorView::FileFormat(f) => format_message(f),
        ForwardErrorView::UnsupportedMachine => "Unsupported machine"@,
        ForwardErrorView::DefinitionRejected(m) => "ImportLibrary::new error: "@ + m,
        ForwardErrorView::ImportLibraryWrite(m) => "ImportLibrary::write_to error: "@ + m,
        ForwardErrorView::EncodingError => "EncodingError"@,
        ForwardErrorView::LoadError { name, system_code } => "LoadError: "@ + name + " "@
            + decimal(system_code as nat),
        ForwardErrorView::SymbolNotFound { name, system_code } => "SymbolNotFound: "@ + name
            + " "@ + decimal(system_code as nat),
        ForwardErrorView::AlreadyInitialized => "AlreadyInitialized"@,
    }
}

impl FileFormatError {
    /// The text that reports this error.
    pub fn to_string(&self) -> (s: String)
        ensures
            s@ == format_message(*self),
    {
        match self {
            FileFormatError::NotRecognized => String::from_str("Invalid file"),
            FileFormatError::UnsupportedArchitecture => String::from_str(
                "Unsupported architecture",
            ),
            FileFormatError::NoExportTable => String::from_str("No export table"),
            FileFormatError::Malformed => String::from_str("Invalid pe file"),
        }
    }
}

impl ForwardError {
    /// The text that reports this error.
    pub fn to_string(&self) -> (s: String)
        ensures
            s@ == message(self@),
    {
        match self {
            ForwardError::FileFormat(f) => f.to_string(),
            ForwardError::UnsupportedMachine => String::from_str("Unsupported machine"),
            ForwardError::DefinitionRejected(m) => {
                let mut s = String::from_str("ImportLibrary::new error: ");
                s.append(m.as_str());
                s
            },
            ForwardError::ImportLibraryWrite(m) => {
                let mut s = String::from_str("ImportLibrary::write_to error: ");
                s.append(m.as_str());
                s
            },
            ForwardError::EncodingError => String::from_str("EncodingError"),
            ForwardError::LoadError { name, system_code } => {
                let mut s = String::from_str("LoadError: ");
                s.append(name.as_str());
                s.append(" ");
                s.append(decimal_string(*system_code as u64).as_str());
                s
            },
            ForwardError::SymbolNotFound { name, system_code } => {
                let mut s = String::from_str("SymbolNotFound: ");
                s.append(name.as_str());
                s.append(" ");
                s.append(decimal_string(*system_code as u64).as_str());
                s
            },
            ForwardError::AlreadyInitialized => String::from_str("AlreadyInitialized"),
        }
    }
}

} // verus!
