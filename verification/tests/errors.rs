use forward_dll::error::FileFormatError;
use forward_dll::error::ForwardError;

#[test]
fn file_format_errors_have_their_texts() {
    assert_eq!(FileFormatError::NotRecognized.to_string(), "Invalid file");
    assert_eq!(FileFormatError::UnsupportedArchitecture.to_string(), "Unsupported architecture");
    assert_eq!(FileFormatError::NoExportTable.to_string(), "No export table");
    assert_eq!(FileFormatError::Malformed.to_string(), "Invalid pe file");
}

#[test]
fn forward_errors_have_their_texts() {
    assert_eq!(
        ForwardError::FileFormat(FileFormatError::NoExportTable).to_string(),
        "No export table"
    );
    assert_eq!(ForwardError::UnsupportedMachine.to_string(), "Unsupported machine");
    assert_eq!(
        ForwardError::DefinitionRejected("unknown directive: DATA".to_string()).to_string(),
        "ImportLibrary::new error: unknown directive: DATA"
    );
    assert_eq!(
        ForwardError::ImportLibraryWrite("disk full".to_string()).to_string(),
        "ImportLibrary::write_to error: disk full"
    );
    assert_eq!(ForwardError::EncodingError.to_string(), "EncodingError");
    assert_eq!(ForwardError::AlreadyInitialized.to_string(), "AlreadyInitialized");
}

#[test]
fn loader_errors_carry_name_and_code() {
    let load = ForwardError::LoadError { name: "missing.dll".to_string(), system_code: 126 };
    assert_eq!(load.to_string(), "LoadError: missing.dll 126");
    let symbol = ForwardError::SymbolNotFound { name: "Foo".to_string(), system_code: 127 };
    assert_eq!(symbol.to_string(), "SymbolNotFound: Foo 127");
    let zero = ForwardError::LoadError { name: String::new(), system_code: 0 };
    assert_eq!(zero.to_string(), "LoadError:  0");
    let top = ForwardError::SymbolNotFound { name: "x".to_string(), system_code: u32::MAX };
    assert_eq!(top.to_string(), "SymbolNotFound: x 4294967295");
}
