use forward_dll::error::ForwardError;
use forward_dll::utils::c_string;
use forward_dll::utils::contains_nul;
use forward_dll::utils::get_proc_address_by_module;
use forward_dll::utils::load_library;
use forward_dll::utils::load_library_by_handle;
use forward_dll::utils::ForeignLibrary;

#[test]
fn names_are_terminated_by_a_zero() {
    assert_eq!(c_string("version.dll"), Ok(b"version.dll\0".to_vec()));
    assert_eq!(c_string(""), Ok(vec![0u8]));
    assert_eq!(c_string("库"), Ok(vec![0xE5, 0xBA, 0x93, 0]));
}

#[test]
fn names_with_a_zero_inside_cannot_be_encoded() {
    assert_eq!(c_string("ver\0sion"), Err(ForwardError::EncodingError));
    assert_eq!(c_string("\0"), Err(ForwardError::EncodingError));
    assert_eq!(c_string("version\0"), Err(ForwardError::EncodingError));
}

#[test]
fn a_loaded_module_is_handed_on() {
    assert_eq!(load_library("version.dll", 0x7ff0, 0), Ok(0x7ff0));
    assert_eq!(load_library("version.dll", -1, 5), Ok(-1));
}

#[test]
fn a_missing_library_reports_the_system_code_unchanged() {
    assert_eq!(
        load_library("nonexistent.dll", 0, 126),
        Err(ForwardError::LoadError { name: "nonexistent.dll".to_string(), system_code: 126 })
    );
    assert_eq!(
        load_library("nonexistent.dll", 0, u32::MAX),
        Err(ForwardError::LoadError { name: "nonexistent.dll".to_string(), system_code: u32::MAX })
    );
}

#[test]
fn pinning_by_handle() {
    assert_eq!(load_library_by_handle(1, 0x4000, 0), Ok(0x4000));
    assert_eq!(
        load_library_by_handle(0, 0, 6),
        Err(ForwardError::LoadError { name: String::new(), system_code: 6 })
    );
}

#[test]
fn a_missing_symbol_reports_the_system_code_unchanged() {
    assert_eq!(get_proc_address_by_module("Foo", 0x1234, 0), Ok(0x1234));
    assert_eq!(
        get_proc_address_by_module("Foo", 0, 127),
        Err(ForwardError::SymbolNotFound { name: "Foo".to_string(), system_code: 127 })
    );
}

#[test]
fn foreign_library_wraps_the_handle() {
    let lib = ForeignLibrary::new("version.dll", 0x10, 0).unwrap();
    assert_eq!(lib.module_handle, 0x10);
    assert!(lib.must_free());
    assert_eq!(lib.get_proc_address("Foo", 0x99, 0), Ok(0x99));
    assert_eq!(
        lib.get_proc_address("Foo", 0, 127),
        Err(ForwardError::SymbolNotFound { name: "Foo".to_string(), system_code: 127 })
    );
    assert_eq!(lib.into_raw(), 0x10);
    assert_eq!(
        ForeignLibrary::new("gone.dll", 0, 2),
        Err(ForwardError::LoadError { name: "gone.dll".to_string(), system_code: 2 })
    );
    assert!(!ForeignLibrary { module_handle: 0 }.must_free());
}

#[test]
fn zero_bytes_are_found() {
    assert!(contains_nul("ver\0sion.dll"));
    assert!(contains_nul("\0"));
    assert!(!contains_nul("version.dll"));
    assert!(!contains_nul(""));
    assert!(!contains_nul("库0"));
}

#[test]
fn a_library_name_with_a_zero_byte_is_refused() {
    assert_eq!(load_library("ver\0sion.dll", 0x7ff0, 0), Err(ForwardError::EncodingError));
    assert_eq!(load_library("ver\0sion.dll", 0, 126), Err(ForwardError::EncodingError));
    assert_eq!(
        ForeignLibrary::new("version.dll\0", 0x7ff0, 0),
        Err(ForwardError::EncodingError)
    );
}

#[test]
fn a_symbol_name_with_a_zero_byte_is_refused() {
    assert_eq!(get_proc_address_by_module("Fo\0o", 0x1234, 0), Err(ForwardError::EncodingError));
    assert_eq!(get_proc_address_by_module("\0", 0, 127), Err(ForwardError::EncodingError));
    let lib = ForeignLibrary { module_handle: 3 };
    assert_eq!(lib.get_proc_address("Fo\0o", 0x1234, 0), Err(ForwardError::EncodingError));
}
