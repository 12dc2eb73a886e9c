use forward_dll::definition::Machine;
use forward_dll::error::FileFormatError;
use forward_dll::error::ForwardError;
use forward_dll::export_table::export_symbols;
use forward_dll::export_table::get_dll_export_names;
use forward_dll::export_table::ExportScan;
use forward_dll::export_table::ExportSymbol;
use forward_dll::export_table::RawExport;
use forward_dll::generate::derive_forward_module;
use forward_dll::generate::EntryPoint;
use forward_dll::generate::ForwardConfig;
use forward_dll::linktime::forward_dll;
use forward_dll::linktime::forward_dll_impl;
use forward_dll::linktime::forward_dll_with_dev_path;

const SECTION_RVA: u32 = 0x1000;
const SECTION_OFFSET: u32 = 0x200;

fn put16(out: &mut Vec<u8>, at: usize, v: u16) {
    out[at..at + 2].copy_from_slice(&v.to_le_bytes());
}

fn put32(out: &mut Vec<u8>, at: usize, v: u32) {
    out[at..at + 4].copy_from_slice(&v.to_le_bytes());
}

/// The bytes of an export directory at `SECTION_RVA`: `functions` address
/// entries numbered from `base`, and the given names, each pointing at the
/// index of its address entry.
fn export_directory(base: u32, functions: u32, names: &[(&[u8], u16)]) -> Vec<u8> {
    let addresses_at = 40u32;
    let names_at = addresses_at + 4 * functions;
    let ordinals_at = names_at + 4 * names.len() as u32;
    let strings_at = ordinals_at + 2 * names.len() as u32;
    let mut strings: Vec<u8> = b"target.dll\0".to_vec();
    let mut name_offsets = Vec::new();
    for (name, _) in names {
        name_offsets.push(strings_at + strings.len() as u32);
        strings.extend_from_slice(name);
        strings.push(0);
    }
    let mut dir = vec![0u8; strings_at as usize];
    put32(&mut dir, 12, SECTION_RVA + strings_at);
    put32(&mut dir, 16, base);
    put32(&mut dir, 20, functions);
    put32(&mut dir, 24, names.len() as u32);
    put32(&mut dir, 28, SECTION_RVA + addresses_at);
    if !names.is_empty() {
        put32(&mut dir, 32, SECTION_RVA + names_at);
        put32(&mut dir, 36, SECTION_RVA + ordinals_at);
    }
    for i in 0..functions {
        put32(&mut dir, (addresses_at + 4 * i) as usize, 0x5000 + 0x10 * i);
    }
    for (i, (_, index)) in names.iter().enumerate() {
        put32(&mut dir, names_at as usize + 4 * i, SECTION_RVA + name_offsets[i]);
        put16(&mut dir, ordinals_at as usize + 2 * i, *index);
    }
    dir.extend_from_slice(&strings);
    dir
}

/// A Portable Executable image with one section that holds `section`, and
/// whose export data directory covers the first `directory_size` bytes of it,
/// or is empty where there is no export directory.
fn image(wide: bool, section: &[u8], directory: Option<u32>) -> Vec<u8> {
    let optional_size: usize = if wide { 112 } else { 96 };
    let mut out = vec![0u8; SECTION_OFFSET as usize];
    out[0] = b'M';
    out[1] = b'Z';
    put32(&mut out, 0x3c, 0x40);
    out[0x40..0x44].copy_from_slice(b"PE\0\0");
    let coff = 0x44;
    put16(&mut out, coff, if wide { 0x8664 } else { 0x14c });
    put16(&mut out, coff + 2, 1);
    put16(&mut out, coff + 16, (optional_size + 128) as u16);
    put16(&mut out, coff + 18, 0x2102);
    let optional = coff + 20;
    put16(&mut out, optional, if wide { 0x20b } else { 0x10b });
    put32(&mut out, optional + optional_size - 4, 16);
    let directories = optional + optional_size;
    if let Some(size) = directory {
        put32(&mut out, directories, SECTION_RVA);
        put32(&mut out, directories + 4, size);
    }
    let sections = directories + 128;
    out[sections..sections + 6].copy_from_slice(b".edata");
    put32(&mut out, sections + 8, section.len() as u32);
    put32(&mut out, sections + 12, SECTION_RVA);
    put32(&mut out, sections + 16, section.len() as u32);
    put32(&mut out, sections + 20, SECTION_OFFSET);
    put32(&mut out, sections + 36, 0x40000040);
    assert!(sections + 40 <= SECTION_OFFSET as usize);
    out.extend_from_slice(section);
    out
}

fn foo_bar_anonymous(wide: bool) -> Vec<u8> {
    let dir = export_directory(1, 3, &[(b"Bar", 1), (b"Foo", 0)]);
    image(wide, &dir, Some(dir.len() as u32))
}

fn sym(ordinal: u32, name: Option<&str>) -> ExportSymbol {
    ExportSymbol { ordinal, name: name.map(|n| n.to_string()) }
}

#[test]
fn exports_of_a_64_bit_image() {
    let exports = get_dll_export_names(&foo_bar_anonymous(true)).unwrap();
    assert_eq!(exports, vec![sym(1, Some("Foo")), sym(2, Some("Bar")), sym(3, None)]);
}

#[test]
fn exports_of_a_32_bit_image() {
    let exports = get_dll_export_names(&foo_bar_anonymous(false)).unwrap();
    assert_eq!(exports, vec![sym(1, Some("Foo")), sym(2, Some("Bar")), sym(3, None)]);
}

#[test]
fn ordinals_start_at_the_directory_base() {
    let dir = export_directory(100, 4, &[(b"Last", 3), (b"First", 0)]);
    let exports = get_dll_export_names(&image(true, &dir, Some(dir.len() as u32))).unwrap();
    assert_eq!(
        exports,
        vec![sym(100, Some("First")), sym(101, None), sym(102, None), sym(103, Some("Last"))]
    );
}

#[test]
fn exports_without_any_name() {
    let dir = export_directory(7, 2, &[]);
    let exports = get_dll_export_names(&image(false, &dir, Some(dir.len() as u32))).unwrap();
    assert_eq!(exports, vec![sym(7, None), sym(8, None)]);
}

#[test]
fn names_that_are_not_utf8_are_read_with_replacements() {
    let dir = export_directory(1, 1, &[(&[b'F', 0xFF, b'o'], 0)]);
    let exports = get_dll_export_names(&image(true, &dir, Some(dir.len() as u32))).unwrap();
    assert_eq!(exports, vec![sym(1, Some("F\u{FFFD}o"))]);
}

#[test]
fn an_empty_directory_gives_an_empty_list() {
    let dir = export_directory(1, 0, &[]);
    let exports = get_dll_export_names(&image(true, &dir, Some(dir.len() as u32))).unwrap();
    assert_eq!(exports, vec![]);
}

#[test]
fn image_without_export_directory() {
    let section = vec![0u8; 64];
    assert_eq!(
        get_dll_export_names(&image(true, &section, None)),
        Err(FileFormatError::NoExportTable)
    );
    assert_eq!(
        get_dll_export_names(&image(false, &section, None)),
        Err(FileFormatError::NoExportTable)
    );
}

#[test]
fn bytes_that_are_no_binary() {
    assert_eq!(get_dll_export_names(b""), Err(FileFormatError::NotRecognized));
    assert_eq!(get_dll_export_names(b"MZ"), Err(FileFormatError::NotRecognized));
    assert_eq!(
        get_dll_export_names(b"just some text, long enough to hold a magic number"),
        Err(FileFormatError::NotRecognized)
    );
    let mut no_signature = foo_bar_anonymous(true);
    no_signature[0x40] = b'X';
    assert_eq!(get_dll_export_names(&no_signature), Err(FileFormatError::NotRecognized));
}

#[test]
fn binaries_of_another_format() {
    let mut elf = vec![0u8; 64];
    elf[0..4].copy_from_slice(&[0x7f, b'E', b'L', b'F']);
    elf[4] = 2;
    assert_eq!(get_dll_export_names(&elf), Err(FileFormatError::UnsupportedArchitecture));
    let mut archive = b"!<arch>\n".to_vec();
    archive.extend_from_slice(&[b' '; 60]);
    assert_eq!(get_dll_export_names(&archive), Err(FileFormatError::UnsupportedArchitecture));
}

#[test]
fn damaged_images_are_malformed() {
    let dir = export_directory(1, 3, &[(b"Bar", 1), (b"Foo", 0)]);
    // The directory claims more bytes than its section holds.
    assert_eq!(
        get_dll_export_names(&image(true, &dir, Some(dir.len() as u32 + 1))),
        Err(FileFormatError::Malformed)
    );
    // A name pointer that leaves the directory.
    let mut stray = dir.clone();
    put32(&mut stray, 40 + 12, SECTION_RVA + 0x10000);
    assert_eq!(
        get_dll_export_names(&image(true, &stray, Some(stray.len() as u32))),
        Err(FileFormatError::Malformed)
    );
    // A name that belongs to no address entry.
    let mut orphan = dir.clone();
    put16(&mut orphan, 40 + 12 + 8, 9);
    assert_eq!(
        get_dll_export_names(&image(false, &orphan, Some(orphan.len() as u32))),
        Err(FileFormatError::Malformed)
    );
    // The section table is cut off.
    let whole = foo_bar_anonymous(true);
    assert_eq!(get_dll_export_names(&whole[..0x150]), Err(FileFormatError::Malformed));
}

#[test]
fn scans_become_export_lists() {
    assert_eq!(export_symbols(&ExportScan::Invalid), Err(FileFormatError::Malformed));
    assert_eq!(export_symbols(&ExportScan::Absent), Err(FileFormatError::NoExportTable));
    assert_eq!(export_symbols(&ExportScan::Entries(vec![])), Ok(vec![]));
    let entries = vec![
        RawExport { ordinal: 4, name: Some(b"Four".to_vec()) },
        RawExport { ordinal: 2, name: None },
        RawExport { ordinal: 4, name: Some(vec![0xC3, 0xA9]) },
        RawExport { ordinal: 9, name: Some(vec![0xC3]) },
        RawExport { ordinal: 0, name: Some(vec![]) },
    ];
    assert_eq!(
        export_symbols(&ExportScan::Entries(entries)),
        Ok(vec![
            sym(4, Some("Four")),
            sym(2, None),
            sym(4, Some("é")),
            sym(9, Some("\u{FFFD}")),
            sym(0, Some("")),
        ])
    );
}

#[test]
fn link_plan_from_an_image() {
    let plan = forward_dll("target.dll", &foo_bar_anonymous(true), Machine::Amd64).unwrap();
    assert_eq!(
        plan.directives,
        vec![
            "/EXPORT:Foo=target.Foo,@1".to_string(),
            "/EXPORT:Bar=target.Bar,@2".to_string(),
            "/EXPORT:forward_anon_1=target.#3,@3,NONAME".to_string(),
        ]
    );
    let exports = vec![sym(1, Some("Foo")), sym(2, Some("Bar")), sym(3, None)];
    assert_eq!(plan, forward_dll_impl("target.dll", &exports, Machine::Amd64).unwrap());
}

#[test]
fn link_plan_from_a_copy_kept_elsewhere() {
    let plan = forward_dll_with_dev_path(
        "C:\\Windows\\System32\\target.dll",
        &foo_bar_anonymous(false),
        Machine::I386,
    )
    .unwrap();
    assert_eq!(plan.directives[0], "/EXPORT:Foo=C:\\Windows\\System32\\target.Foo,@1");
    assert_eq!(plan.directives.len(), 3);
}

#[test]
fn no_export_directory_stops_link_time_generation() {
    let bare = image(true, &vec![0u8; 64], None);
    let expected = Err(ForwardError::FileFormat(FileFormatError::NoExportTable));
    assert_eq!(forward_dll("target.dll", &bare, Machine::Amd64), expected);
    assert_eq!(forward_dll_with_dev_path("target.dll", &bare, Machine::Amd64), expected);
    let empty = export_directory(1, 0, &[]);
    let empty = image(true, &empty, Some(empty.len() as u32));
    assert_eq!(forward_dll("target.dll", &empty, Machine::Amd64), expected);
}

#[test]
fn unreadable_images_stop_link_time_generation() {
    assert_eq!(
        forward_dll("target.dll", b"nothing like a library at all", Machine::Amd64),
        Err(ForwardError::FileFormat(FileFormatError::NotRecognized))
    );
    let mut elf = vec![0u8; 64];
    elf[0..5].copy_from_slice(&[0x7f, b'E', b'L', b'F', 1]);
    assert_eq!(
        forward_dll_with_dev_path("target.dll", &elf, Machine::I386),
        Err(ForwardError::FileFormat(FileFormatError::UnsupportedArchitecture))
    );
}

fn config(ordinal: bool) -> ForwardConfig {
    ForwardConfig {
        target_library_path: "C:\\Windows\\System32\\target.dll".to_string(),
        development_path: None,
        use_ordinal_exact_forwarding: ordinal,
    }
}

fn entry(export_name: &str, symbol: &str) -> EntryPoint {
    EntryPoint { export_name: export_name.to_string(), symbol: symbol.to_string() }
}

#[test]
fn runtime_forwarder_from_an_image() {
    let plan = derive_forward_module(&config(false), &foo_bar_anonymous(true)).unwrap();
    assert_eq!(
        plan.entry_points,
        vec![entry("Foo", "Foo"), entry("Bar", "Bar"), entry("forward_anon_1", "")]
    );
    assert_eq!(plan.ordinal_link_args, None);
    assert!(!plan.forwarder.initialized);
    assert_eq!(plan.forwarder.module_handle, None);
    assert_eq!(plan.forwarder.lib_name, "C:\\Windows\\System32\\target.dll");
    assert_eq!(plan.forwarder.table.len(), 3);
    assert_eq!(plan.forwarder.table.name(0), Some(&"Foo".to_string()));
    assert_eq!(plan.forwarder.table.ordinal(2), 3);
    assert_eq!(plan.forwarder.table.resolved_address(0), None);
}

#[test]
fn runtime_forwarder_with_exact_ordinals() {
    let plan = derive_forward_module(&config(true), &foo_bar_anonymous(false)).unwrap();
    assert_eq!(
        plan.entry_points,
        vec![entry("_Foo", "Foo"), entry("_Bar", "Bar"), entry("_forward_anon_1", "")]
    );
    assert_eq!(
        plan.ordinal_link_args,
        Some(
            "/EXPORT:Foo=_Foo,@1\n/EXPORT:Bar=_Bar,@2\n/EXPORT:forward_anon_1=_forward_anon_1,@3,NONAME"
                .to_string()
        )
    );
}

#[test]
fn no_export_directory_stops_the_generator() {
    let bare = image(false, &vec![0u8; 64], None);
    assert_eq!(
        derive_forward_module(&config(true), &bare),
        Err(ForwardError::FileFormat(FileFormatError::NoExportTable))
    );
    assert_eq!(
        derive_forward_module(&config(false), b"MZ and then nothing of use"),
        Err(ForwardError::FileFormat(FileFormatError::NotRecognized))
    );
}

#[test]
fn exports_are_read_from_the_development_path_if_given() {
    let mut c = config(false);
    assert_eq!(c.export_source(), "C:\\Windows\\System32\\target.dll");
    c.development_path = Some("build\\target.dll".to_string());
    assert_eq!(c.export_source(), "build\\target.dll");
}
