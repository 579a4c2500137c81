use ksupport::loader::{load, ApiEntry, Library, Import};
use ksupport::msg::{Image, LoadError, Reloc, Symbol};

fn api() -> Vec<ApiEntry> {
    vec![
        ApiEntry { name: b"rtio_output".to_vec(), addr: 0x100 },
        ApiEntry { name: b"rpc_send".to_vec(), addr: 0x200 },
    ]
}

#[test]
fn load_success_applies_relocation() {
    let image = Image {
        data: vec![0xaa; 8],
        exports: vec![Symbol { name: b"__modinit__".to_vec(), offset: 4 }],
        imports: vec![b"rtio_output".to_vec()],
        relocs: vec![Reloc { offset: 0, addend: 0x10 }],
    };
    let lib = load(image, 0x1000, 0x10000, &api()).unwrap();
    // The patched word is base + addend = 0x1010, little-endian.
    assert_eq!(&lib.memory[0..4], &[0x10, 0x10, 0x00, 0x00]);
    assert_eq!(&lib.memory[4..8], &[0xaa; 4]);
    assert_eq!(lib.base, 0x1000);
    assert_eq!(lib.imports.len(), 1);
    assert_eq!(lib.imports[0].name, b"rtio_output".to_vec());
    assert_eq!(lib.imports[0].addr, 0x100);
}

#[test]
fn load_unresolved_symbol_names_it() {
    let image = Image {
        data: vec![0; 4],
        exports: vec![],
        imports: vec![b"rtio_output".to_vec(), b"missing_fn".to_vec()],
        relocs: vec![],
    };
    match load(image, 0x1000, 0x10000, &api()) {
        Err(LoadError::Unresolved(name)) => assert_eq!(name, b"missing_fn".to_vec()),
        other => panic!("expected Unresolved, got {:?}", other),
    }
}

#[test]
fn load_relocation_out_of_range() {
    let image = Image {
        data: vec![0; 8],
        exports: vec![],
        imports: vec![],
        relocs: vec![Reloc { offset: 6, addend: 0 }],
    };
    assert!(matches!(
        load(image, 0x1000, 0x10000, &api()),
        Err(LoadError::RelocationOutOfRange)
    ));
}

#[test]
fn load_oversized_image_is_invalid() {
    let image = Image { data: vec![0; 64], exports: vec![], imports: vec![], relocs: vec![] };
    assert!(matches!(load(image, 0x1000, 32, &api()), Err(LoadError::InvalidFormat)));
}

#[test]
fn load_export_outside_image_is_invalid() {
    let image = Image {
        data: vec![0; 8],
        exports: vec![Symbol { name: b"ghost".to_vec(), offset: 9 }],
        imports: vec![],
        relocs: vec![],
    };
    assert!(matches!(load(image, 0x1000, 0x10000, &api()), Err(LoadError::InvalidFormat)));
}

#[test]
fn lookup_resolves_to_absolute_address() {
    let lib = Library {
        base: 0x4000,
        memory: vec![0; 32],
        exports: vec![
            Symbol { name: b"__modinit__".to_vec(), offset: 0x10 },
            Symbol { name: b"_end".to_vec(), offset: 0x20 },
        ],
        imports: vec![],
    };
    assert_eq!(lib.lookup(b"__modinit__"), Some(0x4010));
    assert_eq!(lib.lookup(b"_end"), Some(0x4020));
    assert_eq!(lib.lookup(b"typeinfo"), None);
}

#[test]
fn rebind_replaces_only_the_named_import() {
    let mut lib = Library {
        base: 0,
        memory: vec![],
        exports: vec![],
        imports: vec![
            Import { name: b"a".to_vec(), addr: 1 },
            Import { name: b"b".to_vec(), addr: 2 },
        ],
    };
    assert!(lib.rebind(b"b", 99).is_ok());
    assert_eq!(lib.imports[0].addr, 1);
    assert_eq!(lib.imports[1].addr, 99);
    assert!(lib.rebind(b"c", 5).is_err());
    assert_eq!(lib.imports[0].addr, 1);
    assert_eq!(lib.imports[1].addr, 99);
}
