use venice_cli::VENDOR_ID;
use venice_cli::builder::table_entries;
use venice_cli::scan::{DirTree, SrcModule, Subdir, find_modules};
use venice_cli::table::{ProgramEntry, build_table};

fn word_at(bytes: &[u8], offset: usize) -> u32 {
    u32::from_le_bytes([
        bytes[offset],
        bytes[offset + 1],
        bytes[offset + 2],
        bytes[offset + 3],
    ])
}

fn sample_entries() -> Vec<ProgramEntry> {
    vec![
        ProgramEntry {
            name: b"__venice__package_name__".to_vec(),
            payload: b"app".to_vec(),
            flags: 0,
        },
        ProgramEntry {
            name: b"app.main".to_vec(),
            payload: vec![1, 2],
            flags: 1,
        },
    ]
}

#[test]
fn table_layout_bytes() {
    let entries = sample_entries();
    let bytes = build_table(VENDOR_ID, &entries);

    let mut expected: Vec<u8> = Vec::new();
    // header: magic, name-pool offset, bytecode-pool offset, entry count
    expected.extend_from_slice(&[0x13, 0x58, 0x23, 0x11]);
    expected.extend_from_slice(&[32, 0, 0, 0]);
    expected.extend_from_slice(&[64, 0, 0, 0]);
    expected.extend_from_slice(&[2, 0, 0, 0]);
    // pointer records: name length, bytecode length (flag byte included)
    expected.extend_from_slice(&[24, 0, 0, 0]);
    expected.extend_from_slice(&[4, 0, 0, 0]);
    expected.extend_from_slice(&[8, 0, 0, 0]);
    expected.extend_from_slice(&[3, 0, 0, 0]);
    // name pool
    expected.extend_from_slice(b"__venice__package_name__");
    expected.extend_from_slice(b"app.main");
    // bytecode pool: flag byte, then payload, per entry
    expected.extend_from_slice(&[0]);
    expected.extend_from_slice(b"app");
    expected.extend_from_slice(&[1, 1, 2]);

    assert_eq!(bytes, expected);
}

#[test]
fn table_bytes_reproducible() {
    let entries = sample_entries();
    let first = build_table(VENDOR_ID, &entries);
    let second = build_table(VENDOR_ID, &entries);
    assert_eq!(first, second);
}

#[test]
fn empty_table_is_bare_header() {
    let entries: Vec<ProgramEntry> = vec![];
    let bytes = build_table(VENDOR_ID, &entries);
    assert_eq!(bytes.len(), 16);
    assert_eq!(word_at(&bytes, 0), VENDOR_ID);
    assert_eq!(word_at(&bytes, 4), 16);
    assert_eq!(word_at(&bytes, 8), 16);
    assert_eq!(word_at(&bytes, 12), 0);
}

#[test]
fn scanned_project_table_offsets() {
    // a small project, scanned, assembled and serialized end to end: the
    // header offsets must equal the cumulative lengths of the sections
    let root = DirTree {
        files: vec![b"__init__.py".to_vec(), b"main.py".to_vec()],
        dirs: vec![Subdir {
            name: b"sub".to_vec(),
            tree: DirTree {
                files: vec![b"__init__.py".to_vec(), b"mod.py".to_vec()],
                dirs: vec![],
            },
        }],
    };
    let modules = find_modules(&root);
    assert_eq!(modules.len(), 4);
    let payloads: Vec<Vec<u8>> = vec![vec![1], vec![2, 2], vec![3], vec![4, 4, 4]];
    let package = b"app".to_vec();
    let entries = table_entries(&package, &modules, &payloads);
    assert_eq!(entries.len(), modules.len() + 1);

    let bytes = build_table(VENDOR_ID, &entries);

    let count = entries.len();
    let records_end = 16 + 8 * count;
    let names_total: usize = entries.iter().map(|e| e.name.len()).sum();
    let payloads_total: usize = entries.iter().map(|e| 1 + e.payload.len()).sum();

    assert_eq!(word_at(&bytes, 0), VENDOR_ID);
    assert_eq!(word_at(&bytes, 4) as usize, records_end);
    assert_eq!(word_at(&bytes, 8) as usize, records_end + names_total);
    assert_eq!(word_at(&bytes, 12) as usize, count);
    assert_eq!(bytes.len(), records_end + names_total + payloads_total);

    // the name pool holds the dotted names in entry order
    let names: Vec<u8> = entries.iter().flat_map(|e| e.name.clone()).collect();
    assert_eq!(&bytes[records_end..records_end + names_total], &names[..]);
    assert_eq!(
        names,
        b"__venice__package_name__appapp.mainapp.subapp.sub.mod".to_vec()
    );
}

#[test]
fn entries_carry_synthetic_name() {
    let package = b"app".to_vec();
    let modules = vec![
        SrcModule {
            name: b"main".to_vec(),
        },
        SrcModule {
            name: b"__init__".to_vec(),
        },
    ];
    let payloads = vec![vec![9, 9], vec![7]];
    let entries = table_entries(&package, &modules, &payloads);

    assert_eq!(entries.len(), 3);
    assert_eq!(entries[0].name, b"__venice__package_name__".to_vec());
    assert_eq!(entries[0].payload, b"app".to_vec());
    assert_eq!(entries[0].flags, 0);
    assert_eq!(entries[1].name, b"app.main".to_vec());
    assert_eq!(entries[1].payload, vec![9, 9]);
    assert_eq!(entries[1].flags, 0b01);
    assert_eq!(entries[2].name, b"app".to_vec());
    assert_eq!(entries[2].payload, vec![7]);
    assert_eq!(entries[2].flags, 0b11);
}
