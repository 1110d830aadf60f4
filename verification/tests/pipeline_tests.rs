use venice_cli::builder::{
    CompilerOutcome, TableAction, compiler_outcome_result, modules_to_build, needs_rebuild,
    table_action,
};
use venice_cli::device::PostUploadAction;
use venice_cli::errors::CliError;
use venice_cli::manifest::{Manifest, ProgramIcon, validate_slot};
use venice_cli::orchestrate::{ini_config, prepare_upload};
use venice_cli::scan::{DirTree, SrcModule, Subdir, find_modules};

fn sample_manifest(slot: u8) -> Manifest {
    Manifest {
        name: String::from("demo"),
        slot,
        venice_version: String::from("0.1.0"),
        icon: ProgramIcon::QuestionMark,
        description: None,
    }
}

#[test]
fn slot_out_of_range_aborts_before_anything() {
    // slot 9 fails validation; no connection, compilation or fetch is
    // planned at all
    let manifest = sample_manifest(9);
    assert_eq!(
        prepare_upload(&manifest, None),
        Err(CliError::SlotOutOfRange)
    );
    assert!(!validate_slot(9));
    assert!(!validate_slot(0));
    assert!(validate_slot(1));
    assert!(validate_slot(8));
}

#[test]
fn upload_plan_fixed_names() {
    let manifest = sample_manifest(3);
    let plan = prepare_upload(&manifest, None).unwrap();
    assert_eq!(plan.slot, 3);
    assert_eq!(plan.ini_name, "slot_3.ini");
    assert_eq!(plan.table_name, "slot_3.bin");
    assert_eq!(plan.rt_name, "venice-v0.1.0.bin");
    assert_eq!(plan.after, PostUploadAction::ShowRunScreen);
    assert_eq!(
        plan.config,
        "[project]\r\nide=Venice\r\n[program]\r\nname=demo\r\nslot=2\r\nicon=USER002x.bmp\r\niconalt=\r\ndescription=Made in Heaven!\r\n"
    );
}

#[test]
fn bad_manifest_version_rejected() {
    let mut manifest = sample_manifest(1);
    manifest.venice_version = String::from("not-a-version");
    assert!(matches!(
        prepare_upload(&manifest, None),
        Err(CliError::InvalidVersion(_))
    ));
}

#[test]
fn ini_config_exact() {
    assert_eq!(
        ini_config("Test", 0, 27, "mine"),
        "[project]\r\nide=Venice\r\n[program]\r\nname=Test\r\nslot=0\r\nicon=USER027x.bmp\r\niconalt=\r\ndescription=mine\r\n"
    );
    assert_eq!(
        ini_config("t", 7, 926, ""),
        "[project]\r\nide=Venice\r\n[program]\r\nname=t\r\nslot=7\r\nicon=USER926x.bmp\r\niconalt=\r\ndescription=\r\n"
    );
}

#[test]
fn icon_codes() {
    assert_eq!(ProgramIcon::default(), ProgramIcon::QuestionMark);
    assert_eq!(ProgramIcon::QuestionMark.code(), 2);
    assert_eq!(ProgramIcon::Alien.code(), 27);
    assert_eq!(ProgramIcon::VexcodePython.code(), 925);
}

#[test]
fn staleness_rule() {
    // an equal timestamp still counts as stale
    assert!(needs_rebuild(Some(5), Some(5)));
    assert!(needs_rebuild(Some(6), Some(5)));
    assert!(!needs_rebuild(Some(4), Some(5)));
    // a missing time counts as the epoch
    assert!(needs_rebuild(None, None));
    assert!(needs_rebuild(Some(1), None));
    assert!(!needs_rebuild(None, Some(1)));
}

#[test]
fn build_list_is_stale_modules() {
    assert_eq!(
        modules_to_build(&vec![false, true, false, true]),
        vec![1, 3]
    );
    assert_eq!(modules_to_build(&vec![false, false]), Vec::<usize>::new());
}

#[test]
fn unchanged_build_reuses_table() {
    // no stale module and a cached table: zero compiler invocations, the
    // cached bytes are read back unchanged
    assert_eq!(modules_to_build(&vec![false, false, false]), Vec::<usize>::new());
    assert_eq!(table_action(false, true), TableAction::Reuse);
    assert_eq!(table_action(true, true), TableAction::Regenerate);
    assert_eq!(table_action(false, false), TableAction::Regenerate);
}

#[test]
fn compiler_failure_aborts() {
    let r = compiler_outcome_result(
        String::from("src/main.py"),
        CompilerOutcome::Exited {
            success: false,
            stderr: String::from("boom"),
        },
    );
    assert_eq!(
        r,
        Err(CliError::Compiler {
            file: String::from("src/main.py"),
            stderr: String::from("boom"),
        })
    );
    assert_eq!(
        compiler_outcome_result(
            String::from("src/main.py"),
            CompilerOutcome::Exited {
                success: true,
                stderr: String::new(),
            },
        ),
        Ok(())
    );
    // a compiler that could not start at all is deliberately ignored
    assert_eq!(
        compiler_outcome_result(String::from("src/main.py"), CompilerOutcome::LaunchFailed),
        Ok(())
    );
}

fn marked(files: &[&[u8]], dirs: Vec<Subdir>) -> DirTree {
    let mut names: Vec<Vec<u8>> = vec![b"__init__.py".to_vec()];
    for f in files {
        names.push(f.to_vec());
    }
    DirTree { files: names, dirs }
}

#[test]
fn unmarked_subtree_pruned() {
    // the root lacks the marker: nothing is discovered, not even the
    // validly marked subtree inside it
    let root = DirTree {
        files: vec![b"main.py".to_vec()],
        dirs: vec![Subdir {
            name: b"inner".to_vec(),
            tree: marked(&[b"mod.py"], vec![]),
        }],
    };
    assert_eq!(find_modules(&root), vec![]);
}

#[test]
fn discovery_collects_marked_modules() {
    let root = marked(
        &[b"main.py", b"notes.txt"],
        vec![
            Subdir {
                name: b"sub".to_vec(),
                tree: marked(&[b"mod.py"], vec![]),
            },
            Subdir {
                name: b"skipped".to_vec(),
                tree: DirTree {
                    files: vec![b"hidden.py".to_vec()],
                    dirs: vec![],
                },
            },
        ],
    );
    let modules = find_modules(&root);
    let names: Vec<Vec<u8>> = modules.into_iter().map(|m| m.name).collect();
    assert_eq!(
        names,
        vec![
            b"__init__".to_vec(),
            b"main".to_vec(),
            b"sub/__init__".to_vec(),
            b"sub/mod".to_vec(),
        ]
    );
}

#[test]
fn python_naming() {
    // pkg/sub/mod.py under a root declared as package `app`
    let m = SrcModule {
        name: b"sub/mod".to_vec(),
    };
    assert_eq!(m.python_name(&b"app".to_vec()), b"app.sub.mod".to_vec());

    // the package's own marker file yields the package name itself
    let marker = SrcModule {
        name: b"__init__".to_vec(),
    };
    assert_eq!(marker.python_name(&b"app".to_vec()), b"app".to_vec());

    let nested_marker = SrcModule {
        name: b"sub/__init__".to_vec(),
    };
    assert_eq!(
        nested_marker.python_name(&b"app".to_vec()),
        b"app.sub".to_vec()
    );

    assert_eq!(m.module_flags(), 0b01);
    assert_eq!(marker.module_flags(), 0b11);
    assert_eq!(m.rel_src_path(), b"sub/mod.py".to_vec());
    assert_eq!(m.rel_artifact_path(), b"sub/mod.mpy".to_vec());
}
