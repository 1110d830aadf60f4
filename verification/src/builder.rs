//! The module builder's decisions: which modules are stale, what a
//! compiler run's outcome means for the pipeline, when the cached table
//! may be reused, and how the table entries are assembled.

use vstd::prelude::*;

use crate::errors::CliError;
use crate::scan::{SrcModule, flags_spec, python_name_spec};
use crate::table::ProgramEntry;
use crate::util::push_bytes;

verus! {

/// A file's modification time, in seconds; `None` when the file is
/// missing or carries no time, which counts as the epoch.
pub open spec fn mtime_or_epoch(t: Option<u64>) -> u64 {
    match t {
        Some(v) => v,
        None => 0,
    }
}

/// A module is stale when its source is not strictly older than its
/// artifact — equal times still count as stale.
pub open spec fn stale_spec(src_mtime: Option<u64>, artifact_mtime: Option<u64>) -> bool {
    mtime_or_epoch(src_mtime) >= mtime_or_epoch(artifact_mtime)
}

/// Decides whether a module must be rebuilt, from its source's and its
/// artifact's modification times.
pub fn needs_rebuild(src_mtime: Option<u64>, artifact_mtime: Option<u64>) -> (r: bool)
    ensures
        r == stale_spec(src_mtime, artifact_mtime),
{
    let s: u64 = match src_mtime {
        Some(v) => v,
        None => 0,
    };
    let a: u64 = match artifact_mtime {
        Some(v) => v,
        None => 0,
    };
    s >= a
}

/// The indices of the stale modules, in order.
pub open spec fn build_list_spec(stale: Seq<bool>) -> Seq<int>
    decreases stale.len(),
{
    if stale.len() == 0 {
        Seq::empty()
    } else {
        let init = build_list_spec(stale.drop_last());
        if stale.last() {
            init.push(stale.len() - 1)
        } else {
            init
        }
    }
}

/// Lists the modules the compiler must be invoked on: exactly the stale
/// ones, in order.
#[verifier::loop_isolation(false)]
pub fn modules_to_build(stale: &Vec<bool>) -> (r: Vec<usize>)
    ensures
        r@.map_values(|u: usize| u as int) == build_list_spec(stale@),
{
    let mut out: Vec<usize> = Vec::new();
    let mut i: usize = 0;
    while i < stale.len()
        invariant
            0 <= i <= stale@.len(),
            out@.map_values(|u: usize| u as int) == build_list_spec(stale@.take(i as int)),
        decreases stale@.len() - i,
    {
        proof {
            assert(stale@.take(i + 1).drop_last() =~= stale@.take(i as int));
            assert(stale@.take(i + 1).last() == stale@[i as int]);
        }
        if stale[i] {
            let ghost before = out@;
            out.push(i);
            proof {
                assert(out@.map_values(|u: usize| u as int) =~= before.map_values(
                    |u: usize| u as int,
                ).push(i as int));
            }
        }
        i = i + 1;
    }
    proof {
        assert(stale@.take(stale@.len() as int) =~= stale@);
    }
    out
}

/// How a compiler subprocess run ended, as the unverified shell reports
/// it.
#[derive(Debug, Clone, PartialEq, Eq)]
pub enum CompilerOutcome {
    /// The subprocess could not be started at all.
    LaunchFailed,
    /// The subprocess ran to an exit, successful or not, with its
    /// captured diagnostic text.
    Exited { success: bool, stderr: String },
}

/// Maps a compiler run's outcome to the pipeline's result: a run that
/// exited with a failure aborts with a compiler error carrying the source
/// path and the diagnostic text; a subprocess that could not even start
/// is deliberately ignored.
pub fn compiler_outcome_result(file: String, outcome: CompilerOutcome) -> (r: Result<(), CliError>)
    ensures
        match outcome {
            CompilerOutcome::LaunchFailed => r == Ok::<(), CliError>(()),
            CompilerOutcome::Exited { success, stderr } => if success {
                r == Ok::<(), CliError>(())
            } else {
                r == Err::<(), CliError>((CliError::Compiler { file, stderr }))
            },
        },
{
    match outcome {
        CompilerOutcome::LaunchFailed => Ok(()),
        CompilerOutcome::Exited { success, stderr } => {
            if success {
                Ok(())
            } else {
                Err(CliError::Compiler { file, stderr })
            }
        },
    }
}

/// Whether the cached table bytes may be reused or the table must be
/// serialized anew.
#[derive(Debug, Clone, Copy, PartialEq, Eq, Structural)]
pub enum TableAction {
    /// Read the previously written bytes back unchanged.
    Reuse,
    /// Serialize and write the table again.
    Regenerate,
}

/// The cached table is reused exactly when no module was rebuilt and a
/// cached table file exists.
pub open spec fn table_action_spec(any_rebuilt: bool, cached_exists: bool) -> TableAction {
    if !any_rebuilt && cached_exists {
        TableAction::Reuse
    } else {
        TableAction::Regenerate
    }
}

/// Decides whether the cached table bytes are reused.
pub fn table_action(any_rebuilt: bool, cached_exists: bool) -> (r: TableAction)
    ensures
        r == table_action_spec(any_rebuilt, cached_exists),
{
    if !any_rebuilt && cached_exists {
        TableAction::Reuse
    } else {
        TableAction::Regenerate
    }
}

/// Law: rebuilding with no source changes invokes the compiler zero
/// times, and, a cached table being present, reuses the cached bytes
/// verbatim — so the table bytes equal the prior run's.
pub proof fn lemma_rebuild_idempotent(stale: Seq<bool>, cached_exists: bool)
    requires
        forall|i: int| 0 <= i < stale.len() ==> !stale[i],
        cached_exists,
    ensures
        build_list_spec(stale).len() == 0,
        table_action_spec(false, cached_exists) == TableAction::Reuse,
    decreases stale.len(),
{
    if stale.len() > 0 {
        lemma_rebuild_idempotent(stale.drop_last(), cached_exists);
    }
}

/// The name of the synthetic entry that carries the program's declared
/// name.
pub open spec fn program_name_key() -> Seq<u8> {
    seq![
        ('_' as u8), ('_' as u8), ('v' as u8), ('e' as u8), ('n' as u8), ('i' as u8),
        ('c' as u8), ('e' as u8), ('_' as u8), ('_' as u8), ('p' as u8), ('a' as u8),
        ('c' as u8), ('k' as u8), ('a' as u8), ('g' as u8), ('e' as u8), ('_' as u8),
        ('n' as u8), ('a' as u8), ('m' as u8), ('e' as u8), ('_' as u8), ('_' as u8),
    ]
}

/// The name of the synthetic program-name entry, as a vector.
pub fn program_name_key_bytes() -> (r: Vec<u8>)
    ensures
        r@ == program_name_key(),
{
    let mut v: Vec<u8> = Vec::new();
    v.push('_' as u8);
    v.push('_' as u8);
    v.push('v' as u8);
    v.push('e' as u8);
    v.push('n' as u8);
    v.push('i' as u8);
    v.push('c' as u8);
    v.push('e' as u8);
    v.push('_' as u8);
    v.push('_' as u8);
    v.push('p' as u8);
    v.push('a' as u8);
    v.push('c' as u8);
    v.push('k' as u8);
    v.push('a' as u8);
    v.push('g' as u8);
    v.push('e' as u8);
    v.push('_' as u8);
    v.push('n' as u8);
    v.push('a' as u8);
    v.push('m' as u8);
    v.push('e' as u8);
    v.push('_' as u8);
    v.push('_' as u8);
    proof {
        assert(v@ =~= program_name_key());
    }
    v
}

/// Assembles the table entries: first the synthetic entry (flag byte
/// zero) carrying the declared program name, then one entry per module —
/// its dotted name, its compiled payload, its flag byte. The entry count
/// is the number of modules plus the one synthetic entry, and the order
/// is the modules' order, so the table is deterministic in its inputs.
#[verifier::loop_isolation(false)]
pub fn table_entries(
    package_name: &Vec<u8>,
    modules: &Vec<SrcModule>,
    payloads: &Vec<Vec<u8>>,
) -> (r: Vec<ProgramEntry>)
    requires
        payloads@.len() == modules@.len(),
    ensures
        r@.len() == modules@.len() + 1,
        r@[0].name@ == program_name_key(),
        r@[0].payload@ == package_name@,
        r@[0].flags == 0,
        forall|i: int|
            0 <= i < modules@.len() ==> #[trigger] r@[i + 1].name@ == python_name_spec(
                package_name@,
                modules@[i].name@,
            ) && r@[i + 1].payload@ == payloads@[i]@ && r@[i + 1].flags == flags_spec(
                modules@[i].name@,
            ),
{
    let mut out: Vec<ProgramEntry> = Vec::new();
    let mut synthetic_payload: Vec<u8> = Vec::new();
    push_bytes(&mut synthetic_payload, package_name);
    proof {
        assert(synthetic_payload@ =~= package_name@);
    }
    out.push(ProgramEntry { name: program_name_key_bytes(), payload: synthetic_payload, flags: 0 });
    let mut i: usize = 0;
    while i < modules.len()
        invariant
            0 <= i <= modules@.len() == payloads@.len(),
            out@.len() == i + 1,
            out@[0].name@ == program_name_key(),
            out@[0].payload@ == package_name@,
            out@[0].flags == 0,
            forall|j: int|
                0 <= j < i ==> #[trigger] out@[j + 1].name@ == python_name_spec(
                    package_name@,
                    modules@[j].name@,
                ) && out@[j + 1].payload@ == payloads@[j]@ && out@[j + 1].flags == flags_spec(
                    modules@[j].name@,
                ),
        decreases modules@.len() - i,
    {
        let name = modules[i].python_name(package_name);
        let mut payload: Vec<u8> = Vec::new();
        push_bytes(&mut payload, &payloads[i]);
        proof {
            assert(payload@ =~= payloads@[i as int]@);
        }
        let flags = modules[i].module_flags();
        out.push(ProgramEntry { name, payload, flags });
        i = i + 1;
    }
    out
}

} // verus!
