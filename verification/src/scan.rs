//! The module scanner: walking a source tree for compilable modules and
//! deriving their dotted names.
//!
//! A directory takes part in the walk only if it holds the package-marker
//! file; a subtree without the marker is pruned entirely, even if marked
//! directories sit deeper inside it. The scanner works on a plain tree of
//! file and directory names, with `/` as the path separator, which the
//! unverified shell reads from the filesystem.

use vstd::prelude::*;

use crate::util::{bytes_eq, bytes_end_with, ends_with_bytes, push_bytes, take_bytes};

verus! {

/// A directory of the source tree: its file names and its subdirectories.
#[derive(Debug, PartialEq, Eq)]
pub struct DirTree {
    pub files: Vec<Vec<u8>>,
    pub dirs: Vec<Subdir>,
}

/// A named subdirectory.
#[derive(Debug, PartialEq, Eq)]
pub struct Subdir {
    pub name: Vec<u8>,
    pub tree: DirTree,
}

/// A discovered source module: its path relative to the source root, with
/// `/` separators and the source extension dropped.
#[derive(Debug, Clone, PartialEq, Eq)]
pub struct SrcModule {
    pub name: Vec<u8>,
}

/// The source extension, dot included.
pub open spec fn src_ext() -> Seq<u8> {
    seq![('.' as u8), ('p' as u8), ('y' as u8)]
}

/// The artifact extension, dot included.
pub open spec fn artifact_ext() -> Seq<u8> {
    seq![('.' as u8), ('m' as u8), ('p' as u8), ('y' as u8)]
}

/// The stem of the package-marker file.
pub open spec fn marker_stem() -> Seq<u8> {
    seq![('_' as u8), ('_' as u8), ('i' as u8), ('n' as u8), ('i' as u8), ('t' as u8), ('_' as u8), ('_' as u8)]
}

/// The package-marker file name.
pub open spec fn marker_file() -> Seq<u8> {
    marker_stem() + src_ext()
}

/// The package-marker file name, as a vector.
fn marker_file_bytes() -> (r: Vec<u8>)
    ensures
        r@ == marker_file(),
{
    let mut v: Vec<u8> = Vec::new();
    v.push(('_' as u8));
    v.push(('_' as u8));
    v.push(('i' as u8));
    v.push(('n' as u8));
    v.push(('i' as u8));
    v.push(('t' as u8));
    v.push(('_' as u8));
    v.push(('_' as u8));
    v.push(('.' as u8));
    v.push(('p' as u8));
    v.push(('y' as u8));
    proof {
        assert(v@ =~= marker_file());
    }
    v
}

/// The package-marker stem, as a vector.
fn marker_stem_bytes() -> (r: Vec<u8>)
    ensures
        r@ == marker_stem(),
{
    let mut v: Vec<u8> = Vec::new();
    v.push(('_' as u8));
    v.push(('_' as u8));
    v.push(('i' as u8));
    v.push(('n' as u8));
    v.push(('i' as u8));
    v.push(('t' as u8));
    v.push(('_' as u8));
    v.push(('_' as u8));
    proof {
        assert(v@ =~= marker_stem());
    }
    v
}

/// Whether a directory holds the package-marker file.
pub open spec fn has_marker_spec(t: DirTree) -> bool {
    exists|i: int| 0 <= i < t.files@.len() && t.files@[i]@ == marker_file()
}

/// A file name with the source extension and a non-empty stem.
pub open spec fn is_src_file(name: Seq<u8>) -> bool {
    name.len() >= 4 && name.skip(name.len() - 3) == src_ext()
}

/// The file name without its three-byte source extension.
pub open spec fn module_stem(name: Seq<u8>) -> Seq<u8> {
    name.take(name.len() - 3)
}

/// The module names contributed by the source files of one directory, in
/// the order the files are listed.
pub open spec fn file_modules(files: Seq<Vec<u8>>, prefix: Seq<u8>) -> Seq<Seq<u8>>
    decreases files.len(),
{
    if files.len() == 0 {
        Seq::empty()
    } else {
        let init = file_modules(files.drop_last(), prefix);
        if is_src_file(files.last()@) {
            init.push(prefix + module_stem(files.last()@))
        } else {
            init
        }
    }
}

/// All module names found under `t`, each prefixed by `prefix`: none when
/// the marker is missing, else this directory's source files followed by
/// the subdirectories' modules in order.
pub open spec fn scan_tree(t: DirTree, prefix: Seq<u8>) -> Seq<Seq<u8>>
    decreases t,
    via scan_tree_dec
{
    if !has_marker_spec(t) {
        Seq::empty()
    } else {
        file_modules(t.files@, prefix) + subdir_modules(t.dirs@, prefix)
    }
}

#[via_fn]
proof fn scan_tree_dec(t: DirTree, prefix: Seq<u8>) {
    assert(decreases_to!(t => t.dirs));
    assert(decreases_to!(t.dirs => t.dirs@));
}

/// The modules of a list of subdirectories, in order.
pub open spec fn subdir_modules(dirs: Seq<Subdir>, prefix: Seq<u8>) -> Seq<Seq<u8>>
    decreases dirs,
    via subdir_modules_dec
{
    if dirs.len() == 0 {
        Seq::empty()
    } else {
        subdir_modules(dirs.drop_last(), prefix) + scan_tree(
            dirs.last().tree,
            prefix + dirs.last().name@ + seq![('/' as u8)],
        )
    }
}

#[via_fn]
proof fn subdir_modules_dec(dirs: Seq<Subdir>, prefix: Seq<u8>) {
    if dirs.len() > 0 {
        assert(decreases_to!(dirs => dirs[dirs.len() - 1]));
        assert(decreases_to!(dirs[dirs.len() - 1] => dirs[dirs.len() - 1].tree));
        assert(dirs.drop_last() == dirs.subrange(0, dirs.len() - 1));
        assert(decreases_to!(dirs => dirs.subrange(0, dirs.len() - 1)));
    }
}

/// Law: a subtree lacking the package-marker file contributes no module at
/// all, whatever marked directories sit deeper inside it.
pub proof fn lemma_unmarked_subtree_excluded(t: DirTree, prefix: Seq<u8>)
    requires
        !has_marker_spec(t),
    ensures
        scan_tree(t, prefix) == Seq::<Seq<u8>>::empty(),
{
}

/// The names of a list of modules.
pub open spec fn module_names(ms: Seq<SrcModule>) -> Seq<Seq<u8>> {
    ms.map_values(|m: SrcModule| m.name@)
}

/// Whether a directory holds the package-marker file.
#[verifier::loop_isolation(false)]
pub fn has_marker(t: &DirTree) -> (r: bool)
    ensures
        r == has_marker_spec(*t),
{
    let marker = marker_file_bytes();
    let mut i: usize = 0;
    while i < t.files.len()
        invariant
            0 <= i <= t.files@.len(),
            forall|j: int| 0 <= j < i ==> t.files@[j]@ != marker_file(),
        decreases t.files@.len() - i,
    {
        if bytes_eq(&t.files[i], &marker) {
            return true;
        }
        i = i + 1;
    }
    false
}

/// Collects the modules under `t` into `out`, each name prefixed by
/// `prefix`.
#[verifier::loop_isolation(false)]
fn scan_into(t: &DirTree, prefix: &Vec<u8>, out: &mut Vec<SrcModule>)
    ensures
        module_names(final(out)@) == module_names(old(out)@) + scan_tree(*t, prefix@),
    decreases *t,
{
    if !has_marker(t) {
        proof {
            assert(module_names(out@) =~= module_names(out@) + scan_tree(*t, prefix@));
        }
        return ;
    }
    let mut i: usize = 0;
    while i < t.files.len()
        invariant
            0 <= i <= t.files@.len(),
            module_names(out@) == module_names(old(out)@) + file_modules(
                t.files@.take(i as int),
                prefix@,
            ),
        decreases t.files@.len() - i,
    {
        let name = &t.files[i];
        proof {
            assert(t.files@.take(i + 1).drop_last() =~= t.files@.take(i as int));
            assert(t.files@.take(i + 1).last() == t.files@[i as int]);
        }
        if name.len() >= 4 {
            let ext = take_bytes_suffix(name);
            if is_src_ext(&ext) {
                let stem_len = name.len() - 3;
                let stem = take_bytes(name, stem_len);
                let mut full: Vec<u8> = Vec::new();
                push_bytes(&mut full, prefix);
                push_bytes(&mut full, &stem);
                let m = SrcModule { name: full };
                let ghost before = out@;
                out.push(m);
                proof {
                    assert(is_src_file(t.files@[i as int]@));
                    assert(m.name@ =~= prefix@ + module_stem(t.files@[i as int]@));
                    assert(module_names(before.push(m)) =~= module_names(before).push(m.name@));
                    assert(module_names(out@) =~= module_names(old(out)@) + file_modules(
                        t.files@.take(i + 1),
                        prefix@,
                    ));
                }
            } else {
                proof {
                    assert(!is_src_file(t.files@[i as int]@));
                }
            }
        } else {
            proof {
                assert(!is_src_file(t.files@[i as int]@));
            }
        }
        i = i + 1;
    }
    proof {
        assert(t.files@.take(t.files@.len() as int) =~= t.files@);
    }
    let mut i: usize = 0;
    while i < t.dirs.len()
        invariant
            0 <= i <= t.dirs@.len(),
            module_names(out@) == module_names(old(out)@) + file_modules(t.files@, prefix@)
                + subdir_modules(t.dirs@.take(i as int), prefix@),
        decreases t.dirs@.len() - i,
    {
        let sub = &t.dirs[i];
        let mut child_prefix: Vec<u8> = Vec::new();
        push_bytes(&mut child_prefix, prefix);
        push_bytes(&mut child_prefix, &sub.name);
        child_prefix.push(('/' as u8));
        proof {
            assert(child_prefix@ =~= prefix@ + t.dirs@[i as int].name@ + seq![('/' as u8)]);
            assert(decreases_to!(*t => t.dirs));
            assert(decreases_to!(t.dirs => t.dirs@));
            assert(decreases_to!(t.dirs@ => t.dirs@[i as int]));
            assert(decreases_to!(t.dirs@[i as int] => t.dirs@[i as int].tree));
        }
        scan_into(&sub.tree, &child_prefix, out);
        proof {
            assert(t.dirs@.take(i + 1).drop_last() =~= t.dirs@.take(i as int));
            assert(t.dirs@.take(i + 1).last() == t.dirs@[i as int]);
        }
        i = i + 1;
    }
    proof {
        assert(t.dirs@.take(t.dirs@.len() as int) =~= t.dirs@);
    }
}

/// The last three bytes of `name`.
fn take_bytes_suffix(name: &Vec<u8>) -> (r: Vec<u8>)
    requires
        name@.len() >= 3,
    ensures
        r@ == name@.skip(name@.len() - 3),
{
    let mut v: Vec<u8> = Vec::new();
    v.push(name[name.len() - 3]);
    v.push(name[name.len() - 2]);
    v.push(name[name.len() - 1]);
    proof {
        assert(v@ =~= name@.skip(name@.len() - 3));
    }
    v
}

/// Whether the three bytes are the source extension.
fn is_src_ext(ext: &Vec<u8>) -> (r: bool)
    requires
        ext@.len() == 3,
    ensures
        r == (ext@ == src_ext()),
{
    let r = ext[0] == ('.' as u8) && ext[1] == ('p' as u8) && ext[2] == ('y' as u8);
    proof {
        if r {
            assert(ext@ =~= src_ext());
        }
    }
    r
}

/// Discovers all modules of the source tree rooted at `root`.
pub fn find_modules(root: &DirTree) -> (r: Vec<SrcModule>)
    ensures
        module_names(r@) == scan_tree(*root, Seq::empty()),
{
    let mut out: Vec<SrcModule> = Vec::new();
    let prefix: Vec<u8> = Vec::new();
    scan_into(root, &prefix, &mut out);
    proof {
        assert(module_names(out@) =~= scan_tree(*root, Seq::empty()));
    }
    out
}

/// The module name without a trailing package-marker stem.
pub open spec fn strip_marker(name: Seq<u8>) -> Seq<u8> {
    if bytes_end_with(name, marker_stem()) {
        name.take(name.len() - 8)
    } else {
        name
    }
}

/// Path separators replaced by dots.
pub open spec fn dots_for_seps(s: Seq<u8>) -> Seq<u8> {
    s.map_values(|b: u8| if b == ('/' as u8) { ('.' as u8) } else { b })
}

/// The dotted name a module is imported under: the package name, a dot,
/// the module's path with separators turned to dots and a trailing
/// package-marker stem dropped; a trailing dot (the package's own marker)
/// is dropped too.
pub open spec fn python_name_spec(pkg: Seq<u8>, name: Seq<u8>) -> Seq<u8> {
    let joined = dots_for_seps(pkg + seq![('.' as u8)] + strip_marker(name));
    if joined.len() > 0 && joined.last() == ('.' as u8) {
        joined.drop_last()
    } else {
        joined
    }
}

/// The flag byte of a module entry: bit 0 set for every module, bit 1 set
/// when the module is a package's own marker file.
pub open spec fn flags_spec(name: Seq<u8>) -> u8 {
    if bytes_end_with(name, marker_stem()) {
        0b11u8
    } else {
        0b01u8
    }
}

impl SrcModule {
    /// Derives the dotted name this module is imported under, inside the
    /// package `package_name`.
    #[verifier::loop_isolation(false)]
    pub fn python_name(&self, package_name: &Vec<u8>) -> (r: Vec<u8>)
        ensures
            r@ == python_name_spec(package_name@, self.name@),
    {
        let stem = marker_stem_bytes();
        let stripped: Vec<u8> = if ends_with_bytes(&self.name, &stem) {
            take_bytes(&self.name, self.name.len() - 8)
        } else {
            take_bytes(&self.name, self.name.len())
        };
        proof {
            assert(self.name@.take(self.name@.len() as int) =~= self.name@);
            assert(stripped@ == strip_marker(self.name@));
        }
        let mut joined: Vec<u8> = Vec::new();
        push_bytes(&mut joined, package_name);
        joined.push(('.' as u8));
        push_bytes(&mut joined, &stripped);
        let ghost raw = package_name@ + seq![('.' as u8)] + stripped@;
        proof {
            assert(joined@ =~= raw);
        }
        let mut dotted: Vec<u8> = Vec::new();
        let mut i: usize = 0;
        while i < joined.len()
            invariant
                0 <= i <= joined@.len(),
                dotted@ == dots_for_seps(joined@.take(i as int)),
            decreases joined@.len() - i,
        {
            let b = joined[i];
            if b == ('/' as u8) {
                dotted.push(('.' as u8));
            } else {
                dotted.push(b);
            }
            proof {
                assert(dots_for_seps(joined@.take(i + 1)) =~= dots_for_seps(
                    joined@.take(i as int),
                ).push(
                    if joined@[i as int] == ('/' as u8) {
                        ('.' as u8)
                    } else {
                        joined@[i as int]
                    },
                ));
            }
            i = i + 1;
        }
        proof {
            assert(joined@.take(joined@.len() as int) =~= joined@);
        }
        if dotted.len() > 0 && dotted[dotted.len() - 1] == ('.' as u8) {
            dotted.pop();
            proof {
                assert(dotted@ =~= dots_for_seps(raw).drop_last());
            }
        }
        dotted
    }

    /// The flag byte of this module's table entry.
    pub fn module_flags(&self) -> (r: u8)
        ensures
            r == flags_spec(self.name@),
    {
        let stem = marker_stem_bytes();
        if ends_with_bytes(&self.name, &stem) {
            0b11u8
        } else {
            0b01u8
        }
    }

    /// The module's source path relative to the source root.
    pub fn rel_src_path(&self) -> (r: Vec<u8>)
        ensures
            r@ == self.name@ + src_ext(),
    {
        let mut v: Vec<u8> = Vec::new();
        push_bytes(&mut v, &self.name);
        v.push(('.' as u8));
        v.push(('p' as u8));
        v.push(('y' as u8));
        proof {
            assert(v@ =~= self.name@ + src_ext());
        }
        v
    }

    /// The module's artifact path relative to the build root.
    pub fn rel_artifact_path(&self) -> (r: Vec<u8>)
        ensures
            r@ == self.name@ + artifact_ext(),
    {
        let mut v: Vec<u8> = Vec::new();
        push_bytes(&mut v, &self.name);
        v.push(('.' as u8));
        v.push(('m' as u8));
        v.push(('p' as u8));
        v.push(('y' as u8));
        proof {
            assert(v@ =~= self.name@ + artifact_ext());
        }
        v
    }
}

} // verus!
