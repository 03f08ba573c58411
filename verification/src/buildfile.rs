use vstd::prelude::*;

use crate::compose::{flag_string, join_spaces, seq_views, spec_flag_string, spec_join_spaces};
use crate::error::BuildError;
use crate::project::ProjectDesc;
use crate::target::Target;

verus! {

/// A declared binary build product. Its output path is its name. The
/// sources attributed to it decide, when several binaries are declared,
/// which objects its link line may include; a shared source may be
/// attributed to several binaries.
pub struct Binary {
    pub name: String,
    pub sources: Vec<String>,
}

impl Binary {
    pub fn name(&self) -> (r: &String)
        ensures
            r@ == self.name@,
    {
        &self.name
    }

    /// The output path of a binary is its name.
    pub fn path(&self) -> (r: String)
        ensures
            r@ == self.name@,
    {
        self.name.clone()
    }
}

/// A declared library build product; it may request a static artifact,
/// a dynamic artifact, or both, each built independently from the same
/// object list.
pub struct Library {
    pub name: String,
    pub wants_static: bool,
    pub wants_dynamic: bool,
}

/// The platform-convention file name of a static library: `lib<name>.a`.
pub open spec fn spec_static_name(name: Seq<char>) -> Seq<char> {
    seq!['l', 'i', 'b'] + name + seq!['.', 'a']
}

/// The platform-convention file name of a dynamic library: `lib<name>.so`.
pub open spec fn spec_dynamic_name(name: Seq<char>) -> Seq<char> {
    seq!['l', 'i', 'b'] + name + seq!['.', 's', 'o']
}

impl Library {
    pub fn name(&self) -> (r: &String)
        ensures
            r@ == self.name@,
    {
        &self.name
    }

    pub fn is_static(&self) -> (r: bool)
        ensures
            r == self.wants_static,
    {
        self.wants_static
    }

    pub fn is_dynamic(&self) -> (r: bool)
        ensures
            r == self.wants_dynamic,
    {
        self.wants_dynamic
    }

    pub fn static_file_name(&self) -> (r: String)
        ensures
            r@ == spec_static_name(self.name@),
    {
        let mut r = String::from_str("lib");
        r.append(self.name.as_str());
        r.append(".a");
        proof {
            reveal_strlit("lib");
            reveal_strlit(".a");
            assert("lib"@ =~= seq!['l', 'i', 'b']);
            assert(".a"@ =~= seq!['.', 'a']);
        }
        r
    }

    pub fn dynamic_file_name(&self) -> (r: String)
        ensures
            r@ == spec_dynamic_name(self.name@),
    {
        let mut r = String::from_str("lib");
        r.append(self.name.as_str());
        r.append(".so");
        proof {
            reveal_strlit("lib");
            reveal_strlit(".so");
            assert("lib"@ =~= seq!['l', 'i', 'b']);
            assert(".so"@ =~= seq!['.', 's', 'o']);
        }
        r
    }
}

/// Whether `t`'s source is attributed to binary `b`.
pub open spec fn spec_owns(b: Binary, t: Target) -> bool {
    exists|i: int| 0 <= i < b.sources@.len() && b.sources@[i]@ == t.source@
}

/// Whether the link line of binary `idx` includes `t`'s object: it does
/// unless the object is attributable solely to other declared binaries.
/// With a single declared binary this always holds, so the full object
/// list is used.
pub open spec fn spec_links_object(binaries: Seq<Binary>, idx: int, t: Target) -> bool {
    spec_owns(binaries[idx], t) || (forall|j: int|
        0 <= j < binaries.len() ==> !spec_owns(binaries[j], t))
}

/// The object paths that the link line of binary `idx` includes, in map
/// order.
pub open spec fn spec_binary_objects(targets: Seq<Target>, binaries: Seq<Binary>, idx: int) -> Seq<
    Seq<char>,
>
    decreases targets.len(),
{
    if targets.len() == 0 {
        Seq::empty()
    } else {
        let rest = spec_binary_objects(targets.drop_last(), binaries, idx);
        if spec_links_object(binaries, idx, targets.last()) {
            rest.push(targets.last().object@)
        } else {
            rest
        }
    }
}

/// Exactly the objects whose targets the binary links are in its object
/// list: every object of a target attributed to the binary or to no
/// binary at all, and no object attributable solely to the other
/// declared binaries.
pub proof fn lemma_binary_objects_membership(
    targets: Seq<Target>,
    binaries: Seq<Binary>,
    idx: int,
)
    ensures
        forall|o: Seq<char>|
            spec_binary_objects(targets, binaries, idx).contains(o) <==> exists|i: int|
                0 <= i < targets.len() && targets[i].object@ == o && spec_links_object(
                    binaries,
                    idx,
                    targets[i],
                ),
    decreases targets.len(),
{
    if targets.len() > 0 {
        lemma_binary_objects_membership(targets.drop_last(), binaries, idx);
        let objs = spec_binary_objects(targets, binaries, idx);
        let rest = spec_binary_objects(targets.drop_last(), binaries, idx);
        assert forall|o: Seq<char>| objs.contains(o) implies exists|i: int|
            0 <= i < targets.len() && targets[i].object@ == o && spec_links_object(
                binaries,
                idx,
                targets[i],
            ) by {
            if rest.contains(o) {
                let i = choose|i: int|
                    0 <= i < targets.drop_last().len() && targets.drop_last()[i].object@ == o
                        && spec_links_object(binaries, idx, targets.drop_last()[i]);
                assert(targets[i].object@ == o && spec_links_object(binaries, idx, targets[i]));
            } else {
                assert(targets[targets.len() - 1].object@ == o && spec_links_object(
                    binaries,
                    idx,
                    targets[targets.len() - 1],
                ));
            }
        }
        assert forall|o: Seq<char>|
            exists|i: int|
                0 <= i < targets.len() && targets[i].object@ == o && spec_links_object(
                    binaries,
                    idx,
                    targets[i],
                ) implies objs.contains(o) by {
            let i = choose|i: int|
                0 <= i < targets.len() && targets[i].object@ == o && spec_links_object(
                    binaries,
                    idx,
                    targets[i],
                );
            if i < targets.len() - 1 {
                assert(targets.drop_last()[i].object@ == o && spec_links_object(
                    binaries,
                    idx,
                    targets.drop_last()[i],
                ));
                assert(rest.contains(o));
                if spec_links_object(binaries, idx, targets.last()) {
                    let j = choose|j: int| 0 <= j < rest.len() && rest[j] == o;
                    assert(objs[j] == o);
                } else {
                    assert(objs == rest);
                }
            } else {
                assert(objs.last() == o);
            }
        }
    }
}

/// Every tracked object path, in map order.
pub open spec fn spec_all_objects(targets: Seq<Target>) -> Seq<Seq<char>> {
    targets.map_values(|t: Target| t.object@)
}

pub fn binary_owns(b: &Binary, t: &Target) -> (r: bool)
    ensures
        r == spec_owns(*b, *t),
{
    let mut i: usize = 0;
    while i < b.sources.len()
        invariant
            i <= b.sources@.len(),
            forall|k: int| 0 <= k < i ==> b.sources@[k]@ != t.source@,
        decreases b.sources@.len() - i,
    {
        if b.sources[i] == t.source {
            proof {
                assert(b.sources@[i as int]@ == t.source@);
            }
            return true;
        }
        i = i + 1;
    }
    false
}

pub fn links_object(binaries: &Vec<Binary>, index: usize, t: &Target) -> (r: bool)
    requires
        index < binaries@.len(),
    ensures
        r == spec_links_object(binaries@, index as int, *t),
{
    if binary_owns(&binaries[index], t) {
        return true;
    }
    let mut j: usize = 0;
    while j < binaries.len()
        invariant
            j <= binaries@.len(),
            index < binaries@.len(),
            !spec_owns(binaries@[index as int], *t),
            forall|k: int| 0 <= k < j ==> !spec_owns(binaries@[k], *t),
        decreases binaries@.len() - j,
    {
        if binary_owns(&binaries[j], t) {
            return false;
        }
        j = j + 1;
    }
    true
}

/// The kind carried by a target-not-found error for a binary.
pub open spec fn spec_kind_binary() -> Seq<char> {
    seq!['b', 'i', 'n', 'a', 'r', 'y']
}

/// The kind carried by a target-not-found error for a library.
pub open spec fn spec_kind_library() -> Seq<char> {
    seq!['l', 'i', 'b', 'r', 'a', 'r', 'y']
}

/// The declared binary output paths, in declaration order.
pub open spec fn spec_binary_paths(binaries: Seq<Binary>) -> Seq<Seq<char>> {
    binaries.map_values(|b: Binary| b.name@)
}

/// The declared library artifact paths, in declaration order: for each
/// library its dynamic file name, then its static file name.
pub open spec fn spec_library_artifacts(libraries: Seq<Library>) -> Seq<Seq<char>>
    decreases libraries.len(),
{
    if libraries.len() == 0 {
        Seq::empty()
    } else {
        spec_library_artifacts(libraries.drop_last()) + seq![
            spec_dynamic_name(libraries.last().name@),
            spec_static_name(libraries.last().name@),
        ]
    }
}

/// Everything a clean pass considers for removal, in order.
pub open spec fn spec_clean_candidates(bf: BuildFile) -> Seq<Seq<char>> {
    spec_all_objects(bf.project.file_mod_map.targets_seq()) + spec_binary_paths(bf.binaries@)
        + spec_library_artifacts(bf.libraries@)
}

/// The candidates that are actually removed: those present on disk.
/// Absent candidates are skipped silently, never reported as errors.
pub open spec fn spec_clean_plan(cands: Seq<Seq<char>>, present: Seq<bool>) -> Seq<Seq<char>>
    decreases cands.len(),
{
    if cands.len() == 0 {
        Seq::empty()
    } else {
        let rest = spec_clean_plan(cands.drop_last(), present.drop_last());
        if present.len() > 0 && present.last() {
            rest.push(cands.last())
        } else {
            rest
        }
    }
}

/// Filters the clean candidates down to the paths that are present on
/// disk: exactly these are removed, in candidate order. A candidate
/// that is absent is skipped and is not an error.
pub fn clean_plan(candidates: &Vec<String>, present: &Vec<bool>) -> (r: Vec<String>)
    requires
        candidates@.len() == present@.len(),
    ensures
        seq_views(r@) == spec_clean_plan(seq_views(candidates@), present@),
{
    let mut r: Vec<String> = Vec::new();
    let mut i: usize = 0;
    proof {
        assert(seq_views(r@) =~= spec_clean_plan(
            seq_views(candidates@).take(0),
            present@.take(0),
        ));
    }
    while i < candidates.len()
        invariant
            i <= candidates@.len(),
            candidates@.len() == present@.len(),
            seq_views(r@) == spec_clean_plan(
                seq_views(candidates@).take(i as int),
                present@.take(i as int),
            ),
        decreases candidates@.len() - i,
    {
        if present[i] {
            r.push(candidates[i].clone());
        }
        proof {
            assert(seq_views(candidates@).take(i + 1).drop_last() =~= seq_views(
                candidates@,
            ).take(i as int));
            assert(present@.take(i + 1).drop_last() =~= present@.take(i as int));
            assert(seq_views(r@) =~= spec_clean_plan(
                seq_views(candidates@).take(i + 1),
                present@.take(i + 1),
            ));
        }
        i = i + 1;
    }
    proof {
        assert(seq_views(candidates@).take(candidates@.len() as int) =~= seq_views(candidates@));
        assert(present@.take(present@.len() as int) =~= present@);
    }
    r
}

/// Clean is idempotent: once nothing it would remove is left on disk, a
/// second clean pass removes nothing, and since absent files are never
/// errors it reports none.
pub proof fn lemma_clean_idempotent(cands: Seq<Seq<char>>, present: Seq<bool>)
    requires
        present.len() == cands.len(),
        forall|i: int| 0 <= i < present.len() ==> !present[i],
    ensures
        spec_clean_plan(cands, present).len() == 0,
    decreases cands.len(),
{
    if cands.len() > 0 {
        lemma_clean_idempotent(cands.drop_last(), present.drop_last());
    }
}

/// The parsed project description: global settings with the source map,
/// plus the declared build products.
pub struct BuildFile {
    pub project: ProjectDesc,
    pub binaries: Vec<Binary>,
    pub libraries: Vec<Library>,
}

/// The link invocation for binary `idx`:
/// `CC LFLAGS -o BIN OBJ_LIST LIB_DIR LIBS`, with linker flags behind
/// `-`, library search paths behind `-L` and explicit libraries behind
/// `-l`.
pub open spec fn spec_link_command(bf: BuildFile, idx: int) -> Seq<char> {
    crate::project::spec_cc(bf.project) + seq![' '] + spec_flag_string(
        seq_views(bf.project.lflags@),
        seq!['-'],
    ) + seq![' ', '-', 'o', ' '] + bf.binaries@[idx].name@ + seq![' '] + spec_join_spaces(
        spec_binary_objects(bf.project.file_mod_map.targets_seq(), bf.binaries@, idx),
    ) + seq![' '] + spec_flag_string(seq_views(bf.project.lib_dir@), seq!['-', 'L']) + seq![' ']
        + crate::project::spec_libs_string(bf.project)
}

/// The archive invocation for a static library:
/// `AR ARFLAGS LIB OBJ_LIST` over the full object list.
pub open spec fn spec_archive_command(bf: BuildFile, lib: Library) -> Seq<char> {
    crate::project::spec_ar(bf.project) + seq![' '] + crate::project::spec_arflags(bf.project)
        + seq![' '] + spec_static_name(lib.name@) + seq![' '] + spec_join_spaces(
        spec_all_objects(bf.project.file_mod_map.targets_seq()),
    )
}

/// The link invocation for a dynamic library:
/// `CC -shared -o LIB OBJ_LIST LIBS` over the full object list.
pub open spec fn spec_dynamic_command(bf: BuildFile, lib: Library) -> Seq<char> {
    crate::project::spec_cc(bf.project) + seq![' ', '-', 's', 'h', 'a', 'r', 'e', 'd', ' ', '-', 'o', ' ']
        + spec_dynamic_name(lib.name@) + seq![' '] + spec_join_spaces(
        spec_all_objects(bf.project.file_mod_map.targets_seq()),
    ) + seq![' '] + crate::project::spec_libs_string(bf.project)
}

/// The link/archive invocations that one library's requests produce:
/// the archive line when a static artifact is requested, then the
/// shared-object line when a dynamic artifact is requested.
pub open spec fn spec_library_commands(bf: BuildFile, lib: Library) -> Seq<Seq<char>> {
    let stat = if lib.wants_static {
        seq![spec_archive_command(bf, lib)]
    } else {
        Seq::empty()
    };
    let dynam = if lib.wants_dynamic {
        seq![spec_dynamic_command(bf, lib)]
    } else {
        Seq::empty()
    };
    stat + dynam
}

impl BuildFile {
    /// Joined object list for the link line of binary `index`, excluding
    /// objects attributable solely to the other declared binaries.
    pub fn object_list_for_binary(&self, index: usize) -> (r: String)
        requires
            index < self.binaries@.len(),
        ensures
            r@ == spec_join_spaces(
                spec_binary_objects(
                    self.project.file_mod_map.targets_seq(),
                    self.binaries@,
                    index as int,
                ),
            ),
    {
        let ghost targets = self.project.file_mod_map.targets_seq();
        let mut objs: Vec<String> = Vec::new();
        let mut i: usize = 0;
        proof {
            assert(targets.take(0) =~= Seq::<Target>::empty());
            assert(seq_views(objs@) =~= spec_binary_objects(
                targets.take(0),
                self.binaries@,
                index as int,
            ));
        }
        while i < self.project.file_mod_map.entries.len()
            invariant
                targets == self.project.file_mod_map.targets_seq(),
                i <= targets.len(),
                index < self.binaries@.len(),
                targets.len() == self.project.file_mod_map.entries@.len(),
                seq_views(objs@) == spec_binary_objects(
                    targets.take(i as int),
                    self.binaries@,
                    index as int,
                ),
            decreases targets.len() - i,
        {
            let t = &self.project.file_mod_map.entries[i].target;
            proof {
                assert(targets.take(i + 1).drop_last() =~= targets.take(i as int));
                assert(targets.take(i + 1).last() == targets[i as int]);
                assert(targets[i as int] == *t);
            }
            if links_object(&self.binaries, index, t) {
                objs.push(t.object.clone());
                proof {
                    assert(seq_views(objs@) =~= spec_binary_objects(
                        targets.take(i + 1),
                        self.binaries@,
                        index as int,
                    ));
                }
            } else {
                proof {
                    assert(seq_views(objs@) =~= spec_binary_objects(
                        targets.take(i + 1),
                        self.binaries@,
                        index as int,
                    ));
                }
            }
            i = i + 1;
        }
        proof {
            assert(targets.take(targets.len() as int) =~= targets);
        }
        join_spaces(&objs)
    }

    /// Joined full object list, as used by library builds.
    pub fn full_object_list(&self) -> (r: String)
        ensures
            r@ == spec_join_spaces(spec_all_objects(self.project.file_mod_map.targets_seq())),
    {
        let ghost targets = self.project.file_mod_map.targets_seq();
        let mut objs: Vec<String> = Vec::new();
        let mut i: usize = 0;
        while i < self.project.file_mod_map.entries.len()
            invariant
                targets == self.project.file_mod_map.targets_seq(),
                i <= targets.len(),
                targets.len() == self.project.file_mod_map.entries@.len(),
                objs@.len() == i,
                forall|k: int| 0 <= k < i ==> objs@[k]@ == targets[k].object@,
            decreases targets.len() - i,
        {
            objs.push(self.project.file_mod_map.entries[i].target.object.clone());
            i = i + 1;
        }
        proof {
            assert(seq_views(objs@) =~= spec_all_objects(targets));
        }
        join_spaces(&objs)
    }

    /// Builds the link invocation for binary `index`.
    pub fn link_binary_command(&self, index: usize) -> (r: String)
        requires
            index < self.binaries@.len(),
        ensures
            r@ == spec_link_command(*self, index as int),
    {
        let mut r = self.project.compiler_or_default();
        r.append(" ");
        let lf = flag_string(&self.project.lflags, "-");
        r.append(lf.as_str());
        r.append(" -o ");
        r.append(self.binaries[index].name.as_str());
        r.append(" ");
        let objs = self.object_list_for_binary(index);
        r.append(objs.as_str());
        r.append(" ");
        let ld = flag_string(&self.project.lib_dir, "-L");
        r.append(ld.as_str());
        r.append(" ");
        let libs = self.project.libs_as_string();
        r.append(libs.as_str());
        proof {
            reveal_strlit(" ");
            reveal_strlit(" -o ");
            reveal_strlit("-");
            reveal_strlit("-L");
            assert(" "@ =~= seq![' ']);
            assert(" -o "@ =~= seq![' ', '-', 'o', ' ']);
            assert("-"@ =~= seq!['-']);
            assert("-L"@ =~= seq!['-', 'L']);
        }
        r
    }

    /// Builds the archive invocation for a static library artifact.
    pub fn archive_command(&self, lib: &Library) -> (r: String)
        ensures
            r@ == spec_archive_command(*self, *lib),
    {
        let mut r = self.project.ar_or_default();
        r.append(" ");
        let af = self.project.arflags_or_default();
        r.append(af.as_str());
        r.append(" ");
        let name = lib.static_file_name();
        r.append(name.as_str());
        r.append(" ");
        let objs = self.full_object_list();
        r.append(objs.as_str());
        proof {
            reveal_strlit(" ");
            assert(" "@ =~= seq![' ']);
        }
        r
    }

    /// Builds the shared-object link invocation for a dynamic library
    /// artifact.
    pub fn dynamic_command(&self, lib: &Library) -> (r: String)
        ensures
            r@ == spec_dynamic_command(*self, *lib),
    {
        let mut r = self.project.compiler_or_default();
        r.append(" -shared -o ");
        let name = lib.dynamic_file_name();
        r.append(name.as_str());
        r.append(" ");
        let objs = self.full_object_list();
        r.append(objs.as_str());
        r.append(" ");
        let libs = self.project.libs_as_string();
        r.append(libs.as_str());
        proof {
            reveal_strlit(" -shared -o ");
            reveal_strlit(" ");
            assert(" -shared -o "@ =~= seq![' ', '-', 's', 'h', 'a', 'r', 'e', 'd', ' ', '-', 'o', ' ']);
            assert(" "@ =~= seq![' ']);
        }
        r
    }

    /// The invocations that one library's artifact requests produce, in
    /// order: the archive line if a static artifact is requested, then
    /// the shared-object line if a dynamic one is. A form that is not
    /// requested issues no invocation.
    pub fn library_commands(&self, lib: &Library) -> (r: Vec<String>)
        ensures
            seq_views(r@) == spec_library_commands(*self, *lib),
    {
        let mut r: Vec<String> = Vec::new();
        if lib.is_static() {
            r.push(self.archive_command(lib));
        }
        if lib.is_dynamic() {
            r.push(self.dynamic_command(lib));
        }
        proof {
            assert(seq_views(r@) =~= spec_library_commands(*self, *lib));
        }
        r
    }

    /// Every path that a clean pass considers for removal, in order:
    /// each tracked object file, each declared binary artifact, and for
    /// each declared library its dynamic then its static artifact.
    pub fn clean_candidates(&self) -> (r: Vec<String>)
        ensures
            seq_views(r@) == spec_clean_candidates(*self),
    {
        let ghost targets = self.project.file_mod_map.targets_seq();
        let mut r: Vec<String> = Vec::new();
        let mut i: usize = 0;
        while i < self.project.file_mod_map.entries.len()
            invariant
                targets == self.project.file_mod_map.targets_seq(),
                i <= targets.len(),
                targets.len() == self.project.file_mod_map.entries@.len(),
                r@.len() == i,
                forall|k: int| 0 <= k < i ==> r@[k]@ == targets[k].object@,
            decreases targets.len() - i,
        {
            r.push(self.project.file_mod_map.entries[i].target.object.clone());
            i = i + 1;
        }
        proof {
            assert(seq_views(r@) =~= spec_all_objects(targets));
        }
        let mut j: usize = 0;
        while j < self.binaries.len()
            invariant
                targets == self.project.file_mod_map.targets_seq(),
                j <= self.binaries@.len(),
                seq_views(r@) == spec_all_objects(targets) + spec_binary_paths(
                    self.binaries@.take(j as int),
                ),
            decreases self.binaries@.len() - j,
        {
            let ghost before = seq_views(r@);
            let ghost nm = self.binaries@[j as int].name@;
            r.push(self.binaries[j].name.clone());
            proof {
                assert(seq_views(r@) =~= before.push(nm));
                assert(spec_binary_paths(self.binaries@.take(j + 1)) =~= spec_binary_paths(
                    self.binaries@.take(j as int),
                ).push(nm));
                assert((spec_all_objects(targets) + spec_binary_paths(
                    self.binaries@.take(j as int),
                )).push(nm) =~= spec_all_objects(targets) + spec_binary_paths(
                    self.binaries@.take(j + 1),
                ));
            }
            j = j + 1;
        }
        proof {
            assert(self.binaries@.take(self.binaries@.len() as int) =~= self.binaries@);
        }
        let ghost head = spec_all_objects(targets) + spec_binary_paths(self.binaries@);
        let mut k: usize = 0;
        proof {
            assert(seq_views(r@) =~= head + spec_library_artifacts(self.libraries@.take(0)));
        }
        while k < self.libraries.len()
            invariant
                k <= self.libraries@.len(),
                seq_views(r@) == head + spec_library_artifacts(self.libraries@.take(k as int)),
            decreases self.libraries@.len() - k,
        {
            let ghost before = seq_views(r@);
            let ghost dyn_nm = spec_dynamic_name(self.libraries@[k as int].name@);
            let ghost stat_nm = spec_static_name(self.libraries@[k as int].name@);
            r.push(self.libraries[k].dynamic_file_name());
            r.push(self.libraries[k].static_file_name());
            proof {
                assert(self.libraries@.take(k + 1).drop_last() =~= self.libraries@.take(k as int));
                assert(seq_views(r@) =~= before.push(dyn_nm).push(stat_nm));
                assert(spec_library_artifacts(self.libraries@.take(k + 1))
                    =~= spec_library_artifacts(self.libraries@.take(k as int)) + seq![
                    dyn_nm,
                    stat_nm,
                ]);
                assert((head + spec_library_artifacts(self.libraries@.take(k as int))).push(
                    dyn_nm,
                ).push(stat_nm) =~= head + spec_library_artifacts(self.libraries@.take(k + 1)));
            }
            k = k + 1;
        }
        proof {
            assert(self.libraries@.take(self.libraries@.len() as int) =~= self.libraries@);
        }
        r
    }

    /// Finds the declared binary with the given name; a miss is a
    /// target-not-found error carrying the kind `binary` and the name.
    pub fn find_binary_index(&self, name: &str) -> (r: Result<usize, BuildError>)
        ensures
            (r is Ok ==> r->Ok_0 < self.binaries@.len() && self.binaries@[r->Ok_0 as int].name@
                == name@),
            (r is Err ==> (forall|k: int|
                0 <= k < self.binaries@.len() ==> self.binaries@[k].name@ != name@)),
            (r is Err ==> (r->Err_0 matches BuildError::TargetNotFound { kind, name: n } && kind@
                == spec_kind_binary() && n@ == name@)),
    {
        let name_s = String::from_str(name);
        let mut i: usize = 0;
        while i < self.binaries.len()
            invariant
                i <= self.binaries@.len(),
                name_s@ == name@,
                forall|k: int| 0 <= k < i ==> self.binaries@[k].name@ != name@,
            decreases self.binaries@.len() - i,
        {
            if self.binaries[i].name == name_s {
                return Ok(i);
            }
            i = i + 1;
        }
        let kind = String::from_str("binary");
        proof {
            reveal_strlit("binary");
            assert(kind@ =~= spec_kind_binary());
        }
        Err(BuildError::TargetNotFound { kind, name: name_s })
    }

    /// Finds the declared library with the given name; a miss is a
    /// target-not-found error carrying the kind `library` and the name.
    pub fn find_library_index(&self, name: &str) -> (r: Result<usize, BuildError>)
        ensures
            (r is Ok ==> r->Ok_0 < self.libraries@.len() && self.libraries@[r->Ok_0 as int].name@
                == name@),
            (r is Err ==> (forall|k: int|
                0 <= k < self.libraries@.len() ==> self.libraries@[k].name@ != name@)),
            (r is Err ==> (r->Err_0 matches BuildError::TargetNotFound { kind, name: n } && kind@
                == spec_kind_library() && n@ == name@)),
    {
        let name_s = String::from_str(name);
        let mut i: usize = 0;
        while i < self.libraries.len()
            invariant
                i <= self.libraries@.len(),
                name_s@ == name@,
                forall|k: int| 0 <= k < i ==> self.libraries@[k].name@ != name@,
            decreases self.libraries@.len() - i,
        {
            if self.libraries[i].name == name_s {
                return Ok(i);
            }
            i = i + 1;
        }
        let kind = String::from_str("library");
        proof {
            reveal_strlit("library");
            assert(kind@ =~= spec_kind_library());
        }
        Err(BuildError::TargetNotFound { kind, name: name_s })
    }
}

} // verus!
