use vstd::prelude::*;

use crate::compose::{flag_string, seq_views, spec_flag_string};
use crate::staleness::{unique_sources, TargetState};
use crate::target::Target;

verus! {

/// One row of the source-to-timestamp map.
pub struct ModEntry {
    pub target: Target,
    pub mtime: u64,
}

/// The source-to-timestamp map: one entry per discovered source file,
/// built once at parse time and read-only afterward. No two entries
/// track the same source path.
pub struct ModMap {
    pub entries: Vec<ModEntry>,
}

/// First index whose entry tracks `src`, or `-1` when none does.
pub open spec fn spec_find_source(entries: Seq<ModEntry>, src: Seq<char>) -> int
    decreases entries.len(),
{
    if entries.len() == 0 {
        -1
    } else if entries[0].target.source@ == src {
        0
    } else {
        let r = spec_find_source(entries.drop_first(), src);
        if r == -1 {
            -1
        } else {
            r + 1
        }
    }
}

pub proof fn lemma_find_source(entries: Seq<ModEntry>, src: Seq<char>)
    ensures
        spec_find_source(entries, src) == -1 ==> forall|k: int|
            0 <= k < entries.len() ==> entries[k].target.source@ != src,
        spec_find_source(entries, src) != -1 ==> 0 <= spec_find_source(entries, src)
            < entries.len() && entries[spec_find_source(entries, src)].target.source@ == src,
    decreases entries.len(),
{
    if entries.len() > 0 {
        lemma_find_source(entries.drop_first(), src);
        if entries[0].target.source@ != src {
            let r = spec_find_source(entries.drop_first(), src);
            if r == -1 {
                assert forall|k: int| 0 <= k < entries.len() implies entries[k].target.source@
                    != src by {
                    if k > 0 {
                        assert(entries.drop_first()[k - 1] == entries[k]);
                    }
                }
            } else {
                assert(entries.drop_first()[r] == entries[r + 1]);
            }
        }
    }
}

impl ModMap {
    /// No two entries track the same source file.
    pub open spec fn wf(self) -> bool {
        forall|i: int, j: int|
            0 <= i < j < self.entries@.len() ==> self.entries@[i].target.source@
                != self.entries@[j].target.source@
    }

    /// The tracked targets, in map order.
    pub open spec fn targets_seq(self) -> Seq<Target> {
        self.entries@.map_values(|e: ModEntry| e.target)
    }

    pub fn new() -> (m: ModMap)
        ensures
            m.wf(),
            m.entries@.len() == 0,
    {
        ModMap { entries: Vec::new() }
    }

    pub fn len(&self) -> (n: usize)
        ensures
            n == self.entries@.len(),
    {
        self.entries.len()
    }

    /// Records the last-modified time of one source file. A source
    /// already tracked keeps its target and gets the new time; a new
    /// source is appended.
    pub fn insert(&mut self, target: Target, mtime: u64)
        requires
            old(self).wf(),
        ensures
            final(self).wf(),
            spec_find_source(old(self).entries@, target.source@) >= 0 ==> final(self).entries@
                == old(self).entries@.update(
                spec_find_source(old(self).entries@, target.source@),
                (ModEntry {
                    target: old(self).entries@[spec_find_source(
                        old(self).entries@,
                        target.source@,
                    )].target,
                    mtime,
                }),
            ),
            spec_find_source(old(self).entries@, target.source@) == -1 ==> final(self).entries@
                == old(self).entries@.push((ModEntry { target, mtime })),
    {
        proof {
            lemma_find_source(self.entries@, target.source@);
        }
        let ghost orig = self.entries@;
        let mut i: usize = 0;
        while i < self.entries.len()
            invariant
                self.entries@ == orig,
                orig == old(self).entries@,
                old(self).wf(),
                i <= orig.len(),
                forall|k: int| 0 <= k < i ==> orig[k].target.source@ != target.source@,
            decreases orig.len() - i,
        {
            if self.entries[i].target.source == target.source {
                proof {
                    lemma_find_source_prefix(orig, target.source@, i as int);
                }
                let kept = self.entries[i].target.clone();
                self.entries.set(i, ModEntry { target: kept, mtime });
                proof {
                    assert(orig == old(self).entries@);
                    assert forall|a: int, b: int|
                        0 <= a < b < self.entries@.len() implies self.entries@[a].target.source@
                        != self.entries@[b].target.source@ by {
                        let pre = old(self).entries@;
                        assert(pre[a].target.source@ != pre[b].target.source@);
                    }
                }
                return ;
            }
            i = i + 1;
        }
        proof {
            lemma_find_source_prefix(orig, target.source@, orig.len() as int);
        }
        self.entries.push(ModEntry { target, mtime });
        proof {
            assert forall|a: int, b: int|
                0 <= a < b < self.entries@.len() implies self.entries@[a].target.source@
                != self.entries@[b].target.source@ by {
                if b < orig.len() {
                    assert(orig[a].target.source@ != orig[b].target.source@);
                }
            }
        }
    }

    /// Pairs every entry with the given object-file existence flags,
    /// producing the snapshot that staleness detection reads.
    pub fn states(&self, object_exists: &Vec<bool>) -> (r: Vec<TargetState>)
        requires
            object_exists@.len() == self.entries@.len(),
        ensures
            r@.len() == self.entries@.len(),
            forall|i: int|
                0 <= i < r@.len() ==> r@[i] == (TargetState {
                    target: self.entries@[i].target,
                    source_mtime: self.entries@[i].mtime,
                    object_exists: object_exists@[i],
                }),
            self.wf() ==> unique_sources(r@),
    {
        let mut r: Vec<TargetState> = Vec::new();
        let mut i: usize = 0;
        while i < self.entries.len()
            invariant
                i <= self.entries@.len(),
                object_exists@.len() == self.entries@.len(),
                r@.len() == i,
                forall|k: int|
                    0 <= k < i ==> r@[k] == (TargetState {
                        target: self.entries@[k].target,
                        source_mtime: self.entries@[k].mtime,
                        object_exists: object_exists@[k],
                    }),
            decreases self.entries@.len() - i,
        {
            r.push(
                TargetState {
                    target: self.entries[i].target.clone(),
                    source_mtime: self.entries[i].mtime,
                    object_exists: object_exists[i],
                },
            );
            i = i + 1;
        }
        r
    }
}

/// If the first `i` entries miss `src` and entry `i` (when it exists)
/// matches it, the first match is at `i` (or absent when `i` is the
/// length).
proof fn lemma_find_source_prefix(entries: Seq<ModEntry>, src: Seq<char>, i: int)
    requires
        0 <= i <= entries.len(),
        forall|k: int| 0 <= k < i ==> entries[k].target.source@ != src,
        i < entries.len() ==> entries[i].target.source@ == src,
    ensures
        i < entries.len() ==> spec_find_source(entries, src) == i,
        i == entries.len() ==> spec_find_source(entries, src) == -1,
    decreases entries.len(),
{
    if entries.len() > 0 && i > 0 {
        assert forall|k: int| 0 <= k < i - 1 implies entries.drop_first()[k].target.source@
            != src by {
            assert(entries.drop_first()[k] == entries[k + 1]);
        }
        if i - 1 < entries.drop_first().len() {
            assert(entries.drop_first()[i - 1] == entries[i]);
        }
        lemma_find_source_prefix(entries.drop_first(), src, i - 1);
    }
}

/// Global project settings: the tools, their flag lists, the optional
/// pre/post build scripts, and the source-to-timestamp map.
pub struct ProjectDesc {
    pub compiler: Option<String>,
    pub compiler_flags: Vec<String>,
    pub include_dirs: Vec<String>,
    pub lflags: Vec<String>,
    pub lib_dir: Vec<String>,
    pub libs: Vec<String>,
    pub ar: Option<String>,
    pub arflags: Option<String>,
    pub before_script: Option<String>,
    pub after_script: Option<String>,
    pub file_mod_map: ModMap,
}

/// The compiler named by the project, or `gcc`.
pub open spec fn spec_cc(p: ProjectDesc) -> Seq<char> {
    match p.compiler {
        Some(c) => c@,
        None => seq!['g', 'c', 'c'],
    }
}

/// The archiver named by the project, or `ar`.
pub open spec fn spec_ar(p: ProjectDesc) -> Seq<char> {
    match p.ar {
        Some(a) => a@,
        None => seq!['a', 'r'],
    }
}

/// The archiver flags named by the project, or `rcs`.
pub open spec fn spec_arflags(p: ProjectDesc) -> Seq<char> {
    match p.arflags {
        Some(a) => a@,
        None => seq!['r', 'c', 's'],
    }
}

/// The explicit-library fragment of a link line: each library name
/// behind `-l`, joined by spaces.
pub open spec fn spec_libs_string(p: ProjectDesc) -> Seq<char> {
    spec_flag_string(seq_views(p.libs@), seq!['-', 'l'])
}

/// The compile invocation for one target:
/// `CC -c CFLAGS INC -o "OBJ" "SRC"`, with the compiler flags behind `-`
/// and the include_dirs paths behind `-I`.
pub open spec fn spec_compile_command(p: ProjectDesc, t: Target) -> Seq<char> {
    spec_cc(p) + seq![' ', '-', 'c', ' '] + spec_flag_string(seq_views(p.compiler_flags@), seq!['-'])
        + seq![' '] + spec_flag_string(seq_views(p.include_dirs@), seq!['-', 'I']) + seq![' ', '-', 'o', ' ', '"']
        + t.object@ + seq!['"', ' ', '"'] + t.source@ + seq!['"']
}

impl ProjectDesc {
    pub fn compiler_or_default(&self) -> (r: String)
        ensures
            r@ == spec_cc(*self),
    {
        match &self.compiler {
            Some(c) => c.clone(),
            None => {
                let r = String::from_str("gcc");
                proof {
                    reveal_strlit("gcc");
                    assert(r@ =~= seq!['g', 'c', 'c']);
                }
                r
            },
        }
    }

    pub fn ar_or_default(&self) -> (r: String)
        ensures
            r@ == spec_ar(*self),
    {
        match &self.ar {
            Some(a) => a.clone(),
            None => {
                let r = String::from_str("ar");
                proof {
                    reveal_strlit("ar");
                    assert(r@ =~= seq!['a', 'r']);
                }
                r
            },
        }
    }

    pub fn arflags_or_default(&self) -> (r: String)
        ensures
            r@ == spec_arflags(*self),
    {
        match &self.arflags {
            Some(a) => a.clone(),
            None => {
                let r = String::from_str("rcs");
                proof {
                    reveal_strlit("rcs");
                    assert(r@ =~= seq!['r', 'c', 's']);
                }
                r
            },
        }
    }

    /// The explicit-library fragment of a link line.
    pub fn libs_as_string(&self) -> (r: String)
        ensures
            r@ == spec_libs_string(*self),
    {
        let r = flag_string(&self.libs, "-l");
        proof {
            reveal_strlit("-l");
            assert("-l"@ =~= seq!['-', 'l']);
        }
        r
    }

    /// Builds the compile invocation for one target.
    pub fn compile_command(&self, t: &Target) -> (r: String)
        ensures
            r@ == spec_compile_command(*self, *t),
    {
        let mut r = self.compiler_or_default();
        r.append(" -c ");
        let cflags = flag_string(&self.compiler_flags, "-");
        r.append(cflags.as_str());
        r.append(" ");
        let incs = flag_string(&self.include_dirs, "-I");
        r.append(incs.as_str());
        r.append(" -o \"");
        r.append(t.object.as_str());
        r.append("\" \"");
        r.append(t.source.as_str());
        r.append("\"");
        proof {
            reveal_strlit(" -c ");
            reveal_strlit(" ");
            reveal_strlit(" -o \"");
            reveal_strlit("\" \"");
            reveal_strlit("\"");
            reveal_strlit("-");
            reveal_strlit("-I");
            assert(" -c "@ =~= seq![' ', '-', 'c', ' ']);
            assert(" "@ =~= seq![' ']);
            assert(" -o \""@ =~= seq![' ', '-', 'o', ' ', '"']);
            assert("\" \""@ =~= seq!['"', ' ', '"']);
            assert("\""@ =~= seq!['"']);
            assert("-"@ =~= seq!['-']);
            assert("-I"@ =~= seq!['-', 'I']);
        }
        r
    }
}

} // verus!
