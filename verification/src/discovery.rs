use vstd::prelude::*;

use crate::error::BuildError;

verus! {

/// The recognized project-description file name.
pub open spec fn spec_build_file_name() -> Seq<char> {
    seq!['b', 'u', 'i', 'l', 'd', '.', 't', 'o', 'm', 'l']
}

/// Index of the last `/` in `s`, or `-1` when `s` holds none.
pub open spec fn last_slash_index(s: Seq<char>) -> int
    decreases s.len(),
{
    if s.len() == 0 {
        -1
    } else if s[s.len() - 1] == '/' {
        s.len() - 1
    } else {
        last_slash_index(s.drop_last())
    }
}

/// The parent directory of a path, or `None` at a root: the path is cut
/// at its last `/` (keeping a leading `/` alone as the filesystem
/// root); a path without `/`, or the root itself, has no parent.
pub open spec fn spec_parent_dir(s: Seq<char>) -> Option<Seq<char>> {
    if s == seq!['/'] {
        None
    } else {
        let i = last_slash_index(s);
        if i < 0 {
            None
        } else if i == 0 {
            Some(seq!['/'])
        } else {
            Some(s.take(i))
        }
    }
}

/// Computes the parent directory of a path, or `None` at a root.
pub fn parent_dir(dir: &str) -> (r: Option<String>)
    ensures
        (r is Some) == (spec_parent_dir(dir@) is Some),
        r is Some ==> r->0@ == spec_parent_dir(dir@)->0,
{
    let n = dir.unicode_len();
    if n == 1 && dir.get_char(0) == '/' {
        proof {
            assert(dir@ =~= seq!['/']);
        }
        return None;
    }
    proof {
        assert(dir@ != seq!['/']);
        assert(dir@.take(n as int) =~= dir@);
    }
    let mut i = n;
    while i > 0
        invariant
            i <= n,
            n == dir@.len(),
            dir@ != seq!['/'],
            last_slash_index(dir@) == last_slash_index(dir@.take(i as int)),
        decreases i,
    {
        let c = dir.get_char(i - 1);
        proof {
            assert(dir@.take(i as int).drop_last() =~= dir@.take(i - 1));
        }
        if c == '/' {
            proof {
                assert(dir@.take(i as int).len() == i);
                assert(dir@.take(i as int)[i - 1] == '/');
                assert(last_slash_index(dir@.take(i as int)) == i - 1);
            }
            if i - 1 == 0 {
                let root = String::from_str("/");
                proof {
                    reveal_strlit("/");
                    assert(root@ =~= seq!['/']);
                }
                return Some(root);
            }
            let parent = source_prefix(dir, i - 1);
            return Some(parent);
        }
        i = i - 1;
    }
    proof {
        assert(dir@.take(0) =~= Seq::<char>::empty());
    }
    None
}

/// The first `end` characters of `s` as an owned string.
fn source_prefix(s: &str, end: usize) -> (r: String)
    requires
        end <= s@.len(),
    ensures
        r@ == s@.take(end as int),
{
    let sub = s.substring_char(0, end);
    proof {
        assert(s@.subrange(0, end as int) =~= s@.take(end as int));
    }
    String::from_str(sub)
}

/// What an upward-discovery probe decided.
pub enum DiscoveryStep {
    /// The description file was found here: this directory is the
    /// resolved project root, and parsing proceeds there.
    Resolved(String),
    /// Not found here; the walk moved to the parent directory.
    Ascend,
    /// The filesystem root was exhausted without a match; carries the
    /// error with the original starting directory.
    Failed(BuildError),
}

/// Upward build-file discovery: from a starting directory, each level
/// is probed for the recognized description file name, walking toward
/// the filesystem root. The caller probes the filesystem and feeds the
/// answer back to `step`.
pub struct Discovery {
    pub current: String,
    pub original: String,
}

/// The file path that discovery probes in a directory.
pub open spec fn spec_candidate_file(dir: Seq<char>) -> Seq<char> {
    dir + seq!['/'] + spec_build_file_name()
}

impl Discovery {
    pub fn start(dir: String) -> (d: Discovery)
        ensures
            d.current@ == dir@,
            d.original@ == dir@,
    {
        let original = dir.clone();
        Discovery { current: dir, original }
    }

    /// The description-file path to probe at the current level.
    pub fn candidate_file(&self) -> (r: String)
        ensures
            r@ == spec_candidate_file(self.current@),
    {
        let mut r = self.current.clone();
        r.append("/");
        r.append("build.toml");
        proof {
            reveal_strlit("/");
            reveal_strlit("build.toml");
            assert("/"@ =~= seq!['/']);
            assert("build.toml"@ =~= spec_build_file_name());
        }
        r
    }

    /// Advances the walk with the probe's answer. On a hit the current
    /// directory becomes the resolved root; on a miss the walk ascends,
    /// or fails with the original starting directory once no parent is
    /// left.
    pub fn step(&mut self, found: bool) -> (r: DiscoveryStep)
        ensures
            found ==> (r matches DiscoveryStep::Resolved(root) && root@ == old(self).current@)
                && *final(self) == *old(self),
            (!found && spec_parent_dir(old(self).current@) is Some) ==> (r
                is Ascend) && final(self).current@ == spec_parent_dir(old(self).current@)->0
                && final(self).original == old(self).original,
            (!found && spec_parent_dir(old(self).current@) is None) ==> (r matches
                DiscoveryStep::Failed(e) && e matches BuildError::NoBuildFile { start } && start@
                == old(self).original@) && *final(self) == *old(self),
    {
        if found {
            return DiscoveryStep::Resolved(self.current.clone());
        }
        match parent_dir(self.current.as_str()) {
            Some(parent) => {
                self.current = parent;
                DiscoveryStep::Ascend
            },
            None => DiscoveryStep::Failed(
                BuildError::NoBuildFile { start: self.original.clone() },
            ),
        }
    }
}

} // verus!
