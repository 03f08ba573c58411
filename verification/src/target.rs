use vstd::prelude::*;

verus! {

/// The suffix that turns a source path into its object path.
pub open spec fn object_suffix() -> Seq<char> {
    seq!['.', 'o']
}

/// Index of the last `.` in `s`, or `-1` when `s` holds none.
pub open spec fn last_dot_index(s: Seq<char>) -> int
    decreases s.len(),
{
    if s.len() == 0 {
        -1
    } else if s[s.len() - 1] == '.' {
        s.len() - 1
    } else {
        last_dot_index(s.drop_last())
    }
}

/// The object path derived from a source path: the extension after the
/// last `.` is replaced by `.o`; a path without a `.` gets `.o` appended.
pub open spec fn spec_object_path(s: Seq<char>) -> Seq<char> {
    if last_dot_index(s) >= 0 {
        s.take(last_dot_index(s)) + object_suffix()
    } else {
        s + object_suffix()
    }
}

/// One compilation unit: a source file and the object file that is
/// deterministically derived from it.
pub struct Target {
    pub source: String,
    pub object: String,
}

impl Target {
    /// A well-formed target's object path is derived from its source path.
    pub open spec fn wf(self) -> bool {
        self.object@ == spec_object_path(self.source@)
    }

    pub fn new(source: String) -> (t: Target)
        ensures
            t.wf(),
            t.source@ == source@,
    {
        let object = object_path_of(source.as_str());
        Target { source, object }
    }

    pub fn source(&self) -> (r: &String)
        ensures
            r@ == self.source@,
    {
        &self.source
    }

    pub fn object(&self) -> (r: &String)
        ensures
            r@ == self.object@,
    {
        &self.object
    }
}

impl Clone for Target {
    fn clone(&self) -> (t: Target)
        ensures
            t == *self,
    {
        Target { source: self.source.clone(), object: self.object.clone() }
    }
}

/// Computes the object path of a source path.
pub fn object_path_of(source: &str) -> (r: String)
    ensures
        r@ == spec_object_path(source@),
{
    let n = source.unicode_len();
    let mut i = n;
    proof {
        assert(source@.take(n as int) =~= source@);
    }
    while i > 0
        invariant
            i <= n,
            n == source@.len(),
            last_dot_index(source@) == last_dot_index(source@.take(i as int)),
        decreases i,
    {
        let c = source.get_char(i - 1);
        proof {
            assert(source@.take(i as int).drop_last() =~= source@.take(i - 1));
        }
        if c == '.' {
            proof {
                assert(source@.take(i as int).len() == i);
                assert(source@.take(i as int)[i - 1] == '.');
                assert(last_dot_index(source@.take(i as int)) == i - 1);
                assert(spec_object_path(source@) == source@.take(i - 1) + object_suffix());
            }
            let stem = source.substring_char(0, i - 1);
            proof {
                assert(source@.take(i - 1) =~= source@.subrange(0, i - 1));
            }
            let r = String::from_str(stem).concat(".o");
            proof {
                reveal_strlit(".o");
                assert(".o"@ =~= object_suffix());
                assert(r@ == source@.take(i - 1) + object_suffix());
            }
            return r;
        }
        i = i - 1;
    }
    let r = String::from_str(source).concat(".o");
    proof {
        reveal_strlit(".o");
        assert(".o"@ =~= object_suffix());
        assert(source@.take(0) =~= Seq::<char>::empty());
    }
    r
}

} // verus!
