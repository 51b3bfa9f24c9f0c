//! Recognizing model description files by name.

use vstd::prelude::*;
use vstd::string::StrSliceExecFns;

verus! {

/// The file name suffix of a model description.
pub open spec fn spec_model_suffix() -> Seq<char> {
    ".model3.json"@
}

pub open spec fn spec_ends_with(s: Seq<char>, suffix: Seq<char>) -> bool {
    s.len() >= suffix.len() && s.subrange(s.len() - suffix.len(), s.len() as int) == suffix
}

/// Whether a file name names a model description.
pub fn is_model3_json_name(name: &str) -> (r: bool)
    ensures
        r == spec_ends_with(name@, spec_model_suffix()),
{
    let suffix = ".model3.json";
    proof {
        reveal_strlit(".model3.json");
    }
    let n = name.unicode_len();
    let m = suffix.unicode_len();
    if n < m {
        return false;
    }
    let start = n - m;
    let mut i: usize = 0;
    while i < m
        invariant
            i <= m,
            m == suffix@.len(),
            n == name@.len(),
            start == n - m,
            suffix@ == spec_model_suffix(),
            name@.subrange(start as int, start + i) == suffix@.subrange(0, i as int),
        decreases m - i,
    {
        if name.get_char(start + i) != suffix.get_char(i) {
            assert(name@.subrange(start as int, n as int)[i as int] != suffix@[i as int]);
            return false;
        }
        assert(name@.subrange(start as int, start + i + 1) =~= suffix@.subrange(0, i + 1));
        i = i + 1;
    }
    assert(suffix@.subrange(0, m as int) =~= suffix@);
    true
}

} // verus!
