use vstd::prelude::*;

use crate::text::push_char;

verus! {

/// The lookup key of a script: `lifecycle`, then the delimiter, then `suffix`.
pub open spec fn script_key(lifecycle: Seq<char>, delimiter: char, suffix: Seq<char>) -> Seq<char> {
    lifecycle + seq![delimiter] + suffix
}

/// `i` is the position of the first occurrence of `c` in `s`.
pub open spec fn is_first_index_of(s: Seq<char>, c: char, i: int) -> bool {
    0 <= i < s.len() && s[i] == c && forall|j: int| 0 <= j < i ==> s[j] != c
}

/// Name of a script broken down into its components.
#[derive(Debug, PartialEq, Eq)]
pub struct Script {
    pub lifecycle: String,
    pub delimiter: char,
    pub suffix: String,
}

impl Script {
    pub open spec fn key(&self) -> Seq<char> {
        script_key(self.lifecycle@, self.delimiter, self.suffix@)
    }

    /// The full script name, such as `postinstall:project`.
    pub fn to_string(&self) -> (r: String)
        ensures
            r@ == self.key(),
    {
        let mut name = self.lifecycle.clone();
        push_char(&mut name, self.delimiter);
        name.append(self.suffix.as_str());
        name
    }
}

/// A script key splits back into its lifecycle and suffix at the first
/// occurrence of the delimiter, provided the lifecycle does not contain the
/// delimiter itself.
pub proof fn lemma_script_key_splits(lifecycle: Seq<char>, delimiter: char, suffix: Seq<char>)
    requires
        !lifecycle.contains(delimiter),
    ensures
        is_first_index_of(script_key(lifecycle, delimiter, suffix), delimiter, lifecycle.len() as int),
        script_key(lifecycle, delimiter, suffix).subrange(0, lifecycle.len() as int) == lifecycle,
        script_key(lifecycle, delimiter, suffix).subrange(
            lifecycle.len() + 1 as int,
            script_key(lifecycle, delimiter, suffix).len() as int,
        ) == suffix,
{
    let key = script_key(lifecycle, delimiter, suffix);
    assert forall|j: int| 0 <= j < lifecycle.len() implies key[j] != delimiter by {
        assert(key[j] == lifecycle[j]);
    }
    assert(key.subrange(0, lifecycle.len() as int) =~= lifecycle);
    assert(key.subrange(lifecycle.len() + 1 as int, key.len() as int) =~= suffix);
}

} // verus!
