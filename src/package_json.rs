use vstd::prelude::*;

use crate::script::Script;

verus! {

/// The mapping that a list of `(name, command)` entries defines; a later
/// entry for a name replaces an earlier one.
pub open spec fn scripts_map(entries: Seq<(String, String)>) -> Map<Seq<char>, Seq<char>>
    decreases entries.len(),
{
    if entries.len() == 0 {
        Map::empty()
    } else {
        scripts_map(entries.drop_last()).insert(entries.last().0@, entries.last().1@)
    }
}

pub proof fn lemma_scripts_map_keys(entries: Seq<(String, String)>, key: Seq<char>)
    ensures
        scripts_map(entries).contains_key(key) <==> exists|i: int|
            0 <= i < entries.len() && (#[trigger] entries[i]).0@ == key,
    decreases entries.len(),
{
    if entries.len() > 0 {
        let init = entries.drop_last();
        lemma_scripts_map_keys(init, key);
        if scripts_map(entries).contains_key(key) && entries.last().0@ != key {
            let i = choose|i: int| 0 <= i < init.len() && (#[trigger] init[i]).0@ == key;
            assert(entries[i] == init[i]);
        }
        if exists|i: int| 0 <= i < entries.len() && (#[trigger] entries[i]).0@ == key {
            let i = choose|i: int| 0 <= i < entries.len() && (#[trigger] entries[i]).0@ == key;
            if i < init.len() {
                assert(init[i] == entries[i]);
            }
        }
    }
}

/// The scripts that a package's manifest declares, by name.
#[derive(Debug)]
pub struct PackageJson {
    scripts: Vec<(String, String)>,
}

impl View for PackageJson {
    type V = Map<Seq<char>, Seq<char>>;

    closed spec fn view(&self) -> Map<Seq<char>, Seq<char>> {
        scripts_map(self.scripts@)
    }
}

impl PackageJson {
    /// A manifest declaring `scripts`, each a name and its command.
    pub fn new(scripts: Vec<(String, String)>) -> (r: PackageJson)
        ensures
            r@ == scripts_map(scripts@),
    {
        PackageJson { scripts }
    }

    /// Whether a script named exactly `name` is declared.
    pub fn contains(&self, name: &String) -> (r: bool)
        ensures
            r == self@.contains_key(name@),
    {
        let mut i: usize = 0;
        while i < self.scripts.len()
            invariant
                i <= self.scripts.len(),
                forall|j: int| 0 <= j < i ==> (#[trigger] self.scripts@[j]).0@ != name@,
            decreases self.scripts.len() - i,
        {
            if self.scripts[i].0 == *name {
                proof {
                    lemma_scripts_map_keys(self.scripts@, name@);
                    assert(self.scripts@[i as int].0@ == name@);
                }
                return true;
            }
            i += 1;
        }
        proof {
            lemma_scripts_map_keys(self.scripts@, name@);
        }
        false
    }

    /// Whether `script` is declared under its full name.
    pub fn script_exists(&self, script: &Script) -> (r: bool)
        ensures
            r == self@.contains_key(script.key()),
    {
        self.contains(&script.to_string())
    }
}

} // verus!
