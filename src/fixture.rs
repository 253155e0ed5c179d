use vstd::prelude::*;

use crate::text::push_char;

verus! {

broadcast use vstd::std_specs::vec::axiom_vec_decreases_to_view, vstd::seq::axiom_seq_index_decreases, vstd::seq::axiom_seq_subrange_decreases;

/// `base` joined with `path` as a filesystem path: an absolute `path`
/// replaces `base`, and a `/` is put between the two where `base` does not
/// already end with one.
pub open spec fn path_join(base: Seq<char>, path: Seq<char>) -> Seq<char> {
    if path.len() > 0 && path[0] == '/' {
        path
    } else if base.len() == 0 || base.last() == '/' {
        base + path
    } else {
        base + seq!['/'] + path
    }
}

/// Joins `path` onto `base`.
pub fn join_path(base: &str, path: &str) -> (r: String)
    ensures
        r@ == path_join(base@, path@),
{
    let n = base.unicode_len();
    if path.unicode_len() > 0 && path.get_char(0) == '/' {
        return String::from_str(path);
    }
    let mut r = String::from_str(base);
    if n > 0 && base.get_char(n - 1) != '/' {
        push_char(&mut r, '/');
    }
    r.append(path);
    r
}

/// A file, or a directory of further fixtures, to lay out on disk.
#[derive(PartialEq, Debug)]
pub enum Fixture {
    File { name: String, contents: String },
    Directory { name: String, fixtures: Vec<Fixture> },
}

/// The files below `f`, each with its path and contents, where `f` itself is
/// named `name`.
pub open spec fn files_as(f: Fixture, name: Seq<char>) -> Seq<(Seq<char>, Seq<char>)>
    decreases f,
{
    match f {
        Fixture::File { contents, .. } => seq![(name, contents@)],
        Fixture::Directory { fixtures, .. } => files_of_all(fixtures@, name),
    }
}

/// The files below each of `fixtures` in turn, each fixture placed in the
/// directory `parent`.
pub open spec fn files_of_all(fixtures: Seq<Fixture>, parent: Seq<char>) -> Seq<(Seq<char>, Seq<char>)>
    decreases fixtures,
{
    if fixtures.len() == 0 {
        Seq::empty()
    } else {
        files_of_all(fixtures.drop_last(), parent) + files_as(
            fixtures.last(),
            path_join(parent, fixtures.last().name()),
        )
    }
}

impl Fixture {
    pub open spec fn name(self) -> Seq<char> {
        match self {
            Fixture::File { name, .. } => name@,
            Fixture::Directory { name, .. } => name@,
        }
    }

    /// The files this fixture lays out, each with its path and contents.
    pub open spec fn files(self) -> Seq<(Seq<char>, Seq<char>)> {
        files_as(self, self.name())
    }

    /// This fixture renamed to `n`, all else kept.
    pub open spec fn renamed(self, n: Seq<char>, r: Fixture) -> bool {
        r.name() == n && match self {
            Fixture::File { contents, .. } => r matches Fixture::File { contents: c, .. } && c == contents,
            Fixture::Directory { fixtures, .. } => r matches Fixture::Directory { fixtures: fs, .. } && fs
                == fixtures,
        }
    }

    fn name_string(&self) -> (r: String)
        ensures
            r@ == self.name(),
    {
        match self {
            Fixture::File { name, .. } => name.clone(),
            Fixture::Directory { name, .. } => name.clone(),
        }
    }

    /// Appends `path` to this fixture's name.
    pub fn join_to_right(self, path: String) -> (r: Fixture)
        ensures
            self.renamed(path_join(self.name(), path@), r),
    {
        match self {
            Fixture::File { name, contents } => Fixture::File {
                name: join_path(name.as_str(), path.as_str()),
                contents,
            },
            Fixture::Directory { name, fixtures } => Fixture::Directory {
                name: join_path(name.as_str(), path.as_str()),
                fixtures,
            },
        }
    }

    /// Puts this fixture inside the directory `path`.
    pub fn join_to_left(self, path: String) -> (r: Fixture)
        ensures
            self.renamed(path_join(path@, self.name()), r),
    {
        match self {
            Fixture::File { name, contents } => Fixture::File {
                name: join_path(path.as_str(), name.as_str()),
                contents,
            },
            Fixture::Directory { name, fixtures } => Fixture::Directory {
                name: join_path(path.as_str(), name.as_str()),
                fixtures,
            },
        }
    }

    /// Every file this fixture lays out, with its full path and contents, in
    /// the order the fixtures are listed.
    pub fn to_files(self) -> (r: Vec<(String, String)>)
        ensures
            r@.map_values(|p: (String, String)| (p.0@, p.1@)) == self.files(),
    {
        let name = self.name_string();
        files_named(self, name)
    }
}

/// The files below `f`, where `f` itself is named `name`.
fn files_named(f: Fixture, name: String) -> (r: Vec<(String, String)>)
    ensures
        r@.map_values(|p: (String, String)| (p.0@, p.1@)) == files_as(f, name@),
    decreases f,
{
    match f {
        Fixture::File { contents, .. } => {
            let r = vec![(name, contents)];
            assert(r@.map_values(|p: (String, String)| (p.0@, p.1@)) =~= files_as(f, name@));
            r
        },
        Fixture::Directory { fixtures, .. } => {
            let ghost all = fixtures@;
            assert(all.len() == fixtures.len());
            let mut rest = fixtures;
            let mut r: Vec<(String, String)> = Vec::new();
            let mut i: usize = 0;
            while rest.len() > 0
                invariant
                    f matches Fixture::Directory { fixtures: fs, .. } && fs@ == all,
                    i <= all.len() <= usize::MAX,
                    rest@ == all.subrange(i as int, all.len() as int),
                    r@.map_values(|p: (String, String)| (p.0@, p.1@)) == files_of_all(
                        all.subrange(0, i as int),
                        name@,
                    ),
                decreases rest.len(),
            {
                let kid = rest.remove(0);
                assert(kid == all[i as int]);
                let kid_name = kid.name_string();
                let path = join_path(name.as_str(), kid_name.as_str());
                let mut files = files_named(kid, path);
                let ghost before = r@;
                r.append(&mut files);
                proof {
                    let s = all.subrange(0, i as int + 1);
                    assert(s.drop_last() =~= all.subrange(0, i as int));
                    assert(s.last() == all[i as int]);
                    assert(r@.map_values(|p: (String, String)| (p.0@, p.1@)) =~= files_of_all(
                        s,
                        name@,
                    ));
                }
                i += 1;
            }
            assert(all.subrange(0, i as int) =~= all);
            r
        },
    }
}

/// A list holding the one pair `(first, second)`.
pub fn fixtures<A, B>(first: A, second: B) -> (r: Vec<(A, B)>)
    ensures
        r@ == seq![(first, second)],
{
    let r = vec![(first, second)];
    assert(r@ =~= seq![(first, second)]);
    r
}

} // verus!
