use vstd::prelude::*;

use crate::error::ContextError;
use crate::text::push_char;

verus! {

/// `parts` joined with a `/` between each two of them.
pub open spec fn joined(parts: Seq<Seq<char>>) -> Seq<char>
    decreases parts.len(),
{
    if parts.len() == 0 {
        Seq::empty()
    } else if parts.len() == 1 {
        parts[0]
    } else {
        joined(parts.drop_last()) + seq!['/'] + parts.last()
    }
}

/// A directory path held as its components; an absolute path starts at the
/// filesystem root.
pub struct DirPath {
    pub absolute: bool,
    pub components: Vec<String>,
}

impl View for DirPath {
    type V = (bool, Seq<Seq<char>>);

    open spec fn view(&self) -> (bool, Seq<Seq<char>>) {
        (self.absolute, self.components.deep_view())
    }
}

impl PartialEq for DirPath {
    fn eq(&self, other: &DirPath) -> (r: bool) {
        self.same_as(other)
    }
}

impl vstd::std_specs::cmp::PartialEqSpecImpl for DirPath {
    open spec fn obeys_eq_spec() -> bool {
        true
    }

    open spec fn eq_spec(&self, other: &DirPath) -> bool {
        self@ == other@
    }
}

impl Clone for DirPath {
    fn clone(&self) -> (r: DirPath)
        ensures
            r@ == self@,
    {
        DirPath { absolute: self.absolute, components: clone_strings(&self.components, self.components.len()) }
    }
}

/// The first `n` strings of `v`, copied.
fn clone_strings(v: &Vec<String>, n: usize) -> (r: Vec<String>)
    requires
        n <= v.len(),
    ensures
        r.deep_view() == v.deep_view().subrange(0, n as int),
{
    let mut r: Vec<String> = Vec::new();
    let mut i: usize = 0;
    while i < n
        invariant
            i <= n <= v.len(),
            r.len() == i,
            forall|k: int| 0 <= k < i ==> #[trigger] r[k]@ == v[k]@,
        decreases n - i,
    {
        r.push(v[i].clone());
        i += 1;
    }
    assert(r.deep_view() =~= v.deep_view().subrange(0, n as int));
    r
}

/// The filesystem path denoted by a model of a directory.
pub open spec fn path_text(p: (bool, Seq<Seq<char>>)) -> Seq<char> {
    if p.0 {
        seq!['/'] + joined(p.1)
    } else {
        joined(p.1)
    }
}

/// A component that names a directory, as opposed to the empty text between
/// two adjacent `/` or the current directory `.`.
pub open spec fn is_named(c: Seq<char>) -> bool {
    c.len() > 0 && c != seq!['.']
}

/// `done` with `c` added where it names a directory.
pub open spec fn with_component(done: Seq<Seq<char>>, c: Seq<char>) -> Seq<Seq<char>> {
    if is_named(c) {
        done.push(c)
    } else {
        done
    }
}

/// Reading `s` from the left: the components completed so far, and the one
/// being read.
pub open spec fn scan_components(s: Seq<char>) -> (Seq<Seq<char>>, Seq<char>)
    decreases s.len(),
{
    if s.len() == 0 {
        (Seq::empty(), Seq::empty())
    } else {
        let (done, current) = scan_components(s.drop_last());
        if s.last() == '/' {
            (with_component(done, current), Seq::empty())
        } else {
            (done, current.push(s.last()))
        }
    }
}

/// The components of the path `s`: the parts between its `/`, without empty
/// ones and without `.`.
pub open spec fn path_components(s: Seq<char>) -> Seq<Seq<char>> {
    with_component(scan_components(s).0, scan_components(s).1)
}

/// The `i`-th ancestor of `p`: `p` itself for 0, its parent for 1, and so on.
pub open spec fn ancestor(p: (bool, Seq<Seq<char>>), i: int) -> (bool, Seq<Seq<char>>) {
    (p.0, p.1.subrange(0, p.1.len() - i))
}

/// `i` is the nearest ancestor, counted from the start, whose flag is set.
pub open spec fn is_nearest(present: Seq<bool>, i: int) -> bool {
    0 <= i < present.len() && present[i] && forall|j: int| 0 <= j < i ==> !present[j]
}

impl DirPath {
    /// The directory that the path `s` names: absolute where `s` begins with
    /// `/`.
    pub fn parse(s: &str) -> (r: DirPath)
        ensures
            r@.0 == (s@.len() > 0 && s@[0] == '/'),
            r@.1 == path_components(s@),
    {
        let n = s.unicode_len();
        let dot = String::from_str(".");
        proof {
            reveal_strlit(".");
        }
        let mut done: Vec<String> = Vec::new();
        let mut current = String::new();
        let mut i: usize = 0;
        while i < n
            invariant
                n == s@.len(),
                i <= n,
                dot@ == seq!['.'],
                (done.deep_view(), current@) == scan_components(s@.subrange(0, i as int)),
            decreases n - i,
        {
            let c = s.get_char(i);
            proof {
                assert(s@.subrange(0, i as int + 1).drop_last() =~= s@.subrange(0, i as int));
            }
            if c == '/' {
                if current.unicode_len() > 0 && current != dot {
                    let ghost before = done.deep_view();
                    done.push(current);
                    assert(done.deep_view() =~= before.push(scan_components(s@.subrange(0, i as int)).1));
                }
                current = String::new();
            } else {
                push_char(&mut current, c);
            }
            i += 1;
        }
        assert(s@.subrange(0, n as int) =~= s@);
        if current.unicode_len() > 0 && current != dot {
            let ghost before = done.deep_view();
            done.push(current);
            assert(done.deep_view() =~= before.push(scan_components(s@).1));
        }
        DirPath { absolute: n > 0 && s.get_char(0) == '/', components: done }
    }

    /// Both paths have the same root and the same components.
    pub fn same_as(&self, other: &DirPath) -> (r: bool)
        ensures
            r == (self@ == other@),
    {
        if self.absolute != other.absolute || self.components.len() != other.components.len() {
            proof {
                if self.components.len() != other.components.len() {
                    assert(self.components.deep_view().len() != other.components.deep_view().len());
                }
            }
            return false;
        }
        let mut i: usize = 0;
        while i < self.components.len()
            invariant
                i <= self.components.len() == other.components.len(),
                forall|k: int| 0 <= k < i ==> self.components[k]@ == other.components[k]@,
            decreases self.components.len() - i,
        {
            if self.components[i] != other.components[i] {
                assert(self.components.deep_view()[i as int] != other.components.deep_view()[i as int]);
                return false;
            }
            i += 1;
        }
        assert(self.components.deep_view() =~= other.components.deep_view());
        true
    }

    /// The path as text, with `/` between components.
    pub fn to_path_string(&self) -> (r: String)
        ensures
            r@ == path_text(self@),
    {
        let mut r = String::new();
        if self.absolute {
            push_char(&mut r, '/');
        }
        let ghost lead = r@;
        let mut i: usize = 0;
        while i < self.components.len()
            invariant
                i <= self.components.len(),
                lead == (if self.absolute { seq!['/'] } else { Seq::<char>::empty() }),
                r@ == lead + joined(self.components.deep_view().subrange(0, i as int)),
            decreases self.components.len() - i,
        {
            let ghost parts = self.components.deep_view().subrange(0, i as int + 1);
            assert(parts.drop_last() =~= self.components.deep_view().subrange(0, i as int));
            if i > 0 {
                push_char(&mut r, '/');
            }
            r.append(self.components[i].as_str());
            i += 1;
            assert(r@ =~= lead + joined(parts));
        }
        assert(self.components.deep_view().subrange(0, i as int) =~= self.components.deep_view());
        r
    }

    /// The directory that contains this one; `None` at the top.
    pub fn parent(&self) -> (r: Option<DirPath>)
        ensures
            self@.1.len() == 0 <==> r.is_none(),
            r matches Some(p) ==> p@ == ancestor(self@, 1),
    {
        let n = self.components.len();
        if n == 0 {
            None
        } else {
            Some(DirPath { absolute: self.absolute, components: clone_strings(&self.components, n - 1) })
        }
    }

    /// This directory and each of its ancestors, nearest first.
    pub fn ancestors(&self) -> (r: Vec<DirPath>)
        ensures
            r.len() == self@.1.len() + 1,
            forall|i: int| 0 <= i < r.len() ==> #[trigger] r[i]@ == ancestor(self@, i),
    {
        let n = self.components.len();
        let mut r: Vec<DirPath> = Vec::new();
        r.push(self.clone());
        assert(self@.1.subrange(0, self@.1.len() as int) =~= self@.1);
        let mut i: usize = 0;
        while i < n
            invariant
                n == self.components.len(),
                i <= n,
                r.len() == i + 1,
                forall|k: int| 0 <= k <= i ==> #[trigger] r[k]@ == ancestor(self@, k),
            decreases n - i,
        {
            r.push(DirPath { absolute: self.absolute, components: clone_strings(&self.components, n - i - 1) });
            i += 1;
        }
        r
    }
}

/// The nearest ancestor of `start` (itself included) that holds the sought
/// file, where `present[i]` tells whether the `i`-th ancestor holds it.
pub fn locate(start: &DirPath, present: &Vec<bool>) -> (r: Result<DirPath, ContextError>)
    requires
        present.len() == start@.1.len() + 1,
    ensures
        r is Ok <==> exists|i: int| #[trigger] is_nearest(present@, i),
        r matches Ok(d) ==> exists|i: int|
            #[trigger] is_nearest(present@, i) && d@ == ancestor(start@, i),
        r matches Err(e) ==> (e matches ContextError::AncestorNotFound { searched_from }
            && searched_from@ == start@),
        r is Err <==> forall|i: int| 0 <= i < present.len() ==> !present[i],
{
    let n = start.components.len();
    let mut i: usize = 0;
    while i < present.len()
        invariant
            n == start.components.len(),
            present.len() == n + 1,
            i <= present.len(),
            forall|j: int| 0 <= j < i ==> !present[j],
        decreases present.len() - i,
    {
        if present[i] {
            assert(is_nearest(present@, i as int));
            return Ok(DirPath { absolute: start.absolute, components: clone_strings(&start.components, n - i) });
        }
        i += 1;
    }
    assert forall|k: int| !is_nearest(present@, k) by {}
    Err(ContextError::AncestorNotFound { searched_from: start.clone() })
}

} // verus!
