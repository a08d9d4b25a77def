use vstd::prelude::*;

verus! {

/// Whether two textual paths name the same path under the standard library's
/// path comparison, which goes component by component.
pub uninterp spec fn same_path(left: Seq<char>, right: Seq<char>) -> bool;

/// `std::path::Path`'s `==` on the two strings taken as paths. The standard
/// library compares paths by their components; that comparison is named
/// `same_path` and not written out here. Stated of it: it is the named
/// comparison, equal strings compare equal (`Path` is `Eq`), and the
/// comparison is symmetric.
#[verifier::external_body]
fn std_path_eq(left: &String, right: &String) -> (r: bool)
    ensures
        r == same_path(left@, right@),
        left@ == right@ ==> r,
        r == same_path(right@, left@),
{
    std::path::Path::new(left) == std::path::Path::new(right)
}

/// A path as it was found, with its canonical form if the file system could
/// resolve it.
#[derive(Clone, Debug, PartialEq, Eq)]
pub struct ObservedPath {
    pub path: String,
    pub canonical: Option<String>,
}

pub struct ObservedPathView {
    pub path: Seq<char>,
    pub canonical: Option<Seq<char>>,
}

impl View for ObservedPath {
    type V = ObservedPathView;

    open spec fn view(&self) -> ObservedPathView {
        ObservedPathView {
            path: self.path@,
            canonical: match self.canonical {
                Some(c) => Some(c@),
                None => None,
            },
        }
    }
}

/// The form in which a path is compared: its canonical form, or the path as
/// found where it could not be resolved.
pub open spec fn resolved(p: ObservedPathView) -> Seq<char> {
    match p.canonical {
        Some(c) => c,
        None => p.path,
    }
}

/// Whether two observed paths denote the same location.
pub open spec fn same_location(left: ObservedPathView, right: ObservedPathView) -> bool {
    same_path(resolved(left), resolved(right))
}

/// Compares two paths after resolving each to its canonical form, falling
/// back to the path itself where it could not be resolved.
pub fn paths_equal(left: &ObservedPath, right: &ObservedPath) -> (r: bool)
    ensures
        r == same_location(left@, right@),
        resolved(left@) == resolved(right@) ==> r,
        r == same_location(right@, left@),
{
    let l = match &left.canonical {
        Some(c) => c,
        None => &left.path,
    };
    let r = match &right.canonical {
        Some(c) => c,
        None => &right.path,
    };
    std_path_eq(l, r)
}

} // verus!
