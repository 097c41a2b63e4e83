//! Which file-system notifications make the configuration be read again.
use vstd::prelude::*;

verus! {

/// A path as the sequence of its components, each in its platform encoding.
pub open spec fn path_model(p: Seq<Vec<u8>>) -> Seq<Seq<u8>> {
    p.map_values(|c: Vec<u8>| c@)
}

/// Whether a notification of a modification (`modified`) or a creation
/// (`created`) on the paths `paths` concerns the configuration file at `config`.
pub open spec fn reload_due(
    modified: bool,
    created: bool,
    paths: Seq<Seq<Seq<u8>>>,
    config: Seq<Seq<u8>>,
) -> bool {
    (modified || created) && exists|i: int| 0 <= i < paths.len() && paths[i] == config
}

/// Whether two byte strings are equal.
pub fn bytes_equal(a: &Vec<u8>, b: &Vec<u8>) -> (r: bool)
    ensures
        r == (a@ == b@),
{
    if a.len() != b.len() {
        return false;
    }
    let mut i: usize = 0;
    while i < a.len()
        invariant
            i <= a@.len(),
            a@.len() == b@.len(),
            forall|k: int| 0 <= k < i ==> a@[k] == b@[k],
        decreases a@.len() - i,
    {
        if a[i] != b[i] {
            return false;
        }
        i = i + 1;
    }
    assert(a@ =~= b@);
    true
}

/// Whether two paths, given by their components, are equal.
pub fn same_path(a: &Vec<Vec<u8>>, b: &Vec<Vec<u8>>) -> (r: bool)
    ensures
        r == (path_model(a@) == path_model(b@)),
{
    if a.len() != b.len() {
        return false;
    }
    let mut i: usize = 0;
    while i < a.len()
        invariant
            i <= a@.len(),
            a@.len() == b@.len(),
            forall|k: int| 0 <= k < i ==> a@[k]@ == b@[k]@,
        decreases a@.len() - i,
    {
        if !bytes_equal(&a[i], &b[i]) {
            assert(path_model(a@)[i as int] != path_model(b@)[i as int]);
            return false;
        }
        i = i + 1;
    }
    assert(path_model(a@) =~= path_model(b@));
    true
}

/// Whether a notification should make the configuration be read again: it
/// reports a modification or a creation, and one of its paths is the
/// configuration file's (each path given by its components).
pub fn reload_wanted(
    modified: bool,
    created: bool,
    paths: &Vec<Vec<Vec<u8>>>,
    config_path: &Vec<Vec<u8>>,
) -> (r: bool)
    ensures
        r == reload_due(
            modified,
            created,
            paths@.map_values(|p: Vec<Vec<u8>>| path_model(p@)),
            path_model(config_path@),
        ),
{
    let ghost ps = paths@.map_values(|p: Vec<Vec<u8>>| path_model(p@));
    if !(modified || created) {
        return false;
    }
    let mut i: usize = 0;
    while i < paths.len()
        invariant
            i <= paths@.len(),
            modified || created,
            ps == paths@.map_values(|p: Vec<Vec<u8>>| path_model(p@)),
            forall|k: int| 0 <= k < i ==> ps[k] != path_model(config_path@),
        decreases paths@.len() - i,
    {
        if same_path(&paths[i], config_path) {
            assert(ps[i as int] == path_model(config_path@));
            return true;
        }
        i = i + 1;
    }
    false
}

} // verus!
