use vstd::prelude::*;

verus! {

/// A speech model that can be downloaded: its name, which is also the name of
/// its directory once extracted, and the address of its zip archive.
#[derive(Clone, Debug, PartialEq, Eq)]
pub struct RemoteModel {
    pub name: String,
    pub url: String,
}

/// Why the entries of a model archive cannot be laid out under the model's
/// directory.
#[derive(Clone, Copy, Debug, PartialEq, Eq, Structural)]
pub enum ArchiveError {
    /// The archive has no entry, not even its root folder.
    Empty,
    /// The entry at this index does not lie under the archive's root folder.
    OutsideRoot(usize),
}

/// The rest of `s` after `prefix` when `s` starts with `prefix`, and nothing
/// otherwise.
fn strip_prefix(s: &str, prefix: &str) -> (r: Option<String>)
    ensures
        r is Some <==> prefix@.is_prefix_of(s@),
        r matches Some(rest) ==> rest@ == s@.subrange(prefix@.len() as int, s@.len() as int),
{
    let n = s.unicode_len();
    let k = prefix.unicode_len();
    if k > n {
        return None;
    }
    let mut i: usize = 0;
    while i < k
        invariant
            k == prefix@.len(),
            n == s@.len(),
            k <= n,
            i <= k,
            forall|j: int| 0 <= j < i ==> prefix@[j] == s@[j],
        decreases k - i,
    {
        if prefix.get_char(i) != s.get_char(i) {
            return None;
        }
        i = i + 1;
    }
    assert(prefix@ =~= s@.subrange(0, k as int));
    Some(String::from_str(s.substring_char(k, n)))
}

/// Each entry after the first lies under the first, the archive's root folder.
pub open spec fn under_root(names: Seq<Seq<char>>) -> bool {
    forall|i: int| 1 <= i < names.len() ==> #[trigger] names[0].is_prefix_of(names[i])
}

/// The path of each entry after the first, relative to the root folder.
pub open spec fn relative_paths(names: Seq<Seq<char>>) -> Seq<Seq<char>> {
    Seq::new(
        (names.len() - 1) as nat,
        |i: int| names[i + 1].subrange(names[0].len() as int, names[i + 1].len() as int),
    )
}

/// Lays out the entries of a model archive under the model's own directory.
///
/// The first entry of a model archive is its root folder; the model's
/// directory takes its place, so each later entry keeps only its path below
/// that folder. The result holds one path for each entry after the first, in
/// order. An archive without entries, or with an entry outside the root
/// folder (the first such entry is named), is refused.
pub fn archive_layout(names: &Vec<String>) -> (r: Result<Vec<String>, ArchiveError>)
    ensures
        names@.len() == 0 ==> r == Err::<Vec<String>, ArchiveError>(ArchiveError::Empty),
        r matches Err(ArchiveError::Empty) ==> names@.len() == 0,
        names@.len() > 0 && under_root(names.deep_view()) ==> r is Ok,
        r matches Ok(v) ==> under_root(names.deep_view()) && v.deep_view() == relative_paths(
            names.deep_view(),
        ),
        r matches Err(ArchiveError::OutsideRoot(i)) ==> {
            &&& 1 <= i < names@.len()
            &&& !names@[0]@.is_prefix_of(names@[i as int]@)
            &&& forall|j: int| 1 <= j < i ==> names@[0]@.is_prefix_of(#[trigger] names@[j]@)
        },
{
    if names.len() == 0 {
        return Err(ArchiveError::Empty);
    }
    let root = names[0].as_str();
    let mut out: Vec<String> = Vec::new();
    let mut i: usize = 1;
    while i < names.len()
        invariant
            1 <= i <= names@.len(),
            root@ == names@[0]@,
            out@.len() == i - 1,
            forall|j: int| 1 <= j < i ==> names@[0]@.is_prefix_of(#[trigger] names@[j]@),
            forall|j: int|
                0 <= j < out@.len() ==> (#[trigger] out@[j])@ == names@[j + 1]@.subrange(
                    names@[0]@.len() as int,
                    names@[j + 1]@.len() as int,
                ),
        decreases names@.len() - i,
    {
        match strip_prefix(names[i].as_str(), root) {
            Some(rest) => out.push(rest),
            None => {
                proof {
                    let dv = names.deep_view();
                    assert(dv[0] == names@[0]@ && dv[i as int] == names@[i as int]@);
                }
                return Err(ArchiveError::OutsideRoot(i));
            },
        }
        i = i + 1;
    }
    proof {
        let dv = names.deep_view();
        assert forall|j: int| 1 <= j < dv.len() implies #[trigger] dv[0].is_prefix_of(dv[j]) by {
            assert(dv[j] == names@[j]@);
        }
        assert(out.deep_view() =~= relative_paths(dv));
    }
    Ok(out)
}

} // verus!
