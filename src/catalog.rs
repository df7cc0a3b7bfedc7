use vstd::prelude::*;

verus! {

/// One entry met while walking an environment directory.
pub struct CatalogEntry {
    pub path: String,
    /// Whether the entry is a regular file; directories are walked into, not listed.
    pub is_file: bool,
}

pub open spec fn ends_with(s: Seq<char>, suffix: Seq<char>) -> bool {
    s.len() >= suffix.len() && s.subrange(s.len() - suffix.len(), s.len() as int) == suffix
}

/// Whether `s` ends with `suffix`, compared character by character.
pub fn has_suffix(s: &str, suffix: &str) -> (r: bool)
    ensures
        r == ends_with(s@, suffix@),
{
    let n = s.unicode_len();
    let m = suffix.unicode_len();
    if n < m {
        return false;
    }
    let start = n - m;
    let mut j: usize = 0;
    while j < m
        invariant
            j <= m,
            n == s@.len(),
            m == suffix@.len(),
            start == n - m,
            forall|k: int| 0 <= k < j ==> s@[start + k] == suffix@[k],
        decreases m - j,
    {
        if s.get_char(start + j) != suffix.get_char(j) {
            assert(s@.subrange(start as int, n as int)[j as int] != suffix@[j as int]);
            return false;
        }
        j = j + 1;
    }
    assert(s@.subrange(start as int, n as int) =~= suffix@);
    true
}

/// The stem of a path: its last component without its extension.
pub uninterp spec fn path_stem(path: Seq<char>) -> Option<Seq<char>>;

/// Relies on `std::path::Path::file_stem`: the stem depends on the path alone, and a
/// path whose text ends in `.json` ends in a normal component, which has a stem.
#[verifier::external_body]
fn file_stem(path: &str) -> (r: Option<String>)
    ensures
        ends_with(path@, ".json"@) ==> r is Some,
        r is Some <==> path_stem(path@) is Some,
        r is Some ==> r->Some_0@ == path_stem(path@)->Some_0,
{
    std::path::Path::new(path).file_stem().and_then(|s| s.to_str()).map(|s| s.to_string())
}

/// A file that describes an environment: a regular file whose path ends in `.json`.
pub open spec fn is_environment_file(e: CatalogEntry) -> bool {
    e.is_file && ends_with(e.path@, ".json"@)
}

/// The environment names that a walk over `entries` yields, in walk order.
pub open spec fn catalog(entries: Seq<CatalogEntry>) -> Seq<Seq<char>>
    decreases entries.len(),
{
    if entries.len() == 0 {
        seq![]
    } else {
        let rest = catalog(entries.drop_last());
        let e = entries.last();
        if is_environment_file(e) {
            rest.push(path_stem(e.path@)->Some_0)
        } else {
            rest
        }
    }
}

pub open spec fn names_view(v: Seq<String>) -> Seq<Seq<char>> {
    v.map_values(|s: String| s@)
}

/// A walk that meets no environment file yields no environment, so nothing is
/// left to select.
pub proof fn lemma_no_environment_files(entries: Seq<CatalogEntry>)
    requires
        forall|i: int| 0 <= i < entries.len() ==> !is_environment_file(#[trigger] entries[i]),
    ensures
        catalog(entries).len() == 0,
    decreases entries.len(),
{
    if entries.len() > 0 {
        let rest = entries.drop_last();
        assert forall|i: int| 0 <= i < rest.len() implies !is_environment_file(#[trigger] rest[i]) by {
            assert(rest[i] == entries[i]);
        }
        lemma_no_environment_files(rest);
        assert(!is_environment_file(entries[entries.len() - 1]));
    }
}

/// The names of the environments found in a directory walk: the stem of each
/// regular file whose path ends in `.json`, in the order the walk met them.
pub fn environment_names(entries: &Vec<CatalogEntry>) -> (r: Vec<String>)
    ensures
        names_view(r@) == catalog(entries@),
{
    let mut names: Vec<String> = Vec::new();
    let mut i: usize = 0;
    while i < entries.len()
        invariant
            i <= entries@.len(),
            names_view(names@) == catalog(entries@.subrange(0, i as int)),
        decreases entries@.len() - i,
    {
        let entry = &entries[i];
        let ghost before = entries@.subrange(0, i as int);
        let ghost after = entries@.subrange(0, i as int + 1);
        assert(after.drop_last() =~= before);
        assert(after.last() == *entry);
        if entry.is_file && has_suffix(entry.path.as_str(), ".json") {
            match file_stem(entry.path.as_str()) {
                Some(stem) => {
                    names.push(stem);
                    assert(names_view(names@) =~= catalog(after));
                },
                None => {},
            }
        }
        i = i + 1;
    }
    assert(entries@.subrange(0, entries@.len() as int) =~= entries@);
    names
}

} // verus!
