//! The attachment bundle: where copied-in files are stored, how a free name is
//! chosen there without ever overwriting, and the plan for ingesting a file.
use vstd::prelude::*;
use vstd::relations::injective_on;
use vstd::set_lib::{lemma_int_range, lemma_len_subset, lemma_map_size, set_int_range};

use crate::text::{decimal, decimal_string, lemma_decimal_injective, signed_decimal, signed_decimal_string};

verus! {

broadcast use vstd::seq_lib::seq_to_set_is_finite;

/// The view of an optional string.
pub open spec fn opt_view(o: Option<String>) -> Option<Seq<char>> {
    match o {
        Some(s) => Some(s@),
        None => None,
    }
}

/// The final component of a path, as text (`Path::file_name`).
pub uninterp spec fn path_file_name(p: Seq<char>) -> Option<Seq<char>>;

/// No character of `s` is a path separator.
pub open spec fn no_slash(s: Seq<char>) -> bool {
    forall|i: int| 0 <= i < s.len() ==> s[i] != '/'
}

/// Index of the last `.` in `name`, or -1 when there is none.
pub open spec fn last_dot(name: Seq<char>) -> int
    decreases name.len(),
{
    if name.len() == 0 {
        -1
    } else if name.last() == '.' {
        name.len() - 1
    } else {
        last_dot(name.drop_last())
    }
}

/// The stem of a file name, as `Path::file_stem` documents it: the whole name
/// when it has no `.`, or only a leading one; else the part before the last `.`.
pub open spec fn stem_of_name(name: Seq<char>) -> Seq<char> {
    if last_dot(name) <= 0 {
        name
    } else {
        name.take(last_dot(name))
    }
}

/// The extension of a file name, as `Path::extension` documents it: none when
/// the name has no `.`, or only a leading one; else the part after the last `.`.
pub open spec fn extension_of_name(name: Seq<char>) -> Option<Seq<char>> {
    if last_dot(name) <= 0 {
        None
    } else {
        Some(name.skip(last_dot(name) + 1))
    }
}

/// The stem of a path's final component (`Path::file_stem`).
pub open spec fn path_file_stem(p: Seq<char>) -> Option<Seq<char>> {
    match path_file_name(p) {
        Some(n) => Some(stem_of_name(n)),
        None => None,
    }
}

/// The extension of a path's final component (`Path::extension`).
pub open spec fn path_extension(p: Seq<char>) -> Option<Seq<char>> {
    match path_file_name(p) {
        Some(n) => extension_of_name(n),
        None => None,
    }
}

/// Relies on `std::path::Path::file_name`: the final component, if any; a
/// component is never empty and never holds a separator.
#[verifier::external_body]
fn file_name_of(path: &str) -> (r: Option<String>)
    ensures
        opt_view(r) == path_file_name(path@),
        r matches Some(n) ==> n@.len() > 0 && no_slash(n@),
{
    match std::path::Path::new(path).file_name() {
        Some(n) => n.to_str().map(String::from),
        None => None,
    }
}

/// Relies on `std::path::Path::file_stem`: the final component's stem, as its
/// documentation defines it from the file name.
#[verifier::external_body]
fn file_stem_of(path: &str) -> (r: Option<String>)
    ensures
        opt_view(r) == path_file_stem(path@),
{
    match std::path::Path::new(path).file_stem() {
        Some(n) => n.to_str().map(String::from),
        None => None,
    }
}

/// Relies on `std::path::Path::extension`: the final component's extension, as
/// its documentation defines it from the file name.
#[verifier::external_body]
fn extension_of(path: &str) -> (r: Option<String>)
    ensures
        opt_view(r) == path_extension(path@),
{
    match std::path::Path::new(path).extension() {
        Some(n) => n.to_str().map(String::from),
        None => None,
    }
}

/// `o`'s text, or `default` when absent.
pub open spec fn or_default(o: Option<Seq<char>>, default: Seq<char>) -> Seq<char> {
    match o {
        Some(s) => s,
        None => default,
    }
}

/// The bundle directory of a project: `<root>/projects/project_<id>/attachments`.
pub open spec fn bundle_dir_of(root: Seq<char>, project_id: int) -> Seq<char> {
    root + "/projects/project_"@ + signed_decimal(project_id) + "/attachments"@
}

/// `path` names an entry directly inside directory `dir`.
pub open spec fn is_inside(path: Seq<char>, dir: Seq<char>) -> bool {
    exists|name: Seq<char>| name.len() > 0 && no_slash(name) && path == dir + seq!['/'] + name
}

proof fn lemma_name_parts_no_slash(name: Seq<char>)
    requires
        no_slash(name),
    ensures
        no_slash(stem_of_name(name)),
        extension_of_name(name) matches Some(e) ==> no_slash(e),
{
    lemma_last_dot_range(name);
    if last_dot(name) > 0 {
        let i = last_dot(name);
        let stem = name.take(i);
        let ext = name.skip(i + 1);
        assert forall|j: int| 0 <= j < stem.len() implies #[trigger] stem[j] != '/' by {
            assert(stem[j] == name[j]);
        }
        assert forall|j: int| 0 <= j < ext.len() implies #[trigger] ext[j] != '/' by {
            assert(ext[j] == name[j + i + 1]);
        }
    }
}

proof fn lemma_last_dot_range(name: Seq<char>)
    ensures
        -1 <= last_dot(name) < name.len(),
    decreases name.len(),
{
    if name.len() > 0 {
        lemma_last_dot_range(name.drop_last());
    }
}

proof fn lemma_decimal_no_slash(n: nat)
    ensures
        no_slash(decimal(n)),
    decreases n,
{
    let t = crate::text::digit_chars();
    assert(t[0] == '0' && t[1] == '1' && t[2] == '2' && t[3] == '3' && t[4] == '4');
    assert(t[5] == '5' && t[6] == '6' && t[7] == '7' && t[8] == '8' && t[9] == '9');
    if n < 10 {
        assert(decimal(n) == seq![t[n as int]]);
    } else {
        lemma_decimal_no_slash(n / 10);
        let d = decimal(n);
        assert(d == decimal(n / 10).push(t[(n % 10) as int]));
        assert forall|j: int| 0 <= j < d.len() implies d[j] != '/' by {
            if j < d.len() - 1 {
                assert(d[j] == decimal(n / 10)[j]);
            }
        }
    }
}

proof fn lemma_numbered_no_slash(stem: Seq<char>, ext: Seq<char>, k: nat)
    requires
        no_slash(stem),
        no_slash(ext),
    ensures
        no_slash(numbered_name(stem, ext, k)),
{
    lemma_decimal_no_slash(k);
    let d = decimal(k);
    let a = stem + seq!['_'] + d;
    assert forall|j: int| 0 <= j < a.len() implies a[j] != '/' by {
        if j < stem.len() {
            assert(a[j] == stem[j]);
        } else if j > stem.len() {
            assert(a[j] == d[j - stem.len() - 1]);
        }
    }
    if ext.len() > 0 {
        let b = a + seq!['.'] + ext;
        assert forall|j: int| 0 <= j < b.len() implies b[j] != '/' by {
            if j < a.len() {
                assert(b[j] == a[j]);
            } else if j > a.len() {
                assert(b[j] == ext[j - a.len() - 1]);
            }
        }
    }
}

/// The name tried after `k` collisions: `<stem>_<k>.<ext>`, or `<stem>_<k>`
/// when there is no extension.
pub open spec fn numbered_name(stem: Seq<char>, ext: Seq<char>, k: nat) -> Seq<char> {
    if ext.len() == 0 {
        stem + seq!['_'] + decimal(k)
    } else {
        stem + seq!['_'] + decimal(k) + seq!['.'] + ext
    }
}

/// The `k`-th name tried: the file's own name first, then the numbered ones.
pub open spec fn candidate(first: Seq<char>, stem: Seq<char>, ext: Seq<char>, k: nat) -> Seq<char> {
    if k == 0 {
        first
    } else {
        numbered_name(stem, ext, k)
    }
}

/// `name` is the first candidate not in `taken`.
pub open spec fn is_first_free(
    name: Seq<char>,
    first: Seq<char>,
    stem: Seq<char>,
    ext: Seq<char>,
    taken: Seq<Seq<char>>,
) -> bool {
    exists|k: nat|
        name == #[trigger] candidate(first, stem, ext, k) && !taken.contains(name) && (forall|j: nat|
            j < k ==> taken.contains(#[trigger] candidate(first, stem, ext, j)))
}

/// The views of a list of names.
pub open spec fn names_of(v: Seq<String>) -> Seq<Seq<char>> {
    v.map_values(|s: String| s@)
}

proof fn lemma_numbered_injective(stem: Seq<char>, ext: Seq<char>, a: nat, b: nat)
    requires
        numbered_name(stem, ext, a) == numbered_name(stem, ext, b),
    ensures
        a == b,
{
    let na = numbered_name(stem, ext, a);
    let lo = stem.len() as int + 1;
    if ext.len() == 0 {
        assert(na.len() == lo + decimal(a).len());
        assert(numbered_name(stem, ext, b).len() == lo + decimal(b).len());
    } else {
        assert(na.len() == lo + decimal(a).len() + 1 + ext.len());
        assert(numbered_name(stem, ext, b).len() == lo + decimal(b).len() + 1 + ext.len());
    }
    assert(decimal(a).len() == decimal(b).len());
    assert(na.subrange(lo, lo + decimal(a).len() as int) =~= decimal(a));
    assert(na.subrange(lo, lo + decimal(b).len() as int) =~= decimal(b));
    lemma_decimal_injective(a, b);
}

/// When the numbered names `1..=n` are all among `n` taken names, the next one is free.
proof fn lemma_next_numbered_free(stem: Seq<char>, ext: Seq<char>, taken: Seq<Seq<char>>)
    requires
        forall|j: nat| 1 <= j <= taken.len() ==> taken.contains(#[trigger] numbered_name(stem, ext, j)),
    ensures
        !taken.contains(numbered_name(stem, ext, taken.len() + 1)),
{
    let n = taken.len() as int;
    if taken.contains(numbered_name(stem, ext, (n + 1) as nat)) {
        let f = |j: int| numbered_name(stem, ext, j as nat);
        let dom = set_int_range(1, n + 2);
        lemma_int_range(1, n + 2);
        assert(injective_on(f, dom)) by {
            assert forall|x1: int, x2: int|
                dom.contains(x1) && dom.contains(x2) && #[trigger] f(x1) == #[trigger] f(x2) implies x1 == x2 by {
                lemma_numbered_injective(stem, ext, x1 as nat, x2 as nat);
            }
        }
        lemma_map_size(dom, dom.map(f), f);
        assert(dom.map(f).subset_of(taken.to_set())) by {
            assert forall|x: Seq<char>| dom.map(f).contains(x) implies taken.to_set().contains(x) by {
                let j = choose|j: int| dom.contains(j) && f(j) == x;
                assert(taken.contains(numbered_name(stem, ext, j as nat)));
            }
        }
        taken.lemma_cardinality_of_set();
        lemma_len_subset(dom.map(f), taken.to_set());
    }
}

/// Whether `name` is among `taken`.
fn contains_name(taken: &Vec<String>, name: &String) -> (r: bool)
    ensures
        r == names_of(taken@).contains(name@),
{
    let mut i: usize = 0;
    while i < taken.len()
        invariant
            i <= taken@.len(),
            forall|j: int| 0 <= j < i ==> taken@[j]@ != name@,
        decreases taken@.len() - i,
    {
        if taken[i] == *name {
            assert(names_of(taken@)[i as int] == name@);
            return true;
        }
        i = i + 1;
    }
    assert forall|j: int| 0 <= j < names_of(taken@).len() implies names_of(taken@)[j] != name@ by {
        assert(taken@[j]@ != name@);
    }
    false
}

/// `<stem>_<k>.<ext>`, or `<stem>_<k>` when `ext` is empty.
pub fn numbered_file_name(stem: &str, ext: &str, k: u128) -> (r: String)
    ensures
        r@ == numbered_name(stem@, ext@, k as nat),
{
    let mut s = stem.to_owned();
    s.append("_");
    let digits = decimal_string(k);
    s.append(digits.as_str());
    proof {
        reveal_strlit("_");
    }
    if ext.unicode_len() > 0 {
        s.append(".");
        s.append(ext);
        proof {
            reveal_strlit(".");
        }
    }
    assert(s@ =~= numbered_name(stem@, ext@, k as nat));
    s
}

/// The first of `first`, `<stem>_1.<ext>`, `<stem>_2.<ext>`, ... that is not
/// among `taken`: a file stored under it overwrites nothing.
pub fn free_name(first: &str, stem: &str, ext: &str, taken: &Vec<String>) -> (r: String)
    ensures
        is_first_free(r@, first@, stem@, ext@, names_of(taken@)),
{
    let ghost t = names_of(taken@);
    let own = first.to_owned();
    if !contains_name(taken, &own) {
        assert(own@ == candidate(first@, stem@, ext@, 0));
        return own;
    }
    let n = taken.len();
    let mut k: u128 = 1;
    while k <= n as u128
        invariant
            n == taken@.len(),
            t == names_of(taken@),
            1 <= k <= n + 1,
            t.contains(first@),
            forall|j: nat| 1 <= j < k ==> t.contains(#[trigger] numbered_name(stem@, ext@, j)),
        decreases n + 1 - k,
    {
        let c = numbered_file_name(stem, ext, k);
        if !contains_name(taken, &c) {
            assert(c@ == candidate(first@, stem@, ext@, k as nat));
            assert forall|j: nat| j < k implies t.contains(#[trigger] candidate(first@, stem@, ext@, j)) by {
                if j > 0 {
                    assert(t.contains(numbered_name(stem@, ext@, j)));
                }
            }
            return c;
        }
        k = k + 1;
    }
    let c = numbered_file_name(stem, ext, (n as u128) + 1);
    proof {
        assert(t.len() == n);
        lemma_next_numbered_free(stem@, ext@, t);
        assert(c@ == candidate(first@, stem@, ext@, (n + 1) as nat));
        assert forall|j: nat| j < n + 1 implies t.contains(#[trigger] candidate(first@, stem@, ext@, j)) by {
            if j > 0 {
                assert(t.contains(numbered_name(stem@, ext@, j)));
            }
        }
    }
    c
}

/// The bundle directory of project `project_id` under data root `root`.
pub fn bundle_dir(root: &str, project_id: i64) -> (r: String)
    ensures
        r@ == bundle_dir_of(root@, project_id as int),
{
    let mut s = root.to_owned();
    s.append("/projects/project_");
    let id = signed_decimal_string(project_id);
    s.append(id.as_str());
    s.append("/attachments");
    s
}

/// Where and under what name an ingested file is recorded.
pub struct IngestPlan {
    /// The file's own name (`unknown` when the path has none).
    pub file_name: String,
    /// The file's extension (`unknown` when it has none).
    pub file_type: String,
    /// The path recorded for the attachment: the copy in the bundle, or the source itself.
    pub stored_path: String,
    /// True when the file stays where it is, outside the bundle.
    pub is_external: bool,
}

/// Plans the ingestion of the file at `source_path` into project `project_id`.
/// With `copy_to_bundle` (the default), the file goes into the project's
/// bundle under the first name that none of `bundle_entries` (the names
/// already there) holds; otherwise it is recorded where it is.
pub fn plan_ingest(
    root: &str,
    project_id: i64,
    source_path: &str,
    copy_to_bundle: Option<bool>,
    bundle_entries: &Vec<String>,
) -> (r: IngestPlan)
    ensures
        r.file_name@ == or_default(path_file_name(source_path@), "unknown"@),
        r.file_type@ == or_default(path_extension(source_path@), "unknown"@),
        r.is_external == (copy_to_bundle == Some(false)),
        r.is_external ==> r.stored_path@ == source_path@,
        !r.is_external ==> exists|name: Seq<char>|
            r.stored_path@ == bundle_dir_of(root@, project_id as int) + seq!['/'] + name
                && is_first_free(
                name,
                or_default(path_file_name(source_path@), "file"@),
                or_default(path_file_stem(source_path@), "file"@),
                or_default(path_extension(source_path@), ""@),
                names_of(bundle_entries@),
            ),
        !r.is_external ==> is_inside(r.stored_path@, bundle_dir_of(root@, project_id as int)),
{
    let name_opt = file_name_of(source_path);
    let ext_opt = extension_of(source_path);
    let file_name = match &name_opt {
        Some(n) => n.clone(),
        None => String::from_str("unknown"),
    };
    let file_type = match &ext_opt {
        Some(e) => e.clone(),
        None => String::from_str("unknown"),
    };
    let copy = match copy_to_bundle {
        Some(c) => c,
        None => true,
    };
    if !copy {
        return IngestPlan { file_name, file_type, stored_path: source_path.to_owned(), is_external: true };
    }
    let first = match &name_opt {
        Some(n) => n.clone(),
        None => String::from_str("file"),
    };
    let stem = match file_stem_of(source_path) {
        Some(s) => s,
        None => String::from_str("file"),
    };
    let ext = match &ext_opt {
        Some(e) => e.clone(),
        None => String::new(),
    };
    proof {
        reveal_strlit("");
        reveal_strlit("file");
        assert(first@ == or_default(path_file_name(source_path@), "file"@));
        assert(stem@ == or_default(path_file_stem(source_path@), "file"@));
        assert(ext@ == or_default(path_extension(source_path@), ""@));
        if let Some(n) = name_opt {
            lemma_name_parts_no_slash(n@);
        }
        assert(no_slash(first@));
        assert(no_slash(stem@));
        assert(no_slash(ext@));
    }
    let name = free_name(first.as_str(), stem.as_str(), ext.as_str(), bundle_entries);
    let mut stored_path = bundle_dir(root, project_id);
    let ghost dir = stored_path@;
    stored_path.append("/");
    stored_path.append(name.as_str());
    proof {
        reveal_strlit("/");
        assert(stored_path@ =~= dir + seq!['/'] + name@);
        let k = choose|k: nat|
            name@ == #[trigger] candidate(first@, stem@, ext@, k) && !names_of(bundle_entries@).contains(name@)
                && (forall|j: nat| j < k ==> names_of(bundle_entries@).contains(#[trigger] candidate(first@, stem@, ext@, j)));
        reveal_strlit("file");
        if k > 0 {
            assert(numbered_name(stem@, ext@, k).len() > 0);
            lemma_numbered_no_slash(stem@, ext@, k);
        }
        assert(name@.len() > 0);
        assert(no_slash(name@));
    }
    IngestPlan { file_name, file_type, stored_path, is_external: false }
}

/// Ingestion never overwrites: once a file is stored in the bundle under
/// `stored`, a later file whose name is chosen with `stored` among the bundle's
/// entries gets a different name, whatever its own name, stem or extension.
pub proof fn law_no_overwrite(
    stored: Seq<char>,
    chosen: Seq<char>,
    first: Seq<char>,
    stem: Seq<char>,
    ext: Seq<char>,
    entries: Seq<Seq<char>>,
)
    requires
        entries.contains(stored),
        is_first_free(chosen, first, stem, ext, entries),
    ensures
        chosen != stored,
{
}

} // verus!
