use vstd::prelude::*;
use vstd::string::*;

use crate::json::spec_pairs_view;

verus! {

/// Whether a path's file name ends in a dot followed by `ext`, with at least
/// one character of name before the dot (a file whose whole name is the
/// dotted extension has no extension and is skipped).
pub open spec fn spec_has_ext(p: Seq<char>, ext: Seq<char>) -> bool {
    &&& p.len() >= ext.len() + 2
    &&& p[p.len() - ext.len() - 1] == '.'
    &&& p.subrange(p.len() - ext.len(), p.len() as int) == ext
    &&& p[p.len() - ext.len() - 2] != '/'
}

/// The collector's allow-list: source-language files and manifest files.
pub open spec fn spec_collected_path(p: Seq<char>) -> bool {
    spec_has_ext(p, "cairo"@) || spec_has_ext(p, "toml"@)
}

/// Whether `p` ends in a dot followed by `ext`, with a non-slash character
/// before the dot.
fn has_ext(p: &str, ext: &str) -> (r: bool)
    ensures
        r == spec_has_ext(p@, ext@),
{
    let n = p.unicode_len();
    let m = ext.unicode_len();
    if n < m || n - m < 2 {
        return false;
    }
    if p.get_char(n - m - 1) != '.' {
        return false;
    }
    if p.get_char(n - m - 2) == '/' {
        return false;
    }
    let mut i: usize = 0;
    while i < m
        invariant
            n == p@.len(),
            m == ext@.len(),
            n >= m + 2,
            i <= m,
            forall|j: int| 0 <= j < i ==> p@[n - m + j] == ext@[j],
        decreases m - i,
    {
        if p.get_char(n - m + i) != ext.get_char(i) {
            proof {
                assert(p@.subrange(n - m, n as int)[i as int] == p@[n - m + i]);
            }
            return false;
        }
        i = i + 1;
    }
    proof {
        assert(p@.subrange(n - m, n as int) =~= ext@);
    }
    true
}

/// Whether the collector keeps a file at this workspace-relative path: its
/// extension is in the fixed allow-list.
pub fn has_collected_extension(p: &str) -> (r: bool)
    ensures
        r == spec_collected_path(p@),
{
    if has_ext(p, "cairo") {
        true
    } else {
        has_ext(p, "toml")
    }
}

/// No two entries share a key.
pub open spec fn spec_distinct_keys(v: Seq<(Seq<char>, Seq<char>)>) -> bool {
    forall|i: int, j: int| 0 <= i < j < v.len() ==> v[i].0 != v[j].0
}

/// Exactly the entries whose path is on the allow-list, in their given order.
pub open spec fn spec_collected_bundle(v: Seq<(Seq<char>, Seq<char>)>) -> Seq<
    (Seq<char>, Seq<char>),
> {
    v.filter(|e: (Seq<char>, Seq<char>)| spec_collected_path(e.0))
}

/// The source bundle of one verification attempt: a read-only mapping from
/// workspace-root-relative file path (forward-slash form) to file content,
/// with no key twice. Built once, fully, before any network call.
pub struct WorkspaceBundle {
    pub files: Vec<(String, String)>,
}

impl View for WorkspaceBundle {
    type V = Seq<(Seq<char>, Seq<char>)>;

    open spec fn view(&self) -> Seq<(Seq<char>, Seq<char>)> {
        spec_pairs_view(self.files@)
    }
}

impl WorkspaceBundle {
    /// Well-formed: relative paths are unique keys.
    pub open spec fn wf(&self) -> bool {
        spec_distinct_keys(self@)
    }
}

proof fn lemma_collected_bundle_take_step(v: Seq<(Seq<char>, Seq<char>)>, i: int)
    requires
        0 <= i < v.len(),
    ensures
        spec_collected_path(v[i].0) ==> spec_collected_bundle(v.take(i + 1))
            == spec_collected_bundle(v.take(i)) + seq![v[i]],
        !spec_collected_path(v[i].0) ==> spec_collected_bundle(v.take(i + 1))
            == spec_collected_bundle(v.take(i)),
{
    reveal(Seq::filter);
    let t = v.take(i + 1);
    assert(t.drop_last() =~= v.take(i));
    assert(t.last() == v[i]);
    if spec_collected_path(v[i].0) {
        assert(spec_collected_bundle(v.take(i)).push(v[i]) =~= spec_collected_bundle(v.take(i))
            + seq![v[i]]);
    }
}

proof fn lemma_collected_bundle_distinct(v: Seq<(Seq<char>, Seq<char>)>)
    requires
        spec_distinct_keys(v),
    ensures
        spec_distinct_keys(spec_collected_bundle(v)),
    decreases v.len(),
{
    reveal(Seq::filter);
    let pred = |e: (Seq<char>, Seq<char>)| spec_collected_path(e.0);
    if v.len() > 0 {
        let rest = v.drop_last();
        assert(spec_distinct_keys(rest)) by {
            assert(forall|i: int, j: int|
                0 <= i < j < rest.len() ==> rest[i] == v[i] && rest[j] == v[j]);
        }
        lemma_collected_bundle_distinct(rest);
        let f = spec_collected_bundle(rest);
        if pred(v.last()) {
            assert forall|i: int| 0 <= i < f.len() implies f[i].0 != v.last().0 by {
                assert(f.contains(f[i]));
                rest.lemma_filter_contains_rev(pred, f[i]);
                let j = choose|j: int| 0 <= j < rest.len() && rest[j] == f[i];
                assert(v[j] == rest[j]);
                assert(v[j].0 != v[v.len() - 1].0);
            }
            assert(spec_collected_bundle(v) =~= f.push(v.last()));
        } else {
            assert(spec_collected_bundle(v) =~= f);
        }
    }
}

/// The Workspace File Collector's pure core. Given every file found under
/// the workspace root, as a (relative path, content) list in traversal order,
/// keep exactly those whose extension is on the allow-list, keys and contents
/// unchanged and in order.
pub fn collect_bundle(entries: Vec<(String, String)>) -> (r: WorkspaceBundle)
    requires
        spec_distinct_keys(spec_pairs_view(entries@)),
    ensures
        r@ == spec_collected_bundle(spec_pairs_view(entries@)),
        r.wf(),
{
    let ghost views = spec_pairs_view(entries@);
    let mut files: Vec<(String, String)> = Vec::new();
    let n = entries.len();
    let mut i: usize = 0;
    while i < n
        invariant
            n == entries@.len(),
            i <= n,
            views == spec_pairs_view(entries@),
            views.len() == n,
            forall|j: int| 0 <= j < n ==> views[j] == (entries@[j].0@, entries@[j].1@),
            spec_pairs_view(files@) == spec_collected_bundle(views.take(i as int)),
        decreases n - i,
    {
        proof {
            lemma_collected_bundle_take_step(views, i as int);
        }
        if has_collected_extension(entries[i].0.as_str()) {
            let ghost before = spec_pairs_view(files@);
            files.push((entries[i].0.clone(), entries[i].1.clone()));
            proof {
                assert(spec_pairs_view(files@) =~= before + seq![views[i as int]]);
            }
        }
        i = i + 1;
    }
    proof {
        assert(views.take(n as int) =~= views);
        lemma_collected_bundle_distinct(views);
    }
    WorkspaceBundle { files }
}

} // verus!
