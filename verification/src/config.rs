//! The configuration and the forest builder. A configuration names
//! standalone repository paths and project-directory roots. Together with a
//! snapshot of what the filesystem holds under those roots, it determines a
//! forest of project nodes: standalone leaves first, then one group node per
//! readable root, whose subdirectories are classified by the `.bare` marker
//! and sorted by name at every level.

use vstd::prelude::*;
use vstd::string::StringExecFns;
use crate::order::{lemma_insert_by_at, lemma_sort_by_ins_elems, lemma_sort_by_ins_sorted,
    sort_by_ins, sorted_by_leq};
use crate::project_item::{is_leaf, same_item, ProjectItem, ProjectItemType, ProjectNode};
use crate::text::{expand_home, join_path, lemma_lex_leq_total, lemma_lex_leq_transitive, lex_leq,
    spec_expand_home, str_leq};

verus! {

/// The two configured path lists.
#[derive(Debug)]
pub struct Config {
    pub project_directories: Vec<String>,
    pub standalone_projects: Vec<String>,
}

impl Default for Config {
    /// One project-directory root under the home directory and one
    /// standalone dotfiles checkout.
    fn default() -> (r: Self)
        ensures
            r.project_directories.deep_view() =~= seq!["~/proj"@],
            r.standalone_projects.deep_view() =~= seq!["~/.dotfiles"@],
    {
        let r = Config {
            project_directories: vec!["~/proj".to_owned()],
            standalone_projects: vec!["~/.dotfiles".to_owned()],
        };
        r
    }
}

/// What one immediate subdirectory of a root holds: its name and the names
/// of its own immediate entries.
#[derive(Debug)]
pub struct SubdirScan {
    pub name: String,
    pub entries: Vec<String>,
}

/// What one configured project-directory root holds: whether it could be
/// read at all, and its immediate subdirectories.
#[derive(Debug)]
pub struct DirScan {
    pub readable: bool,
    pub subdirs: Vec<SubdirScan>,
}

/// The view of a scanned subdirectory: its name and its entry names.
pub open spec fn subdir_views(s: Seq<SubdirScan>) -> Seq<(Seq<char>, Seq<Seq<char>>)> {
    Seq::new(s.len(), |i: int| (s[i].name@, s[i].entries.deep_view()))
}

/// Name order on character sequences, as one reusable relation value.
pub open spec fn name_le_fn() -> spec_fn(Seq<char>, Seq<char>) -> bool {
    |a: Seq<char>, b: Seq<char>| lex_leq(a, b)
}

/// Name order on scanned subdirectories.
pub open spec fn subdir_le_fn() -> spec_fn(
    (Seq<char>, Seq<Seq<char>>),
    (Seq<char>, Seq<Seq<char>>),
) -> bool {
    |a: (Seq<char>, Seq<Seq<char>>), b: (Seq<char>, Seq<Seq<char>>)| lex_leq(a.0, b.0)
}

/// Whether an entry list holds the `.bare` marker.
pub open spec fn has_bare(entries: Seq<Seq<char>>) -> bool {
    exists|i: int| 0 <= i < entries.len() && entries[i] == ".bare"@
}

/// The entry names that count as worktree checkouts: everything except the
/// `.bare` store and the `.git` pointer, in scan order.
pub open spec fn checkout_entries(entries: Seq<Seq<char>>) -> Seq<Seq<char>>
    decreases entries.len(),
{
    if entries.len() == 0 {
        Seq::empty()
    } else {
        let rest = checkout_entries(entries.drop_last());
        if entries.last() == ".bare"@ || entries.last() == ".git"@ {
            rest
        } else {
            rest.push(entries.last())
        }
    }
}

/// The checkout names of a subdirectory, sorted by name.
pub open spec fn sorted_checkout_names(entries: Seq<Seq<char>>) -> Seq<Seq<char>> {
    sort_by_ins(name_le_fn(), checkout_entries(entries))
}

/// `children` are exactly the worktree-checkout leaves named by `names`,
/// in that order, under the container at `parent`.
pub open spec fn matches_checkouts(
    children: Seq<ProjectNode>,
    parent: Seq<char>,
    names: Seq<Seq<char>>,
) -> bool {
    &&& children.len() == names.len()
    &&& forall|i: int|
        0 <= i < names.len() ==> is_leaf(
            #[trigger] children[i],
            parent + "/"@ + names[i],
            ProjectItemType::WorktreeCheckout,
        )
}

/// How one scanned subdirectory of a group is classified: with a `.bare`
/// entry it is a worktree container whose children are its sorted checkout
/// names; without one it is a standalone repository leaf.
pub open spec fn matches_subdir(
    c: ProjectNode,
    parent: Seq<char>,
    sd: (Seq<char>, Seq<Seq<char>>),
) -> bool {
    let cpath = parent + "/"@ + sd.0;
    if has_bare(sd.1) {
        &&& c.item.path@ == cpath
        &&& c.item.project_type == ProjectItemType::WorktreeContainerRepo
        &&& !c.item.dirty
        &&& matches_checkouts(c.children@, cpath, sorted_checkout_names(sd.1))
    } else {
        is_leaf(c, cpath, ProjectItemType::StandaloneRepo)
    }
}

/// `children` are the classifications of `subdirs`, sorted by name.
pub open spec fn matches_group_children(
    children: Seq<ProjectNode>,
    parent: Seq<char>,
    subdirs: Seq<(Seq<char>, Seq<Seq<char>>)>,
) -> bool {
    let sorted = sort_by_ins(subdir_le_fn(), subdirs);
    &&& children.len() == sorted.len()
    &&& forall|i: int|
        0 <= i < sorted.len() ==> matches_subdir(#[trigger] children[i], parent, sorted[i])
}

/// A group node for the root at `path`, with the scanned and classified
/// children.
pub open spec fn matches_group(n: ProjectNode, path: Seq<char>, scan: DirScan) -> bool {
    &&& n.item.path@ == path
    &&& n.item.project_type == ProjectItemType::ProjectDirectoryGroup
    &&& !n.item.dirty
    &&& matches_group_children(n.children@, path, subdir_views(scan.subdirs@))
}

/// `nodes` are the group nodes of the readable roots among `dirs`, in
/// configuration order; unreadable roots contribute nothing.
pub open spec fn groups_match(
    nodes: Seq<ProjectNode>,
    home: Seq<char>,
    dirs: Seq<String>,
    scans: Seq<DirScan>,
) -> bool
    decreases dirs.len(),
{
    if dirs.len() == 0 || scans.len() == 0 {
        nodes.len() == 0
    } else if scans.last().readable {
        &&& nodes.len() > 0
        &&& matches_group(nodes.last(), spec_expand_home(home, dirs.last()@), scans.last())
        &&& groups_match(nodes.drop_last(), home, dirs.drop_last(), scans.drop_last())
    } else {
        groups_match(nodes, home, dirs.drop_last(), scans.drop_last())
    }
}

/// No checkout name is ever `.bare` or `.git`, and each one was an entry of
/// the scanned subdirectory.
pub proof fn lemma_checkout_entries_clean(entries: Seq<Seq<char>>)
    ensures
        forall|i: int|
            0 <= i < checkout_entries(entries).len() ==> #[trigger] checkout_entries(entries)[i]
                != ".bare"@ && checkout_entries(entries)[i] != ".git"@ && entries.contains(
                checkout_entries(entries)[i],
            ),
    decreases entries.len(),
{
    if entries.len() > 0 {
        lemma_checkout_entries_clean(entries.drop_last());
        assert forall|i: int| 0 <= i < checkout_entries(entries).len() implies
            #[trigger] checkout_entries(entries)[i] != ".bare"@ && checkout_entries(entries)[i]
            != ".git"@ && entries.contains(checkout_entries(entries)[i]) by {
            let r = checkout_entries(entries);
            let rest = checkout_entries(entries.drop_last());
            if i < rest.len() {
                assert(r[i] == rest[i]);
                let j = choose|j: int| 0 <= j < entries.drop_last().len()
                    && entries.drop_last()[j] == rest[i];
                assert(entries[j] == rest[i]);
            } else {
                assert(r[i] == entries.last());
                assert(entries[entries.len() - 1] == entries.last());
            }
        }
    }
}

/// The checkout names attached to a container are sorted by name and hold
/// neither `.bare` nor `.git`.
pub proof fn lemma_checkout_names_sorted_and_clean(entries: Seq<Seq<char>>)
    ensures
        sorted_by_leq(name_le_fn(), sorted_checkout_names(entries)),
        forall|i: int|
            0 <= i < sorted_checkout_names(entries).len()
                ==> #[trigger] sorted_checkout_names(entries)[i] != ".bare"@
                && sorted_checkout_names(entries)[i] != ".git"@,
{
    assert forall|a: Seq<char>, b: Seq<char>| #[trigger] name_le_fn()(a, b) || name_le_fn()(
        b,
        a,
    ) by {
        lemma_lex_leq_total(a, b);
    }
    assert forall|a: Seq<char>, b: Seq<char>, c: Seq<char>|
        #[trigger] name_le_fn()(a, b) && #[trigger] name_le_fn()(b, c) implies name_le_fn()(
        a,
        c,
    ) by {
        lemma_lex_leq_transitive(a, b, c);
    }
    lemma_sort_by_ins_sorted(name_le_fn(), checkout_entries(entries));
    lemma_sort_by_ins_elems(name_le_fn(), checkout_entries(entries));
    lemma_checkout_entries_clean(entries);
    assert forall|i: int| 0 <= i < sorted_checkout_names(entries).len() implies
        #[trigger] sorted_checkout_names(entries)[i] != ".bare"@ && sorted_checkout_names(
        entries,
    )[i] != ".git"@ by {
        let e = sorted_checkout_names(entries)[i];
        assert(checkout_entries(entries).contains(e));
        let j = choose|j: int| 0 <= j < checkout_entries(entries).len() && checkout_entries(
            entries,
        )[j] == e;
    }
}

/// The subdirectory order used for a group's children is sorted by name.
pub proof fn lemma_subdir_order_sorted(subdirs: Seq<(Seq<char>, Seq<Seq<char>>)>)
    ensures
        sorted_by_leq(subdir_le_fn(), sort_by_ins(subdir_le_fn(), subdirs)),
{
    assert forall|a: (Seq<char>, Seq<Seq<char>>), b: (Seq<char>, Seq<Seq<char>>)|
        #[trigger] subdir_le_fn()(a, b) || subdir_le_fn()(b, a) by {
        lemma_lex_leq_total(a.0, b.0);
    }
    assert forall|a: (Seq<char>, Seq<Seq<char>>), b: (Seq<char>, Seq<Seq<char>>), c: (
        Seq<char>,
        Seq<Seq<char>>,
    )| #[trigger] subdir_le_fn()(a, b) && #[trigger] subdir_le_fn()(b, c) implies subdir_le_fn()(
        a,
        c,
    ) by {
        lemma_lex_leq_transitive(a.0, b.0, c.0);
    }
    lemma_sort_by_ins_sorted(subdir_le_fn(), subdirs);
}

/// Classification is deterministic: two nodes classified from the same
/// scanned subdirectory agree on every observable field, child by child.
pub proof fn lemma_classification_deterministic(
    c1: ProjectNode,
    c2: ProjectNode,
    parent: Seq<char>,
    sd: (Seq<char>, Seq<Seq<char>>),
)
    requires
        matches_subdir(c1, parent, sd),
        matches_subdir(c2, parent, sd),
    ensures
        same_item(c1.item, c2.item),
        c1.children@.len() == c2.children@.len(),
        forall|k: int|
            0 <= k < c1.children@.len() ==> same_item(
                #[trigger] c1.children@[k].item,
                c2.children@[k].item,
            ),
{
}

/// Forest building is deterministic: any two group-node sequences built
/// from the same configuration, home directory and filesystem snapshot
/// agree group for group and child for child.
pub proof fn lemma_forest_deterministic(
    f1: Seq<ProjectNode>,
    f2: Seq<ProjectNode>,
    home: Seq<char>,
    dirs: Seq<String>,
    scans: Seq<DirScan>,
)
    requires
        groups_match(f1, home, dirs, scans),
        groups_match(f2, home, dirs, scans),
    ensures
        f1.len() == f2.len(),
        forall|k: int| 0 <= k < f1.len() ==> same_item(#[trigger] f1[k].item, f2[k].item),
        forall|k: int|
            0 <= k < f1.len() ==> #[trigger] f1[k].children@.len() == f2[k].children@.len(),
        forall|k: int, j: int|
            0 <= k < f1.len() && 0 <= j < f1[k].children@.len() ==> same_item(
                #[trigger] f1[k].children@[j].item,
                f2[k].children@[j].item,
            ),
    decreases dirs.len(),
{
    if dirs.len() == 0 || scans.len() == 0 {
    } else if scans.last().readable {
        lemma_forest_deterministic(
            f1.drop_last(),
            f2.drop_last(),
            home,
            dirs.drop_last(),
            scans.drop_last(),
        );
        let n1 = f1.last();
        let n2 = f2.last();
        let sorted = sort_by_ins(subdir_le_fn(), subdir_views(scans.last().subdirs@));
        let path = spec_expand_home(home, dirs.last()@);
        assert forall|j: int| 0 <= j < n1.children@.len() implies same_item(
            #[trigger] n1.children@[j].item,
            n2.children@[j].item,
        ) by {
            lemma_classification_deterministic(n1.children@[j], n2.children@[j], path, sorted[j]);
        }
        assert forall|k: int| 0 <= k < f1.len() implies same_item(
            #[trigger] f1[k].item,
            f2[k].item,
        ) by {
            if k < f1.len() - 1 {
                assert(f1.drop_last()[k] == f1[k]);
                assert(f2.drop_last()[k] == f2[k]);
            }
        }
        assert forall|k: int| 0 <= k < f1.len() implies #[trigger] f1[k].children@.len()
            == f2[k].children@.len() by {
            if k < f1.len() - 1 {
                assert(f1.drop_last()[k] == f1[k]);
                assert(f2.drop_last()[k] == f2[k]);
            }
        }
        assert forall|k: int, j: int|
            0 <= k < f1.len() && 0 <= j < f1[k].children@.len() implies same_item(
            #[trigger] f1[k].children@[j].item,
            f2[k].children@[j].item,
        ) by {
            if k < f1.len() - 1 {
                assert(f1.drop_last()[k] == f1[k]);
                assert(f2.drop_last()[k] == f2[k]);
            } else {
                lemma_classification_deterministic(
                    n1.children@[j],
                    n2.children@[j],
                    path,
                    sorted[j],
                );
            }
        }
    } else {
        lemma_forest_deterministic(f1, f2, home, dirs.drop_last(), scans.drop_last());
    }
}

/// The warning line recorded for an unreadable project-directory root.
pub open spec fn spec_scan_warning(path: Seq<char>) -> Seq<char> {
    path + " was set as a project directory but is not a directory. skipping."@
}

/// `lines` are the warnings of the unreadable roots among `dirs`, in
/// configuration order: scanning never fails, it only reports.
pub open spec fn warnings_match(
    lines: Seq<Seq<char>>,
    home: Seq<char>,
    dirs: Seq<String>,
    scans: Seq<DirScan>,
) -> bool
    decreases dirs.len(),
{
    if dirs.len() == 0 || scans.len() == 0 {
        lines.len() == 0
    } else if scans.last().readable {
        warnings_match(lines, home, dirs.drop_last(), scans.drop_last())
    } else {
        &&& lines.len() > 0
        &&& lines.last() == spec_scan_warning(spec_expand_home(home, dirs.last()@))
        &&& warnings_match(lines.drop_last(), home, dirs.drop_last(), scans.drop_last())
    }
}

/// Whether the entry list holds the `.bare` marker.
fn contains_bare(entries: &Vec<String>) -> (r: bool)
    ensures
        r == has_bare(entries.deep_view()),
{
    let bare: String = ".bare".to_owned();
    let mut i: usize = 0;
    while i < entries.len()
        invariant
            i <= entries@.len(),
            bare@ == ".bare"@,
            forall|j: int| 0 <= j < i ==> entries.deep_view()[j] != ".bare"@,
        decreases entries@.len() - i,
    {
        if entries[i].eq(&bare) {
            assert(entries.deep_view()[i as int] == ".bare"@);
            return true;
        }
        i = i + 1;
    }
    false
}

/// Keeps the entries that count as worktree checkouts, in scan order.
fn filter_checkout_entries(entries: Vec<String>) -> (r: Vec<String>)
    ensures
        r.deep_view() =~= checkout_entries(entries.deep_view()),
{
    let ghost ev = entries.deep_view();
    let bare: String = ".bare".to_owned();
    let git: String = ".git".to_owned();
    let mut rest = entries;
    let mut out: Vec<String> = Vec::new();
    while rest.len() > 0
        invariant
            rest@.len() <= ev.len(),
            rest.deep_view() =~= ev.skip(ev.len() - rest@.len()),
            out.deep_view() =~= checkout_entries(ev.subrange(0, ev.len() - rest@.len())),
            bare@ == ".bare"@,
            git@ == ".git"@,
        decreases rest@.len(),
    {
        let ghost p = ev.len() - rest@.len();
        let ghost rdv = rest.deep_view();
        let e = rest.remove(0);
        proof {
            assert(rdv[0] == ev.skip(p as int)[0]);
            assert(e@ == rdv[0]);
            assert(e@ == ev[p as int]);
            assert(rest.deep_view() =~= rdv.skip(1));
            assert(rest.deep_view() =~= ev.skip(p + 1));
            assert(ev.subrange(0, p + 1).drop_last() =~= ev.subrange(0, p as int));
            assert(ev.subrange(0, p + 1).last() == ev[p as int]);
        }
        if e == bare || e == git {
        } else {
            out.push(e);
        }
        proof {
            assert(out.deep_view() =~= checkout_entries(ev.subrange(0, p + 1)));
        }
    }
    proof {
        assert(ev.subrange(0, ev.len() as int) =~= ev);
    }
    out
}

/// The index where `x` belongs in the name-ordered list `out`.
fn name_insert_position(out: &Vec<String>, x: &String) -> (k: usize)
    ensures
        k <= out@.len(),
        forall|j: int| 0 <= j < k ==> lex_leq(out.deep_view()[j], x@),
        k < out@.len() ==> !lex_leq(out.deep_view()[k as int], x@),
{
    let mut k: usize = 0;
    while k < out.len()
        invariant
            k <= out@.len(),
            forall|j: int| 0 <= j < k ==> lex_leq(out.deep_view()[j], x@),
        decreases out@.len() - k,
    {
        if !str_leq(out[k].as_str(), x.as_str()) {
            return k;
        }
        k = k + 1;
    }
    k
}

/// Sorts entry names under the name order, deterministically.
fn sort_names(v: Vec<String>) -> (r: Vec<String>)
    ensures
        r.deep_view() =~= sort_by_ins(name_le_fn(), v.deep_view()),
{
    let ghost orig = v.deep_view();
    let mut rest = v;
    let mut out: Vec<String> = Vec::new();
    while rest.len() > 0
        invariant
            rest@.len() <= orig.len(),
            rest.deep_view() =~= orig.skip(orig.len() - rest@.len()),
            out.deep_view() =~= sort_by_ins(name_le_fn(), orig.subrange(
                0,
                orig.len() - rest@.len(),
            )),
        decreases rest@.len(),
    {
        let ghost p = orig.len() - rest@.len();
        let ghost rdv = rest.deep_view();
        let x = rest.remove(0);
        proof {
            assert(rdv[0] == orig.skip(p as int)[0]);
            assert(x@ == rdv[0]);
            assert(x@ == orig[p as int]);
            assert(rest.deep_view() =~= rdv.skip(1));
            assert(rest.deep_view() =~= orig.skip(p + 1));
        }
        let k = name_insert_position(&out, &x);
        proof {
            lemma_insert_by_at(name_le_fn(), x@, out.deep_view(), k as int);
        }
        let ghost old_dv = out.deep_view();
        out.insert(k, x);
        proof {
            assert(out.deep_view() =~= old_dv.subrange(0, k as int) + seq![x@] + old_dv.skip(
                k as int,
            ));
            assert(orig.subrange(0, p + 1).drop_last() =~= orig.subrange(0, p));
            assert(orig.subrange(0, p + 1).last() == orig[p]);
            assert(out.deep_view() =~= sort_by_ins(name_le_fn(), orig.subrange(0, p + 1)));
        }
    }
    proof {
        assert(orig.subrange(0, orig.len() as int) =~= orig);
    }
    out
}

/// The index where the subdirectory `x` belongs in the name-ordered list.
fn subdir_insert_position(out: &Vec<SubdirScan>, x: &SubdirScan) -> (k: usize)
    ensures
        k <= out@.len(),
        forall|j: int| 0 <= j < k ==> lex_leq(subdir_views(out@)[j].0, x.name@),
        k < out@.len() ==> !lex_leq(subdir_views(out@)[k as int].0, x.name@),
{
    let mut k: usize = 0;
    while k < out.len()
        invariant
            k <= out@.len(),
            forall|j: int| 0 <= j < k ==> lex_leq(subdir_views(out@)[j].0, x.name@),
        decreases out@.len() - k,
    {
        if !str_leq(out[k].name.as_str(), x.name.as_str()) {
            return k;
        }
        k = k + 1;
    }
    k
}

/// Sorts scanned subdirectories by name, deterministically.
fn sort_subdirs(v: Vec<SubdirScan>) -> (r: Vec<SubdirScan>)
    ensures
        subdir_views(r@) =~= sort_by_ins(subdir_le_fn(), subdir_views(v@)),
{
    let ghost orig = subdir_views(v@);
    let mut rest = v;
    let mut out: Vec<SubdirScan> = Vec::new();
    while rest.len() > 0
        invariant
            rest@.len() <= orig.len(),
            subdir_views(rest@) =~= orig.skip(orig.len() - rest@.len()),
            subdir_views(out@) =~= sort_by_ins(subdir_le_fn(), orig.subrange(
                0,
                orig.len() - rest@.len(),
            )),
        decreases rest@.len(),
    {
        let ghost p = orig.len() - rest@.len();
        let ghost rv = rest@;
        let x = rest.remove(0);
        proof {
            assert(subdir_views(rv)[0] == orig.skip(p as int)[0]);
            assert(x == rv[0]);
            assert((x.name@, x.entries.deep_view()) == orig[p as int]);
            assert(subdir_views(rest@) =~= subdir_views(rv).skip(1));
            assert(subdir_views(rest@) =~= orig.skip(p + 1));
        }
        let k = subdir_insert_position(&out, &x);
        proof {
            lemma_insert_by_at(subdir_le_fn(), orig[p], subdir_views(out@), k as int);
        }
        let ghost old_dv = subdir_views(out@);
        out.insert(k, x);
        proof {
            assert(subdir_views(out@) =~= old_dv.subrange(0, k as int) + seq![orig[p]]
                + old_dv.skip(k as int));
            assert(orig.subrange(0, p + 1).drop_last() =~= orig.subrange(0, p));
            assert(orig.subrange(0, p + 1).last() == orig[p]);
            assert(subdir_views(out@) =~= sort_by_ins(subdir_le_fn(), orig.subrange(0, p + 1)));
        }
    }
    proof {
        assert(orig.subrange(0, orig.len() as int) =~= orig);
    }
    out
}

/// Builds the worktree-checkout leaves of a container, sorted by name.
fn build_checkout_children(parent: &str, entries: Vec<String>) -> (r: Vec<ProjectNode>)
    ensures
        matches_checkouts(r@, parent@, sorted_checkout_names(entries.deep_view())),
{
    let filtered = filter_checkout_entries(entries);
    let sorted = sort_names(filtered);
    let ghost names = sorted_checkout_names(entries.deep_view());
    proof {
        assert(sorted.deep_view() =~= names);
    }
    let mut rest = sorted;
    let mut out: Vec<ProjectNode> = Vec::new();
    while rest.len() > 0
        invariant
            out@.len() + rest@.len() == names.len(),
            rest.deep_view() =~= names.skip(out@.len() as int),
            forall|j: int|
                0 <= j < out@.len() ==> is_leaf(
                    #[trigger] out@[j],
                    parent@ + "/"@ + names[j],
                    ProjectItemType::WorktreeCheckout,
                ),
        decreases rest@.len(),
    {
        let ghost p = out@.len() as int;
        let ghost rdv = rest.deep_view();
        let name = rest.remove(0);
        proof {
            assert(rdv[0] == names.skip(p)[0]);
            assert(name@ == rdv[0]);
            assert(rest.deep_view() =~= rdv.skip(1));
            assert(rest.deep_view() =~= names.skip(p + 1));
        }
        let cpath = join_path(parent, name.as_str());
        let node = ProjectNode {
            item: ProjectItem::new(cpath, ProjectItemType::WorktreeCheckout),
            children: Vec::new(),
        };
        out.push(node);
    }
    out
}

/// Builds and classifies the children of one project-directory group,
/// sorted by name.
fn build_group_children(parent: &str, subdirs: Vec<SubdirScan>) -> (r: Vec<ProjectNode>)
    ensures
        matches_group_children(r@, parent@, subdir_views(subdirs@)),
{
    let sorted = sort_subdirs(subdirs);
    let ghost svs = sort_by_ins(subdir_le_fn(), subdir_views(subdirs@));
    proof {
        assert(subdir_views(sorted@) =~= svs);
    }
    let mut rest = sorted;
    let mut out: Vec<ProjectNode> = Vec::new();
    while rest.len() > 0
        invariant
            out@.len() + rest@.len() == svs.len(),
            subdir_views(rest@) =~= svs.skip(out@.len() as int),
            forall|j: int|
                0 <= j < out@.len() ==> matches_subdir(#[trigger] out@[j], parent@, svs[j]),
        decreases rest@.len(),
    {
        let ghost p = out@.len() as int;
        let ghost rv = rest@;
        let sd = rest.remove(0);
        proof {
            assert(subdir_views(rv)[0] == svs.skip(p)[0]);
            assert(sd == rv[0]);
            assert((sd.name@, sd.entries.deep_view()) == svs[p]);
            assert(subdir_views(rest@) =~= subdir_views(rv).skip(1));
            assert(subdir_views(rest@) =~= svs.skip(p + 1));
        }
        let cpath = join_path(parent, sd.name.as_str());
        if contains_bare(&sd.entries) {
            let children = build_checkout_children(cpath.as_str(), sd.entries);
            let node = ProjectNode {
                item: ProjectItem::new(cpath, ProjectItemType::WorktreeContainerRepo),
                children,
            };
            out.push(node);
        } else {
            let node = ProjectNode {
                item: ProjectItem::new(cpath, ProjectItemType::StandaloneRepo),
                children: Vec::new(),
            };
            out.push(node);
        }
    }
    out
}

impl Config {
    /// Builds the forest a configuration and a filesystem snapshot
    /// determine: one standalone leaf per configured standalone path, in
    /// order, then one group node per readable project-directory root, in
    /// order, with children classified by the `.bare` marker and sorted by
    /// name at every level.
    pub fn to_forest(&self, home: &str, scans: Vec<DirScan>) -> (forest: Vec<ProjectNode>)
        requires
            scans@.len() == self.project_directories@.len(),
        ensures
            forest@.len() >= self.standalone_projects@.len(),
            forall|i: int|
                0 <= i < self.standalone_projects@.len() ==> is_leaf(
                    #[trigger] forest@[i],
                    spec_expand_home(home@, self.standalone_projects@[i]@),
                    ProjectItemType::StandaloneRepo,
                ),
            groups_match(
                forest@.skip(self.standalone_projects@.len() as int),
                home@,
                self.project_directories@,
                scans@,
            ),
    {
        let mut forest: Vec<ProjectNode> = Vec::new();
        let mut i: usize = 0;
        while i < self.standalone_projects.len()
            invariant
                i <= self.standalone_projects@.len(),
                forest@.len() == i,
                forall|j: int|
                    0 <= j < i ==> is_leaf(
                        #[trigger] forest@[j],
                        spec_expand_home(home@, self.standalone_projects@[j]@),
                        ProjectItemType::StandaloneRepo,
                    ),
            decreases self.standalone_projects@.len() - i,
        {
            let p = expand_home(home, self.standalone_projects[i].as_str());
            forest.push(
                ProjectNode {
                    item: ProjectItem::new(p, ProjectItemType::StandaloneRepo),
                    children: Vec::new(),
                },
            );
            i = i + 1;
        }
        let ns = forest.len();
        let ghost dirs = self.project_directories@;
        let ghost scans0 = scans@;
        let mut rest = scans;
        let mut d: usize = 0;
        while d < self.project_directories.len()
            invariant
                d <= dirs.len(),
                dirs == self.project_directories@,
                dirs.len() == scans0.len(),
                ns == self.standalone_projects@.len(),
                forest@.len() >= ns,
                rest@ =~= scans0.skip(d as int),
                forall|j: int|
                    0 <= j < ns ==> is_leaf(
                        #[trigger] forest@[j],
                        spec_expand_home(home@, self.standalone_projects@[j]@),
                        ProjectItemType::StandaloneRepo,
                    ),
                groups_match(
                    forest@.skip(ns as int),
                    home@,
                    dirs.subrange(0, d as int),
                    scans0.subrange(0, d as int),
                ),
            decreases dirs.len() - d,
        {
            let ghost old_forest = forest@;
            let scan = rest.remove(0);
            proof {
                assert(scan == scans0[d as int]);
                assert(rest@ =~= scans0.skip(d + 1));
                assert(dirs.subrange(0, d + 1).drop_last() =~= dirs.subrange(0, d as int));
                assert(scans0.subrange(0, d + 1).drop_last() =~= scans0.subrange(0, d as int));
            }
            if scan.readable {
                let dir_path = expand_home(home, self.project_directories[d].as_str());
                let children = build_group_children(dir_path.as_str(), scan.subdirs);
                forest.push(
                    ProjectNode {
                        item: ProjectItem::new(dir_path, ProjectItemType::ProjectDirectoryGroup),
                        children,
                    },
                );
                proof {
                    assert(forest@.skip(ns as int) =~= old_forest.skip(ns as int).push(
                        forest@.last(),
                    ));
                    assert(forest@.skip(ns as int).drop_last() =~= old_forest.skip(ns as int));
                }
            }
            d = d + 1;
        }
        proof {
            assert(dirs.subrange(0, dirs.len() as int) =~= dirs);
            assert(scans0.subrange(0, scans0.len() as int) =~= scans0);
        }
        forest
    }

    /// The scan warnings: one line per configured project-directory root
    /// that could not be read, in configuration order. Collected for the
    /// caller to log; an unreadable root never aborts the scan.
    pub fn scan_warnings(&self, home: &str, scans: &Vec<DirScan>) -> (w: Vec<String>)
        requires
            scans@.len() == self.project_directories@.len(),
        ensures
            warnings_match(w.deep_view(), home@, self.project_directories@, scans@),
    {
        let ghost dirs = self.project_directories@;
        let mut w: Vec<String> = Vec::new();
        let mut d: usize = 0;
        while d < self.project_directories.len()
            invariant
                d <= dirs.len(),
                dirs == self.project_directories@,
                scans@.len() == dirs.len(),
                warnings_match(
                    w.deep_view(),
                    home@,
                    dirs.subrange(0, d as int),
                    scans@.subrange(0, d as int),
                ),
            decreases dirs.len() - d,
        {
            proof {
                assert(dirs.subrange(0, d + 1).drop_last() =~= dirs.subrange(0, d as int));
                assert(scans@.subrange(0, d + 1).drop_last() =~= scans@.subrange(0, d as int));
            }
            if !scans[d].readable {
                let p = expand_home(home, self.project_directories[d].as_str());
                let line = p.concat(
                    " was set as a project directory but is not a directory. skipping.",
                );
                let ghost before = w.deep_view();
                w.push(line);
                proof {
                    assert(w.deep_view() =~= before.push(w@.last()@));
                    assert(w.deep_view().drop_last() =~= before);
                }
            }
            d = d + 1;
        }
        proof {
            assert(dirs.subrange(0, dirs.len() as int) =~= dirs);
            assert(scans@.subrange(0, scans@.len() as int) =~= scans@);
        }
        w
    }
}

} // verus!
