use vstd::prelude::*;

use crate::icons::IconSet;
use crate::scan::{
    child_listing, entry_matches, is_readable, level_matches, readable_spec, DirectoryItem,
    RawEntry, RawKind,
};

verus! {

/// A scan lists exactly the readable entries of the directory, in listing
/// order, each under its own name and path: unreadable entries are left out
/// and nothing else is. With no level left to expand, no entry carries
/// children.
pub proof fn lemma_scan_lists_readable_entries(
    items: Seq<DirectoryItem>,
    raws: Seq<RawEntry>,
    icons: IconSet,
    remaining: nat,
)
    requires
        level_matches(items, raws, icons, remaining),
    ensures
        items.len() == readable_spec(raws).len(),
        forall|i: int|
            0 <= i < items.len() ==> entry_matches(
                #[trigger] items[i],
                readable_spec(raws)[i],
                icons,
                remaining,
            ),
        forall|i: int|
            0 <= i < items.len() ==> {
                &&& (#[trigger] items[i]).name@ == readable_spec(raws)[i].name@
                &&& items[i].path@ == readable_spec(raws)[i].path@
                &&& items[i].is_dir == readable_spec(raws)[i].kind is Directory
                &&& remaining == 0 ==> items[i].children is None
            },
    decreases raws.len(),
{
    if raws.len() > 0 {
        let prev = raws.drop_last();
        reveal(Seq::filter);
        assert(readable_spec(raws) == if is_readable(raws.last()) {
            readable_spec(prev).push(raws.last())
        } else {
            readable_spec(prev)
        });
        if !is_readable(raws.last()) {
            lemma_scan_lists_readable_entries(items, prev, icons, remaining);
        } else {
            let front = items.drop_last();
            lemma_scan_lists_readable_entries(front, prev, icons, remaining);
            assert forall|i: int| 0 <= i < items.len() implies entry_matches(
                #[trigger] items[i],
                readable_spec(raws)[i],
                icons,
                remaining,
            ) by {
                if i < items.len() - 1 {
                    assert(items[i] == front[i]);
                }
            }
        }
    }
    assert forall|i: int| 0 <= i < items.len() implies {
        &&& (#[trigger] items[i]).name@ == readable_spec(raws)[i].name@
        &&& items[i].path@ == readable_spec(raws)[i].path@
        &&& items[i].is_dir == readable_spec(raws)[i].kind is Directory
        &&& remaining == 0 ==> items[i].children is None
    } by {
        assert(entry_matches(items[i], readable_spec(raws)[i], icons, remaining));
        assert(is_readable(readable_spec(raws)[i]));
    }
}

/// Every node of a scan is consistent: a file has no children and
/// `has_children` false; a directory within the depth bound is expanded,
/// and then `has_children` says whether its children are non-empty; a
/// directory beyond the bound is not expanded, and then `has_children` is
/// the probe's answer. The children of an expanded node are themselves a
/// scan of that directory's listing with one level less, so this holds at
/// every depth.
pub proof fn lemma_scan_nodes_consistent(
    items: Seq<DirectoryItem>,
    raws: Seq<RawEntry>,
    icons: IconSet,
    remaining: nat,
)
    requires
        level_matches(items, raws, icons, remaining),
    ensures
        forall|i: int|
            0 <= i < items.len() ==> {
                let item = #[trigger] items[i];
                let raw = readable_spec(raws)[i];
                &&& !item.is_dir ==> item.children is None && !item.has_children
                &&& item.is_dir && remaining > 0 ==> item.children is Some
                &&& item.is_dir && remaining == 0 ==> item.children is None && (
                raw.kind matches RawKind::Directory { nonempty, .. } && item.has_children
                    == nonempty)
                &&& item.children matches Some(c) ==> {
                    &&& item.has_children == (c@.len() > 0)
                    &&& level_matches(
                        c@,
                        child_listing(raw),
                        icons,
                        (remaining - 1) as nat,
                    )
                }
            },
{
    lemma_scan_lists_readable_entries(items, raws, icons, remaining);
    assert forall|i: int| 0 <= i < items.len() implies {
        let item = #[trigger] items[i];
        let raw = readable_spec(raws)[i];
        &&& !item.is_dir ==> item.children is None && !item.has_children
        &&& item.is_dir && remaining > 0 ==> item.children is Some
        &&& item.is_dir && remaining == 0 ==> item.children is None && (
        raw.kind matches RawKind::Directory { nonempty, .. } && item.has_children == nonempty)
        &&& item.children matches Some(c) ==> {
            &&& item.has_children == (c@.len() > 0)
            &&& level_matches(c@, child_listing(raw), icons, (remaining - 1) as nat)
        }
    } by {
        assert(entry_matches(items[i], readable_spec(raws)[i], icons, remaining));
        assert(is_readable(readable_spec(raws)[i]));
    }
}

/// Two scans of the same listings with the same depth agree node by node:
/// same names, paths, kinds, icons and `has_children`, and the same
/// expanded or unexpanded state. Where expanded, the two children
/// sequences are again two scans of one listing with one level less, so
/// the agreement holds at every depth.
pub proof fn lemma_scan_deterministic(
    a: Seq<DirectoryItem>,
    b: Seq<DirectoryItem>,
    raws: Seq<RawEntry>,
    icons: IconSet,
    remaining: nat,
)
    requires
        level_matches(a, raws, icons, remaining),
        level_matches(b, raws, icons, remaining),
    ensures
        a.len() == b.len(),
        forall|i: int|
            0 <= i < a.len() ==> {
                &&& (#[trigger] a[i]).name@ == b[i].name@
                &&& a[i].path@ == b[i].path@
                &&& a[i].icon@ == b[i].icon@
                &&& a[i].is_dir == b[i].is_dir
                &&& a[i].has_children == b[i].has_children
                &&& a[i].children is Some <==> b[i].children is Some
                &&& a[i].children matches Some(ca) ==> b[i].children matches Some(cb) && {
                    &&& level_matches(
                        ca@,
                        child_listing(readable_spec(raws)[i]),
                        icons,
                        (remaining - 1) as nat,
                    )
                    &&& level_matches(
                        cb@,
                        child_listing(readable_spec(raws)[i]),
                        icons,
                        (remaining - 1) as nat,
                    )
                }
            },
{
    lemma_scan_lists_readable_entries(a, raws, icons, remaining);
    lemma_scan_lists_readable_entries(b, raws, icons, remaining);
    assert forall|i: int| 0 <= i < a.len() implies {
        &&& (#[trigger] a[i]).name@ == b[i].name@
        &&& a[i].path@ == b[i].path@
        &&& a[i].icon@ == b[i].icon@
        &&& a[i].is_dir == b[i].is_dir
        &&& a[i].has_children == b[i].has_children
        &&& a[i].children is Some <==> b[i].children is Some
        &&& a[i].children matches Some(ca) ==> b[i].children matches Some(cb) && {
            &&& level_matches(
                ca@,
                child_listing(readable_spec(raws)[i]),
                icons,
                (remaining - 1) as nat,
            )
            &&& level_matches(
                cb@,
                child_listing(readable_spec(raws)[i]),
                icons,
                (remaining - 1) as nat,
            )
        }
    } by {
        let raw = readable_spec(raws)[i];
        assert(entry_matches(a[i], raw, icons, remaining));
        assert(entry_matches(b[i], raw, icons, remaining));
        assert(is_readable(raw));
        if a[i].children is Some && b[i].children is Some {
            let ca = a[i].children->0;
            let cb = b[i].children->0;
            lemma_scan_lists_readable_entries(
                ca@,
                child_listing(raw),
                icons,
                (remaining - 1) as nat,
            );
            lemma_scan_lists_readable_entries(
                cb@,
                child_listing(raw),
                icons,
                (remaining - 1) as nat,
            );
        }
    }
}

} // verus!
