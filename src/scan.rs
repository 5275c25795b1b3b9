use vstd::prelude::*;

use crate::icons::{get_icon_path, icon_spec, IconSet};

verus! {

/// What the filesystem reported for one entry of a directory listing.
pub enum RawKind {
    /// The entry, or its metadata, could not be read.
    Unreadable,
    File,
    /// A directory. `nonempty` is the result of the one-entry probe;
    /// `listing` holds its own entries when they were read, and is `None`
    /// when they were not asked for or could not be read.
    Directory { nonempty: bool, listing: Option<Vec<RawEntry>> },
}

/// One entry of a directory listing, as read from the filesystem.
pub struct RawEntry {
    pub name: String,
    pub path: String,
    pub kind: RawKind,
}

/// A node of the tree handed back to the caller.
///
/// `children` is `None` when the directory was not expanded, and
/// `Some` (possibly empty) when it was.
pub struct DirectoryItem {
    pub name: String,
    pub path: String,
    pub icon: String,
    pub is_dir: bool,
    pub children: Option<Vec<DirectoryItem>>,
    pub has_children: bool,
}

/// Why a listing request failed as a whole.
pub enum ScanError {
    /// The root path does not name a directory.
    NotADirectory,
    /// The root is a directory whose entries could not be read.
    RootUnreadable,
}

impl ScanError {
    /// The message reported to the caller.
    pub fn message(&self) -> (r: String)
        ensures
            self is NotADirectory ==> r@ == "The provided path is not a directory"@,
            self is RootUnreadable ==> r@ == "The directory could not be read"@,
    {
        match self {
            ScanError::NotADirectory => String::from_str("The provided path is not a directory"),
            ScanError::RootUnreadable => String::from_str("The directory could not be read"),
        }
    }
}

pub open spec fn listing_spec(listing: Option<Vec<RawEntry>>) -> Seq<RawEntry> {
    match listing {
        Some(v) => v@,
        None => Seq::empty(),
    }
}

/// The entries of a raw entry's own listing (none for a file).
pub open spec fn child_listing(raw: RawEntry) -> Seq<RawEntry> {
    match raw.kind {
        RawKind::Directory { listing, .. } => listing_spec(listing),
        _ => Seq::empty(),
    }
}

pub open spec fn is_readable(raw: RawEntry) -> bool {
    !(raw.kind is Unreadable)
}

/// The entries of a listing that survive: those that could be read, in
/// listing order.
pub open spec fn readable_spec(raws: Seq<RawEntry>) -> Seq<RawEntry> {
    raws.filter(|r: RawEntry| is_readable(r))
}

/// The depth used when the caller gives none.
pub open spec fn effective_depth(depth: Option<u32>) -> nat {
    match depth {
        Some(d) => d as nat,
        None => 1,
    }
}

/// `item` is the node built from `raw` when `remaining` more levels may
/// be expanded below it.
pub open spec fn entry_matches(
    item: DirectoryItem,
    raw: RawEntry,
    icons: IconSet,
    remaining: nat,
) -> bool
    decreases remaining, 0nat,
{
    &&& item.name@ == raw.name@
    &&& item.path@ == raw.path@
    &&& match raw.kind {
        RawKind::Unreadable => false,
        RawKind::File => {
            &&& !item.is_dir
            &&& item.icon@ == icon_spec(icons, false, raw.name@)
            &&& item.children is None
            &&& !item.has_children
        },
        RawKind::Directory { nonempty, listing } => {
            &&& item.is_dir
            &&& item.icon@ == icon_spec(icons, true, raw.name@)
            &&& if remaining > 0 {
                match item.children {
                    Some(c) => {
                        &&& item.has_children == (c@.len() > 0)
                        &&& level_matches(c@, listing_spec(listing), icons, (remaining - 1) as nat)
                    },
                    None => false,
                }
            } else {
                &&& item.children is None
                &&& item.has_children == nonempty
            }
        },
    }
}

/// `items` is the scan of the listing `raws` when `remaining` more levels
/// may be expanded: one node per readable entry, in listing order.
pub open spec fn level_matches(
    items: Seq<DirectoryItem>,
    raws: Seq<RawEntry>,
    icons: IconSet,
    remaining: nat,
) -> bool
    decreases remaining, raws.len(),
{
    if raws.len() == 0 {
        items.len() == 0
    } else if !is_readable(raws.last()) {
        level_matches(items, raws.drop_last(), icons, remaining)
    } else {
        &&& items.len() > 0
        &&& entry_matches(items.last(), raws.last(), icons, remaining)
        &&& level_matches(items.drop_last(), raws.drop_last(), icons, remaining)
    }
}

/// The number of levels that may still be expanded below an entry whose
/// own level had `remaining`; `None` when the entry is not expanded.
pub fn next_budget(remaining: u32) -> (r: Option<u32>)
    ensures
        remaining == 0 ==> r is None,
        remaining > 0 ==> r == Some((remaining - 1) as u32),
{
    if remaining > 0 {
        Some(remaining - 1)
    } else {
        None
    }
}

/// Builds the node of one raw entry; `None` for an unreadable one.
fn build_entry(icons: &IconSet, raw: &RawEntry, remaining: u32) -> (r: Option<DirectoryItem>)
    ensures
        r is None <==> !is_readable(*raw),
        r matches Some(item) ==> entry_matches(item, *raw, *icons, remaining as nat),
    decreases remaining, 0nat,
{
    match &raw.kind {
        RawKind::Unreadable => None,
        RawKind::File => Some(
            DirectoryItem {
                name: raw.name.clone(),
                path: raw.path.clone(),
                icon: get_icon_path(icons, false, raw.name.as_str()),
                is_dir: false,
                children: None,
                has_children: false,
            },
        ),
        RawKind::Directory { nonempty, listing } => {
            let (children, has_children) = match next_budget(remaining) {
                Some(below) => {
                    let sub = match listing {
                        Some(v) => build_level(icons, v, below),
                        None => Vec::new(),
                    };
                    let n = sub.len();
                    (Some(sub), n > 0)
                },
                None => (None, *nonempty),
            };
            Some(
                DirectoryItem {
                    name: raw.name.clone(),
                    path: raw.path.clone(),
                    icon: get_icon_path(icons, true, raw.name.as_str()),
                    is_dir: true,
                    children,
                    has_children,
                },
            )
        },
    }
}

/// Builds the nodes of a listing, expanding directories while `remaining`
/// levels are left. Unreadable entries are left out.
pub fn build_level(icons: &IconSet, raws: &Vec<RawEntry>, remaining: u32) -> (r: Vec<
    DirectoryItem,
>)
    ensures
        level_matches(r@, raws@, *icons, remaining as nat),
    decreases remaining, 1nat,
{
    let mut items: Vec<DirectoryItem> = Vec::new();
    let mut i: usize = 0;
    while i < raws.len()
        invariant
            i <= raws@.len(),
            level_matches(items@, raws@.take(i as int), *icons, remaining as nat),
        decreases raws@.len() - i,
    {
        let entry = build_entry(icons, &raws[i], remaining);
        let ghost prev = items@;
        assert(raws@.take(i + 1).drop_last() =~= raws@.take(i as int));
        match entry {
            Some(item) => {
                items.push(item);
                assert(items@.drop_last() =~= prev);
            },
            None => {},
        }
        i = i + 1;
    }
    assert(raws@.take(raws@.len() as int) =~= raws@);
    items
}

/// Lists the directory at the root, expanding `depth` levels below it
/// (one when `None`).
///
/// `root_is_dir` says whether the root path names a directory; `listing`
/// holds its entries, or `None` when they could not be read.
pub fn read_directory_structure(
    icons: &IconSet,
    root_is_dir: bool,
    listing: &Option<Vec<RawEntry>>,
    depth: Option<u32>,
) -> (r: Result<Vec<DirectoryItem>, ScanError>)
    ensures
        !root_is_dir ==> r matches Err(ScanError::NotADirectory),
        root_is_dir && listing is None ==> r matches Err(ScanError::RootUnreadable),
        root_is_dir && listing is Some ==> (r matches Ok(items) && level_matches(
            items@,
            listing->0@,
            *icons,
            effective_depth(depth),
        )),
{
    if !root_is_dir {
        return Err(ScanError::NotADirectory);
    }
    let max_depth: u32 = match depth {
        Some(d) => d,
        None => 1,
    };
    match listing {
        Some(v) => Ok(build_level(icons, v, max_depth)),
        None => Err(ScanError::RootUnreadable),
    }
}

/// Lists the directory at the root one level deep: no entry is expanded.
pub fn read_directory_contents(
    icons: &IconSet,
    root_is_dir: bool,
    listing: &Option<Vec<RawEntry>>,
) -> (r: Result<Vec<DirectoryItem>, ScanError>)
    ensures
        !root_is_dir ==> r matches Err(ScanError::NotADirectory),
        root_is_dir && listing is None ==> r matches Err(ScanError::RootUnreadable),
        root_is_dir && listing is Some ==> (r matches Ok(items) && level_matches(
            items@,
            listing->0@,
            *icons,
            0,
        )),
{
    read_directory_structure(icons, root_is_dir, listing, Some(0))
}

} // verus!
