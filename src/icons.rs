use vstd::prelude::*;

verus! {

/// The icon assets available to the classifier: a base directory and the
/// file names (such as `pdf.svg`) of the assets found there.
pub struct IconSet {
    pub root: String,
    pub assets: Vec<String>,
}

/// `k` is the position of the last `.` in `s`.
pub open spec fn is_last_dot(s: Seq<char>, k: int) -> bool {
    &&& 0 <= k < s.len()
    &&& s[k] == '.'
    &&& forall|j: int| k < j < s.len() ==> s[j] != '.'
}

/// The extension of a file name: the text after its last `.`, or nothing
/// when the name holds no `.`.
pub open spec fn extension_spec(s: Seq<char>) -> Seq<char> {
    if exists|k: int| is_last_dot(s, k) {
        s.subrange((choose|k: int| is_last_dot(s, k)) + 1, s.len() as int)
    } else {
        Seq::empty()
    }
}

/// A file name placed under a directory, with one separator between them.
pub open spec fn join_spec(root: Seq<char>, file: Seq<char>) -> Seq<char> {
    if root.len() == 0 || root.last() == '/' {
        root + file
    } else {
        root + "/"@ + file
    }
}

/// The asset file name looked up for an extension.
pub open spec fn asset_name_spec(ext: Seq<char>) -> Seq<char> {
    ext + ".svg"@
}

/// The set holds an asset of the given file name.
pub open spec fn has_asset(icons: IconSet, file: Seq<char>) -> bool {
    exists|i: int| 0 <= i < icons.assets@.len() && #[trigger] icons.assets@[i]@ == file
}

/// The icon of an entry: the folder icon for a directory; for a file, the
/// asset named after its extension when the set holds it, and the unknown
/// icon otherwise.
pub open spec fn icon_spec(icons: IconSet, is_dir: bool, name: Seq<char>) -> Seq<char> {
    if is_dir {
        join_spec(icons.root@, "folder.svg"@)
    } else if has_asset(icons, asset_name_spec(extension_spec(name))) {
        join_spec(icons.root@, asset_name_spec(extension_spec(name)))
    } else {
        join_spec(icons.root@, "unknown.svg"@)
    }
}

proof fn lemma_last_dot_unique(s: Seq<char>, k1: int, k2: int)
    requires
        is_last_dot(s, k1),
        is_last_dot(s, k2),
    ensures
        k1 == k2,
{
}

/// The extension of a file name: the text after its last `.`, empty when
/// there is none.
pub fn extension_of(name: &str) -> (r: String)
    ensures
        r@ == extension_spec(name@),
{
    let n = name.unicode_len();
    let mut i: usize = n;
    while i > 0
        invariant
            i <= n,
            n == name@.len(),
            forall|j: int| i <= j < n ==> name@[j] != '.',
        decreases i,
    {
        if name.get_char(i - 1) == '.' {
            proof {
                assert(is_last_dot(name@, i - 1));
                let k = choose|k: int| is_last_dot(name@, k);
                lemma_last_dot_unique(name@, k, i - 1);
            }
            return name.substring_char(i, n).to_string();
        }
        i = i - 1;
    }
    proof {
        assert forall|k: int| !is_last_dot(name@, k) by {
            if 0 <= k < n {
                assert(name@[k] != '.');
            }
        }
    }
    String::new()
}

/// Places a file name under a base directory.
fn join_path(root: &String, file: &str) -> (r: String)
    ensures
        r@ == join_spec(root@, file@),
{
    let n = root.as_str().unicode_len();
    let mut r = root.clone();
    if n == 0 || root.as_str().get_char(n - 1) == '/' {
        r.append(file);
    } else {
        r.append("/");
        r.append(file);
        assert(r@ == root@ + "/"@ + file@);
    }
    r
}

impl IconSet {
    /// An icon set rooted at `root` that holds the assets named in `assets`.
    pub fn new(root: String, assets: Vec<String>) -> (r: IconSet)
        ensures
            r.root == root,
            r.assets == assets,
    {
        IconSet { root, assets }
    }

    /// Whether an asset of the given file name is in the set.
    pub fn contains(&self, file: &String) -> (r: bool)
        ensures
            r == has_asset(*self, file@),
    {
        let mut i: usize = 0;
        while i < self.assets.len()
            invariant
                i <= self.assets@.len(),
                forall|j: int| 0 <= j < i ==> self.assets@[j]@ != file@,
            decreases self.assets@.len() - i,
        {
            if self.assets[i].eq(file) {
                return true;
            }
            i = i + 1;
        }
        false
    }
}

/// Resolves the display icon of an entry from its kind and file name.
pub fn get_icon_path(icons: &IconSet, is_dir: bool, name: &str) -> (r: String)
    ensures
        r@ == icon_spec(*icons, is_dir, name@),
        is_dir ==> r@ == join_spec(icons.root@, "folder.svg"@),
{
    if is_dir {
        return join_path(&icons.root, "folder.svg");
    }
    let mut file = extension_of(name);
    file.append(".svg");
    if icons.contains(&file) {
        join_path(&icons.root, file.as_str())
    } else {
        join_path(&icons.root, "unknown.svg")
    }
}

} // verus!
