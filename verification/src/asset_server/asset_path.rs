//! Asset paths and the identifiers derived from them.
//!
//! An identifier is the 64-bit digest of the path under a hasher whose two
//! keys are fixed constants; where the path has a label, the digest of the
//! label under the same hasher is combined with it. Nothing else goes into
//! an identifier, so the same path names the same asset in every run of one
//! build of the program. The hasher's algorithm is fixed when the program is
//! built: identifiers are not meant to be carried from one build to another.

use crate::utils::hash_combine;
use crate::utils::spec_hash_combine;
use std::hash::Hash;
use std::hash::Hasher;
use vstd::prelude::*;
use vstd::std_specs::convert::FromSpecImpl;

verus! {

/// First key of the path hasher.
pub const PATH_HASH_KEY_1: u128 = 42;

/// Second key of the path hasher.
pub const PATH_HASH_KEY_2: u128 = 23;

/// The digest that the keyed hasher computes for a string. It stands for the
/// hasher's algorithm, which is not modelled here: all that is known of it
/// is that, within one build, it is a function of its three arguments.
pub uninterp spec fn keyed_str_hash(key1: u128, key2: u128, text: Seq<char>) -> u64;

/// Hashes `text` with a `bevy::utils::AHasher` created by
/// `AHasher::new_with_keys(key1, key2)`, and returns `Hasher::finish`.
///
/// Trusted: the body is not verified. The contract claims only that the
/// digest is determined by the two keys and the string fed to the hasher;
/// the hasher holds no other state and draws no randomness when it is keyed
/// this way.
#[verifier::external_body]
fn hash_str_with_keys(key1: u128, key2: u128, text: &str) -> (digest: u64)
    ensures
        digest == keyed_str_hash(key1, key2, text@),
{
    let mut hasher = bevy::utils::AHasher::new_with_keys(key1, key2);
    text.hash(&mut hasher);
    hasher.finish()
}

/// Stable identifier of an asset path.
#[derive(Clone, Copy, Debug, PartialEq, Eq, Structural, Hash, PartialOrd, Ord)]
pub struct AssetPathId(pub u64);

impl AssetPathId {
    /// The raw 64-bit value.
    pub fn value(&self) -> (v: u64)
        ensures
            v == self.0,
    {
        self.0
    }
}

/// What an `AssetPath` holds, as mathematical values.
pub struct AssetPathView {
    pub path: Seq<char>,
    pub label: Option<Seq<char>>,
}

/// An owned asset path with an optional label naming a sub-resource.
#[derive(Debug)]
pub struct AssetPath {
    path: String,
    label: Option<String>,
}

impl View for AssetPath {
    type V = AssetPathView;

    closed spec fn view(&self) -> AssetPathView {
        AssetPathView {
            path: self.path@,
            label: match self.label {
                Some(l) => Some(l@),
                None => None,
            },
        }
    }
}

/// Index of the last occurrence of `c` in `s`.
pub open spec fn last_index_of(s: Seq<char>, c: char) -> Option<int>
    decreases s.len(),
{
    if s.len() == 0 {
        None
    } else if s.last() == c {
        Some(s.len() - 1)
    } else {
        last_index_of(s.drop_last(), c)
    }
}

/// The final component of a `/`-separated path: everything after the last
/// `/`, or the whole path when it has none.
pub open spec fn file_name_of(path: Seq<char>) -> Seq<char> {
    match last_index_of(path, '/') {
        Some(i) => path.subrange(i + 1, path.len() as int),
        None => path,
    }
}

/// The extension of a path: the part of its file name after the last `.`.
/// A file name without a `.`, one whose only `.` is its first character, and
/// the name `..` have no extension.
pub open spec fn extension_of(path: Seq<char>) -> Option<Seq<char>> {
    let name = file_name_of(path);
    match last_index_of(name, '.') {
        Some(i) => if i == 0 || name == seq!['.', '.'] {
            None
        } else {
            Some(name.subrange(i + 1, name.len() as int))
        },
        None => None,
    }
}

/// The identifier of a path with the given contents: the digest of the
/// path, combined with the digest of the label where there is one.
pub open spec fn path_id_of(v: AssetPathView) -> AssetPathId {
    let path_digest = keyed_str_hash(PATH_HASH_KEY_1, PATH_HASH_KEY_2, v.path);
    match v.label {
        None => AssetPathId(path_digest),
        Some(label) => AssetPathId(
            spec_hash_combine(
                path_digest,
                keyed_str_hash(PATH_HASH_KEY_1, PATH_HASH_KEY_2, label),
            ),
        ),
    }
}

/// `last_index_of` finds an occurrence, and nothing follows it.
pub proof fn lemma_last_index_of(s: Seq<char>, c: char)
    ensures
        match last_index_of(s, c) {
            Some(i) => 0 <= i < s.len() && s[i] == c && forall|j: int|
                i < j < s.len() ==> s[j] != c,
            None => forall|j: int| 0 <= j < s.len() ==> s[j] != c,
        },
    decreases s.len(),
{
    if s.len() > 0 && s.last() != c {
        let t = s.drop_last();
        lemma_last_index_of(t, c);
        assert forall|j: int| 0 <= j < t.len() implies t[j] == s[j] by {}
        match last_index_of(t, c) {
            Some(i) => {
                assert forall|j: int| i < j < s.len() implies s[j] != c by {
                    if j < t.len() {
                        assert(t[j] != c);
                    }
                }
            },
            None => {
                assert forall|j: int| 0 <= j < s.len() implies s[j] != c by {
                    if j < t.len() {
                        assert(t[j] != c);
                    }
                }
            },
        }
    }
}

/// An index that holds `c` and is followed by no other `c` is the one that
/// `last_index_of` returns; a sequence without `c` yields `None`.
pub proof fn lemma_last_index_of_unique(s: Seq<char>, c: char, found: Option<int>)
    requires
        match found {
            Some(i) => 0 <= i < s.len() && s[i] == c && forall|j: int|
                i < j < s.len() ==> s[j] != c,
            None => forall|j: int| 0 <= j < s.len() ==> s[j] != c,
        },
    ensures
        last_index_of(s, c) == found,
{
    lemma_last_index_of(s, c);
}

/// Scans `s[from..to]` backwards for `c`.
fn rfind_char(s: &str, c: char, from: usize, to: usize) -> (found: Option<usize>)
    requires
        from <= to <= s@.len(),
    ensures
        match found {
            Some(i) => from <= i < to && s@[i as int] == c && forall|j: int|
                i < j < to ==> s@[j] != c,
            None => forall|j: int| from <= j < to ==> s@[j] != c,
        },
{
    let mut i: usize = to;
    while i > from
        invariant
            from <= i <= to <= s@.len(),
            forall|j: int| i <= j < to ==> s@[j] != c,
        decreases i,
    {
        i -= 1;
        if s.get_char(i) == c {
            return Some(i);
        }
    }
    None
}

impl AssetPath {
    /// A path with an optional label.
    pub fn new(path: String, label: Option<String>) -> (asset_path: AssetPath)
        ensures
            asset_path@.path == path@,
            asset_path@.label == match label {
                Some(l) => Some(l@),
                None => None,
            },
    {
        AssetPath { path, label }
    }

    /// The path string.
    pub fn path(&self) -> (p: String)
        ensures
            p@ == self@.path,
    {
        self.path.clone()
    }

    /// The label, if the path has one.
    pub fn label(&self) -> (l: Option<String>)
        ensures
            match l {
                Some(s) => self@.label == Some(s@),
                None => self@.label is None,
            },
    {
        match &self.label {
            Some(l) => Some(l.clone()),
            None => None,
        }
    }

    /// The extension of the path, by which a loader is chosen.
    pub fn extension(&self) -> (ext: Option<String>)
        ensures
            match ext {
                Some(e) => extension_of(self@.path) == Some(e@),
                None => extension_of(self@.path) is None,
            },
    {
        let s = self.path.as_str();
        let len = s.unicode_len();
        let slash = rfind_char(s, '/', 0, len);
        let start: usize = match slash {
            Some(i) => i + 1,
            None => 0,
        };
        proof {
            lemma_last_index_of_unique(
                s@,
                '/',
                match slash {
                    Some(i) => Some(i as int),
                    None => None,
                },
            );
        }
        let ghost name = file_name_of(s@);
        assert(name == s@.subrange(start as int, len as int));
        let dot = rfind_char(s, '.', start, len);
        proof {
            lemma_last_index_of_unique(
                name,
                '.',
                match dot {
                    Some(i) => Some(i - start),
                    None => None,
                },
            );
        }
        match dot {
            None => None,
            Some(d) => {
                if d == start {
                    None
                } else if len - start == 2 && s.get_char(start) == '.' {
                    assert(name =~= seq!['.', '.']);
                    None
                } else {
                    assert(name != seq!['.', '.']) by {
                        if name == seq!['.', '.'] {
                            assert(name.len() == 2);
                            assert(name[0] == '.');
                        }
                    }
                    let ext = s.substring_char(d + 1, len);
                    assert(ext@ == name.subrange(d - start + 1, name.len() as int));
                    Some(String::from_str(ext))
                }
            },
        }
    }

    /// The stable identifier of this path.
    pub fn get_id(&self) -> (id: AssetPathId)
        ensures
            id == path_id_of(self@),
    {
        let path_digest = hash_str_with_keys(
            PATH_HASH_KEY_1,
            PATH_HASH_KEY_2,
            self.path.as_str(),
        );
        match &self.label {
            None => AssetPathId(path_digest),
            Some(label) => AssetPathId(
                hash_combine(
                    path_digest,
                    hash_str_with_keys(PATH_HASH_KEY_1, PATH_HASH_KEY_2, label.as_str()),
                ),
            ),
        }
    }
}

impl Clone for AssetPath {
    fn clone(&self) -> (copy: AssetPath)
        ensures
            copy@ == self@,
    {
        AssetPath {
            path: self.path.clone(),
            label: match &self.label {
                Some(l) => Some(l.clone()),
                None => None,
            },
        }
    }
}

impl AssetPath {
    /// The path without a label that holds `path`.
    pub closed spec fn unlabelled(path: String) -> AssetPath {
        AssetPath { path, label: None }
    }

    /// An unlabelled path holds the string that it was made from, and no
    /// label.
    pub proof fn lemma_unlabelled(path: String)
        ensures
            AssetPath::unlabelled(path)@ == (AssetPathView { path: path@, label: None }),
    {
    }
}

impl From<String> for AssetPath {
    fn from(path: String) -> (asset_path: AssetPath)
        ensures
            asset_path@ == (AssetPathView { path: path@, label: None }),
    {
        AssetPath { path, label: None }
    }
}

impl FromSpecImpl<String> for AssetPath {
    open spec fn obeys_from_spec() -> bool {
        true
    }

    open spec fn from_spec(path: String) -> AssetPath {
        AssetPath::unlabelled(path)
    }
}

impl From<&str> for AssetPath {
    fn from(path: &str) -> (asset_path: AssetPath)
        ensures
            asset_path@ == (AssetPathView { path: path@, label: None }),
    {
        AssetPath { path: String::from_str(path), label: None }
    }
}

impl FromSpecImpl<&str> for AssetPath {
    open spec fn obeys_from_spec() -> bool {
        false
    }

    open spec fn from_spec(path: &str) -> AssetPath {
        choose|asset_path: AssetPath| asset_path@ == (AssetPathView { path: path@, label: None })
    }
}

impl From<AssetPath> for AssetPathId {
    fn from(asset_path: AssetPath) -> (id: AssetPathId) {
        asset_path.get_id()
    }
}

impl FromSpecImpl<AssetPath> for AssetPathId {
    open spec fn obeys_from_spec() -> bool {
        true
    }

    open spec fn from_spec(asset_path: AssetPath) -> AssetPathId {
        path_id_of(asset_path@)
    }
}

impl From<&AssetPath> for AssetPathId {
    fn from(asset_path: &AssetPath) -> (id: AssetPathId) {
        asset_path.get_id()
    }
}

impl FromSpecImpl<&AssetPath> for AssetPathId {
    open spec fn obeys_from_spec() -> bool {
        true
    }

    open spec fn from_spec(asset_path: &AssetPath) -> AssetPathId {
        path_id_of(asset_path@)
    }
}

/// Two paths with the same contents have the same identifier, whenever it is
/// computed by one build of the program: the identifier depends on nothing
/// but the path, the label and the two fixed keys.
pub proof fn lemma_path_id_is_stable(a: AssetPath, b: AssetPath)
    requires
        a@ == b@,
    ensures
        path_id_of(a@) == path_id_of(b@),
{
}

} // verus!
