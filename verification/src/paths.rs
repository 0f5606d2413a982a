//! Paths as text: segments parted by `/`, and a name's extension after its
//! last `.`.

use vstd::prelude::*;
use vstd::string::*;
use crate::text::text_of;

verus! {

/// The character that parts the segments of a path.
pub const PATH_SEPARATOR: char = '/';

/// The character that parts a name from its extension.
pub const EXTENSION_SEPARATOR: char = '.';

/// The greatest index at which `c` stands in `s`, if it stands anywhere.
pub open spec fn last_index_of(s: Seq<char>, c: char) -> Option<int>
    decreases s.len(),
{
    if s.len() == 0 {
        None
    } else if s.last() == c {
        Some(s.len() - 1)
    } else {
        last_index_of(s.drop_last(), c)
    }
}

/// `last_index_of` finds an occurrence with none behind it, and finds one
/// whenever there is one.
pub proof fn lemma_last_index_of(s: Seq<char>, c: char)
    ensures
        match last_index_of(s, c) {
            Some(i) => 0 <= i < s.len() && s[i] == c && forall|j: int|
                i < j < s.len() ==> s[j] != c,
            None => forall|j: int| 0 <= j < s.len() ==> s[j] != c,
        },
    decreases s.len(),
{
    if s.len() > 0 && s.last() != c {
        let front = s.drop_last();
        lemma_last_index_of(front, c);
        assert(forall|j: int| 0 <= j < front.len() ==> front[j] == s[j]);
        match last_index_of(front, c) {
            Some(i) => {
                assert forall|j: int| i < j < s.len() implies s[j] != c by {
                    if j < front.len() {
                        assert(front[j] != c);
                    }
                }
            },
            None => {
                assert forall|j: int| 0 <= j < s.len() implies s[j] != c by {
                    if j < front.len() {
                        assert(front[j] != c);
                    }
                }
            },
        }
    }
}

/// An index that holds `c` with no `c` behind it is the one that
/// `last_index_of` finds.
pub proof fn lemma_last_index_is(s: Seq<char>, c: char, i: int)
    requires
        0 <= i < s.len(),
        s[i] == c,
        forall|j: int| i < j < s.len() ==> s[j] != c,
    ensures
        last_index_of(s, c) == Some(i),
{
    lemma_last_index_of(s, c);
}

/// A text without `c` has no last index of it.
pub proof fn lemma_last_index_none(s: Seq<char>, c: char)
    requires
        forall|j: int| 0 <= j < s.len() ==> s[j] != c,
    ensures
        last_index_of(s, c) is None,
{
    lemma_last_index_of(s, c);
}

/// The last segment of a path: what follows its last separator, or all of
/// it where it has none. Empty for a path that ends in a separator.
pub open spec fn file_name_of(path: Seq<char>) -> Seq<char> {
    match last_index_of(path, PATH_SEPARATOR) {
        Some(i) => path.subrange(i + 1, path.len() as int),
        None => path,
    }
}

/// The extension of a file name: what follows its last `.`, which may be
/// nothing. A name without a `.`, a name whose only `.` is its first
/// character, and the name `..` have no extension.
pub open spec fn name_extension(name: Seq<char>) -> Option<Seq<char>> {
    match last_index_of(name, EXTENSION_SEPARATOR) {
        Some(i) => if i == 0 || name == seq![EXTENSION_SEPARATOR, EXTENSION_SEPARATOR] {
            None
        } else {
            Some(name.subrange(i + 1, name.len() as int))
        },
        None => None,
    }
}

/// The extension of the file that a path names: that of its last segment.
pub open spec fn extension_of(path: Seq<char>) -> Option<Seq<char>> {
    name_extension(file_name_of(path))
}

/// Whether `path` starts at the root.
pub open spec fn is_rooted(path: Seq<char>) -> bool {
    path.len() > 0 && path[0] == PATH_SEPARATOR
}

/// `name` adjoined to `base`: a rooted `name` stands for itself; otherwise
/// it follows `base`, after one separator unless `base` is empty or ends in
/// one already.
pub open spec fn joined(base: Seq<char>, name: Seq<char>) -> Seq<char> {
    if is_rooted(name) {
        name
    } else if base.len() == 0 || base.last() == PATH_SEPARATOR {
        base + name
    } else {
        base.push(PATH_SEPARATOR) + name
    }
}

/// A file name holds no separator.
pub proof fn lemma_file_name_is_one_segment(path: Seq<char>)
    ensures
        last_index_of(file_name_of(path), PATH_SEPARATOR) is None,
{
    let name = file_name_of(path);
    lemma_last_index_of(path, PATH_SEPARATOR);
    let start = path.len() - name.len();
    assert(forall|j: int| 0 <= j < name.len() ==> name[j] == path[start + j]);
    lemma_last_index_none(name, PATH_SEPARATOR);
}

/// Adjoining a name to a folder gives a path whose file name is that
/// name.
pub proof fn lemma_joined_file_name(base: Seq<char>, name: Seq<char>)
    requires
        last_index_of(name, PATH_SEPARATOR) is None,
    ensures
        file_name_of(joined(base, name)) == name,
{
    lemma_last_index_of(name, PATH_SEPARATOR);
    let path = joined(base, name);
    let start = path.len() - name.len();
    if name.len() > 0 {
        assert(name[0] != PATH_SEPARATOR);
    }
    assert(forall|j: int| 0 <= j < name.len() ==> path[start + j] == name[j]);
    if start == 0 {
        assert(path =~= name);
    } else {
        assert(path[start - 1] == PATH_SEPARATOR);
        assert forall|j: int| start - 1 < j < path.len() implies path[j] != PATH_SEPARATOR by {
            assert(path[j] == name[j - start]);
        }
        lemma_last_index_is(path, PATH_SEPARATOR, start - 1);
        assert(path.subrange(start, path.len() as int) =~= name);
    }
}

/// Where a file lies does not change its extension: a name's extension is
/// that of the name adjoined to any folder.
pub proof fn lemma_joined_extension(base: Seq<char>, name: Seq<char>)
    requires
        last_index_of(name, PATH_SEPARATOR) is None,
    ensures
        extension_of(joined(base, name)) == name_extension(name),
{
    lemma_joined_file_name(base, name);
}

/// An extension is the end of its path, behind the last `.` of the path,
/// and holds neither a `.` nor a separator.
pub proof fn lemma_extension_ends_path(path: Seq<char>)
    ensures
        match extension_of(path) {
            Some(extension) => {
                &&& extension.len() < path.len()
                &&& path.subrange(path.len() - extension.len() - 1, path.len() as int) == seq![
                    EXTENSION_SEPARATOR,
                ] + extension
                &&& forall|j: int|
                    0 <= j < extension.len() ==> extension[j] != EXTENSION_SEPARATOR
                        && extension[j] != PATH_SEPARATOR
            },
            None => true,
        },
{
    let name = file_name_of(path);
    lemma_last_index_of(path, PATH_SEPARATOR);
    lemma_last_index_of(name, EXTENSION_SEPARATOR);
    match extension_of(path) {
        Some(extension) => {
            let start = path.len() - name.len();
            let dot = last_index_of(name, EXTENSION_SEPARATOR)->Some_0;
            assert(forall|j: int| 0 <= j < name.len() ==> name[j] == path[start + j]);
            assert forall|j: int| 0 <= j < extension.len() implies extension[j]
                != EXTENSION_SEPARATOR && extension[j] != PATH_SEPARATOR by {
                assert(extension[j] == name[dot + 1 + j]);
                assert(name[dot + 1 + j] == path[start + dot + 1 + j]);
            }
            assert(path.subrange(path.len() - extension.len() - 1, path.len() as int) =~= seq![
                EXTENSION_SEPARATOR,
            ] + extension);
        },
        None => {},
    }
}

/// Finds the last place where `c` stands in `s`, counted in characters.
pub fn last_index(s: &str, c: char) -> (found: Option<usize>)
    ensures
        match found {
            Some(i) => last_index_of(s@, c) == Some(i as int),
            None => last_index_of(s@, c) is None,
        },
{
    let n: usize = s.unicode_len();
    let mut i: usize = n;
    while i > 0
        invariant
            i <= n,
            n == s@.len(),
            forall|j: int| i <= j < n ==> s@[j] != c,
        decreases i,
    {
        if s.get_char(i - 1) == c {
            proof {
                lemma_last_index_is(s@, c, i - 1);
            }
            return Some(i - 1);
        }
        i = i - 1;
    }
    proof {
        lemma_last_index_none(s@, c);
    }
    None
}

/// The last segment of `path`.
pub fn file_name(path: &str) -> (name: String)
    ensures
        name@ == file_name_of(path@),
{
    match last_index(path, PATH_SEPARATOR) {
        Some(i) => {
            proof {
                lemma_last_index_of(path@, PATH_SEPARATOR);
            }
            let n: usize = path.unicode_len();
            path.substring_char(i + 1, n).to_owned()
        },
        None => path.to_owned(),
    }
}

/// The extension of the file that `path` names, without its `.`.
pub fn extension(path: &str) -> (ext: Option<String>)
    ensures
        text_of(ext) == extension_of(path@),
{
    let name = file_name(path);
    let name = name.as_str();
    match last_index(name, EXTENSION_SEPARATOR) {
        Some(i) => {
            proof {
                lemma_last_index_of(name@, EXTENSION_SEPARATOR);
            }
            let n: usize = name.unicode_len();
            let parent: bool = n == 2 && i == 1 && name.get_char(0) == EXTENSION_SEPARATOR;
            assert(parent == (name@ =~= seq![EXTENSION_SEPARATOR, EXTENSION_SEPARATOR]));
            if i == 0 || parent {
                None
            } else {
                Some(name.substring_char(i + 1, n).to_owned())
            }
        },
        None => None,
    }
}

/// Adjoins `name` to `base`.
pub fn join(base: &str, name: &str) -> (path: String)
    ensures
        path@ == joined(base@, name@),
{
    let name_len: usize = name.unicode_len();
    if name_len > 0 && name.get_char(0) == PATH_SEPARATOR {
        return name.to_owned();
    }
    let base_len: usize = base.unicode_len();
    let mut path = String::from_str(base);
    if base_len > 0 && base.get_char(base_len - 1) != PATH_SEPARATOR {
        proof {
            reveal_strlit("/");
        }
        path.append("/");
        assert(path@ =~= base@.push(PATH_SEPARATOR));
    }
    path.append(name);
    path
}

} // verus!
