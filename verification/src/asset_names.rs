//! From the file names of an asset archive to the names under which maps
//! and effects are offered.

use vstd::prelude::*;
use vstd::string::StrSliceExecFns;

verus! {

/// The length of a dot and the three letters of an extension.
pub const EXTENSION_LEN: usize = 4;

/// Whether `text` ends with `ending`.
pub open spec fn ends_with(text: Seq<char>, ending: Seq<char>) -> bool {
    text.len() >= ending.len() && text.subrange(text.len() - ending.len(), text.len() as int)
        == ending
}

/// Whether a file name yields a name: it ends with the letters asked for,
/// and something is left of it, if only nothing, between a directory of
/// `dir_len` characters and the extension.
pub open spec fn has_bare_name(file_name: Seq<char>, letters: Seq<char>, dir_len: usize) -> bool {
    ends_with(file_name, letters) && file_name.len() >= dir_len + EXTENSION_LEN
}

/// What is left of a file name without its directory and its extension.
pub open spec fn bare_name_of(file_name: Seq<char>, dir_len: usize) -> Seq<char> {
    file_name.subrange(dir_len as int, file_name.len() - EXTENSION_LEN)
}

/// The names that the file names yield, in their order.
pub open spec fn bare_names_of(
    file_names: Seq<Seq<char>>,
    letters: Seq<char>,
    dir_len: usize,
) -> Seq<Seq<char>>
    decreases file_names.len(),
{
    if file_names.len() == 0 {
        Seq::empty()
    } else {
        let earlier = bare_names_of(file_names.drop_last(), letters, dir_len);
        if has_bare_name(file_names.last(), letters, dir_len) {
            earlier.push(bare_name_of(file_names.last(), dir_len))
        } else {
            earlier
        }
    }
}

/// Whether `text` ends with `ending`.
pub fn str_ends_with(text: &str, ending: &str) -> (ends: bool)
    ensures
        ends == ends_with(text@, ending@),
{
    let text_len = text.unicode_len();
    let ending_len = ending.unicode_len();
    if text_len < ending_len {
        return false;
    }
    let start = text_len - ending_len;
    let mut i: usize = 0;
    while i < ending_len
        invariant
            text_len == text@.len(),
            ending_len == ending@.len(),
            start == text_len - ending_len,
            i <= ending_len,
            forall|k: int| 0 <= k < i ==> text@[start + k] == ending@[k],
        decreases ending_len - i,
    {
        if text.get_char(start + i) != ending.get_char(i) {
            proof {
                assert(text@.subrange(start as int, text_len as int)[i as int] != ending@[i as int]);
            }
            return false;
        }
        i += 1;
    }
    proof {
        assert(text@.subrange(start as int, text_len as int) =~= ending@);
    }
    true
}

/// The name that a file name yields: the file name without the first
/// `dir_len` characters and without the last four, if it ends with `letters`
/// and is long enough for both to be taken off.
pub fn bare_name(file_name: &str, letters: &str, dir_len: usize) -> (name: Option<String>)
    ensures
        name is Some <==> has_bare_name(file_name@, letters@, dir_len),
        name matches Some(n) ==> n@ == bare_name_of(file_name@, dir_len),
{
    if !str_ends_with(file_name, letters) {
        return None;
    }
    let len = file_name.unicode_len();
    if len < EXTENSION_LEN || len - EXTENSION_LEN < dir_len {
        return None;
    }
    Some(file_name.substring_char(dir_len, len - EXTENSION_LEN).to_owned())
}

/// The names that the file names yield, in their order. File names that
/// yield none are passed over.
pub fn bare_names(file_names: &Vec<String>, letters: &str, dir_len: usize) -> (names: Vec<String>)
    ensures
        names@.map_values(|name: String| name@) == bare_names_of(
            file_names@.map_values(|name: String| name@),
            letters@,
            dir_len,
        ),
{
    let ghost all = file_names@.map_values(|name: String| name@);
    let mut names: Vec<String> = Vec::new();
    let mut i: usize = 0;
    while i < file_names.len()
        invariant
            i <= file_names.len(),
            all == file_names@.map_values(|name: String| name@),
            names@.map_values(|name: String| name@) == bare_names_of(
                all.take(i as int),
                letters@,
                dir_len,
            ),
        decreases file_names.len() - i,
    {
        proof {
            assert(all.take(i + 1).drop_last() == all.take(i as int));
            assert(all.take(i + 1).last() == file_names[i as int]@);
        }
        let ghost before = names@;
        match bare_name(file_names[i].as_str(), letters, dir_len) {
            Some(name) => {
                names.push(name);
                proof {
                    assert(names@.map_values(|name: String| name@) == before.map_values(
                        |name: String| name@,
                    ).push(name@));
                }
            },
            None => {},
        }
        i += 1;
    }
    proof {
        assert(all.take(file_names.len() as int) == all);
    }
    names
}

} // verus!
