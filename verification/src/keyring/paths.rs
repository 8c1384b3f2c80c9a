//! Where a keyring and its key files lie.

use crate::keyring::error::KeyringError;
use crate::text::matches_at;
use crate::text::same_text;
use crate::text::starts_with;
use crate::text::strip_prefix;
use vstd::prelude::*;
use vstd::seq_lib::to_multiset_build;
use vstd::seq_lib::to_multiset_insert;
use vstd::string::StrSliceExecFns;
use vstd::string::StringExecFns;
use vstd::utf8::encode_utf8;

verus! {

/// The path `rest` taken from the directory `base`, with `/` between the
/// parts of a path: `rest` itself where it starts at the root; otherwise
/// `base`, a `/` unless `base` is empty or ends in one, and `rest`.
pub open spec fn joined(base: Seq<char>, rest: Seq<char>) -> Seq<char> {
    if rest.len() > 0 && rest[0] == '/' {
        rest
    } else if base.len() == 0 || base.last() == '/' {
        base + rest
    } else {
        base + seq!['/'] + rest
    }
}

/// Joins a path to a directory.
pub fn join_path(base: &str, rest: &str) -> (path: String)
    ensures
        path@ == joined(base@, rest@),
{
    let base_len = base.unicode_len();
    if rest.unicode_len() > 0 && rest.get_char(0) == '/' {
        String::from_str(rest)
    } else if base_len == 0 || base.get_char(base_len - 1) == '/' {
        String::from_str(base).concat(rest)
    } else {
        proof {
            reveal_strlit("/");
        }
        let path = String::from_str(base).concat("/").concat(rest);
        assert("/"@ =~= seq!['/']);
        path
    }
}

/// Whether `path` starts at the user's home directory: it is `~`, or begins
/// with `~/`.
pub open spec fn starts_at_home(path: Seq<char>) -> bool {
    "~/"@.is_prefix_of(path) || path == "~"@
}

/// `path` with a leading `~` replaced by the home directory `home`, or why
/// that cannot be done: the home directory is needed and not known.
pub open spec fn expanded(path: Seq<char>, home: Option<Seq<char>>) -> Option<Seq<char>> {
    if "~/"@.is_prefix_of(path) {
        match home {
            Some(h) => Some(joined(h, path.skip("~/"@.len() as int))),
            None => None,
        }
    } else if path == "~"@ {
        home
    } else {
        Some(path)
    }
}

/// Whether `text` is `path` with a leading `~` replaced by the home
/// directory `home`.
pub open spec fn is_expansion(text: Seq<char>, path: Seq<char>, home: Seq<char>) -> bool {
    expanded(path, Some(home)) == Some(text)
}

/// Replaces a leading `~` in `path` by the home directory, which is `home`
/// where it is known.
pub fn expand_tilde_in(path: &str, home: Option<String>) -> (r: Result<String, KeyringError>)
    ensures
        match expanded(
            path@,
            match home {
                Some(h) => Some(h@),
                None => None,
            },
        ) {
            Some(text) => r matches Ok(p) && p@ == text,
            None => r matches Err(KeyringError::HomeDirNotFound),
        },
{
    if let Some(rest) = strip_prefix(path, "~/") {
        match home {
            Some(h) => Ok(join_path(h.as_str(), rest)),
            None => Err(KeyringError::HomeDirNotFound),
        }
    } else if same_text(path, "~") {
        match home {
            Some(h) => Ok(h),
            None => Err(KeyringError::HomeDirNotFound),
        }
    } else {
        Ok(String::from_str(path))
    }
}

/// Asks `dirs::home_dir` for the user's home directory. The answer depends on
/// the environment, so nothing is claimed of it.
#[verifier::external_body]
fn home_dir() -> (home: Option<String>) {
    match dirs::home_dir() {
        Some(path) => Some(path.to_string_lossy().to_string()),
        None => None,
    }
}

/// Replaces a leading `~` in `path` by the user's home directory. What the
/// home directory is, and whether it is known, is the environment's to say;
/// a path that does not start at it is returned as it is.
pub fn expand_tilde(path: &str) -> (r: Result<String, KeyringError>)
    ensures
        !starts_at_home(path@) ==> (r matches Ok(p) && p@ == path@),
        starts_at_home(path@) ==> (r matches Err(KeyringError::HomeDirNotFound)) || (r matches Ok(
            p,
        ) && exists|home: Seq<char>| is_expansion(p@, path@, home)),
{
    let home = if starts_with(path, "~/") || same_text(path, "~") {
        home_dir()
    } else {
        None
    };
    let ghost home_text = if home is Some {
        home->0@
    } else {
        Seq::empty()
    };
    let r = expand_tilde_in(path, home);
    proof {
        if starts_at_home(path@) && r is Ok {
            assert(is_expansion(r->Ok_0@, path@, home_text));
        }
    }
    r
}

/// The name of a key whose file is called `file_name`: what stands before
/// the extension `.info`. Nothing for a file with another extension, with
/// none, or with nothing before it.
pub open spec fn info_stem(file_name: Seq<char>) -> Option<Seq<char>> {
    if file_name.len() > 5 && file_name.skip(file_name.len() - 5) == ".info"@ {
        Some(file_name.take(file_name.len() - 5))
    } else {
        None
    }
}

/// The name of the key whose file is called `file_name`, if it is a key
/// file.
pub fn key_name_of<'a>(file_name: &'a str) -> (name: Option<&'a str>)
    ensures
        match info_stem(file_name@) {
            Some(stem) => name matches Some(n) && n@ == stem,
            None => name is None,
        },
{
    proof {
        reveal_strlit(".info");
    }
    let len = file_name.unicode_len();
    if len > 5 && matches_at(file_name, ".info", len - 5) {
        assert(file_name@.skip(len - 5) =~= file_name@.subrange(len - 5, len as int));
        assert(file_name@.take(len - 5) =~= file_name@.subrange(0, len - 5));
        Some(file_name.substring_char(0, len - 5))
    } else {
        proof {
            if len > 5 {
                assert(file_name@.skip(len - 5) =~= file_name@.subrange(len - 5, len as int));
            }
        }
        None
    }
}

/// The name of the file that holds the key called `name`.
pub fn key_file_name(name: &str) -> (file_name: String)
    ensures
        file_name@ == name@ + ".info"@,
{
    String::from_str(name).concat(".info")
}

/// The names of the keys whose files are called `file_names`, in the order
/// of the files.
pub open spec fn info_stems(file_names: Seq<Seq<char>>) -> Seq<Seq<char>>
    decreases file_names.len(),
{
    if file_names.len() == 0 {
        Seq::empty()
    } else {
        let front = info_stems(file_names.drop_last());
        match info_stem(file_names.last()) {
            Some(stem) => front.push(stem),
            None => front,
        }
    }
}

/// Whether the bytes `a` come before the bytes `b`, or are the same: they
/// are compared byte by byte, and a sequence comes before those it begins.
pub open spec fn bytes_le(a: Seq<u8>, b: Seq<u8>) -> bool
    decreases a.len(),
{
    if a.len() == 0 {
        true
    } else if b.len() == 0 {
        false
    } else if a[0] != b[0] {
        a[0] < b[0]
    } else {
        bytes_le(a.skip(1), b.skip(1))
    }
}

/// Bytes never come after themselves.
pub proof fn lemma_bytes_le_reflexive(a: Seq<u8>)
    ensures
        bytes_le(a, a),
    decreases a.len(),
{
    if a.len() > 0 {
        lemma_bytes_le_reflexive(a.skip(1));
    }
}

/// Whether `names` are in ascending order, compared by their bytes in
/// UTF-8.
pub open spec fn names_sorted(names: Seq<Seq<char>>) -> bool {
    forall|i: int, j: int|
        0 <= i < j < names.len() ==> bytes_le(
            encode_utf8(#[trigger] names[i]),
            encode_utf8(#[trigger] names[j]),
        )
}

/// The characters of each of `names`.
pub open spec fn names_of(names: Seq<String>) -> Seq<Seq<char>> {
    names.map_values(|name: String| name@)
}

/// Of two sequences of bytes, one comes before the other or they are the
/// same.
pub proof fn lemma_bytes_le_total(a: Seq<u8>, b: Seq<u8>)
    ensures
        bytes_le(a, b) || bytes_le(b, a),
    decreases a.len(),
{
    if a.len() > 0 && b.len() > 0 && a[0] == b[0] {
        lemma_bytes_le_total(a.skip(1), b.skip(1));
    }
}

/// What comes before bytes that come before others comes before those.
pub proof fn lemma_bytes_le_transitive(a: Seq<u8>, b: Seq<u8>, c: Seq<u8>)
    requires
        bytes_le(a, b),
        bytes_le(b, c),
    ensures
        bytes_le(a, c),
    decreases a.len(),
{
    if a.len() > 0 && b.len() > 0 && c.len() > 0 && a[0] == b[0] && b[0] == c[0] {
        lemma_bytes_le_transitive(a.skip(1), b.skip(1), c.skip(1));
    }
}

/// Whether the name `a` comes before the name `b` or is the same, compared
/// by their bytes in UTF-8.
pub fn name_le(a: &str, b: &str) -> (le: bool)
    ensures
        le == bytes_le(encode_utf8(a@), encode_utf8(b@)),
{
    let x = a.as_bytes();
    let y = b.as_bytes();
    let mut i: usize = 0;
    assert(x@.skip(0) =~= x@);
    assert(y@.skip(0) =~= y@);
    while i < x.len() && i < y.len() && x[i] == y[i]
        invariant
            i <= x@.len(),
            i <= y@.len(),
            bytes_le(x@, y@) == bytes_le(x@.skip(i as int), y@.skip(i as int)),
        decreases x@.len() - i,
    {
        assert(x@.skip(i as int).skip(1) =~= x@.skip(i + 1));
        assert(y@.skip(i as int).skip(1) =~= y@.skip(i + 1));
        i = i + 1;
    }
    if i == x.len() {
        true
    } else if i == y.len() {
        false
    } else {
        x[i] < y[i]
    }
}

/// Puts `name` into the sorted `names` at its place.
fn insert_sorted(names: &mut Vec<String>, name: String)
    requires
        names_sorted(names_of(old(names)@)),
    ensures
        names_sorted(names_of(final(names)@)),
        names_of(final(names)@).to_multiset() == names_of(old(names)@).to_multiset().insert(
            name@,
        ),
{
    let ghost before = names_of(names@);
    let mut at: usize = 0;
    while at < names.len() && name_le(names[at].as_str(), name.as_str())
        invariant
            at <= names@.len(),
            before == names_of(names@),
            forall|j: int| 0 <= j < at ==> bytes_le(encode_utf8(before[j]), encode_utf8(name@)),
        decreases names@.len() - at,
    {
        at = at + 1;
    }
    proof {
        if at < names@.len() {
            lemma_bytes_le_total(encode_utf8(before[at as int]), encode_utf8(name@));
            assert forall|j: int| at <= j < before.len() implies bytes_le(
                encode_utf8(name@),
                encode_utf8(before[j]),
            ) by {
                if j > at {
                    lemma_bytes_le_transitive(
                        encode_utf8(name@),
                        encode_utf8(before[at as int]),
                        encode_utf8(before[j]),
                    );
                }
            }
        }
        to_multiset_insert(before, at as int, name@);
    }
    names.insert(at, name);
    assert(names_of(names@) =~= before.insert(at as int, name@));
}

/// The names of the keys in a keyring whose directory holds the files
/// called `file_names`: the names of its key files, sorted.
pub fn key_names(file_names: &Vec<String>) -> (names: Vec<String>)
    ensures
        names_of(names@).to_multiset() == info_stems(names_of(file_names@)).to_multiset(),
        names_sorted(names_of(names@)),
{
    let ghost all = names_of(file_names@);
    let mut names: Vec<String> = Vec::new();
    let mut i: usize = 0;
    assert(all.take(0) =~= Seq::empty());
    assert(names_of(names@) =~= Seq::empty());
    while i < file_names.len()
        invariant
            i <= file_names@.len(),
            all == names_of(file_names@),
            names_of(names@).to_multiset() == info_stems(all.take(i as int)).to_multiset(),
            names_sorted(names_of(names@)),
        decreases file_names@.len() - i,
    {
        proof {
            assert(all.take(i + 1).drop_last() =~= all.take(i as int));
            assert(all.take(i + 1).last() == file_names@[i as int]@);
        }
        match key_name_of(file_names[i].as_str()) {
            Some(name) => {
                proof {
                    to_multiset_build(info_stems(all.take(i as int)), name@);
                }
                insert_sorted(&mut names, String::from_str(name));
            },
            None => {},
        }
        i = i + 1;
    }
    assert(all.take(i as int) =~= all);
    names
}

} // verus!
