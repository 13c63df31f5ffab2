use vstd::prelude::*;
use crate::bytes::{copy_range, push_all};
use crate::text::{
    turn_prefix, sav_suffix, remote_folder, quicksave_name, fallback_fetch_name,
    turn_prefix_bytes, sav_suffix_bytes, remote_folder_bytes, quicksave_name_bytes,
    fallback_fetch_name_bytes,
};

verus! {

/// A byte that separates path segments: forward slash or backslash.
pub open spec fn is_path_sep(b: u8) -> bool {
    b == 47 || b == 92
}

/// Executable test for `is_path_sep`.
pub fn byte_is_path_sep(b: u8) -> (r: bool)
    ensures
        r == is_path_sep(b),
{
    b == 47 || b == 92
}

/// The canonical file name of a turn save: `turn_` then the identifier,
/// verbatim, then `.sav`. The identifier is an opaque string; nothing checks
/// that it is numeric.
pub open spec fn turn_file_name_spec(turn: Seq<u8>) -> Seq<u8> {
    turn_prefix() + turn + sav_suffix()
}

/// Builds the canonical turn file name.
pub fn turn_file_name(turn: &[u8]) -> (r: Vec<u8>)
    ensures
        r@ == turn_file_name_spec(turn@),
{
    let mut r = turn_prefix_bytes();
    push_all(&mut r, turn);
    let suffix = sav_suffix_bytes();
    push_all(&mut r, suffix.as_slice());
    r
}

/// The remote store location of a file in the fixed save folder.
pub open spec fn remote_path_spec(name: Seq<u8>) -> Seq<u8> {
    remote_folder() + seq![47u8] + name
}

/// Builds the remote path of a file in the fixed save folder.
pub fn remote_path(name: &[u8]) -> (r: Vec<u8>)
    ensures
        r@ == remote_path_spec(name@),
{
    let mut r = remote_folder_bytes();
    r.push(47u8);
    push_all(&mut r, name);
    proof {
        assert(r@ =~= remote_path_spec(name@));
    }
    r
}

/// The remote store location of a turn save.
pub open spec fn turn_remote_path_spec(turn: Seq<u8>) -> Seq<u8> {
    remote_path_spec(turn_file_name_spec(turn))
}

/// Builds the remote path of a turn save.
pub fn turn_remote_path(turn: &[u8]) -> (r: Vec<u8>)
    ensures
        r@ == turn_remote_path_spec(turn@),
{
    let name = turn_file_name(turn);
    remote_path(name.as_slice())
}

/// A directory joined to a file name with the injected separator.
pub open spec fn join_spec(dir: Seq<u8>, sep: u8, name: Seq<u8>) -> Seq<u8> {
    dir + seq![sep] + name
}

/// Joins a directory and a file name.
pub fn join_path(dir: &[u8], sep: u8, name: &[u8]) -> (r: Vec<u8>)
    ensures
        r@ == join_spec(dir@, sep, name@),
{
    let mut r: Vec<u8> = Vec::new();
    push_all(&mut r, dir);
    r.push(sep);
    push_all(&mut r, name);
    proof {
        assert(r@ =~= join_spec(dir@, sep, name@));
    }
    r
}

/// Where the peer application's quicksave sits in the save directory.
pub open spec fn quicksave_path_spec(dir: Seq<u8>, sep: u8) -> Seq<u8> {
    join_spec(dir, sep, quicksave_name())
}

/// Builds the quicksave path.
pub fn quicksave_path(dir: &[u8], sep: u8) -> (r: Vec<u8>)
    ensures
        r@ == quicksave_path_spec(dir@, sep),
{
    let name = quicksave_name_bytes();
    join_path(dir, sep, name.as_slice())
}

/// What stands after the last path separator; the whole path when it has
/// none, empty when it ends in one.
pub open spec fn after_last_sep(p: Seq<u8>) -> Seq<u8>
    decreases p.len(),
{
    if p.len() == 0 {
        p
    } else if is_path_sep(p[p.len() - 1]) {
        Seq::empty()
    } else {
        after_last_sep(p.drop_last()).push(p[p.len() - 1])
    }
}

/// Scanning back to the last separator finds the suffix `after_last_sep` names.
proof fn lemma_after_last_sep(p: Seq<u8>, k: int)
    requires
        0 <= k <= p.len(),
        forall|j: int| k <= j < p.len() ==> !is_path_sep(p[j]),
        k > 0 ==> is_path_sep(p[k - 1]),
    ensures
        after_last_sep(p) == p.subrange(k, p.len() as int),
    decreases p.len(),
{
    if p.len() == 0 {
        assert(p.subrange(0, 0) =~= p);
    } else if k == p.len() {
        assert(p.subrange(k, p.len() as int) =~= Seq::<u8>::empty());
    } else {
        let p1 = p.drop_last();
        assert(!is_path_sep(p[p.len() - 1]));
        lemma_after_last_sep(p1, k);
        assert(p1.subrange(k, p1.len() as int) =~= p.subrange(k, p.len() - 1));
        assert(p.subrange(k, p.len() - 1).push(p[p.len() - 1]) =~= p.subrange(k, p.len() as int));
    }
}

/// The base name of a local path: what follows its last separator.
pub fn base_name(p: &[u8]) -> (r: Vec<u8>)
    ensures
        r@ == after_last_sep(p@),
{
    let n = p.len();
    let mut k: usize = n;
    while k > 0 && !byte_is_path_sep(p[k - 1])
        invariant
            k <= n,
            n == p@.len(),
            forall|j: int| k <= j < n ==> !is_path_sep(p@[j]),
        decreases k,
    {
        k -= 1;
    }
    proof {
        lemma_after_last_sep(p@, k as int);
    }
    copy_range(p, k, n)
}

/// What stands after the last forward slash of a url; the whole url when it
/// has none, empty when it ends in one.
pub open spec fn after_last_slash(p: Seq<u8>) -> Seq<u8>
    decreases p.len(),
{
    if p.len() == 0 {
        p
    } else if p[p.len() - 1] == 47 {
        Seq::empty()
    } else {
        after_last_slash(p.drop_last()).push(p[p.len() - 1])
    }
}

/// Scanning back to the last slash finds the suffix `after_last_slash` names.
proof fn lemma_after_last_slash(p: Seq<u8>, k: int)
    requires
        0 <= k <= p.len(),
        forall|j: int| k <= j < p.len() ==> p[j] != 47,
        k > 0 ==> p[k - 1] == 47,
    ensures
        after_last_slash(p) == p.subrange(k, p.len() as int),
    decreases p.len(),
{
    if p.len() == 0 {
        assert(p.subrange(0, 0) =~= p);
    } else if k == p.len() {
        assert(p.subrange(k, p.len() as int) =~= Seq::<u8>::empty());
    } else {
        let p1 = p.drop_last();
        lemma_after_last_slash(p1, k);
        assert(p1.subrange(k, p1.len() as int) =~= p.subrange(k, p.len() - 1));
        assert(p.subrange(k, p.len() - 1).push(p[p.len() - 1]) =~= p.subrange(k, p.len() as int));
    }
}

/// The file name a url download is stored under: the url's last segment, or a
/// fixed fallback name when the url ends without one.
pub open spec fn url_file_name_spec(url: Seq<u8>) -> Seq<u8> {
    if after_last_slash(url).len() == 0 {
        fallback_fetch_name()
    } else {
        after_last_slash(url)
    }
}

/// Derives the local file name for a url download.
pub fn url_file_name(url: &[u8]) -> (r: Vec<u8>)
    ensures
        r@ == url_file_name_spec(url@),
{
    let n = url.len();
    let mut k: usize = n;
    while k > 0 && url[k - 1] != 47
        invariant
            k <= n,
            n == url@.len(),
            forall|j: int| k <= j < n ==> url@[j] != 47,
        decreases k,
    {
        k -= 1;
    }
    proof {
        lemma_after_last_slash(url@, k as int);
    }
    if k == n {
        fallback_fetch_name_bytes()
    } else {
        copy_range(url, k, n)
    }
}

} // verus!
