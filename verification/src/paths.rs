//! Paths of files, as text.
use crate::text::{ends_with, strip_suffix};
use vstd::prelude::*;

verus! {

/// `rest`, which is no absolute path, below the directory `dir`.
pub open spec fn below(dir: Seq<char>, rest: Seq<char>) -> Seq<char> {
    if dir.len() == 0 || ends_with(dir, "/"@) {
        dir + rest
    } else {
        dir + "/"@ + rest
    }
}

/// `rest`, which is no absolute path, below the directory `dir`.
pub fn join_path(dir: &str, rest: &str) -> (r: String)
    ensures
        r@ == below(dir@, rest@),
{
    let mut r: String = dir.to_owned();
    if !(dir.is_empty() || strip_suffix(dir, "/").is_some()) {
        r.append("/");
    }
    r.append(rest);
    r
}

} // verus!
