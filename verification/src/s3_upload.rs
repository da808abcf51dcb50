//! Where the table goes: the name under which the file is stored.

use vstd::prelude::*;
use vstd::string::StringExecFns;
use vstd::string::StrSliceExecFns;

verus! {

/// The position just behind the last `/` of `path`, 0 where it holds none.
pub open spec fn name_start(path: Seq<char>) -> int
    decreases path.len(),
{
    if path.len() == 0 {
        0
    } else if path.last() == '/' {
        path.len() as int
    } else {
        name_start(path.drop_last())
    }
}

/// The file name of a path: what stands behind its last `/`, the whole path
/// where it holds none.
pub open spec fn file_name(path: Seq<char>) -> Seq<char> {
    path.skip(name_start(path))
}

/// `name_start` lies inside the path, and no `/` stands behind it.
pub proof fn lemma_name_start(path: Seq<char>)
    ensures
        0 <= name_start(path) <= path.len(),
        forall|i: int| name_start(path) <= i < path.len() ==> path[i] != '/',
        name_start(path) > 0 ==> path[name_start(path) - 1] == '/',
    decreases path.len(),
{
    if path.len() > 0 && path.last() != '/' {
        let front = path.drop_last();
        lemma_name_start(front);
        assert forall|i: int| name_start(path) <= i < path.len() implies path[i] != '/' by {
            if i < front.len() {
                assert(front[i] == path[i]);
            }
        }
        if name_start(path) > 0 {
            assert(front[name_start(path) - 1] == path[name_start(path) - 1]);
        }
    }
}

/// The file name of a path never holds a `/`.
pub proof fn lemma_file_name_has_no_slash(path: Seq<char>)
    ensures
        forall|i: int| 0 <= i < file_name(path).len() ==> file_name(path)[i] != '/',
{
    lemma_name_start(path);
}

/// The key under which the file at `csv_file` is stored: its file name,
/// without the directories before it.
pub fn object_key(csv_file: &str) -> (key: String)
    ensures
        key@ == file_name(csv_file@),
{
    let n = csv_file.unicode_len();
    let mut start: usize = 0;
    let mut seen: usize = 0;
    for c in it: csv_file.chars()
        invariant
            it.seq() == csv_file@,
            n == csv_file@.len(),
            seen == it.index(),
            start == name_start(csv_file@.take(seen as int)),
            start <= seen,
    {
        proof {
            let next = csv_file@.take(seen as int + 1);
            assert(next.drop_last() =~= csv_file@.take(seen as int));
            assert(next.last() == c);
        }
        seen += 1;
        if c == '/' {
            start = seen;
        }
    }
    proof {
        assert(csv_file@.take(n as int) =~= csv_file@);
        assert(csv_file@.subrange(start as int, n as int) =~= csv_file@.skip(start as int));
    }
    String::from_str(csv_file.substring_char(start, n))
}

} // verus!
