//! Facts about the process the daemon runs as.
use vstd::prelude::*;
use vstd::string::StrSliceExecFns;

use crate::text::{
    lines, lines_of, parse_unsigned, parse_unsigned_str, starts_with, starts_with_str, substring,
    views, words, words_of,
};

verus! {

broadcast use vstd::string::group_string_axioms;

/// The rest of the first of `ls` that starts with `prefix`, after it.
pub open spec fn after_first_prefixed(ls: Seq<Seq<char>>, prefix: Seq<char>) -> Option<Seq<char>>
    decreases ls.len(),
{
    if ls.len() == 0 {
        None
    } else if starts_with(ls[0], prefix) {
        Some(ls[0].subrange(prefix.len() as int, ls[0].len() as int))
    } else {
        after_first_prefixed(ls.drop_first(), prefix)
    }
}

/// `/proc/self/status` contents `status` say that the effective user id is
/// root: the second field of its `Uid:` line reads as the number 0.
pub open spec fn is_root_status(status: Seq<char>) -> bool {
    match after_first_prefixed(lines(status), "Uid:"@) {
        Some(rest) => words(rest).len() > 1 && parse_unsigned(words(rest)[1], u32::MAX as nat)
            == Some(0nat),
        None => false,
    }
}

/// Whether the process whose `/proc/self/status` reads `status` runs with
/// effective user id 0 (the id that governs sysfs write permission).
pub fn euid_is_root(status: &str) -> (b: bool)
    ensures
        b == is_root_status(status@),
{
    proof {
        reveal_strlit("Uid:");
    }
    let ls = lines_of(status);
    let n = ls.len();
    let mut i: usize = 0;
    assert(views(ls@).subrange(0, n as int) =~= views(ls@));
    while i < n
        invariant
            i <= n == ls@.len(),
            views(ls@) == lines(status@),
            after_first_prefixed(lines(status@), "Uid:"@) == after_first_prefixed(
                views(ls@).subrange(i as int, n as int),
                "Uid:"@,
            ),
            "Uid:"@.len() == 4,
        decreases n - i,
    {
        let ghost rest = views(ls@).subrange(i as int, n as int);
        assert(rest[0] == ls@[i as int]@);
        assert(rest.drop_first() =~= views(ls@).subrange(i + 1, n as int));
        let line = ls[i].as_str();
        if starts_with_str(line, "Uid:") {
            let after = substring(line, 4, ls[i].unicode_len());
            let fields = words_of(after.as_str());
            if fields.len() > 1 {
                let euid = parse_unsigned_str(fields[1].as_str(), u32::MAX);
                return match euid {
                    Some(v) => v == 0,
                    None => false,
                };
            }
            return false;
        }
        i = i + 1;
    }
    false
}

} // verus!
