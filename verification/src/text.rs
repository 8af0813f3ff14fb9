use vstd::prelude::*;

verus! {

/// The messages of an error and its causes on one line, outermost first,
/// separated by `": "`.
pub open spec fn joined_chain(messages: Seq<Seq<char>>) -> Seq<char>
    decreases messages.len(),
{
    if messages.len() <= 1 {
        if messages.len() == 1 {
            messages[0]
        } else {
            Seq::empty()
        }
    } else {
        joined_chain(messages.drop_last()) + ": "@ + messages.last()
    }
}

/// Writes the messages of an error and its causes on one line, outermost
/// first, separated by `": "`.
pub fn join_error_chain(messages: &Vec<String>) -> (line: String)
    requires
        messages@.len() > 0,
    ensures
        line@ == joined_chain(messages@.map_values(|m: String| m@)),
{
    let ghost views = messages@.map_values(|m: String| m@);
    let mut line = messages[0].clone();
    let n: usize = messages.len();
    let mut i: usize = 1;
    assert(views.take(1).drop_last() =~= Seq::<Seq<char>>::empty());
    while i < n
        invariant
            n == messages@.len(),
            1 <= i <= n,
            views == messages@.map_values(|m: String| m@),
            line@ == joined_chain(views.take(i as int)),
        decreases n - i,
    {
        line.append(": ");
        line.append(messages[i].as_str());
        assert(views.take(i + 1).drop_last() =~= views.take(i as int));
        i = i + 1;
    }
    assert(views.take(n as int) =~= views);
    line
}

/// Whether `needle` occurs in `haystack` starting at position `at`.
pub open spec fn occurs_at(haystack: Seq<char>, needle: Seq<char>, at: int) -> bool {
    0 <= at && at + needle.len() <= haystack.len() && haystack.subrange(at, at + needle.len())
        == needle
}

/// Whether `needle` occurs anywhere in `haystack`.
pub open spec fn contains_text(haystack: Seq<char>, needle: Seq<char>) -> bool {
    exists|at: int| occurs_at(haystack, needle, at)
}

/// Whether `needle` occurs in `haystack`.
pub fn str_contains(haystack: &str, needle: &str) -> (found: bool)
    ensures
        found == contains_text(haystack@, needle@),
{
    let h: usize = haystack.unicode_len();
    let m: usize = needle.unicode_len();
    if m > h {
        assert forall|at: int| !occurs_at(haystack@, needle@, at) by {}
        return false;
    }
    let mut at: usize = 0;
    while at <= h - m
        invariant
            h == haystack@.len(),
            m == needle@.len(),
            m <= h,
            forall|k: int| 0 <= k < at ==> !occurs_at(haystack@, needle@, k),
        decreases h - m + 1 - at,
    {
        let mut j: usize = 0;
        while j < m && haystack.get_char(at + j) == needle.get_char(j)
            invariant
                h == haystack@.len(),
                m == needle@.len(),
                at + m <= h,
                j <= m,
                forall|q: int| 0 <= q < j ==> haystack@[at + q] == needle@[q],
            decreases m - j,
        {
            j = j + 1;
        }
        if j == m {
            assert(haystack@.subrange(at as int, at + m) =~= needle@);
            assert(occurs_at(haystack@, needle@, at as int));
            return true;
        }
        assert(!occurs_at(haystack@, needle@, at as int)) by {
            if occurs_at(haystack@, needle@, at as int) {
                assert(haystack@.subrange(at as int, at + m)[j as int] == needle@[j as int]);
            }
        }
        at = at + 1;
    }
    assert forall|at: int| !occurs_at(haystack@, needle@, at) by {}
    false
}

/// The position of the last `.` in a file name, if there is one.
pub open spec fn last_dot(name: Seq<char>, k: int) -> bool {
    &&& 0 <= k < name.len()
    &&& name[k] == '.'
    &&& forall|q: int| k < q < name.len() ==> name[q] != '.'
}

/// The extension of a file name: what follows its last `.`, or the whole
/// name when it holds none.
pub open spec fn extension_of(name: Seq<char>) -> Seq<char> {
    if exists|k: int| last_dot(name, k) {
        let k: int = choose|k: int| last_dot(name, k);
        name.subrange(k + 1, name.len() as int)
    } else {
        name
    }
}

/// The extension of a file name: what follows its last `.`, or the whole
/// name when it holds none.
pub fn file_extension(name: &str) -> (ext: &str)
    ensures
        ext@ == extension_of(name@),
{
    let n: usize = name.unicode_len();
    let mut i: usize = n;
    while i > 0
        invariant
            n == name@.len(),
            i <= n,
            forall|q: int| i <= q < n ==> name@[q] != '.',
        decreases i,
    {
        if name.get_char(i - 1) == '.' {
            let k: usize = i - 1;
            assert(last_dot(name@, k as int));
            proof {
                let c: int = choose|c: int| last_dot(name@, c);
                assert(c == k as int) by {
                    if c < k as int {
                        assert(name@[k as int] != '.');
                    } else if c > k as int {
                        assert(name@[c] != '.');
                    }
                }
            }
            return name.substring_char(i, n);
        }
        i = i - 1;
    }
    assert(!exists|k: int| last_dot(name@, k));
    assert(name@.subrange(0, n as int) =~= name@);
    name.substring_char(0, n)
}

} // verus!
