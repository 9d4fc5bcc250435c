use vstd::prelude::*;
use vstd::string::*;

verus! {

/// The path of an entry named `name` inside a directory whose path is
/// `parent`: the two joined by a single `/`, or the name alone when the
/// parent is the root (empty path).
pub open spec fn path_join(parent: Seq<char>, name: Seq<char>) -> Seq<char> {
    if parent.len() == 0 {
        name
    } else {
        parent + seq!['/'] + name
    }
}

/// Joins a directory path and an entry name into the entry's path.
pub fn join_path(parent: &str, name: &str) -> (r: String)
    ensures
        r@ == path_join(parent@, name@),
{
    let mut joined = parent.to_owned();
    if parent.unicode_len() > 0 {
        proof {
            reveal_strlit("/");
        }
        joined.append("/");
        joined.append(name);
    } else {
        joined.append(name);
    }
    joined
}

/// Index of the last occurrence of `c` in `s`, or -1 when `c` does not occur.
pub open spec fn last_index_of(s: Seq<char>, c: char) -> int
    decreases s.len(),
{
    if s.len() == 0 {
        -1
    } else if s.last() == c {
        s.len() - 1
    } else {
        last_index_of(s.drop_last(), c)
    }
}

/// The extension of a file name: what follows its last `.`, or none when the
/// name holds no `.`.
pub open spec fn extension_spec(name: Seq<char>) -> Option<Seq<char>> {
    let i = last_index_of(name, '.');
    if i < 0 {
        None
    } else {
        Some(name.subrange(i + 1, name.len() as int))
    }
}

pub proof fn lemma_last_index_of(s: Seq<char>, c: char)
    ensures
        -1 <= last_index_of(s, c) < s.len(),
        last_index_of(s, c) >= 0 ==> s[last_index_of(s, c)] == c,
        forall|j: int| last_index_of(s, c) < j < s.len() ==> s[j] != c,
        last_index_of(s, c) == -1 <==> !s.contains(c),
    decreases s.len(),
{
    if s.len() > 0 && s.last() != c {
        lemma_last_index_of(s.drop_last(), c);
        assert forall|j: int| last_index_of(s, c) < j < s.len() implies s[j] != c by {
            if j < s.len() - 1 {
                assert(s.drop_last()[j] == s[j]);
            }
        }
        if s.contains(c) {
            let k = choose|k: int| 0 <= k < s.len() && s[k] == c;
            assert(s.drop_last()[k] == c);
        }
    }
    if s.len() > 0 && s.last() == c {
        assert(s[s.len() - 1] == c);
    }
}

/// A file name that holds no `.` has no extension.
pub proof fn lemma_no_dot_no_extension(name: Seq<char>)
    requires
        !name.contains('.'),
    ensures
        extension_spec(name) is None,
{
    lemma_last_index_of(name, '.');
}

/// When a name's last `.` stands at `i`, the extension is everything after
/// it (for `a.b.c`, it is `c`).
pub proof fn lemma_extension_after_last_dot(name: Seq<char>, i: int)
    requires
        0 <= i < name.len(),
        name[i] == '.',
        forall|j: int| i < j < name.len() ==> name[j] != '.',
    ensures
        extension_spec(name) == Some(name.subrange(i + 1, name.len() as int)),
{
    lemma_last_index_of(name, '.');
}

/// Whether two strings hold the same characters.
pub fn str_equal(a: &str, b: &str) -> (r: bool)
    ensures
        r == (a@ == b@),
{
    let n = a.unicode_len();
    if n != b.unicode_len() {
        return false;
    }
    let mut i: usize = 0;
    while i < n
        invariant
            n == a@.len(),
            n == b@.len(),
            i <= n,
            forall|j: int| 0 <= j < i ==> a@[j] == b@[j],
        decreases n - i,
    {
        if a.get_char(i) != b.get_char(i) {
            return false;
        }
        i = i + 1;
    }
    assert(a@ =~= b@);
    true
}

/// The extension of a file name, as [`extension_spec`] defines it.
pub fn file_extension(name: &str) -> (r: Option<String>)
    ensures
        r matches Some(e) ==> extension_spec(name@) == Some(e@),
        r is None ==> extension_spec(name@) is None,
{
    proof {
        lemma_last_index_of(name@, '.');
    }
    let n = name.unicode_len();
    let mut i: usize = n;
    while i > 0 && name.get_char(i - 1) != '.'
        invariant
            n == name@.len(),
            i <= n,
            forall|j: int| i <= j < n ==> name@[j] != '.',
        decreases i,
    {
        i = i - 1;
    }
    proof {
        if i > 0 {
            assert(last_index_of(name@, '.') == i - 1);
        } else {
            assert(!name@.contains('.'));
        }
    }
    if i == 0 {
        None
    } else {
        Some(name.substring_char(i, n).to_owned())
    }
}

} // verus!
