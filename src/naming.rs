//! Choosing a file name that does not collide with the files already present
//! in the download directory: `name.ext`, then `name(1).ext`, `name(2).ext`, ...
use vstd::prelude::*;
use vstd::relations::injective_on;
use vstd::set_lib::*;

use crate::text::{decimal, decimal_string, lemma_decimal_injective, lemma_decimal_len};

verus! {

/// Index of the last occurrence of `c` in `s`, or -1.
pub open spec fn last_index_of(s: Seq<char>, c: char) -> int
    decreases s.len(),
{
    if s.len() == 0 {
        -1
    } else if s.last() == c {
        s.len() - 1
    } else {
        last_index_of(s.drop_last(), c)
    }
}

/// Whether the name has no stem of its own (`""` or `".."`); such names are
/// numbered from the stem `file`.
pub open spec fn stemless(name: Seq<char>) -> bool {
    name.len() == 0 || name == ".."@
}

/// The file stem: everything before the last dot, unless that dot is the
/// first character or there is none.
pub open spec fn file_stem(name: Seq<char>) -> Seq<char> {
    if stemless(name) {
        "file"@
    } else if last_index_of(name, '.') <= 0 {
        name
    } else {
        name.subrange(0, last_index_of(name, '.'))
    }
}

/// The extension: everything after the last dot, where the stem rule splits.
pub open spec fn file_extension(name: Seq<char>) -> Option<Seq<char>> {
    if stemless(name) || last_index_of(name, '.') <= 0 {
        None
    } else {
        Some(name.subrange(last_index_of(name, '.') + 1, name.len() as int))
    }
}

/// The `count`-th candidate for `name`: the name itself for 0, otherwise
/// `stem(count).ext` (or `stem(count)` without an extension).
pub open spec fn numbered_name(name: Seq<char>, count: nat) -> Seq<char> {
    if count == 0 {
        name
    } else {
        let base = file_stem(name) + "("@ + decimal(count) + ")"@;
        match file_extension(name) {
            Some(ext) => base + "."@ + ext,
            None => base,
        }
    }
}

/// Whether a file called `name` is among `existing`.
pub open spec fn taken(existing: Seq<String>, name: Seq<char>) -> bool {
    exists|i: int| 0 <= i < existing.len() && #[trigger] existing[i]@ == name
}

/// `r` is the first candidate for `name` that is not taken.
pub open spec fn is_first_free(existing: Seq<String>, name: Seq<char>, r: Seq<char>) -> bool {
    exists|k: nat|
        #![trigger numbered_name(name, k)]
        r == numbered_name(name, k) && !taken(existing, r) && forall|j: nat|
            j < k ==> taken(existing, #[trigger] numbered_name(name, j))
}

pub proof fn lemma_last_index_bounds(s: Seq<char>, c: char)
    ensures
        -1 <= last_index_of(s, c) < s.len(),
        last_index_of(s, c) >= 0 ==> s[last_index_of(s, c)] == c,
        forall|i: int| last_index_of(s, c) < i < s.len() ==> s[i] != c,
    decreases s.len(),
{
    if s.len() > 0 && s.last() != c {
        lemma_last_index_bounds(s.drop_last(), c);
        assert forall|i: int| last_index_of(s, c) < i < s.len() implies s[i] != c by {
            if i < s.len() - 1 {
                assert(s.drop_last()[i] == s[i]);
            }
        }
    }
}

proof fn lemma_numbered_len(name: Seq<char>, count: nat)
    requires
        count > 0,
    ensures
        numbered_name(name, count).len() >= name.len() + 3,
        numbered_name(name, count).len() == file_stem(name).len() + decimal(count).len() + 2 + (
        match file_extension(name) {
            Some(ext) => ext.len() + 1,
            None => 0nat,
        }),
{
    reveal_strlit("file");
    reveal_strlit("..");
    reveal_strlit("(");
    reveal_strlit(")");
    reveal_strlit(".");
    lemma_last_index_bounds(name, '.');
    lemma_decimal_len(count);
}

proof fn lemma_numbered_injective(name: Seq<char>, a: nat, b: nat)
    requires
        numbered_name(name, a) == numbered_name(name, b),
    ensures
        a == b,
{
    if a > 0 && b > 0 {
        lemma_numbered_len(name, a);
        lemma_numbered_len(name, b);
        reveal_strlit("(");
        let p: int = file_stem(name).len() + 1int;
        let na = numbered_name(name, a);
        let nb = numbered_name(name, b);
        assert(decimal(a).len() == decimal(b).len());
        assert(na.subrange(p, p + decimal(a).len()) =~= decimal(a));
        assert(nb.subrange(p, p + decimal(b).len()) =~= decimal(b));
        lemma_decimal_injective(a, b);
    } else if a > 0 {
        lemma_numbered_len(name, a);
    } else if b > 0 {
        lemma_numbered_len(name, b);
    }
}

/// Among `existing.len() + 1` distinct candidates at least one is not taken.
proof fn lemma_some_candidate_free(existing: Seq<String>, name: Seq<char>)
    ensures
        exists|j: nat| j <= existing.len() && !taken(existing, #[trigger] numbered_name(name, j)),
{
    let n: int = existing.len() as int;
    if forall|j: nat| j <= n ==> taken(existing, #[trigger] numbered_name(name, j)) {
        let names = existing.map_values(|s: String| s@);
        let idx = set_int_range(0, n + 1);
        let g = |j: int| numbered_name(name, j as nat);
        lemma_int_range(0, n + 1);
        assert(injective_on(g, idx)) by {
            assert forall|x: int, y: int| idx.contains(x) && idx.contains(y) && #[trigger] g(x) == #[trigger] g(y) implies x == y by {
                lemma_numbered_injective(name, x as nat, y as nat);
            }
        }
        lemma_map_size(idx, idx.map(g), g);
        assert(idx.map(g).subset_of(names.to_set())) by {
            assert forall|s: Seq<char>| #[trigger] idx.map(g).contains(s) implies names.to_set().contains(s) by {
                let x = choose|x: int| idx.contains(x) && g(x) == s;
                assert(taken(existing, numbered_name(name, x as nat)));
                let i = choose|i: int| 0 <= i < existing.len() && #[trigger] existing[i]@ == numbered_name(name, x as nat);
                assert(names[i] == s);
            }
        }
        names.lemma_cardinality_of_set();
        lemma_len_subset(idx.map(g), names.to_set());
        assert(false);
    }
}

/// Position of the last `c` in `s`, as `last_index_of` gives it.
fn find_last(s: &str, c: char) -> (r: Option<usize>)
    ensures
        match r {
            Some(i) => i == last_index_of(s@, c),
            None => last_index_of(s@, c) == -1,
        },
{
    let len = s.unicode_len();
    let mut i: usize = len;
    assert(s@.subrange(0, len as int) =~= s@);
    while i > 0
        invariant
            i <= len == s@.len(),
            last_index_of(s@, c) == last_index_of(s@.subrange(0, i as int), c),
        decreases i,
    {
        let ch = s.get_char(i - 1);
        if ch == c {
            return Some(i - 1);
        }
        assert(s@.subrange(0, i as int).drop_last() =~= s@.subrange(0, i - 1));
        i = i - 1;
    }
    None
}

/// Splits a file name into its stem and extension.
pub fn split_file_name(name: &str) -> (r: (String, Option<String>))
    ensures
        r.0@ == file_stem(name@),
        match r.1 {
            Some(e) => file_extension(name@) == Some(e@),
            None => file_extension(name@) is None,
        },
{
    proof {
        reveal_strlit("..");
        reveal_strlit("file");
    }
    let len = name.unicode_len();
    let dots = "..";
    if len == 0 || (len == 2 && name.get_char(0) == '.' && name.get_char(1) == '.') {
        assert(len == 2 ==> name@ =~= dots@);
        return (String::from_str("file"), None);
    }
    assert(name@ != dots@ ==> !(len == 2 && name@[0] == '.' && name@[1] == '.'));
    match find_last(name, '.') {
        Some(k) if k > 0 => {
            proof {
                lemma_last_index_bounds(name@, '.');
            }
            let stem = String::from_str(name.substring_char(0, k));
            let ext = String::from_str(name.substring_char(k + 1, len));
            (stem, Some(ext))
        },
        _ => (String::from_str(name), None),
    }
}

/// Builds the `count`-th candidate from a split name.
fn numbered_from_parts(stem: &String, ext: &Option<String>, count: u64) -> (r: String)
    requires
        count > 0,
    ensures
        r@ == ({
            let base = stem@ + "("@ + decimal(count as nat) + ")"@;
            match ext {
                Some(e) => base + "."@ + e@,
                None => base,
            }
        }),
{
    let mut r = stem.clone();
    r.append("(");
    let digits = decimal_string(count);
    r.append(digits.as_str());
    r.append(")");
    match ext {
        Some(e) => {
            r.append(".");
            r.append(e.as_str());
        },
        None => {},
    }
    r
}

/// Whether `existing` holds a name equal to `name`.
fn is_taken(existing: &Vec<String>, name: &String) -> (r: bool)
    ensures
        r == taken(existing@, name@),
{
    let mut i: usize = 0;
    while i < existing.len()
        invariant
            i <= existing@.len(),
            forall|j: int| 0 <= j < i ==> existing@[j]@ != name@,
        decreases existing.len() - i,
    {
        if existing[i] == *name {
            return true;
        }
        i = i + 1;
    }
    false
}

/// The first of `filename`, `stem(1).ext`, `stem(2).ext`, ... that is not
/// among the names in `existing` (the files of the destination directory).
pub fn get_filename_no_duplicate(existing: &Vec<String>, filename: &str) -> (r: String)
    ensures
        is_first_free(existing@, filename@, r@),
{
    let first = String::from_str(filename);
    if !is_taken(existing, &first) {
        assert(first@ == numbered_name(filename@, 0));
        return first;
    }
    let (stem, ext) = split_file_name(filename);
    let n = existing.len();
    proof {
        lemma_some_candidate_free(existing@, filename@);
    }
    let mut count: usize = 1;
    while count <= n
        invariant
            1 <= count <= n + 1,
            n == existing@.len(),
            stem@ == file_stem(filename@),
            match ext {
                Some(e) => file_extension(filename@) == Some(e@),
                None => file_extension(filename@) is None,
            },
            forall|j: nat| j < count ==> taken(existing@, #[trigger] numbered_name(filename@, j)),
            exists|j: nat| j <= n && !taken(existing@, #[trigger] numbered_name(filename@, j)),
        decreases n + 1 - count,
    {
        let candidate = numbered_from_parts(&stem, &ext, count as u64);
        assert(candidate@ == numbered_name(filename@, count as nat));
        if !is_taken(existing, &candidate) {
            return candidate;
        }
        count = count + 1;
    }
    proof {
        let j = choose|j: nat| j <= n && !taken(existing@, #[trigger] numbered_name(filename@, j));
        assert(taken(existing@, numbered_name(filename@, j)));
    }
    first
}

} // verus!
