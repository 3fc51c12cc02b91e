use vstd::prelude::*;
use vstd::string::*;

verus! {

/// `needle` occurs in `hay` as a contiguous run of characters.
pub open spec fn contains_seq(hay: Seq<char>, needle: Seq<char>) -> bool {
    exists|i: int|
        0 <= i && i + needle.len() <= hay.len() && #[trigger] hay.subrange(i, i + needle.len())
            == needle
}

/// `s` begins with `prefix`.
pub open spec fn has_prefix(s: Seq<char>, prefix: Seq<char>) -> bool {
    prefix.len() <= s.len() && s.subrange(0, prefix.len() as int) == prefix
}

/// The view of an optional string slice.
pub open spec fn opt_str_view(o: Option<&str>) -> Option<Seq<char>> {
    match o {
        Some(s) => Some(s@),
        None => None,
    }
}

/// The view of an optional string.
pub open spec fn opt_string_view(o: Option<String>) -> Option<Seq<char>> {
    match o {
        Some(s) => Some(s@),
        None => None,
    }
}

/// `parts` joined with `sep` between each two neighbours.
pub open spec fn join_with(parts: Seq<Seq<char>>, sep: Seq<char>) -> Seq<char>
    decreases parts.len(),
{
    if parts.len() == 0 {
        Seq::empty()
    } else if parts.len() == 1 {
        parts[0]
    } else {
        join_with(parts.drop_last(), sep) + sep + parts.last()
    }
}

/// Appending one part to a join.
pub proof fn lemma_join_push(parts: Seq<Seq<char>>, sep: Seq<char>, part: Seq<char>)
    ensures
        join_with(parts.push(part), sep) == if parts.len() == 0 {
            part
        } else {
            join_with(parts, sep) + sep + part
        },
{
    assert(parts.push(part).drop_last() =~= parts);
}

/// A run of characters inside the front part of a concatenation is inside the
/// whole.
pub proof fn lemma_contains_in_front(a: Seq<char>, b: Seq<char>, needle: Seq<char>)
    requires
        contains_seq(a, needle),
    ensures
        contains_seq(a + b, needle),
{
    let i = choose|i: int|
        0 <= i && i + needle.len() <= a.len() && #[trigger] a.subrange(i, i + needle.len())
            == needle;
    assert((a + b).subrange(i, i + needle.len()) =~= a.subrange(i, i + needle.len()));
}

/// Every part of a join occurs in it.
pub proof fn lemma_join_contains_part(parts: Seq<Seq<char>>, sep: Seq<char>, k: int)
    requires
        0 <= k < parts.len(),
    ensures
        contains_seq(join_with(parts, sep), parts[k]),
    decreases parts.len(),
{
    if parts.len() == 1 {
        assert(join_with(parts, sep) == parts[0]);
        let at: int = 0;
        assert(join_with(parts, sep).subrange(at, at + parts[k].len()) =~= parts[k]);
    } else {
        let front = join_with(parts.drop_last(), sep) + sep;
        assert(join_with(parts, sep) == front + parts.last());
        if k == parts.len() - 1 {
            let at = front.len() as int;
            assert((front + parts.last()).subrange(at, at + parts[k].len()) =~= parts[k]);
            assert(join_with(parts, sep).subrange(at, at + parts[k].len()) == parts[k]);
        } else {
            lemma_join_contains_part(parts.drop_last(), sep, k);
            assert(parts.drop_last()[k] == parts[k]);
            lemma_contains_in_front(join_with(parts.drop_last(), sep), sep, parts[k]);
            lemma_contains_in_front(front, parts.last(), parts[k]);
        }
    }
}

/// The characters of `s`, in order.
pub fn chars_of(s: &str) -> (r: Vec<char>)
    ensures
        r@ == s@,
{
    let mut out: Vec<char> = Vec::new();
    for c in it: s.chars()
        invariant
            it.seq() == s@,
            out@ == s@.take(it.index() as int),
    {
        out.push(c);
    }
    proof {
        assert(out@ =~= s@.take(s@.len() as int));
    }
    out
}

/// Whether `needle` stands in `hay` starting at position `at`.
fn occurs_at(hay: &Vec<char>, needle: &Vec<char>, at: usize) -> (r: bool)
    requires
        at + needle@.len() <= hay@.len(),
    ensures
        r == (hay@.subrange(at as int, at + needle@.len()) == needle@),
{
    let mut j: usize = 0;
    while j < needle.len()
        invariant
            j <= needle@.len(),
            at + needle@.len() <= hay@.len(),
            forall|k: int| 0 <= k < j ==> hay@[at + k] == needle@[k],
        decreases needle@.len() - j,
    {
        assert(at + j < hay.len());
        if hay[at + j] != needle[j] {
            proof {
                assert(hay@.subrange(at as int, at + needle@.len())[j as int] != needle@[j as int]);
            }
            return false;
        }
        j += 1;
    }
    proof {
        assert(hay@.subrange(at as int, at + needle@.len()) =~= needle@);
    }
    true
}

/// Whether `needle` occurs anywhere in `hay`.
pub fn text_contains(hay: &str, needle: &str) -> (r: bool)
    ensures
        r == contains_seq(hay@, needle@),
{
    let h = chars_of(hay);
    let n = chars_of(needle);
    if n.len() > h.len() {
        return false;
    }
    let last = h.len() - n.len();
    let mut i: usize = 0;
    loop
        invariant
            i <= last,
            last + n@.len() == h@.len(),
            h@ == hay@,
            n@ == needle@,
            forall|k: int| 0 <= k < i ==> #[trigger] h@.subrange(k, k + n@.len()) != n@,
        decreases last - i,
    {
        if occurs_at(&h, &n, i) {
            return true;
        }
        if i == last {
            proof {
                assert forall|k: int|
                    0 <= k && k + needle@.len() <= hay@.len() implies #[trigger] hay@.subrange(
                    k,
                    k + needle@.len(),
                ) != needle@ by {
                    if k < i {
                    }
                }
            }
            return false;
        }
        i += 1;
    }
}

/// Whether `a` and `b` hold the same characters.
pub fn text_equals(a: &str, b: &str) -> (r: bool)
    ensures
        r == (a@ == b@),
{
    let x = chars_of(a);
    let y = chars_of(b);
    if x.len() != y.len() {
        return false;
    }
    let same = occurs_at(&x, &y, 0);
    proof {
        assert(x@.subrange(0, y@.len() as int) =~= x@);
    }
    same
}

/// What follows `prefix` in `s`, when `s` begins with it.
pub fn strip_text_prefix<'a>(s: &'a str, prefix: &str) -> (r: Option<&'a str>)
    ensures
        has_prefix(s@, prefix@) <==> r is Some,
        r matches Some(rest) ==> rest@ == s@.subrange(prefix@.len() as int, s@.len() as int),
{
    let h = chars_of(s);
    let p = chars_of(prefix);
    if p.len() > h.len() {
        return None;
    }
    if !occurs_at(&h, &p, 0) {
        return None;
    }
    Some(s.substring_char(p.len(), h.len()))
}

} // verus!
