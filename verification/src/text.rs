//! Verified text helpers shared by the shader shell and the import
//! resolver: character-vector conversion, substring search, and
//! non-overlapping leftmost replacement.

use vstd::prelude::*;

verus! {

broadcast use vstd::string::group_string_axioms;

/// Whether `needle` stands in `hay` starting at position `i`.
pub open spec fn occurs_at(hay: Seq<char>, needle: Seq<char>, i: int) -> bool {
    &&& 0 <= i
    &&& i + needle.len() <= hay.len()
    &&& hay.subrange(i, i + needle.len()) == needle
}

/// Whether `needle` stands anywhere in `hay`.
pub open spec fn contains_sub(hay: Seq<char>, needle: Seq<char>) -> bool {
    exists|i: int| occurs_at(hay, needle, i)
}

/// The leftmost position at or after `from` where `needle` stands in
/// `hay`, if any.
pub open spec fn spec_find(hay: Seq<char>, needle: Seq<char>, from: int) -> Option<int>
    decreases hay.len() - from,
{
    if from < 0 || from + needle.len() > hay.len() {
        None
    } else if occurs_at(hay, needle, from) {
        Some(from)
    } else if from >= hay.len() {
        None
    } else {
        spec_find(hay, needle, from + 1)
    }
}

/// `hay` from `from` on, with every non-overlapping leftmost stand of
/// `needle` replaced by `repl`.
pub open spec fn spec_replace_from(
    hay: Seq<char>,
    needle: Seq<char>,
    repl: Seq<char>,
    from: int,
) -> Seq<char>
    decreases hay.len() - from,
{
    if from < 0 || from >= hay.len() {
        Seq::empty()
    } else if needle.len() > 0 && occurs_at(hay, needle, from) {
        repl + spec_replace_from(hay, needle, repl, from + needle.len())
    } else {
        seq![hay[from]] + spec_replace_from(hay, needle, repl, from + 1)
    }
}

/// `hay` with every non-overlapping leftmost stand of `needle` replaced
/// by `repl`.
pub open spec fn spec_replace_all(hay: Seq<char>, needle: Seq<char>, repl: Seq<char>) -> Seq<
    char,
> {
    spec_replace_from(hay, needle, repl, 0)
}

/// The characters of a text, one vector entry per character.
pub fn chars_vec(s: &str) -> (r: Vec<char>)
    ensures
        r@ == s@,
{
    let n = s.unicode_len();
    let mut r: Vec<char> = Vec::new();
    let mut i: usize = 0;
    while i < n
        invariant
            n == s@.len(),
            i <= n,
            r@ =~= s@.subrange(0, i as int),
        decreases n - i,
    {
        r.push(s.get_char(i));
        i = i + 1;
    }
    assert(r@ =~= s@);
    r
}

/// Relies on `String::push`: appends the given character to the end of
/// the string.
#[verifier::external_body]
fn string_push(s: &mut String, c: char)
    ensures
        final(s)@ == old(s)@.push(c),
{
    s.push(c);
}

/// A `String` holding exactly the given characters.
pub fn string_from_chars(v: &Vec<char>) -> (r: String)
    ensures
        r@ == v@,
{
    let mut r = String::new();
    let mut i: usize = 0;
    while i < v.len()
        invariant
            i <= v.len(),
            r@ =~= v@.subrange(0, i as int),
        decreases v.len() - i,
    {
        string_push(&mut r, v[i]);
        i = i + 1;
    }
    assert(r@ =~= v@);
    r
}

/// Whether `needle` stands in `hay` at exactly position `at`.
pub fn match_at(hay: &Vec<char>, needle: &Vec<char>, at: usize) -> (r: bool)
    requires
        at + needle@.len() <= hay@.len(),
    ensures
        r == occurs_at(hay@, needle@, at as int),
{
    let hay_len = hay.len();
    let mut j: usize = 0;
    while j < needle.len()
        invariant
            hay_len == hay@.len(),
            at + needle@.len() <= hay@.len(),
            j <= needle@.len(),
            forall|k: int| 0 <= k < j ==> hay@[at + k] == needle@[k],
        decreases needle.len() - j,
    {
        if hay[at + j] != needle[j] {
            proof {
                assert(hay@.subrange(at as int, at + needle@.len())[j as int] == hay@[at + j]);
            }
            return false;
        }
        j = j + 1;
    }
    proof {
        assert(hay@.subrange(at as int, at + needle@.len()) =~= needle@);
    }
    true
}

/// The leftmost position at or after `from` where `needle` stands in
/// `hay`, if any.
pub fn find_sub(hay: &Vec<char>, needle: &Vec<char>, from: usize) -> (r: Option<usize>)
    ensures
        (match r {
            Some(i) => Some(i as int),
            None => None,
        }) == spec_find(hay@, needle@, from as int),
{
    if needle.len() > hay.len() {
        proof {
            lemma_find_none_short(hay@, needle@, from as int);
        }
        return None;
    }
    let last = hay.len() - needle.len();
    let mut i: usize = from;
    if i > last {
        proof {
            lemma_find_none_short(hay@, needle@, from as int);
        }
        return None;
    }
    while i < last
        invariant
            needle@.len() <= hay@.len(),
            last == hay@.len() - needle@.len(),
            from <= i,
            i <= last,
            spec_find(hay@, needle@, from as int) == spec_find(hay@, needle@, i as int),
        decreases last - i,
    {
        if match_at(hay, needle, i) {
            return Some(i);
        }
        i = i + 1;
    }
    if match_at(hay, needle, last) {
        return Some(last);
    }
    proof {
        lemma_find_none_short(hay@, needle@, last as int + 1);
    }
    None
}

/// Past the last possible position, the search finds nothing.
proof fn lemma_find_none_short(hay: Seq<char>, needle: Seq<char>, from: int)
    requires
        from + needle.len() > hay.len() || from < 0,
    ensures
        spec_find(hay, needle, from) == None::<int>,
{
}

/// Whether `needle` stands anywhere in `hay`.
pub fn contains_sub_exec(hay: &Vec<char>, needle: &Vec<char>) -> (r: bool)
    ensures
        r == contains_sub(hay@, needle@),
{
    let found = find_sub(hay, needle, 0);
    proof {
        lemma_find_characterizes_contains(hay@, needle@);
    }
    found.is_some()
}

/// The search from the start succeeds exactly when the needle stands
/// somewhere.
proof fn lemma_find_characterizes_contains(hay: Seq<char>, needle: Seq<char>)
    ensures
        (spec_find(hay, needle, 0) is Some) == contains_sub(hay, needle),
{
    if spec_find(hay, needle, 0) is Some {
        lemma_find_occurs(hay, needle, 0);
    }
    if contains_sub(hay, needle) {
        let i = choose|i: int| occurs_at(hay, needle, i);
        lemma_find_finds(hay, needle, 0, i);
    }
}

/// A successful search reports a true stand of the needle.
pub proof fn lemma_find_occurs(hay: Seq<char>, needle: Seq<char>, from: int)
    requires
        spec_find(hay, needle, from) is Some,
    ensures
        occurs_at(hay, needle, spec_find(hay, needle, from)->0),
        spec_find(hay, needle, from)->0 >= from,
    decreases hay.len() - from,
{
    if !(from < 0 || from + needle.len() > hay.len()) && !occurs_at(hay, needle, from) && from
        < hay.len() {
        lemma_find_occurs(hay, needle, from + 1);
    }
}

/// A true stand of the needle at or after `from` means the search from
/// `from` succeeds.
pub proof fn lemma_find_finds(hay: Seq<char>, needle: Seq<char>, from: int, at: int)
    requires
        occurs_at(hay, needle, at),
        0 <= from <= at,
    ensures
        spec_find(hay, needle, from) is Some,
    decreases at - from,
{
    if from < at && !occurs_at(hay, needle, from) {
        lemma_find_finds(hay, needle, from + 1, at);
    }
}

/// `hay` with every non-overlapping leftmost stand of `needle` replaced
/// by `repl`, as a character vector.
pub fn replace_all(hay: &Vec<char>, needle: &Vec<char>, repl: &Vec<char>) -> (r: Vec<char>)
    requires
        needle@.len() > 0,
    ensures
        r@ == spec_replace_all(hay@, needle@, repl@),
{
    let mut out: Vec<char> = Vec::new();
    let mut i: usize = 0;
    while i < hay.len()
        invariant
            needle@.len() > 0,
            i <= hay@.len(),
            out@ + spec_replace_from(hay@, needle@, repl@, i as int) =~= spec_replace_all(
                hay@,
                needle@,
                repl@,
            ),
        decreases hay.len() - i,
    {
        let can_match = needle.len() <= hay.len() - i;
        if can_match && match_at(hay, needle, i) {
            let ghost pre = out@;
            let mut j: usize = 0;
            while j < repl.len()
                invariant
                    j <= repl@.len(),
                    out@ =~= pre + repl@.subrange(0, j as int),
                decreases repl.len() - j,
            {
                out.push(repl[j]);
                j = j + 1;
            }
            assert(out@ =~= pre + repl@);
            i = i + needle.len();
        } else {
            proof {
                if needle@.len() <= hay@.len() - i {
                } else {
                    assert(!occurs_at(hay@, needle@, i as int));
                }
            }
            out.push(hay[i]);
            i = i + 1;
        }
        proof {
            assert(out@ + spec_replace_from(hay@, needle@, repl@, i as int) =~= spec_replace_all(
                hay@,
                needle@,
                repl@,
            ));
        }
    }
    out
}

} // verus!

verus! {

/// Appends a copy of every character of `src` to `dst`.
pub fn push_all(dst: &mut Vec<char>, src: &Vec<char>)
    ensures
        final(dst)@ == old(dst)@ + src@,
{
    let ghost pre = dst@;
    let mut i: usize = 0;
    while i < src.len()
        invariant
            i <= src@.len(),
            dst@ =~= pre + src@.subrange(0, i as int),
        decreases src.len() - i,
    {
        dst.push(src[i]);
        i = i + 1;
    }
    assert(dst@ =~= pre + src@);
}

/// A copy of the characters of `v` between `from` and `to`.
pub fn sub_chars(v: &Vec<char>, from: usize, to: usize) -> (r: Vec<char>)
    requires
        from <= to <= v@.len(),
    ensures
        r@ == v@.subrange(from as int, to as int),
{
    let mut r: Vec<char> = Vec::new();
    let mut i: usize = from;
    while i < to
        invariant
            from <= i <= to <= v@.len(),
            r@ =~= v@.subrange(from as int, i as int),
        decreases to - i,
    {
        r.push(v[i]);
        i = i + 1;
    }
    assert(r@ =~= v@.subrange(from as int, to as int));
    r
}

/// Whether the list holds the given text.
pub fn contains_string(v: &Vec<String>, x: &String) -> (r: bool)
    ensures
        r == v.deep_view().contains(x@),
{
    let mut i: usize = 0;
    while i < v.len()
        invariant
            i <= v@.len(),
            forall|j: int| 0 <= j < i ==> #[trigger] v@[j]@ != x@,
        decreases v.len() - i,
    {
        if v[i].eq(x) {
            assert(v.deep_view()[i as int] == x@);
            return true;
        }
        i = i + 1;
    }
    assert(forall|j: int| 0 <= j < v.deep_view().len() ==> v.deep_view()[j] != x@);
    false
}

/// An order-preserving copy of a list of texts.
pub fn clone_strings(v: &Vec<String>) -> (r: Vec<String>)
    ensures
        r.deep_view() == v.deep_view(),
{
    let mut r: Vec<String> = Vec::new();
    let mut i: usize = 0;
    while i < v.len()
        invariant
            i <= v@.len(),
            r@.len() == i,
            forall|j: int| 0 <= j < i ==> #[trigger] r@[j]@ == v@[j]@,
        decreases v.len() - i,
    {
        let s = v[i].clone();
        r.push(s);
        i = i + 1;
    }
    assert(r.deep_view() =~= v.deep_view());
    r
}

/// The decimal digits of a number, most significant first.
pub open spec fn spec_decimal(n: nat) -> Seq<char>
    decreases n,
{
    if n < 10 {
        seq![spec_digit_char(n)]
    } else {
        spec_decimal(n / 10) + seq![spec_digit_char(n % 10)]
    }
}

/// The character for one decimal digit.
pub open spec fn spec_digit_char(d: nat) -> char {
    if d == 0 {
        '0'
    } else if d == 1 {
        '1'
    } else if d == 2 {
        '2'
    } else if d == 3 {
        '3'
    } else if d == 4 {
        '4'
    } else if d == 5 {
        '5'
    } else if d == 6 {
        '6'
    } else if d == 7 {
        '7'
    } else if d == 8 {
        '8'
    } else {
        '9'
    }
}

/// The character for one decimal digit.
pub fn digit_char(d: u64) -> (r: char)
    requires
        d < 10,
    ensures
        r == spec_digit_char(d as nat),
{
    if d == 0 {
        '0'
    } else if d == 1 {
        '1'
    } else if d == 2 {
        '2'
    } else if d == 3 {
        '3'
    } else if d == 4 {
        '4'
    } else if d == 5 {
        '5'
    } else if d == 6 {
        '6'
    } else if d == 7 {
        '7'
    } else if d == 8 {
        '8'
    } else {
        '9'
    }
}

/// A number written in decimal.
pub fn decimal_chars(n: u64) -> (r: Vec<char>)
    ensures
        r@ == spec_decimal(n as nat),
    decreases n,
{
    if n < 10 {
        let mut r: Vec<char> = Vec::new();
        r.push(digit_char(n));
        assert(r@ =~= spec_decimal(n as nat));
        r
    } else {
        let mut r = decimal_chars(n / 10);
        r.push(digit_char(n % 10));
        assert(r@ =~= spec_decimal(n as nat));
        r
    }
}

} // verus!
