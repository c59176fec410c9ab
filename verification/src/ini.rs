//! The configuration file's grammar: line-oriented text with `[section]`
//! headers and `key = value` pairs; `;` or `#` starts a comment line,
//! section names and keys are case-insensitive, and a later assignment of
//! the same key overrides an earlier one.
use vstd::prelude::*;

verus! {

/// Blank space that surrounds tokens: space, tab, carriage return.
pub open spec fn is_space(b: u8) -> bool {
    b == 32 || b == 9 || b == 13
}

/// Index of the first byte at or after `j` that is not blank space.
pub open spec fn first_non_space(s: Seq<u8>, j: nat) -> nat
    decreases s.len() - j,
{
    if j >= s.len() {
        j
    } else if is_space(s[j as int]) {
        first_non_space(s, j + 1)
    } else {
        j
    }
}

/// Index just past the last byte before `j` that is not blank space.
pub open spec fn last_non_space(s: Seq<u8>, j: nat) -> nat
    decreases j,
{
    if j == 0 {
        0
    } else if is_space(s[j - 1]) {
        last_non_space(s, (j - 1) as nat)
    } else {
        j
    }
}

/// The bytes with blank space stripped from both ends.
pub open spec fn trimmed(s: Seq<u8>) -> Seq<u8> {
    let lo = first_non_space(s, 0);
    if lo == s.len() {
        Seq::empty()
    } else {
        s.subrange(lo as int, last_non_space(s, s.len() as nat) as int)
    }
}

/// ASCII lowercasing of one byte.
pub open spec fn lower_byte(b: u8) -> u8 {
    if 65 <= b && b <= 90 {
        (b + 32) as u8
    } else {
        b
    }
}

/// ASCII lowercasing, byte for byte.
pub open spec fn lower_seq(s: Seq<u8>) -> Seq<u8> {
    s.map_values(|b: u8| lower_byte(b))
}

/// Index of the first `=` at or after `j`, if any.
pub open spec fn find_eq_from(s: Seq<u8>, j: nat) -> Option<nat>
    decreases s.len() - j,
{
    if j >= s.len() {
        None
    } else if s[j as int] == 61 {
        Some(j)
    } else {
        find_eq_from(s, j + 1)
    }
}

/// The text split at line feeds; a text without one is a single line, and
/// every line feed ends a line and starts the next.
pub open spec fn lines_of(s: Seq<u8>) -> Seq<Seq<u8>>
    decreases s.len(),
{
    if s.len() == 0 {
        seq![Seq::empty()]
    } else {
        let prev = lines_of(s.drop_last());
        if s.last() == 10 {
            prev.push(Seq::empty())
        } else {
            prev.update(prev.len() - 1, prev.last().push(s.last()))
        }
    }
}

/// What one line means.
pub enum LineClass {
    /// `[name]`: opens the section called `name` (lowercased, trimmed).
    SectionHead(Seq<u8>),
    /// `key = value`: assigns `value` (trimmed) to `key` (lowercased,
    /// trimmed) in the open section.
    Pair(Seq<u8>, Seq<u8>),
    /// A blank line, a comment, or a line with no `=`: assigns nothing.
    Blank,
}

/// Classification of one raw line.
pub open spec fn classify(l: Seq<u8>) -> LineClass {
    let t = trimmed(l);
    if t.len() == 0 {
        LineClass::Blank
    } else if t[0] == 59 || t[0] == 35 {
        LineClass::Blank
    } else if t[0] == 91 && t.last() == 93 {
        LineClass::SectionHead(lower_seq(trimmed(t.subrange(1, t.len() - 1))))
    } else {
        match find_eq_from(t, 0) {
            Some(k) => LineClass::Pair(
                lower_seq(trimmed(t.subrange(0, k as int))),
                trimmed(t.subrange(k + 1 as int, t.len() as int)),
            ),
            None => LineClass::Blank,
        }
    }
}

/// The value the text assigns to `key` in `section` (both lowercase), with
/// a later assignment overriding an earlier one; the text before the first
/// section header forms the unnamed section.
pub open spec fn ini_value(
    lines: Seq<Seq<u8>>,
    i: nat,
    cur: Seq<u8>,
    section: Seq<u8>,
    key: Seq<u8>,
) -> Option<Seq<u8>>
    decreases lines.len() - i,
{
    if i >= lines.len() {
        None
    } else {
        match classify(lines[i as int]) {
            LineClass::SectionHead(name) => ini_value(lines, i + 1, name, section, key),
            LineClass::Pair(k, v) => {
                let rest = ini_value(lines, i + 1, cur, section, key);
                if rest is Some {
                    rest
                } else if cur == section && k == key {
                    Some(v)
                } else {
                    None
                }
            },
            LineClass::Blank => ini_value(lines, i + 1, cur, section, key),
        }
    }
}

/// The value assigned to `key` in `section`, over the whole text.
pub open spec fn ini_lookup_spec(text: Seq<u8>, section: Seq<u8>, key: Seq<u8>) -> Option<Seq<u8>> {
    ini_value(lines_of(text), 0, Seq::empty(), section, key)
}

/// Byte-for-byte equality of two byte vectors.
pub fn bytes_eq(a: &Vec<u8>, b: &Vec<u8>) -> (r: bool)
    ensures
        r == (a@ == b@),
{
    if a.len() != b.len() {
        return false;
    }
    let mut i: usize = 0;
    while i < a.len()
        invariant
            i <= a@.len(),
            a@.len() == b@.len(),
            forall|j: int| 0 <= j < i ==> a@[j] == b@[j],
        decreases a@.len() - i,
    {
        if a[i] != b[i] {
            return false;
        }
        i = i + 1;
    }
    proof {
        assert(a@ =~= b@);
    }
    true
}

/// A copy of `s[from..to]`.
fn subvec(s: &Vec<u8>, from: usize, to: usize) -> (r: Vec<u8>)
    requires
        from <= to <= s@.len(),
    ensures
        r@ == s@.subrange(from as int, to as int),
{
    let mut out: Vec<u8> = Vec::new();
    let mut i: usize = from;
    while i < to
        invariant
            from <= i <= to <= s@.len(),
            out@.len() == i - from,
            forall|j: int| 0 <= j < out@.len() ==> out@[j] == s@[from + j],
        decreases to - i,
    {
        out.push(s[i]);
        i = i + 1;
    }
    proof {
        assert(out@ =~= s@.subrange(from as int, to as int));
    }
    out
}

fn is_space_byte(b: u8) -> (r: bool)
    ensures
        r == is_space(b),
{
    b == 32 || b == 9 || b == 13
}

/// Strips blank space from both ends.
fn trim(s: &Vec<u8>) -> (r: Vec<u8>)
    ensures
        r@ == trimmed(s@),
{
    let n = s.len();
    let mut lo: usize = 0;
    while lo < n && is_space_byte(s[lo])
        invariant
            lo <= n,
            n == s@.len(),
            first_non_space(s@, 0) == first_non_space(s@, lo as nat),
        decreases n - lo,
    {
        lo = lo + 1;
    }
    if lo == n {
        proof {
            assert(first_non_space(s@, 0) == n);
        }
        return Vec::new();
    }
    proof {
        assert(first_non_space(s@, lo as nat) == lo);
    }
    let mut hi: usize = n;
    while hi > lo && is_space_byte(s[hi - 1])
        invariant
            lo < hi <= n,
            lo < n,
            n == s@.len(),
            !is_space(s@[lo as int]),
            last_non_space(s@, n as nat) == last_non_space(s@, hi as nat),
        decreases hi,
    {
        proof {
            if hi - 1 == lo {
                assert(false);
            }
        }
        hi = hi - 1;
    }
    proof {
        assert(last_non_space(s@, hi as nat) == hi);
    }
    subvec(s, lo, hi)
}

/// ASCII lowercasing, byte for byte.
fn to_lower(s: &Vec<u8>) -> (r: Vec<u8>)
    ensures
        r@ == lower_seq(s@),
{
    let mut out: Vec<u8> = Vec::new();
    let mut i: usize = 0;
    while i < s.len()
        invariant
            i <= s@.len(),
            out@.len() == i,
            forall|j: int| 0 <= j < i ==> out@[j] == lower_byte(s@[j]),
        decreases s@.len() - i,
    {
        let b = s[i];
        if 65 <= b && b <= 90 {
            out.push(b + 32);
        } else {
            out.push(b);
        }
        i = i + 1;
    }
    proof {
        assert(out@ =~= lower_seq(s@));
    }
    out
}

/// Index of the first `=`, if any.
fn find_eq(s: &Vec<u8>) -> (r: Option<usize>)
    ensures
        r matches Some(k) ==> find_eq_from(s@, 0) == Some(k as nat) && k < s@.len(),
        r is None ==> find_eq_from(s@, 0) is None,
{
    let mut i: usize = 0;
    while i < s.len()
        invariant
            i <= s@.len(),
            find_eq_from(s@, 0) == find_eq_from(s@, i as nat),
        decreases s@.len() - i,
    {
        if s[i] == 61 {
            return Some(i);
        }
        i = i + 1;
    }
    None
}

/// What one line means, as executable data.
pub enum LineKind {
    Section(Vec<u8>),
    Pair(Vec<u8>, Vec<u8>),
    Blank,
}

/// Classifies one raw line.
fn classify_line(l: &Vec<u8>) -> (r: LineKind)
    ensures
        r matches LineKind::Section(v) ==> classify(l@) == LineClass::SectionHead(v@),
        r matches LineKind::Pair(k, v) ==> classify(l@) == LineClass::Pair(k@, v@),
        r is Blank ==> classify(l@) is Blank,
{
    let t = trim(l);
    if t.len() == 0 {
        return LineKind::Blank;
    }
    let b0 = t[0];
    if b0 == 59 || b0 == 35 {
        return LineKind::Blank;
    }
    if b0 == 91 && t[t.len() - 1] == 93 {
        let inner = subvec(&t, 1, t.len() - 1);
        return LineKind::Section(to_lower(&trim(&inner)));
    }
    match find_eq(&t) {
        Some(k) => {
            let left = subvec(&t, 0, k);
            let right = subvec(&t, k + 1, t.len());
            LineKind::Pair(to_lower(&trim(&left)), trim(&right))
        },
        None => LineKind::Blank,
    }
}

/// The views of a sequence of byte vectors.
pub open spec fn vecs_view(v: Seq<Vec<u8>>) -> Seq<Seq<u8>> {
    v.map_values(|x: Vec<u8>| x@)
}

/// Splits the text at line feeds.
fn split_lines(text: &Vec<u8>) -> (r: Vec<Vec<u8>>)
    ensures
        vecs_view(r@) == lines_of(text@),
{
    let mut res: Vec<Vec<u8>> = Vec::new();
    let mut cur: Vec<u8> = Vec::new();
    let mut i: usize = 0;
    proof {
        assert(text@.subrange(0, 0) =~= Seq::<u8>::empty());
        assert(vecs_view(res@).push(cur@) =~= seq![Seq::<u8>::empty()]);
    }
    while i < text.len()
        invariant
            i <= text@.len(),
            vecs_view(res@).push(cur@) == lines_of(text@.subrange(0, i as int)),
        decreases text@.len() - i,
    {
        let b = text[i];
        proof {
            assert(text@.subrange(0, i + 1).drop_last() =~= text@.subrange(0, i as int));
            assert(text@.subrange(0, i + 1).last() == text@[i as int]);
        }
        let ghost prev = lines_of(text@.subrange(0, i as int));
        if b == 10 {
            res.push(cur);
            cur = Vec::new();
            proof {
                assert(res@.last()@ == prev.last());
                assert(vecs_view(res@).push(cur@) =~= prev.push(Seq::empty()));
                assert(lines_of(text@.subrange(0, i + 1)) == prev.push(Seq::<u8>::empty()));
            }
        } else {
            let ghost old_cur = cur@;
            cur.push(b);
            proof {
                assert(prev.len() >= 1);
                assert(prev.last() == old_cur);
                assert(vecs_view(res@).push(cur@) =~= prev.update(
                    prev.len() - 1,
                    prev.last().push(b),
                ));
                assert(lines_of(text@.subrange(0, i + 1)) == prev.update(
                    prev.len() - 1,
                    prev.last().push(b),
                ));
            }
        }
        i = i + 1;
    }
    proof {
        assert(text@.subrange(0, text@.len() as int) =~= text@);
    }
    let ghost before = vecs_view(res@).push(cur@);
    res.push(cur);
    proof {
        assert(vecs_view(res@) =~= before);
    }
    res
}

/// `merge(a, b)`: `b` where it assigns, else `a`.
pub open spec fn merge_opt(a: Option<Seq<u8>>, b: Option<Seq<u8>>) -> Option<Seq<u8>> {
    if b is Some {
        b
    } else {
        a
    }
}

/// The view of an optional byte vector.
pub open spec fn opt_view(o: Option<Vec<u8>>) -> Option<Seq<u8>> {
    match o {
        Some(v) => Some(v@),
        None => None,
    }
}

/// Looks `key` up in `section` (both already lowercase) over the whole
/// text, with a later assignment overriding an earlier one.
pub fn ini_lookup(text: &Vec<u8>, section: &Vec<u8>, key: &Vec<u8>) -> (r: Option<Vec<u8>>)
    ensures
        opt_view(r) == ini_lookup_spec(text@, section@, key@),
{
    let lines = split_lines(text);
    let ghost lseq = vecs_view(lines@);
    let mut found: Option<Vec<u8>> = None;
    let mut cur: Vec<u8> = Vec::new();
    let mut i: usize = 0;
    proof {
        assert(lseq.len() == lines@.len());
    }
    while i < lines.len()
        invariant
            i <= lines@.len(),
            lseq == vecs_view(lines@),
            lseq == lines_of(text@),
            lseq.len() == lines@.len(),
            merge_opt(opt_view(found), ini_value(lseq, i as nat, cur@, section@, key@))
                == ini_lookup_spec(text@, section@, key@),
        decreases lines@.len() - i,
    {
        proof {
            assert(lseq[i as int] == lines@[i as int]@);
        }
        match classify_line(&lines[i]) {
            LineKind::Section(name) => {
                cur = name;
            },
            LineKind::Pair(k, v) => {
                if bytes_eq(&cur, section) && bytes_eq(&k, key) {
                    found = Some(v);
                }
            },
            LineKind::Blank => {},
        }
        i = i + 1;
    }
    found
}

} // verus!
