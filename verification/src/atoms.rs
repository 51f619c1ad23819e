//! Parsing of PySCF-style atom specifications ("H 0 0 0; H 1 1 1").
//!
//! An atom specification is split at every `;`. An entry that holds only
//! whitespace is skipped; otherwise its first whitespace-delimited token is an
//! element symbol, which must be one of the elements H to Ar.
use vstd::prelude::*;
use crate::error::{Error, InputError};

verus! {

broadcast use vstd::string::group_string_axioms;

// ---------------------------------------------------------------------------
// Characters
// ---------------------------------------------------------------------------

/// Whether `c` has the Unicode `White_Space` property, as `char::is_whitespace` decides.
pub open spec fn is_ws(c: char) -> bool {
    let u = c as u32;
    ||| 0x09 <= u <= 0x0D
    ||| u == 0x20
    ||| u == 0x85
    ||| u == 0xA0
    ||| u == 0x1680
    ||| 0x2000 <= u <= 0x200A
    ||| u == 0x2028
    ||| u == 0x2029
    ||| u == 0x202F
    ||| u == 0x205F
    ||| u == 0x3000
}

/// Decide whether `c` is whitespace in the sense of `char::is_whitespace`.
pub fn is_whitespace(c: char) -> (r: bool)
    ensures
        r == is_ws(c),
{
    let u = c as u32;
    (0x09 <= u && u <= 0x0D) || u == 0x20 || u == 0x85 || u == 0xA0 || u == 0x1680 || (0x2000
        <= u && u <= 0x200A) || u == 0x2028 || u == 0x2029 || u == 0x202F || u == 0x205F || u
        == 0x3000
}

/// The characters of `s`, in order.
pub fn chars_of(s: &str) -> (v: Vec<char>)
    ensures
        v@ == s@,
{
    let mut v: Vec<char> = Vec::new();
    for c in it: s.chars()
        invariant
            it.seq() == s@,
            v@ == it.seq().take(it.index()),
    {
        v.push(c);
    }
    v
}

// ---------------------------------------------------------------------------
// Splitting at a separator
// ---------------------------------------------------------------------------

/// Position of the first `sep` in `s`, or `s.len()` when there is none.
pub open spec fn first_index_of(s: Seq<char>, sep: char) -> nat
    decreases s.len(),
{
    if s.len() == 0 {
        0
    } else if s[0] == sep {
        0
    } else {
        1 + first_index_of(s.drop_first(), sep)
    }
}

/// The pieces of `s` between occurrences of `sep`, as `str::split` with a
/// character pattern yields them (an empty `s` gives one empty piece).
pub open spec fn split_on(s: Seq<char>, sep: char) -> Seq<Seq<char>>
    decreases s.len(),
{
    let k = first_index_of(s, sep);
    if k >= s.len() {
        seq![s]
    } else {
        seq![s.subrange(0, k as int)] + split_on(s.subrange((k + 1) as int, s.len() as int), sep)
    }
}

proof fn lemma_first_index_of(s: Seq<char>, sep: char, k: int)
    requires
        0 <= k <= s.len(),
        forall|j: int| 0 <= j < k ==> s[j] != sep,
        k == s.len() || s[k] == sep,
    ensures
        first_index_of(s, sep) == k,
    decreases k,
{
    if k > 0 {
        assert forall|j: int| 0 <= j < k - 1 implies s.drop_first()[j] != sep by {
            assert(s.drop_first()[j] == s[j + 1]);
        }
        lemma_first_index_of(s.drop_first(), sep, k - 1);
    }
}

proof fn lemma_first_index_of_props(s: Seq<char>, sep: char)
    ensures
        first_index_of(s, sep) <= s.len(),
        forall|j: int| 0 <= j < first_index_of(s, sep) ==> s[j] != sep,
        first_index_of(s, sep) < s.len() ==> s[first_index_of(s, sep) as int] == sep,
    decreases s.len(),
{
    if s.len() > 0 && s[0] != sep {
        lemma_first_index_of_props(s.drop_first(), sep);
        assert forall|j: int| 0 <= j < first_index_of(s, sep) implies s[j] != sep by {
            if j > 0 {
                assert(s[j] == s.drop_first()[j - 1]);
            }
        }
    }
}

/// Splitting a piece that ends at a separator gives that piece and the splitting of the rest.
proof fn lemma_split_step(s: Seq<char>, sep: char, start: int, i: int)
    requires
        0 <= start <= i < s.len(),
        forall|j: int| start <= j < i ==> s[j] != sep,
        s[i] == sep,
    ensures
        split_on(s.subrange(start, s.len() as int), sep) == seq![s.subrange(start, i)]
            + split_on(s.subrange(i + 1, s.len() as int), sep),
{
    let t = s.subrange(start, s.len() as int);
    assert forall|j: int| 0 <= j < i - start implies t[j] != sep by {
        assert(t[j] == s[start + j]);
    }
    lemma_first_index_of(t, sep, i - start);
    assert(t.subrange(0, i - start) =~= s.subrange(start, i));
    assert(t.subrange(i - start + 1, t.len() as int) =~= s.subrange(i + 1, s.len() as int));
}

/// A piece without a separator splits into itself.
proof fn lemma_split_last(s: Seq<char>, sep: char, start: int)
    requires
        0 <= start <= s.len(),
        forall|j: int| start <= j < s.len() ==> s[j] != sep,
    ensures
        split_on(s.subrange(start, s.len() as int), sep) == seq![s.subrange(start, s.len() as int)],
{
    let t = s.subrange(start, s.len() as int);
    assert forall|j: int| 0 <= j < t.len() implies t[j] != sep by {
        assert(t[j] == s[start + j]);
    }
    lemma_first_index_of(t, sep, t.len() as int);
}

/// Law: splitting two pieces joined by the separator gives the pieces of the
/// first followed by the pieces of the second.
pub proof fn lemma_split_on_join(a: Seq<char>, b: Seq<char>, sep: char)
    ensures
        split_on(a + seq![sep] + b, sep) == split_on(a, sep) + split_on(b, sep),
    decreases a.len(),
{
    let s = a + seq![sep] + b;
    lemma_first_index_of_props(a, sep);
    let k = first_index_of(a, sep);
    assert forall|j: int| 0 <= j < k implies s[j] != sep by {
        assert(s[j] == a[j]);
    }
    if k < a.len() {
        assert(s[k as int] == a[k as int]);
        lemma_first_index_of(s, sep, k as int);
        let a2 = a.subrange((k + 1) as int, a.len() as int);
        lemma_split_on_join(a2, b, sep);
        assert(s.subrange(0, k as int) =~= a.subrange(0, k as int));
        assert(s.subrange((k + 1) as int, s.len() as int) =~= a2 + seq![sep] + b);
        assert(split_on(s, sep) =~= seq![a.subrange(0, k as int)] + (split_on(a2, sep) + split_on(b, sep)));
        assert(split_on(a, sep) == seq![a.subrange(0, k as int)] + split_on(a2, sep));
        assert(split_on(s, sep) =~= split_on(a, sep) + split_on(b, sep));
    } else {
        assert(s[a.len() as int] == sep);
        lemma_first_index_of(s, sep, a.len() as int);
        assert(s.subrange(0, a.len() as int) =~= a);
        assert(s.subrange((a.len() + 1) as int, s.len() as int) =~= b);
        assert(split_on(a, sep) == seq![a]);
        assert(split_on(s, sep) =~= split_on(a, sep) + split_on(b, sep));
    }
}

// ---------------------------------------------------------------------------
// Entries
// ---------------------------------------------------------------------------

/// Number of whitespace characters at the start of `s`.
pub open spec fn leading_ws(s: Seq<char>) -> nat
    decreases s.len(),
{
    if s.len() > 0 && is_ws(s[0]) {
        1 + leading_ws(s.drop_first())
    } else {
        0
    }
}

/// Number of non-whitespace characters at the start of `s`.
pub open spec fn token_len(s: Seq<char>) -> nat
    decreases s.len(),
{
    if s.len() > 0 && !is_ws(s[0]) {
        1 + token_len(s.drop_first())
    } else {
        0
    }
}

/// Whether the entry `e` is empty once trimmed.
pub open spec fn is_blank(e: Seq<char>) -> bool {
    leading_ws(e) == e.len()
}

/// The first whitespace-delimited token of the entry `e`.
pub open spec fn entry_symbol(e: Seq<char>) -> Seq<char> {
    let t = e.skip(leading_ws(e) as int);
    t.take(token_len(t) as int)
}

proof fn lemma_leading_ws(s: Seq<char>, k: int)
    requires
        0 <= k <= s.len(),
        forall|j: int| 0 <= j < k ==> is_ws(s[j]),
        k == s.len() || !is_ws(s[k]),
    ensures
        leading_ws(s) == k,
    decreases k,
{
    if k > 0 {
        assert forall|j: int| 0 <= j < k - 1 implies is_ws(s.drop_first()[j]) by {
            assert(s.drop_first()[j] == s[j + 1]);
        }
        lemma_leading_ws(s.drop_first(), k - 1);
    }
}

proof fn lemma_token_len(s: Seq<char>, k: int)
    requires
        0 <= k <= s.len(),
        forall|j: int| 0 <= j < k ==> !is_ws(s[j]),
        k == s.len() || is_ws(s[k]),
    ensures
        token_len(s) == k,
    decreases k,
{
    if k > 0 {
        assert forall|j: int| 0 <= j < k - 1 implies !is_ws(s.drop_first()[j]) by {
            assert(s.drop_first()[j] == s[j + 1]);
        }
        lemma_token_len(s.drop_first(), k - 1);
    }
}

// ---------------------------------------------------------------------------
// Elements
// ---------------------------------------------------------------------------

/// Atomic number of the element whose symbol is `sym`, for the elements H to Ar.
pub open spec fn element_z(sym: Seq<char>) -> Option<u8> {
    if sym.len() == 1 {
        let a = sym[0];
        if a == 'H' {
            Some(1u8)
        } else if a == 'B' {
            Some(5u8)
        } else if a == 'C' {
            Some(6u8)
        } else if a == 'N' {
            Some(7u8)
        } else if a == 'O' {
            Some(8u8)
        } else if a == 'F' {
            Some(9u8)
        } else if a == 'P' {
            Some(15u8)
        } else if a == 'S' {
            Some(16u8)
        } else {
            None
        }
    } else if sym.len() == 2 {
        let a = sym[0];
        let b = sym[1];
        if a == 'H' && b == 'e' {
            Some(2u8)
        } else if a == 'L' && b == 'i' {
            Some(3u8)
        } else if a == 'B' && b == 'e' {
            Some(4u8)
        } else if a == 'N' && b == 'e' {
            Some(10u8)
        } else if a == 'N' && b == 'a' {
            Some(11u8)
        } else if a == 'M' && b == 'g' {
            Some(12u8)
        } else if a == 'A' && b == 'l' {
            Some(13u8)
        } else if a == 'S' && b == 'i' {
            Some(14u8)
        } else if a == 'C' && b == 'l' {
            Some(17u8)
        } else if a == 'A' && b == 'r' {
            Some(18u8)
        } else {
            None
        }
    } else {
        None
    }
}

/// Atomic number of an element symbol (H to Ar), or `None` for any other symbol.
pub fn element_to_z(sym: &str) -> (r: Option<u8>)
    ensures
        r == element_z(sym@),
{
    let n = sym.unicode_len();
    if n == 1 {
        let a = sym.get_char(0);
        if a == 'H' {
            Some(1)
        } else if a == 'B' {
            Some(5)
        } else if a == 'C' {
            Some(6)
        } else if a == 'N' {
            Some(7)
        } else if a == 'O' {
            Some(8)
        } else if a == 'F' {
            Some(9)
        } else if a == 'P' {
            Some(15)
        } else if a == 'S' {
            Some(16)
        } else {
            None
        }
    } else if n == 2 {
        let a = sym.get_char(0);
        let b = sym.get_char(1);
        if a == 'H' && b == 'e' {
            Some(2)
        } else if a == 'L' && b == 'i' {
            Some(3)
        } else if a == 'B' && b == 'e' {
            Some(4)
        } else if a == 'N' && b == 'e' {
            Some(10)
        } else if a == 'N' && b == 'a' {
            Some(11)
        } else if a == 'M' && b == 'g' {
            Some(12)
        } else if a == 'A' && b == 'l' {
            Some(13)
        } else if a == 'S' && b == 'i' {
            Some(14)
        } else if a == 'C' && b == 'l' {
            Some(17)
        } else if a == 'A' && b == 'r' {
            Some(18)
        } else {
            None
        }
    } else {
        None
    }
}

/// Every atomic number that `element_z` gives lies in 1..=18.
pub proof fn lemma_element_z_range(sym: Seq<char>)
    ensures
        element_z(sym) matches Some(z) ==> 1 <= z <= 18,
{
}

/// Law: distinct element symbols have distinct atomic numbers.
pub proof fn lemma_element_z_injective(s1: Seq<char>, s2: Seq<char>)
    requires
        element_z(s1) is Some,
        element_z(s1) == element_z(s2),
    ensures
        s1 == s2,
{
    if s1.len() == 1 && s2.len() == 1 {
        assert(s1 =~= seq![s1[0]]);
        assert(s2 =~= seq![s2[0]]);
    } else if s1.len() == 2 && s2.len() == 2 {
        assert(s1 =~= seq![s1[0], s1[1]]);
        assert(s2 =~= seq![s2[0], s2[1]]);
    }
}

// ---------------------------------------------------------------------------
// Whole specifications
// ---------------------------------------------------------------------------

/// Atomic numbers of the entries `es`, in order, or the first symbol that names
/// no supported element.
pub open spec fn parse_entries(es: Seq<Seq<char>>) -> Result<Seq<u8>, Seq<char>>
    decreases es.len(),
{
    if es.len() == 0 {
        Ok(Seq::empty())
    } else {
        let e = es[0];
        let rest = parse_entries(es.drop_first());
        if is_blank(e) {
            rest
        } else {
            match element_z(entry_symbol(e)) {
                None => Err(entry_symbol(e)),
                Some(z) => match rest {
                    Ok(zs) => Ok(seq![z] + zs),
                    Err(sym) => Err(sym),
                },
            }
        }
    }
}

/// Atomic numbers of the atom specification `atom`, or the first unsupported symbol.
pub open spec fn atom_numbers(atom: Seq<char>) -> Result<Seq<u8>, Seq<char>> {
    parse_entries(split_on(atom, ';'))
}

/// `zs` put in front of the atomic numbers of an outcome.
pub open spec fn prepend(zs: Seq<u8>, r: Result<Seq<u8>, Seq<char>>) -> Result<Seq<u8>, Seq<char>> {
    match r {
        Ok(rest) => Ok(zs + rest),
        Err(sym) => Err(sym),
    }
}

/// Outcome of parsing entries `xs` then entries `ys`: the first unsupported
/// symbol of `xs`, or the atomic numbers of `xs` in front of the outcome of `ys`.
pub open spec fn then_parse(first: Result<Seq<u8>, Seq<char>>, second: Result<Seq<u8>, Seq<char>>) -> Result<Seq<u8>, Seq<char>> {
    match first {
        Ok(zs) => prepend(zs, second),
        Err(sym) => Err(sym),
    }
}

proof fn lemma_parse_entries_append(xs: Seq<Seq<char>>, ys: Seq<Seq<char>>)
    ensures
        parse_entries(xs + ys) == then_parse(parse_entries(xs), parse_entries(ys)),
    decreases xs.len(),
{
    if xs.len() == 0 {
        assert(xs + ys =~= ys);
        match parse_entries(ys) {
            Ok(x) => assert(Seq::<u8>::empty() + x =~= x),
            Err(_) => {},
        }
    } else {
        lemma_parse_entries_append(xs.drop_first(), ys);
        assert((xs + ys).drop_first() =~= xs.drop_first() + ys);
        assert((xs + ys)[0] == xs[0]);
        match parse_entries(xs.drop_first()) {
            Ok(p) => match parse_entries(ys) {
                Ok(q) => {
                    let e = xs[0];
                    if !is_blank(e) {
                        match element_z(entry_symbol(e)) {
                            Some(z) => assert(seq![z] + (p + q) =~= (seq![z] + p) + q),
                            None => {},
                        }
                    }
                },
                Err(_) => {},
            },
            Err(_) => {},
        }
    }
}

/// Law: the atoms of two specifications joined by `;` are the atoms of the first
/// followed by those of the second; an unsupported symbol in the first is reported
/// before anything in the second.
pub proof fn lemma_atom_numbers_join(a: Seq<char>, b: Seq<char>)
    ensures
        atom_numbers(a + seq![';'] + b) == then_parse(atom_numbers(a), atom_numbers(b)),
{
    lemma_split_on_join(a, b, ';');
    lemma_parse_entries_append(split_on(a, ';'), split_on(b, ';'));
}

/// Law: appending a `;` and an entry of whitespace only (no entry at all, too)
/// changes nothing: blank entries and trailing separators are ignored.
pub proof fn lemma_blank_entry_ignored(a: Seq<char>, w: Seq<char>)
    requires
        forall|j: int| 0 <= j < w.len() ==> is_ws(#[trigger] w[j]),
    ensures
        atom_numbers(a + seq![';'] + w) == atom_numbers(a),
{
    lemma_atom_numbers_join(a, w);
    assert forall|j: int| 0 <= j < w.len() implies w[j] != ';' by {
        assert(is_ws(w[j]));
    }
    lemma_split_last(w, ';', 0);
    assert(w.subrange(0, w.len() as int) =~= w);
    lemma_leading_ws(w, w.len() as int);
    assert(seq![w].drop_first() =~= Seq::<Seq<char>>::empty());
    assert(seq![w][0] == w);
    assert(is_blank(w));
    assert(parse_entries(Seq::<Seq<char>>::empty()) == Ok::<Seq<u8>, Seq<char>>(Seq::empty()));
    assert(parse_entries(seq![w]) == Ok::<Seq<u8>, Seq<char>>(Seq::empty()));
    match atom_numbers(a) {
        Ok(zs) => assert(zs + Seq::<u8>::empty() =~= zs),
        Err(_) => {},
    }
}

/// Message of the error for an unsupported element symbol.
pub open spec fn unsupported_symbol_message(sym: Seq<char>) -> Seq<char> {
    "unsupported element symbol "@ + sym
}

/// Message of the error for a specification without atoms.
pub open spec fn zero_atoms_message() -> Seq<char> {
    "atom specification produced zero atoms"@
}

/// What `parse_atom_string` returns for the characters `atom`.
pub open spec fn parse_outcome(atom: Seq<char>, r: crate::error::Result<(usize, Vec<u8>)>) -> bool {
    match atom_numbers(atom) {
        Err(sym) => r matches Err(Error::InputError(InputError::InvalidAtomSpec { message }))
            && message@ == unsupported_symbol_message(sym),
        Ok(zs) => if zs.len() == 0 {
            r matches Err(Error::InputError(InputError::InvalidAtomSpec { message }))
                && message@ == zero_atoms_message()
        } else {
            r matches Ok((n, v)) && n == zs.len() && v@ == zs
        },
    }
}

/// Outcome of one entry: `Ok(None)` for a blank entry, `Ok(Some(z))` for a
/// supported element, `Err(sym)` for an unsupported symbol.
pub open spec fn entry_outcome(e: Seq<char>) -> Result<Option<u8>, Seq<char>> {
    if is_blank(e) {
        Ok(None)
    } else {
        match element_z(entry_symbol(e)) {
            None => Err(entry_symbol(e)),
            Some(z) => Ok(Some(z)),
        }
    }
}

/// Read the entry `chars[from..to]` of `atom`.
fn parse_entry(atom: &str, chars: &Vec<char>, from: usize, to: usize) -> (r: Result<Option<u8>, Error>)
    requires
        chars@ == atom@,
        from <= to <= chars.len(),
    ensures
        match entry_outcome(chars@.subrange(from as int, to as int)) {
            Ok(o) => r == Ok::<Option<u8>, Error>(o),
            Err(sym) => r matches Err(Error::InputError(InputError::InvalidAtomSpec { message }))
                && message@ == unsupported_symbol_message(sym),
        },
{
    let ghost e = chars@.subrange(from as int, to as int);
    let mut p = from;
    while p < to && is_whitespace(chars[p])
        invariant
            from <= p <= to <= chars.len(),
            forall|j: int| from <= j < p ==> is_ws(chars@[j]),
        decreases to - p,
    {
        p = p + 1;
    }
    proof {
        assert forall|j: int| 0 <= j < p - from implies is_ws(e[j]) by {
            assert(e[j] == chars@[from + j]);
        }
        if p < to {
            assert(e[p - from] == chars@[p as int]);
        }
        lemma_leading_ws(e, p - from);
    }
    if p == to {
        return Ok(None);
    }
    let mut q = p;
    while q < to && !is_whitespace(chars[q])
        invariant
            p <= q <= to <= chars.len(),
            forall|j: int| p <= j < q ==> !is_ws(chars@[j]),
        decreases to - q,
    {
        q = q + 1;
    }
    let ghost t = e.skip(p - from);
    proof {
        assert forall|j: int| 0 <= j < q - p implies !is_ws(t[j]) by {
            assert(t[j] == chars@[p + j]);
        }
        if q < to {
            assert(t[q - p] == chars@[q as int]);
        }
        lemma_token_len(t, q - p);
        assert(entry_symbol(e) =~= chars@.subrange(p as int, q as int));
    }
    let sym = atom.substring_char(p, q);
    match element_to_z(sym) {
        Some(z) => Ok(Some(z)),
        None => {
            let mut message = String::from_str("unsupported element symbol ");
            message.append(sym);
            Err(Error::InputError(InputError::InvalidAtomSpec { message }))
        },
    }
}

/// Parse an atom specification into its number of atoms and their atomic numbers.
pub fn parse_atom_string(atom: &str) -> (r: crate::error::Result<(usize, Vec<u8>)>)
    ensures
        parse_outcome(atom@, r),
        r matches Ok((n, v)) ==> n <= atom@.len(),
{
    let chars = chars_of(atom);
    let n = chars.len();
    let ghost s = chars@;
    let mut zs: Vec<u8> = Vec::new();
    let mut start: usize = 0;
    let mut i: usize = 0;
    proof {
        assert(s.subrange(0, n as int) =~= s);
        match parse_entries(split_on(s, ';')) {
            Ok(x) => assert(Seq::<u8>::empty() + x =~= x),
            Err(_) => {},
        }
    }
    while i < n
        invariant
            s == chars@,
            chars@ == atom@,
            n == chars.len(),
            start <= i <= n,
            forall|j: int| start <= j < i ==> s[j] != ';',
            atom_numbers(s) == prepend(zs@, parse_entries(split_on(s.subrange(start as int, n as int), ';'))),
            zs.len() <= start,
        decreases n - i,
    {
        if chars[i] == ';' {
            let ghost e = s.subrange(start as int, i as int);
            let ghost rest = split_on(s.subrange(i + 1, n as int), ';');
            proof {
                lemma_split_step(s, ';', start as int, i as int);
                assert((seq![e] + rest).drop_first() =~= rest);
                assert((seq![e] + rest)[0] == e);
            }
            match parse_entry(atom, &chars, start, i) {
                Ok(Some(z)) => {
                    proof {
                        match parse_entries(rest) {
                            Ok(x) => assert(zs@.push(z) + x =~= zs@ + (seq![z] + x)),
                            Err(_) => {},
                        }
                    }
                    zs.push(z);
                },
                Ok(None) => {},
                Err(err) => {
                    return Err(err);
                },
            }
            start = i + 1;
        }
        i = i + 1;
    }
    let ghost e = s.subrange(start as int, n as int);
    proof {
        lemma_split_last(s, ';', start as int);
        assert(seq![e].drop_first() =~= Seq::<Seq<char>>::empty());
        assert(seq![e][0] == e);
        assert(parse_entries(Seq::<Seq<char>>::empty()) == Ok::<Seq<u8>, Seq<char>>(Seq::empty()));
    }
    match parse_entry(atom, &chars, start, n) {
        Ok(Some(z)) => {
            proof {
                assert(!is_blank(e));
                if e.len() == 0 {
                    assert(leading_ws(e) == 0);
                }
                assert(zs@.push(z) =~= zs@ + (seq![z] + Seq::<u8>::empty()));
            }
            zs.push(z);
        },
        Ok(None) => {
            assert(zs@ + Seq::<u8>::empty() =~= zs@);
        },
        Err(err) => {
            return Err(err);
        },
    }
    if zs.len() == 0 {
        return Err(
            Error::InputError(
                InputError::InvalidAtomSpec {
                    message: String::from_str("atom specification produced zero atoms"),
                },
            ),
        );
    }
    let count = zs.len();
    Ok((count, zs))
}

} // verus!
