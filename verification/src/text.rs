//! Text as sequences of characters: white space, ASCII case, splitting and
//! trimming, numerals, and the order of strings.
use vstd::prelude::*;
use crate::ordered_map::{KeyOrder, MapKey, Replica};

verus! {

/// Appending one character: `String::push` puts `c` behind the text and leaves
/// what was there as it was.
pub assume_specification[ String::push ](s: &mut String, c: char)
    ensures
        final(s)@ == old(s)@.push(c),
;

/// The characters of `s`, in order.
pub fn to_chars(s: &str) -> (r: Vec<char>)
    ensures
        r@ == s@,
{
    let mut r: Vec<char> = Vec::new();
    for c in it: s.chars()
        invariant
            r@ == it.seq().take(it.index() as int),
            it.seq() == s@,
    {
        r.push(c);
    }
    r
}

/// Puts `chars` behind the text `s`.
pub fn push_chars(s: &mut String, chars: &Vec<char>)
    ensures
        final(s)@ == old(s)@ + chars@,
{
    let mut i: usize = 0;
    while i < chars.len()
        invariant
            i <= chars.len(),
            s@ == old(s)@ + chars@.take(i as int),
        decreases chars.len() - i,
    {
        s.push(chars[i]);
        i = i + 1;
        assert(chars@.take(i as int) =~= chars@.take(i - 1).push(chars@[i - 1]));
    }
    assert(chars@.take(i as int) =~= chars@);
}

/// Whether `chars` spells `s`.
pub fn spells(chars: &Vec<char>, s: &str) -> (r: bool)
    ensures
        r == (chars@ == s@),
{
    let other = to_chars(s);
    if chars.len() != other.len() {
        return false;
    }
    let mut i: usize = 0;
    while i < chars.len()
        invariant
            i <= chars.len(),
            chars.len() == other.len(),
            other@ == s@,
            forall|j: int| 0 <= j < i ==> chars@[j] == other@[j],
        decreases chars.len() - i,
    {
        if chars[i] != other[i] {
            return false;
        }
        i = i + 1;
    }
    assert(chars@ =~= other@);
    true
}

// ---------------------------------------------------------------------------
// Characters
// ---------------------------------------------------------------------------

/// Whether a text begins with another.
pub fn has_prefix(s: &str, prefix: &str) -> (r: bool)
    ensures
        r == prefix@.is_prefix_of(s@),
{
    let chars = to_chars(s);
    let begin = to_chars(prefix);
    if begin.len() > chars.len() {
        return false;
    }
    let mut i: usize = 0;
    while i < begin.len()
        invariant
            i <= begin@.len() <= chars@.len(),
            begin@ == prefix@,
            chars@ == s@,
            begin@.take(i as int) == chars@.take(i as int),
        decreases begin@.len() - i,
    {
        if begin[i] != chars[i] {
            assert(begin@[i as int] != chars@.subrange(0, begin@.len() as int)[i as int]);
            return false;
        }
        assert(begin@.take(i + 1) =~= begin@.take(i as int).push(begin@[i as int]));
        assert(chars@.take(i + 1) =~= chars@.take(i as int).push(chars@[i as int]));
        i = i + 1;
    }
    assert(begin@.take(i as int) =~= begin@);
    true
}

/// The characters with Unicode's `White_Space` property.
pub open spec fn white_space(c: char) -> bool {
    ||| '\u{9}' <= c <= '\u{d}'
    ||| c == '\u{20}'
    ||| c == '\u{85}'
    ||| c == '\u{a0}'
    ||| c == '\u{1680}'
    ||| '\u{2000}' <= c <= '\u{200a}'
    ||| c == '\u{2028}'
    ||| c == '\u{2029}'
    ||| c == '\u{202f}'
    ||| c == '\u{205f}'
    ||| c == '\u{3000}'
}

/// Whether `c` is white space.
pub fn is_white_space(c: char) -> (r: bool)
    ensures
        r == white_space(c),
{
    ('\u{9}' <= c && c <= '\u{d}') || c == '\u{20}' || c == '\u{85}' || c == '\u{a0}' || c
        == '\u{1680}' || ('\u{2000}' <= c && c <= '\u{200a}') || c == '\u{2028}' || c == '\u{2029}'
        || c == '\u{202f}' || c == '\u{205f}' || c == '\u{3000}'
}

/// `c` in lower case where it is an ASCII letter, else `c`.
pub open spec fn lower(c: char) -> char {
    if 'A' <= c <= 'Z' {
        (c as u8 + 32) as char
    } else {
        c
    }
}

/// `c` in upper case where it is an ASCII letter, else `c`.
pub open spec fn upper(c: char) -> char {
    if 'a' <= c <= 'z' {
        (c as u8 - 32) as char
    } else {
        c
    }
}

/// ASCII lower case of one character.
pub fn to_lower(c: char) -> (r: char)
    ensures
        r == lower(c),
{
    if 'A' <= c && c <= 'Z' {
        (c as u8 + 32) as char
    } else {
        c
    }
}

/// ASCII upper case of one character.
pub fn to_upper(c: char) -> (r: char)
    ensures
        r == upper(c),
{
    if 'a' <= c && c <= 'z' {
        (c as u8 - 32) as char
    } else {
        c
    }
}

/// Every character of `s` in ASCII lower case.
pub open spec fn lowered(s: Seq<char>) -> Seq<char> {
    s.map_values(|c: char| lower(c))
}

/// ASCII lower case of a text.
pub fn to_lowered(chars: &Vec<char>) -> (r: Vec<char>)
    ensures
        r@ == lowered(chars@),
{
    let mut r: Vec<char> = Vec::new();
    let mut i: usize = 0;
    while i < chars.len()
        invariant
            i <= chars.len(),
            r@ == lowered(chars@.take(i as int)),
        decreases chars.len() - i,
    {
        r.push(to_lower(chars[i]));
        i = i + 1;
        assert(lowered(chars@.take(i as int)) =~= lowered(chars@.take(i - 1)).push(
            lower(chars@[i - 1]),
        ));
    }
    assert(chars@.take(i as int) =~= chars@);
    r
}

// ---------------------------------------------------------------------------
// Trimming and splitting
// ---------------------------------------------------------------------------

/// `s` without the white space that it starts with.
pub open spec fn trim_start(s: Seq<char>) -> Seq<char>
    decreases s.len(),
{
    if s.len() > 0 && white_space(s[0]) {
        trim_start(s.skip(1))
    } else {
        s
    }
}

/// `s` without the white space that it ends with.
pub open spec fn trim_end(s: Seq<char>) -> Seq<char>
    decreases s.len(),
{
    if s.len() > 0 && white_space(s.last()) {
        trim_end(s.drop_last())
    } else {
        s
    }
}

/// `s` without the white space around it.
pub open spec fn trim(s: Seq<char>) -> Seq<char> {
    trim_end(trim_start(s))
}

/// Strips the white space around a text.
pub fn trimmed(chars: &Vec<char>) -> (r: Vec<char>)
    ensures
        r@ == trim(chars@),
{
    let mut lo: usize = 0;
    assert(chars@.skip(0) =~= chars@);
    while lo < chars.len() && is_white_space(chars[lo])
        invariant
            lo <= chars.len(),
            trim_start(chars@) == trim_start(chars@.skip(lo as int)),
        decreases chars.len() - lo,
    {
        assert(chars@.skip(lo as int).skip(1) =~= chars@.skip(lo + 1));
        lo = lo + 1;
    }
    let mut hi: usize = chars.len();
    assert(chars@.subrange(lo as int, hi as int) =~= chars@.skip(lo as int));
    while lo < hi && is_white_space(chars[hi - 1])
        invariant
            lo <= hi <= chars.len(),
            trim(chars@) == trim_end(chars@.subrange(lo as int, hi as int)),
        decreases hi - lo,
    {
        assert(chars@.subrange(lo as int, hi as int).drop_last() =~= chars@.subrange(
            lo as int,
            hi - 1,
        ));
        hi = hi - 1;
    }
    let mut r: Vec<char> = Vec::new();
    let mut i: usize = lo;
    while i < hi
        invariant
            lo <= i <= hi <= chars.len(),
            r@ == chars@.subrange(lo as int, i as int),
        decreases hi - i,
    {
        r.push(chars[i]);
        i = i + 1;
        assert(chars@.subrange(lo as int, i as int) =~= chars@.subrange(lo as int, i - 1).push(
            chars@[i - 1],
        ));
    }
    r
}

/// The pieces of `s` between the occurrences of `sep`: one more than there are
/// occurrences.
pub open spec fn split(s: Seq<char>, sep: char) -> Seq<Seq<char>>
    decreases s.len(),
{
    if s.len() == 0 {
        seq![Seq::empty()]
    } else {
        let pieces = split(s.drop_last(), sep);
        if s.last() == sep {
            pieces.push(Seq::empty())
        } else {
            pieces.drop_last().push(pieces.last().push(s.last()))
        }
    }
}

/// The pieces of `s` between the occurrences of `sep`, each without the white
/// space around it, leaving out those that hold nothing else.
pub open spec fn tokens(s: Seq<char>, sep: char) -> Seq<Seq<char>> {
    split(s, sep).map_values(|p: Seq<char>| trim(p)).filter(|p: Seq<char>| p.len() > 0)
}

/// What a vector of texts spells.
pub open spec fn spelled(v: Seq<Vec<char>>) -> Seq<Seq<char>> {
    v.map_values(|t: Vec<char>| t@)
}

/// The tokens among `pieces`.
spec fn kept(pieces: Seq<Seq<char>>) -> Seq<Seq<char>> {
    pieces.map_values(|p: Seq<char>| trim(p)).filter(|p: Seq<char>| p.len() > 0)
}

proof fn lemma_kept_push(pieces: Seq<Seq<char>>, p: Seq<char>)
    ensures
        kept(pieces.push(p)) == if trim(p).len() > 0 {
            kept(pieces).push(trim(p))
        } else {
            kept(pieces)
        },
{
    let f = |p: Seq<char>| trim(p);
    let g = |p: Seq<char>| p.len() > 0;
    let t = pieces.push(p).map_values(f);
    assert(t.drop_last() =~= pieces.map_values(f));
    assert(t.last() == trim(p));
    reveal(Seq::filter);
}

/// `s` neither starts nor ends with white space.
pub open spec fn is_trim(s: Seq<char>) -> bool {
    s.len() > 0 ==> !white_space(s[0]) && !white_space(s.last())
}

proof fn lemma_trim_start(s: Seq<char>)
    ensures
        trim_start(s).len() > 0 ==> !white_space(trim_start(s)[0]),
        forall|c: char| #[trigger] trim_start(s).contains(c) ==> s.contains(c),
    decreases s.len(),
{
    if s.len() > 0 && white_space(s[0]) {
        lemma_trim_start(s.skip(1));
        assert forall|c: char| #[trigger] trim_start(s).contains(c) implies s.contains(c) by {
            assert(s.skip(1).contains(c));
            let j = choose|j: int| 0 <= j < s.skip(1).len() && s.skip(1)[j] == c;
            assert(s[j + 1] == c);
        }
    }
}

proof fn lemma_trim_end(s: Seq<char>)
    ensures
        trim_end(s).len() > 0 ==> !white_space(trim_end(s).last()) && trim_end(s)[0] == s[0]
            && s.len() > 0,
        forall|c: char| #[trigger] trim_end(s).contains(c) ==> s.contains(c),
    decreases s.len(),
{
    if s.len() > 0 && white_space(s.last()) {
        lemma_trim_end(s.drop_last());
        assert forall|c: char| #[trigger] trim_end(s).contains(c) implies s.contains(c) by {
            assert(s.drop_last().contains(c));
            let j = choose|j: int| 0 <= j < s.drop_last().len() && s.drop_last()[j] == c;
            assert(s[j] == c);
        }
    }
}

/// Trimming leaves no white space at the ends, adds no character, and does
/// nothing where there is nothing to strip.
pub proof fn lemma_trim(s: Seq<char>)
    ensures
        is_trim(trim(s)),
        forall|c: char| #[trigger] trim(s).contains(c) ==> s.contains(c),
        is_trim(s) ==> trim(s) == s,
{
    lemma_trim_start(s);
    lemma_trim_end(trim_start(s));
}

proof fn lemma_pieces(s: Seq<char>, sep: char)
    ensures
        split(s, sep).len() > 0,
        forall|i: int| 0 <= i < split(s, sep).len() ==> !(#[trigger] split(s, sep)[i]).contains(sep),
    decreases s.len(),
{
    if s.len() > 0 {
        lemma_pieces(s.drop_last(), sep);
        let p = split(s.drop_last(), sep);
        let q = split(s, sep);
        assert forall|i: int| 0 <= i < q.len() implies !(#[trigger] q[i]).contains(sep) by {
            if i < p.len() - 1 {
                assert(q[i] == p[i]);
            } else if s.last() != sep {
                assert(!p.last().contains(sep));
                assert(q[i] == p.last().push(s.last()));
            } else if i < p.len() {
                assert(q[i] == p[i]);
            }
        }
    }
}

/// Every token holds something, has no white space around it and does not hold
/// the separator.
pub proof fn lemma_tokens(s: Seq<char>, sep: char, i: int)
    requires
        0 <= i < tokens(s, sep).len(),
    ensures
        tokens(s, sep)[i].len() > 0,
        is_trim(tokens(s, sep)[i]),
        !tokens(s, sep)[i].contains(sep),
{
    let f = |p: Seq<char>| trim(p);
    let g = |p: Seq<char>| p.len() > 0;
    let pieces = split(s, sep);
    let all = pieces.map_values(f);
    all.lemma_filter_pred(g, i);
    lemma_pieces(s, sep);
    lemma_filter_keeps(all, g, i);
    let j = choose|j: int| 0 <= j < all.len() && all[j] == all.filter(g)[i];
    assert(all[j] == trim(pieces[j]));
    lemma_trim(pieces[j]);
}

proof fn lemma_filter_keeps<A>(s: Seq<A>, pred: spec_fn(A) -> bool, i: int)
    requires
        0 <= i < s.filter(pred).len(),
    ensures
        exists|j: int| 0 <= j < s.len() && s[j] == s.filter(pred)[i],
    decreases s.len(),
{
    reveal(Seq::filter);
    if s.len() > 0 {
        let rest = s.drop_last();
        if i < rest.filter(pred).len() {
            lemma_filter_keeps(rest, pred, i);
            let j = choose|j: int| 0 <= j < rest.len() && rest[j] == rest.filter(pred)[i];
            assert(s[j] == s.filter(pred)[i]);
        } else {
            assert(s[s.len() - 1] == s.filter(pred)[i]);
        }
    }
}

proof fn lemma_split_plain(s: Seq<char>, sep: char)
    requires
        !s.contains(sep),
    ensures
        split(s, sep) == seq![s],
    decreases s.len(),
{
    if s.len() > 0 {
        assert forall|j: int| 0 <= j < s.len() implies s[j] != sep by {
            assert(s.contains(s[j]));
        }
        assert(!s.drop_last().contains(sep));
        lemma_split_plain(s.drop_last(), sep);
        assert(split(s, sep) =~= seq![s.drop_last().push(s.last())]);
        assert(s.drop_last().push(s.last()) =~= s);
    } else {
        assert(s =~= Seq::empty());
    }
}

proof fn lemma_split_join(a: Seq<char>, b: Seq<char>, sep: char)
    requires
        !a.contains(sep),
    ensures
        split(a.push(sep) + b, sep) == seq![a] + split(b, sep),
    decreases b.len(),
{
    let s = a.push(sep) + b;
    lemma_split_plain(a, sep);
    if b.len() == 0 {
        assert(s =~= a.push(sep));
        assert(s.drop_last() =~= a);
        assert(split(s, sep) =~= seq![a] + split(b, sep));
    } else {
        lemma_split_join(a, b.drop_last(), sep);
        lemma_pieces(b.drop_last(), sep);
        assert(s.drop_last() =~= a.push(sep) + b.drop_last());
        assert(split(s, sep) =~= seq![a] + split(b, sep));
    }
}

/// A token, the separator and more text: the token comes first, then the tokens
/// of the rest.
pub proof fn lemma_tokens_join(a: Seq<char>, b: Seq<char>, sep: char)
    requires
        a.len() > 0,
        is_trim(a),
        !a.contains(sep),
    ensures
        tokens(a.push(sep) + b, sep) == seq![a] + tokens(b, sep),
{
    let f = |p: Seq<char>| trim(p);
    let g = |p: Seq<char>| p.len() > 0;
    lemma_split_join(a, b, sep);
    lemma_trim(a);
    let all = split(a.push(sep) + b, sep).map_values(f);
    assert(all =~= seq![a] + split(b, sep).map_values(f));
    Seq::filter_distributes_over_add(seq![a], split(b, sep).map_values(f), g);
    lemma_filter_one(a);
}

proof fn lemma_filter_one(a: Seq<char>)
    requires
        a.len() > 0,
    ensures
        seq![a].filter(|p: Seq<char>| p.len() > 0) == seq![a],
{
    reveal(Seq::filter);
    assert(seq![a].drop_last() =~= Seq::empty());
    assert(seq![a].filter(|p: Seq<char>| p.len() > 0) =~= seq![a]);
}

/// A single token.
pub proof fn lemma_tokens_one(a: Seq<char>, sep: char)
    requires
        a.len() > 0,
        is_trim(a),
        !a.contains(sep),
    ensures
        tokens(a, sep) == seq![a],
{
    let f = |p: Seq<char>| trim(p);
    lemma_split_plain(a, sep);
    lemma_trim(a);
    assert(seq![a].map_values(f) =~= seq![a]);
    lemma_filter_one(a);
}

/// Adds the token that a piece holds, if it holds one.
fn push_token(out: &mut Vec<Vec<char>>, piece: &Vec<char>)
    ensures
        spelled(final(out)@) == if trim(piece@).len() > 0 {
            spelled(old(out)@).push(trim(piece@))
        } else {
            spelled(old(out)@)
        },
{
    let t = trimmed(piece);
    if t.len() > 0 {
        out.push(t);
        assert(spelled(out@) =~= spelled(old(out)@).push(trim(piece@)));
    }
}

/// Splits a text at `sep` into its tokens.
pub fn to_tokens(chars: &Vec<char>, sep: char) -> (r: Vec<Vec<char>>)
    ensures
        spelled(r@) == tokens(chars@, sep),
{
    let mut r: Vec<Vec<char>> = Vec::new();
    let mut piece: Vec<char> = Vec::new();
    let ghost mut done: Seq<Seq<char>> = Seq::empty();
    let mut i: usize = 0;
    assert(spelled(r@) =~= kept(done)) by {
        reveal(Seq::filter);
    }
    assert(split(chars@.take(0), sep) =~= done.push(piece@));
    while i < chars.len()
        invariant
            i <= chars.len(),
            split(chars@.take(i as int), sep) == done.push(piece@),
            spelled(r@) == kept(done),
        decreases chars.len() - i,
    {
        let c = chars[i];
        assert(chars@.take(i + 1).drop_last() =~= chars@.take(i as int));
        assert(done.push(piece@).drop_last() =~= done);
        if c == sep {
            push_token(&mut r, &piece);
            proof {
                lemma_kept_push(done, piece@);
                done = done.push(piece@);
            }
            piece = Vec::new();
            assert(piece@ =~= Seq::empty());
        } else {
            piece.push(c);
        }
        i = i + 1;
    }
    push_token(&mut r, &piece);
    proof {
        lemma_kept_push(done, piece@);
        assert(chars@.take(i as int) =~= chars@);
    }
    r
}

// ---------------------------------------------------------------------------
// Numerals
// ---------------------------------------------------------------------------

/// The digit for `d`, with capital letters above nine.
pub open spec fn digit(d: nat) -> char {
    if d < 10 {
        ('0' as u8 + d) as char
    } else {
        ('A' as u8 + d - 10) as char
    }
}

/// `n` written in base `base` with at least `width` digits.
pub open spec fn numeral(n: nat, base: nat, width: nat) -> Seq<char>
    decreases n + width,
{
    if n < base && width <= 1 || base < 2 {
        seq![digit(n % base)]
    } else {
        proof {
            if n > 0 {
                vstd::arithmetic::div_mod::lemma_div_decreases(n as int, base as int);
            } else {
                vstd::arithmetic::div_mod::lemma_div_basics(base as int);
            }
        }
        numeral(n / base, base, if width > 0 {
            (width - 1) as nat
        } else {
            0
        }).push(digit(n % base))
    }
}

/// Puts `n`, written in base `base` with at least `width` digits, behind `s`.
pub fn push_numeral(s: &mut String, n: u16, base: u16, width: u16)
    requires
        2 <= base <= 16,
    ensures
        final(s)@ == old(s)@ + numeral(n as nat, base as nat, width as nat),
    decreases n + width,
{
    let d: u16 = n % base;
    let c: char = if d < 10 {
        (48 + d as u8) as char
    } else {
        (65 + (d - 10) as u8) as char
    };
    if !(n < base && width <= 1) {
        proof {
            if n > 0 {
                vstd::arithmetic::div_mod::lemma_div_decreases(n as int, base as int);
            } else {
                vstd::arithmetic::div_mod::lemma_div_basics(base as int);
            }
        }
        push_numeral(s, n / base, base, if width > 0 {
            width - 1
        } else {
            0
        });
    }
    s.push(c);
}

// ---------------------------------------------------------------------------
// Order
// ---------------------------------------------------------------------------

/// Whether `a` comes before `b` in dictionary order by code point: at the first
/// difference `a` has the smaller character, or `a` ends there.
pub open spec fn text_before(a: Seq<char>, b: Seq<char>) -> bool
    decreases a.len(),
{
    if b.len() == 0 {
        false
    } else if a.len() == 0 {
        true
    } else {
        a[0] < b[0] || (a[0] == b[0] && text_before(a.skip(1), b.skip(1)))
    }
}

proof fn lemma_text_order(a: Seq<char>, b: Seq<char>, c: Seq<char>)
    ensures
        !text_before(a, a),
        text_before(a, b) && text_before(b, c) ==> text_before(a, c),
        text_before(a, b) || a == b || text_before(b, a),
    decreases a.len() + b.len() + c.len(),
{
    if a.len() > 0 {
        lemma_text_order(a.skip(1), a.skip(1).take(0), a.skip(1).take(0));
    }
    if a.len() > 0 && b.len() > 0 {
        lemma_text_order(a.skip(1), b.skip(1), if c.len() > 0 {
            c.skip(1)
        } else {
            c
        });
        if a[0] == b[0] && a.skip(1) == b.skip(1) {
            assert(a =~= seq![a[0]] + a.skip(1));
            assert(b =~= seq![b[0]] + b.skip(1));
        }
    } else if a.len() == 0 && b.len() == 0 {
        assert(a =~= b);
    }
}

/// Where `a` stands with respect to `b` in dictionary order.
pub fn compare_text(a: &str, b: &str) -> (r: KeyOrder)
    ensures
        match r {
            KeyOrder::Before => text_before(a@, b@),
            KeyOrder::Same => a@ == b@,
            KeyOrder::After => text_before(b@, a@),
        },
{
    let x = to_chars(a);
    let y = to_chars(b);
    let mut i: usize = 0;
    assert(a@.skip(0) =~= a@ && b@.skip(0) =~= b@);
    while i < x.len() && i < y.len() && x[i] == y[i]
        invariant
            i <= x.len(),
            i <= y.len(),
            x@ == a@,
            y@ == b@,
            a@.take(i as int) == b@.take(i as int),
            text_before(a@, b@) == text_before(a@.skip(i as int), b@.skip(i as int)),
            text_before(b@, a@) == text_before(b@.skip(i as int), a@.skip(i as int)),
        decreases x.len() - i,
    {
        proof {
            let j = i as int;
            assert(a@.skip(j).skip(1) =~= a@.skip(j + 1));
            assert(b@.skip(j).skip(1) =~= b@.skip(j + 1));
            assert(a@.take(j + 1) =~= a@.take(j).push(a@[j]));
            assert(b@.take(j + 1) =~= b@.take(j).push(b@[j]));
        }
        i = i + 1;
    }
    if i == x.len() && i == y.len() {
        assert(a@.take(i as int) =~= a@ && b@.take(i as int) =~= b@);
        KeyOrder::Same
    } else if i == x.len() || (i < y.len() && x[i] < y[i]) {
        KeyOrder::Before
    } else {
        KeyOrder::After
    }
}

impl Replica for String {
    fn replica(&self) -> (r: String) {
        self.clone()
    }
}

impl MapKey for String {
    type Query = str;

    open spec fn before(a: Seq<char>, b: Seq<char>) -> bool {
        text_before(a, b)
    }

    proof fn order_is_strict(a: Seq<char>, b: Seq<char>, c: Seq<char>) {
        lemma_text_order(a, b, c);
    }

    fn as_query(&self) -> (q: &str) {
        self.as_str()
    }

    fn compare(&self, q: &str) -> (r: KeyOrder) {
        compare_text(self.as_str(), q)
    }
}

// ---------------------------------------------------------------------------
// Laws
// ---------------------------------------------------------------------------

/// White space is the tab, the line breaks, the space and the spaces of other scripts
/// and widths, and no letter, digit or punctuation mark of ASCII.
pub proof fn law_white_space(c: char)
    ensures
        white_space(c) <==> {
            let code = c as u32;
            ||| code == 9 || code == 10 || code == 11 || code == 12 || code == 13
            ||| code == 32 || code == 0x85 || code == 0xA0 || code == 0x1680
            ||| 0x2000 <= code <= 0x200A
            ||| code == 0x2028 || code == 0x2029 || code == 0x202F || code == 0x205F || code
                == 0x3000
        },
        '!' <= c <= '~' ==> !white_space(c),
{
}

/// Lower case moves the letters `A` to `Z` on to `a` to `z` and nothing else, and upper
/// case moves them back.
pub proof fn law_letter_case(c: char)
    ensures
        'A' <= c <= 'Z' ==> lower(c) as int == c as int + ('a' as int - 'A' as int),
        'a' <= c <= 'z' ==> upper(c) as int == c as int - ('a' as int - 'A' as int),
        !('A' <= c <= 'Z') ==> lower(c) == c,
        !('a' <= c <= 'z') ==> upper(c) == c,
        'A' <= c <= 'Z' ==> upper(lower(c)) == c,
        'a' <= c <= 'z' ==> lower(upper(c)) == c,
{
}

/// A text in lower case is each of its characters in lower case.
pub proof fn law_lowered(s: Seq<char>, i: int)
    ensures
        lowered(s).len() == s.len(),
        0 <= i < s.len() ==> lowered(s)[i] == lower(s[i]),
        0 <= i < s.len() ==> !('A' <= lowered(s)[i] <= 'Z'),
        lowered(lowered(s)) == lowered(s),
{
    assert(lowered(lowered(s)) =~= lowered(s));
}

/// Trimming cuts white space off both ends, and goes on until there is none left there.
pub proof fn law_trim(s: Seq<char>)
    ensures
        exists|i: int, j: int|
            0 <= i <= j <= s.len() && trim(s) == #[trigger] s.subrange(i, j) && (forall|k: int|
                0 <= k < i || j <= k < s.len() ==> white_space(#[trigger] s[k])),
        trim(s).len() > 0 ==> !white_space(trim(s)[0]) && !white_space(trim(s).last()),
{
    lemma_trim(s);
    lemma_cut_start(s);
    let i = s.len() - trim_start(s).len();
    lemma_cut_end(trim_start(s));
    let j = i + trim(s).len();
    assert(trim(s) =~= s.subrange(i, j));
    assert forall|k: int| 0 <= k < i || j <= k < s.len() implies white_space(#[trigger] s[k]) by {
        if j <= k {
            assert(trim_start(s)[k - i] == s[k]);
        }
    }
}

proof fn lemma_cut_start(s: Seq<char>)
    ensures
        trim_start(s).len() <= s.len(),
        trim_start(s) == s.skip(s.len() - trim_start(s).len()),
        forall|k: int| 0 <= k < s.len() - trim_start(s).len() ==> white_space(#[trigger] s[k]),
    decreases s.len(),
{
    if s.len() > 0 && white_space(s[0]) {
        let rest = s.skip(1);
        lemma_cut_start(rest);
        let n = rest.len() - trim_start(rest).len();
        assert(rest.skip(n) =~= s.skip(n + 1));
        assert forall|k: int| 0 <= k < n + 1 implies white_space(#[trigger] s[k]) by {
            if k > 0 {
                assert(rest[k - 1] == s[k]);
            }
        }
    } else {
        assert(s.skip(0) =~= s);
    }
}

proof fn lemma_cut_end(s: Seq<char>)
    ensures
        trim_end(s).len() <= s.len(),
        trim_end(s) == s.take(trim_end(s).len() as int),
        forall|k: int| trim_end(s).len() <= k < s.len() ==> white_space(#[trigger] s[k]),
    decreases s.len(),
{
    if s.len() > 0 && white_space(s.last()) {
        let rest = s.drop_last();
        lemma_cut_end(rest);
        let n = trim_end(rest).len() as int;
        assert(rest.take(n) =~= s.take(n));
        assert forall|k: int| n <= k < s.len() implies white_space(#[trigger] s[k]) by {
            if k < s.len() - 1 {
                assert(rest[k] == s[k]);
            }
        }
    } else {
        assert(s.take(s.len() as int) =~= s);
    }
}

/// A text without the separator is one token, or none where it holds white space only. At
/// a separator, the tokens before it come before those behind it.
pub proof fn law_tokens(a: Seq<char>, b: Seq<char>, sep: char)
    requires
        !a.contains(sep),
    ensures
        trim(a).len() > 0 ==> tokens(a, sep) == seq![trim(a)],
        trim(a).len() == 0 ==> tokens(a, sep).len() == 0,
        tokens(a.push(sep) + b, sep) == tokens(a, sep) + tokens(b, sep),
{
    let f = |p: Seq<char>| trim(p);
    let g = |p: Seq<char>| p.len() > 0;
    lemma_split_plain(a, sep);
    lemma_split_join(a, b, sep);
    assert(seq![a].map_values(f) =~= seq![trim(a)]);
    assert((seq![a] + split(b, sep)).map_values(f) =~= seq![a].map_values(f) + split(
        b,
        sep,
    ).map_values(f));
    Seq::filter_distributes_over_add(seq![a].map_values(f), split(b, sep).map_values(f), g);
    reveal(Seq::filter);
    assert(seq![trim(a)].drop_last() =~= Seq::empty());
    if trim(a).len() > 0 {
        lemma_filter_one(trim(a));
    } else {
        assert(Seq::<Seq<char>>::empty().filter(g).len() == 0);
        assert(!g(seq![trim(a)].last()));
        assert(seq![trim(a)].filter(g).len() == 0);
    }
}

/// What the digits of a text come to in a base.
pub open spec fn value_of(s: Seq<char>, base: nat) -> int
    decreases s.len(),
{
    if s.len() == 0 {
        0
    } else {
        value_of(s.drop_last(), base) * base + if '0' <= s.last() <= '9' {
            s.last() as int - '0' as int
        } else {
            s.last() as int - 'A' as int + 10
        }
    }
}

/// A numeral reads back as the number that was written. It has as many digits as were
/// asked for, and more only where the number needs them.
pub proof fn law_numeral_reads_back(n: nat, base: nat, width: nat)
    requires
        2 <= base <= 16,
    ensures
        value_of(numeral(n, base, width), base) == n,
        numeral(n, base, width).len() >= 1,
        numeral(n, base, width).len() >= width,
        numeral(n, base, width).len() > width && numeral(n, base, width).len() > 1 ==> numeral(
            n,
            base,
            width,
        )[0] != '0',
        forall|i: int|
            0 <= i < numeral(n, base, width).len() ==> '0' <= (#[trigger] numeral(n, base, width)[i])
                <= '9' || 'A' <= numeral(n, base, width)[i] <= 'F',
    decreases n + width,
{
    vstd::arithmetic::div_mod::lemma_fundamental_div_mod(n as int, base as int);
    vstd::arithmetic::div_mod::lemma_mod_bound(n as int, base as int);
    let d = n % base;
    let text = numeral(n, base, width);
    if n < base && width <= 1 {
        vstd::arithmetic::div_mod::lemma_small_mod(n, base);
        assert(text.drop_last() =~= Seq::empty());
        assert(value_of(text.drop_last(), base) == 0);
        assert(0 * base == 0) by (nonlinear_arith);
    } else {
        if n > 0 {
            vstd::arithmetic::div_mod::lemma_div_decreases(n as int, base as int);
        } else {
            vstd::arithmetic::div_mod::lemma_div_basics(base as int);
        }
        let less: nat = if width > 0 {
            (width - 1) as nat
        } else {
            0
        };
        law_numeral_reads_back(n / base, base, less);
        let front = numeral(n / base, base, less);
        assert(text.drop_last() =~= front);
        assert(value_of(text, base) == value_of(front, base) * base + d);
        assert(base as int * (n / base) as int == (n / base) as int * base as int)
            by (nonlinear_arith);
        if text.len() > width && text.len() > 1 {
            assert(text[0] == front[0]);
            if front.len() == 1 {
                assert(n >= base);
                vstd::arithmetic::div_mod::lemma_div_non_zero(n as int, base as int);
                assert(front.drop_last() =~= Seq::empty());
                assert(value_of(front.drop_last(), base) == 0);
                assert(0 * base == 0) by (nonlinear_arith);
            }
        }
    }
}

/// The digits in order.
pub proof fn law_digits(d: nat)
    requires
        d < 16,
    ensures
        digit(d) == "0123456789ABCDEF"@[d as int],
{
    reveal_strlit("0123456789ABCDEF");
}

/// Texts are ordered like the words of a dictionary: the first difference decides, by the
/// characters' code points, and a text comes before its continuations.
pub proof fn law_dictionary_order(
    shared: Seq<char>,
    c: char,
    d: char,
    x: Seq<char>,
    y: Seq<char>,
)
    ensures
        c < d ==> text_before(shared.push(c) + x, shared.push(d) + y),
        c < d ==> !text_before(shared.push(d) + y, shared.push(c) + x),
        text_before(shared, shared.push(d) + y),
        !text_before(shared.push(d) + y, shared),
        !text_before(shared, shared),
    decreases shared.len(),
{
    let a = shared.push(c) + x;
    let b = shared.push(d) + y;
    if shared.len() > 0 {
        let rest = shared.skip(1);
        law_dictionary_order(rest, c, d, x, y);
        assert(a.skip(1) =~= rest.push(c) + x);
        assert(b.skip(1) =~= rest.push(d) + y);
        assert(a[0] == shared[0] && b[0] == shared[0]);
    } else {
        assert(a[0] == c && b[0] == d);
    }
}

/// Of two different texts one comes before the other, and the order carries through.
pub proof fn law_texts_are_ordered(a: Seq<char>, b: Seq<char>, c: Seq<char>)
    ensures
        a != b <==> text_before(a, b) || text_before(b, a),
        !(text_before(a, b) && text_before(b, a)),
        text_before(a, b) && text_before(b, c) ==> text_before(a, c),
        <String as MapKey>::before(a, b) <==> text_before(a, b),
{
    lemma_text_order(a, b, c);
    lemma_text_order(a, b, a);
}

/// A list of texts spells each of them.
pub proof fn law_spelled(v: Seq<Vec<char>>, i: int)
    requires
        0 <= i < v.len(),
    ensures
        spelled(v).len() == v.len(),
        spelled(v)[i] == v[i]@,
{
}

} // verus!
