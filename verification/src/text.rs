//! Text: comparison, prefixes, concatenation, decimal notation and case.
//!
//! A string is modelled by the sequence of its characters.
use vstd::prelude::*;
use vstd::string::*;
use vstd::utf8;

verus! {

/// Whether two strings hold the same characters.
pub fn same(a: &str, b: &str) -> (r: bool)
    ensures
        r == (a@ == b@),
{
    a.to_string() == b.to_string()
}

/// The characters of `a` followed by those of `b`.
pub fn joined(a: &str, b: &str) -> (r: String)
    ensures
        r@ == a@ + b@,
{
    let mut out = a.to_string();
    out.append(b);
    out
}

/// Whether `s` begins with `p`.
pub open spec fn begins_with(s: Seq<char>, p: Seq<char>) -> bool {
    p.len() <= s.len() && s.take(p.len() as int) == p
}

/// Tests for a prefix.
pub fn has_prefix(s: &str, p: &str) -> (r: bool)
    ensures
        r == begins_with(s@, p@),
{
    let n: usize = p.unicode_len();
    if s.unicode_len() < n {
        return false;
    }
    let mut i: usize = 0;
    while i < n
        invariant
            n == p@.len(),
            n <= s@.len(),
            i <= n,
            forall|j: int| 0 <= j < i ==> s@[j] == p@[j],
        decreases n - i,
    {
        if s.get_char(i) != p.get_char(i) {
            proof {
                assert(s@.take(n as int)[i as int] == s@[i as int]);
            }
            return false;
        }
        i += 1;
    }
    assert(s@.take(n as int) =~= p@);
    true
}

/// Dictionary order on character sequences, by code point.
pub open spec fn text_le(a: Seq<char>, b: Seq<char>) -> bool
    decreases a.len(),
{
    if a.len() == 0 {
        true
    } else if b.len() == 0 {
        false
    } else if a[0] != b[0] {
        (a[0] as int) < (b[0] as int)
    } else {
        text_le(a.drop_first(), b.drop_first())
    }
}

/// Dictionary order is total.
pub proof fn text_le_total(a: Seq<char>, b: Seq<char>)
    ensures
        text_le(a, b) || text_le(b, a),
    decreases a.len(),
{
    if a.len() > 0 && b.len() > 0 && a[0] == b[0] {
        text_le_total(a.drop_first(), b.drop_first());
    }
}

/// Dictionary order is transitive.
pub proof fn text_le_transitive(a: Seq<char>, b: Seq<char>, c: Seq<char>)
    requires
        text_le(a, b),
        text_le(b, c),
    ensures
        text_le(a, c),
    decreases a.len(),
{
    if a.len() > 0 && b.len() > 0 && c.len() > 0 && a[0] == b[0] && b[0] == c[0] {
        text_le_transitive(a.drop_first(), b.drop_first(), c.drop_first());
    }
}

/// Compares two strings in dictionary order.
pub fn not_after(a: &str, b: &str) -> (r: bool)
    ensures
        r == text_le(a@, b@),
{
    let n: usize = a.unicode_len();
    let m: usize = b.unicode_len();
    let mut i: usize = 0;
    assert(a@.skip(0) =~= a@);
    assert(b@.skip(0) =~= b@);
    while i < n && i < m
        invariant
            n == a@.len(),
            m == b@.len(),
            i <= n,
            i <= m,
            text_le(a@, b@) == text_le(a@.skip(i as int), b@.skip(i as int)),
        decreases n - i,
    {
        let x = a.get_char(i);
        let y = b.get_char(i);
        if x != y {
            return (x as u32) < (y as u32);
        }
        assert(a@.skip(i as int).drop_first() =~= a@.skip(i + 1));
        assert(b@.skip(i as int).drop_first() =~= b@.skip(i + 1));
        i += 1;
    }
    i == n
}

/// The character of a decimal digit.
pub open spec fn digit(d: int) -> char {
    (48 + d) as char
}

/// Decimal notation of a natural number, without leading zeros.
pub open spec fn digits(n: nat) -> Seq<char>
    decreases n,
{
    if n < 10 {
        seq![digit(n as int)]
    } else {
        digits(n / 10).push(digit((n % 10) as int))
    }
}

/// Decimal notation of an integer, with a minus sign where it is negative.
pub open spec fn decimal(i: int) -> Seq<char> {
    if i < 0 {
        seq!['-'] + digits((-i) as nat)
    } else {
        digits(i as nat)
    }
}

/// `s` filled up on the left with zeros to `width` characters.
pub open spec fn zero_padded(s: Seq<char>, width: nat) -> Seq<char> {
    if s.len() < width {
        Seq::new((width - s.len()) as nat, |i: int| '0') + s
    } else {
        s
    }
}

/// The number that a sequence of decimal digits denotes.
pub open spec fn number(s: Seq<char>) -> int
    decreases s.len(),
{
    if s.len() == 0 {
        0
    } else {
        10 * number(s.drop_last()) + (s.last() as int - 48)
    }
}

/// Decimal notation denotes the number that it was made of.
pub proof fn digits_denote(n: nat)
    ensures
        number(digits(n)) == n,
        digits(n).len() >= 1,
    decreases n,
{
    if n < 10 {
        assert(digits(n).drop_last() =~= Seq::empty());
        assert(number(Seq::<char>::empty()) == 0);
        assert(digits(n).last() == digit(n as int));
    } else {
        digits_denote(n / 10);
        assert(digits(n).drop_last() =~= digits(n / 10));
        assert(digits(n).last() == digit((n % 10) as int));
    }
}

/// Zeros on the left do not change the number.
pub proof fn padding_keeps_number(s: Seq<char>, zeros: nat)
    ensures
        number(Seq::new(zeros, |i: int| '0') + s) == number(s),
    decreases s.len() + zeros,
{
    let z = Seq::new(zeros, |i: int| '0');
    let all = z + s;
    if s.len() > 0 {
        padding_keeps_number(s.drop_last(), zeros);
        assert(all.drop_last() =~= z + s.drop_last());
        assert(all.last() == s.last());
    } else if zeros > 0 {
        let fewer = (zeros - 1) as nat;
        padding_keeps_number(s, fewer);
        assert(all.drop_last() =~= Seq::new(fewer, |i: int| '0') + s);
        assert(all.last() == '0');
    } else {
        assert(all =~= s);
    }
}

/// Padded decimal notation denotes the number that it was made of.
pub proof fn padded_digits_denote(n: nat, width: nat)
    ensures
        number(zero_padded(digits(n), width)) == n,
        zero_padded(digits(n), width).len() >= width,
{
    digits_denote(n);
    let s = digits(n);
    if s.len() < width {
        padding_keeps_number(s, (width - s.len()) as nat);
    }
}

/// A number of at most `k` digits has at most `k` digits in decimal notation.
pub proof fn digits_are_few(n: nat, k: nat)
    requires
        k >= 1,
        n < vstd::arithmetic::power::pow(10, k),
    ensures
        digits(n).len() <= k,
    decreases n,
{
    if n >= 10 {
        if k == 1 {
            vstd::arithmetic::power::lemma_pow1(10);
        }
        let below = (k - 1) as nat;
        assert(vstd::arithmetic::power::pow(10, k) == 10 * vstd::arithmetic::power::pow(10, below)) by {
            reveal(vstd::arithmetic::power::pow);
        }
        digits_are_few(n / 10, below);
    }
}

fn digit_text(d: u128) -> (r: &'static str)
    requires
        d < 10,
    ensures
        r@ == seq![digit(d as int)],
{
    proof {
        reveal_strlit("0");
        reveal_strlit("1");
        reveal_strlit("2");
        reveal_strlit("3");
        reveal_strlit("4");
        reveal_strlit("5");
        reveal_strlit("6");
        reveal_strlit("7");
        reveal_strlit("8");
        reveal_strlit("9");
    }
    let r: &'static str = if d == 0 {
        "0"
    } else if d == 1 {
        "1"
    } else if d == 2 {
        "2"
    } else if d == 3 {
        "3"
    } else if d == 4 {
        "4"
    } else if d == 5 {
        "5"
    } else if d == 6 {
        "6"
    } else if d == 7 {
        "7"
    } else if d == 8 {
        "8"
    } else {
        "9"
    };
    assert(r@ =~= seq![digit(d as int)]);
    r
}

/// Writes a natural number in decimal.
pub fn digits_text(n: u128) -> (r: String)
    ensures
        r@ == digits(n as nat),
    decreases n,
{
    if n < 10 {
        digit_text(n).to_string()
    } else {
        let mut s = digits_text(n / 10);
        s.append(digit_text(n % 10));
        assert(s@ =~= digits((n / 10) as nat).push(digit((n % 10) as int)));
        s
    }
}

/// Writes an integer in decimal.
pub fn decimal_text(i: i64) -> (r: String)
    ensures
        r@ == decimal(i as int),
{
    if i < 0 {
        proof {
            reveal_strlit("-");
        }
        let magnitude: u128 = (-(i as i128)) as u128;
        let r = joined("-", digits_text(magnitude).as_str());
        assert("-"@ =~= seq!['-']);
        r
    } else {
        digits_text(i as u128)
    }
}

/// Writes a natural number in decimal, filled up with zeros to `width` digits.
pub fn padded_digits_text(n: u128, width: usize) -> (r: String)
    ensures
        r@ == zero_padded(digits(n as nat), width as nat),
{
    let body = digits_text(n);
    let len: usize = body.as_str().unicode_len();
    if len >= width {
        return body;
    }
    proof {
        reveal_strlit("0");
    }
    let mut zeros = String::new();
    let mut k: usize = len;
    while k < width
        invariant
            len <= k <= width,
            "0"@ == seq!['0'],
            zeros@ == Seq::new((k - len) as nat, |i: int| '0'),
        decreases width - k,
    {
        zeros.append("0");
        k += 1;
        assert(zeros@ =~= Seq::new((k - len) as nat, |i: int| '0'));
    }
    joined(zeros.as_str(), body.as_str())
}

/// The characters of a string, where there is one.
pub open spec fn opt_text(o: Option<String>) -> Option<Seq<char>> {
    match o {
        Some(s) => Some(s@),
        None => None,
    }
}

/// The characters of each string of a list.
pub open spec fn texts(v: Seq<String>) -> Seq<Seq<char>> {
    v.map_values(|s: String| s@)
}

/// Copies a string, where there is one.
pub fn copied(o: &Option<String>) -> (r: Option<String>)
    ensures
        r == *o,
{
    match o {
        Some(s) => Some(s.clone()),
        None => None,
    }
}

/// What `str::to_uppercase` makes of a character sequence.
pub uninterp spec fn uppercase(s: Seq<char>) -> Seq<char>;

/// The upper-case form of an ASCII character.
pub open spec fn ascii_upper(c: char) -> char {
    if 'a' <= c <= 'z' {
        (c as int - 32) as char
    } else {
        c
    }
}

/// A character sequence with each letter from `a` to `z` in upper case.
pub open spec fn ascii_uppercase(s: Seq<char>) -> Seq<char> {
    s.map_values(|c: char| ascii_upper(c))
}

/// Calls `str::to_uppercase`.
///
/// The result is named `uppercase` of the argument. Of a string of ASCII
/// characters the contract says more: each letter from `a` to `z` is mapped to
/// the letter from `A` to `Z`, and every other character is kept.
#[verifier::external_body]
pub(crate) fn to_uppercase(s: &str) -> (r: String)
    ensures
        r@ == uppercase(s@),
        utf8::is_ascii_chars(s@) ==> r@ == ascii_uppercase(s@),
{
    s.to_uppercase()
}

/// The quoted form of a text that `{:?}` writes.
pub uninterp spec fn debug_form(s: Seq<char>) -> Seq<char>;

/// Whether a character stands for itself in a quoted text: a printable ASCII
/// character other than the double quote and the backslash.
pub open spec fn plain(c: char) -> bool {
    ' ' <= c && c <= '~' && c != '"' && c != '\\'
}

/// The implementation of `std::fmt::Debug` for `str`: its result depends on the
/// text alone, and puts a text of plain characters between double quotes.
#[verifier::external_body]
pub(crate) fn debug_text(s: &str) -> (r: String)
    ensures
        r@ == debug_form(s@),
        (forall|i: int| 0 <= i < s@.len() ==> plain(#[trigger] s@[i])) ==> r@ == seq!['"'] + s@ + seq!['"'],
{
    format!("{:?}", s)
}

/// Quoted texts with `, ` between them.
pub open spec fn debug_items(v: Seq<Seq<char>>) -> Seq<char>
    decreases v.len(),
{
    if v.len() == 0 {
        Seq::empty()
    } else if v.len() == 1 {
        debug_form(v[0])
    } else {
        debug_items(v.drop_last()) + ", "@ + debug_form(v.last())
    }
}

/// The form of a list of texts that `{:?}` writes.
pub open spec fn debug_list(v: Seq<Seq<char>>) -> Seq<char> {
    "["@ + debug_items(v) + "]"@
}

/// Writes a list of quoted texts.
pub fn debug_list_text(v: &Vec<String>) -> (r: String)
    ensures
        r@ == debug_list(texts(v@)),
{
    let n: usize = v.len();
    let mut out = String::new();
    let mut i: usize = 0;
    assert(out@ =~= debug_items(texts(v@).take(0)));
    while i < n
        invariant
            i <= n,
            n == v@.len(),
            out@ == debug_items(texts(v@).take(i as int)),
        decreases n - i,
    {
        let item: String = debug_text(&v[i]);
        let ghost all = texts(v@).take(i + 1);
        assert(all.drop_last() =~= texts(v@).take(i as int));
        assert(all.last() == v@[i as int]@);
        if i == 0 {
            assert(all[0] == v@[0]@);
            out = item;
        } else {
            out = joined(&joined(&out, ", "), &item);
        }
        i += 1;
    }
    assert(texts(v@).take(n as int) =~= texts(v@));
    let r: String = joined(&joined("[", &out), "]");
    r
}

/// Dictionary order is decided by the first difference: where two texts agree up to
/// a place and differ there, the one with the smaller character comes first; where
/// one is the beginning of the other, the shorter one does.
pub proof fn first_difference_decides(a: Seq<char>, b: Seq<char>, k: int)
    requires
        0 <= k <= a.len(),
        k <= b.len(),
        forall|j: int| 0 <= j < k ==> #[trigger] a[j] == b[j],
    ensures
        k < a.len() && k < b.len() && a[k] != b[k] ==> (text_le(a, b) <==> (a[k] as int) < (
        b[k] as int)),
        k == a.len() ==> text_le(a, b),
        k == b.len() && k < a.len() ==> !text_le(a, b),
    decreases k,
{
    if k > 0 {
        let x = a.drop_first();
        let y = b.drop_first();
        assert(a[0] == b[0]);
        assert forall|j: int| 0 <= j < k - 1 implies #[trigger] x[j] == y[j] by {
            assert(a[j + 1] == b[j + 1]);
        }
        first_difference_decides(x, y, k - 1);
    }
}

/// A text begins with another one exactly where it is at least as long and has the
/// same characters up to there.
pub proof fn prefixes_agree(s: Seq<char>, p: Seq<char>)
    ensures
        begins_with(s, p) <==> p.len() <= s.len() && forall|i: int|
            0 <= i < p.len() ==> #[trigger] s[i] == p[i],
        begins_with(p + s, p),
{
    if begins_with(s, p) {
        assert forall|i: int| 0 <= i < p.len() implies #[trigger] s[i] == p[i] by {
            assert(s.take(p.len() as int)[i] == s[i]);
        }
    }
    if p.len() <= s.len() && forall|i: int| 0 <= i < p.len() ==> #[trigger] s[i] == p[i] {
        assert(s.take(p.len() as int) =~= p);
    }
    assert((p + s).take(p.len() as int) =~= p);
}

/// Decimal notation is made of digits and has no zero in front but for zero itself;
/// a negative number has a minus sign before the digits of its magnitude.
pub proof fn decimals_are_plain(n: nat, i: int)
    ensures
        0 <= i < digits(n).len() ==> '0' <= digits(n)[i] && digits(n)[i] <= '9',
        n > 0 ==> digits(n)[0] != '0',
        decimal(n as int) == digits(n),
        n > 0 ==> decimal(-n) == seq!['-'] + digits(n),
    decreases n,
{
    digits_denote(n);
    if n >= 10 {
        decimals_are_plain(n / 10, i);
        decimals_are_plain(n / 10, 0);
        digits_denote(n / 10);
    }
}

/// Upper case changes the letters from `a` to `z` into those from `A` to `Z`, in their
/// order, and nothing else.
pub proof fn upper_case_changes_letters(s: Seq<char>, i: int)
    requires
        0 <= i < s.len(),
    ensures
        ascii_uppercase(s).len() == s.len(),
        'a' <= s[i] && s[i] <= 'z' ==> ascii_uppercase(s)[i] as int - 'A' as int == s[i] as int
            - 'a' as int,
        !('a' <= s[i] && s[i] <= 'z') ==> ascii_uppercase(s)[i] == s[i],
{
}

/// A list of texts is written in square brackets; one more text is written behind the
/// others, quoted, after a comma and a space.
pub proof fn lists_are_written_in_order(v: Seq<Seq<char>>, next: Seq<char>)
    ensures
        debug_list(v) == "["@ + debug_items(v) + "]"@,
        v.len() == 0 ==> debug_items(v).len() == 0,
        v.len() == 0 ==> debug_items(v.push(next)) == debug_form(next),
        v.len() > 0 ==> debug_items(v.push(next)) == debug_items(v) + ", "@ + debug_form(next),
{
    assert(v.push(next).drop_last() =~= v);
}

} // verus!
