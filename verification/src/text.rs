//! Character-level building blocks of the wire formats: ASCII case folding,
//! decimal numerals and string assembly.

use vstd::prelude::*;
use vstd::string::StringExecFns;

verus! {

/// Trusted: `String::push` of the standard library appends the given
/// character to the end of the string and changes nothing else.
pub assume_specification[ String::push ](s: &mut String, c: char)
    ensures
        final(s)@ == old(s)@.push(c),
;

/// The ASCII lower-case form of a character; every character outside
/// `'A'..='Z'` is its own lower-case form.
pub open spec fn fold_char(c: char) -> char {
    if 'A' <= c && c <= 'Z' {
        ((c as int) + 32) as char
    } else {
        c
    }
}

/// A text with every ASCII capital replaced by its lower-case letter.
pub open spec fn fold(s: Seq<char>) -> Seq<char> {
    Seq::new(s.len(), |i: int| fold_char(s[i]))
}

/// The character that stands for the decimal digit `d`.
pub open spec fn digit(d: int) -> char
    recommends
        0 <= d < 10,
{
    (('0' as int) + d) as char
}

/// The decimal numeral of a natural number, without leading zeros.
pub open spec fn decimal_nat(n: nat) -> Seq<char>
    decreases n,
{
    if n < 10 {
        seq![digit(n as int)]
    } else {
        decimal_nat(n / 10).push(digit((n % 10) as int))
    }
}

/// The decimal numeral of an integer: a minus sign for a negative number,
/// then the numeral of its magnitude.
pub open spec fn decimal(n: int) -> Seq<char> {
    if n < 0 {
        seq!['-'] + decimal_nat((-n) as nat)
    } else {
        decimal_nat(n as nat)
    }
}

/// The views of a list of strings, in order.
pub open spec fn texts(lines: Seq<String>) -> Seq<Seq<char>> {
    Seq::new(lines.len(), |i: int| lines[i]@)
}

/// The texts in order, with `sep` between each two.
pub open spec fn joined(parts: Seq<Seq<char>>, sep: Seq<char>) -> Seq<char>
    decreases parts.len(),
{
    if parts.len() == 0 {
        Seq::empty()
    } else if parts.len() == 1 {
        parts[0]
    } else {
        joined(parts.drop_last(), sep) + sep + parts.last()
    }
}

/// A numeral is never empty, and it holds digits only.
pub proof fn lemma_decimal_nat_is_digits(n: nat)
    ensures
        decimal_nat(n).len() >= 1,
        forall|i: int| 0 <= i < decimal_nat(n).len() ==> '0' <= #[trigger] decimal_nat(n)[i] <= '9',
    decreases n,
{
    if n >= 10 {
        lemma_decimal_nat_is_digits(n / 10);
    }
}

/// Ten to the power of `k`.
pub open spec fn pow10(k: nat) -> nat
    decreases k,
{
    if k == 0 {
        1
    } else {
        10 * pow10((k - 1) as nat)
    }
}

/// A number below ten to the `k` has a numeral of at most `k` digits.
pub proof fn lemma_decimal_nat_length(n: nat, k: nat)
    requires
        k >= 1,
        n < pow10(k),
    ensures
        decimal_nat(n).len() <= k,
    decreases k,
{
    reveal_with_fuel(pow10, 2);
    if n >= 10 {
        lemma_decimal_nat_length(n / 10, (k - 1) as nat);
    }
}

/// The numeral of a 64-bit integer, sign included, has at most twenty characters.
pub proof fn lemma_decimal_length(n: i64)
    ensures
        1 <= decimal(n as int).len() <= 20,
{
    let magnitude = (if n < 0 { -n } else { n as int }) as nat;
    assert(pow10(19) == 10_000_000_000_000_000_000nat) by {
        reveal_with_fuel(pow10, 20);
    }
    lemma_decimal_nat_length(magnitude, 19);
    lemma_decimal_nat_is_digits(magnitude);
}

/// Two natural numbers with the same numeral are the same number.
pub proof fn lemma_decimal_nat_is_injective(a: nat, b: nat)
    requires
        decimal_nat(a) == decimal_nat(b),
    ensures
        a == b,
    decreases a,
{
    lemma_decimal_nat_is_digits(a / 10);
    lemma_decimal_nat_is_digits(b / 10);
    if a < 10 && b < 10 {
        assert(decimal_nat(a)[0] == digit(a as int));
        assert(decimal_nat(b)[0] == digit(b as int));
        assert(digit(a as int) as int == '0' as int + a);
        assert(digit(b as int) as int == '0' as int + b);
    } else if a >= 10 && b >= 10 {
        assert(decimal_nat(a).drop_last() =~= decimal_nat(a / 10));
        assert(decimal_nat(b).drop_last() =~= decimal_nat(b / 10));
        assert(decimal_nat(a).last() == digit((a % 10) as int));
        assert(decimal_nat(b).last() == digit((b % 10) as int));
        assert(digit((a % 10) as int) as int == '0' as int + a % 10);
        assert(digit((b % 10) as int) as int == '0' as int + b % 10);
        lemma_decimal_nat_is_injective(a / 10, b / 10);
    } else if a < 10 {
        assert(decimal_nat(a).len() == 1);
        assert(decimal_nat(b).len() == decimal_nat(b / 10).len() + 1);
    } else {
        assert(decimal_nat(b).len() == 1);
        assert(decimal_nat(a).len() == decimal_nat(a / 10).len() + 1);
    }
}

/// Two integers with the same numeral are the same integer.
pub proof fn lemma_decimal_is_injective(a: int, b: int)
    requires
        decimal(a) == decimal(b),
    ensures
        a == b,
{
    let x = (if a < 0 { -a } else { a }) as nat;
    let y = (if b < 0 { -b } else { b }) as nat;
    lemma_decimal_nat_is_digits(x);
    lemma_decimal_nat_is_digits(y);
    if a < 0 && b < 0 {
        assert(decimal(a).subrange(1, decimal(a).len() as int) =~= decimal_nat(x));
        assert(decimal(b).subrange(1, decimal(b).len() as int) =~= decimal_nat(y));
        lemma_decimal_nat_is_injective(x, y);
    } else if a >= 0 && b >= 0 {
        lemma_decimal_nat_is_injective(x, y);
    } else if a < 0 {
        assert(decimal(a)[0] == '-');
        assert(decimal(b)[0] == decimal_nat(y)[0]);
    } else {
        assert(decimal(b)[0] == '-');
        assert(decimal(a)[0] == decimal_nat(x)[0]);
    }
}

/// Lower-cases one character if it is an ASCII capital.
pub fn fold_ascii(c: char) -> (r: char)
    ensures
        r == fold_char(c),
{
    if 'A' <= c && c <= 'Z' {
        ((c as u8) + 32u8) as char
    } else {
        c
    }
}

/// The characters of a string slice, in order.
pub fn chars_of(s: &str) -> (v: Vec<char>)
    ensures
        v@ == s@,
{
    let mut v: Vec<char> = Vec::new();
    for c in it: s.chars()
        invariant
            it.seq() == s@,
            v@ == s@.subrange(0, it.index() as int),
    {
        v.push(c);
    }
    v
}

/// Whether `text`, compared without regard to ASCII case, is the word `word`.
pub fn is_word(text: &str, word: &str) -> (r: bool)
    ensures
        r == (fold(text@) == word@),
{
    let t = chars_of(text);
    let w = chars_of(word);
    if t.len() != w.len() {
        return false;
    }
    let mut i: usize = 0;
    while i < t.len()
        invariant
            i <= t.len(),
            t.len() == w.len(),
            t@ == text@,
            w@ == word@,
            forall|j: int| 0 <= j < i ==> fold_char(t@[j]) == w@[j],
        decreases t.len() - i,
    {
        if fold_ascii(t[i]) != w[i] {
            assert(fold(text@)[i as int] != word@[i as int]);
            return false;
        }
        i = i + 1;
    }
    assert(fold(text@) =~= word@);
    true
}

/// The concatenation of two texts.
pub fn concatenate(a: &str, b: &str) -> (s: String)
    ensures
        s@ == a@ + b@,
{
    let mut s = String::from_str(a);
    s.append(b);
    s
}

/// The texts in order, with `sep` between each two.
pub fn join(parts: &Vec<String>, sep: &str) -> (s: String)
    ensures
        s@ == joined(texts(parts@), sep@),
{
    let ghost all = texts(parts@);
    let mut s = String::new();
    let mut i: usize = 0;
    proof {
        assert(all.take(0) =~= Seq::<Seq<char>>::empty());
    }
    while i < parts.len()
        invariant
            i <= parts.len(),
            all == texts(parts@),
            s@ == joined(all.take(i as int), sep@),
        decreases parts.len() - i,
    {
        let ghost before = s@;
        if i > 0 {
            s.append(sep);
        }
        s.append(parts[i].as_str());
        proof {
            let next = all.take(i + 1);
            assert(next.drop_last() =~= all.take(i as int));
            assert(next.last() == parts@[i as int]@);
            if i == 0 {
                assert(s@ =~= parts@[0]@);
            }
        }
        i = i + 1;
    }
    proof {
        assert(all.take(parts.len() as int) =~= all);
    }
    s
}

/// Appends the decimal numeral of `n` to `out`.
pub fn push_decimal_nat(out: &mut String, n: u64)
    ensures
        final(out)@ == old(out)@ + decimal_nat(n as nat),
    decreases n,
{
    if n >= 10 {
        push_decimal_nat(out, n / 10);
    }
    let d: u8 = (n % 10) as u8;
    out.push((48u8 + d) as char);
    assert(out@ =~= old(out)@ + decimal_nat(n as nat));
}

/// The decimal numeral of a signed integer.
pub fn decimal_text(n: i64) -> (s: String)
    ensures
        s@ == decimal(n as int),
{
    let mut s = String::new();
    if n < 0 {
        s.push('-');
        let magnitude: u64 = ((-(n + 1)) as u64) + 1;
        push_decimal_nat(&mut s, magnitude);
        assert(s@ =~= decimal(n as int));
    } else {
        push_decimal_nat(&mut s, n as u64);
        assert(s@ =~= decimal(n as int));
    }
    s
}

} // verus!
