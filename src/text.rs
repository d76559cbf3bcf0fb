//! Textual forms of the values that go into a query: decimal and `0x`-tagged
//! hexadecimal integers, and comma-joined lists.
use vstd::prelude::*;

verus! {

/// The digits used for every base up to sixteen, lower case.
pub open spec fn digit_alphabet() -> Seq<char> {
    seq!['0', '1', '2', '3', '4', '5', '6', '7', '8', '9', 'a', 'b', 'c', 'd', 'e', 'f']
}

/// The digits of `v` in `base`, most significant first, without leading zeros
/// (zero itself is the single digit `0`).
pub open spec fn digits(v: nat, base: nat) -> Seq<char>
    decreases v,
    via digits_decreases
{
    if base < 2 || v < base {
        seq![digit_alphabet()[v as int]]
    } else {
        digits(v / base, base).push(digit_alphabet()[(v % base) as int])
    }
}

#[via_fn]
proof fn digits_decreases(v: nat, base: nat) {
    if !(base < 2 || v < base) {
        assert(v / base < v) by (nonlinear_arith)
            requires
                base >= 2,
                v >= base,
        ;
    }
}

/// Decimal text of an integer, with a leading `-` when it is negative.
pub open spec fn decimal(n: int) -> Seq<char> {
    if n < 0 {
        seq!['-'] + digits((-n) as nat, 10)
    } else {
        digits(n as nat, 10)
    }
}

/// The 64-bit two's-complement bit pattern of `n`, read as an unsigned number.
pub open spec fn bit_pattern(n: int) -> nat {
    if n < 0 {
        (n + 0x1_0000_0000_0000_0000) as nat
    } else {
        n as nat
    }
}

/// `0x` followed by the lower-case hexadecimal digits of the bit pattern of `n`.
pub open spec fn hex_tag(n: int) -> Seq<char> {
    seq!['0', 'x'] + digits(bit_pattern(n), 16)
}

/// The parts separated by single commas.
pub open spec fn comma_joined(parts: Seq<Seq<char>>) -> Seq<char>
    decreases parts.len(),
{
    if parts.len() == 0 {
        Seq::empty()
    } else if parts.len() == 1 {
        parts[0]
    } else {
        comma_joined(parts.drop_last()) + seq![','] + parts.last()
    }
}

/// A single part is joined to itself: no comma is introduced.
pub proof fn lemma_join_single(parts: Seq<Seq<char>>)
    requires
        parts.len() == 1,
    ensures
        comma_joined(parts) == parts[0],
{
}

/// Joining adds one comma between each two parts and nothing else.
pub proof fn lemma_join_length(parts: Seq<Seq<char>>)
    requires
        parts.len() > 0,
    ensures
        comma_joined(parts).len() == total_length(parts) + parts.len() - 1,
    decreases parts.len(),
{
    if parts.len() > 1 {
        lemma_join_length(parts.drop_last());
    } else {
        assert(total_length(parts.drop_last()) == 0);
    }
}

/// The sum of the lengths of the parts.
pub open spec fn total_length(parts: Seq<Seq<char>>) -> nat
    decreases parts.len(),
{
    if parts.len() == 0 {
        0
    } else {
        total_length(parts.drop_last()) + parts.last().len()
    }
}

proof fn lemma_digits_split(v: nat, base: nat)
    requires
        base == 10 || base == 16,
    ensures
        digits(v, base) == (if v / base == 0 {
            Seq::<char>::empty()
        } else {
            digits(v / base, base)
        }) + seq![digit_alphabet()[(v % base) as int]],
{
    if v < base {
        assert(v / base == 0 && v % base == v) by (nonlinear_arith)
            requires
                v < base,
                base > 0,
        ;
        assert(digits(v, base) =~= Seq::<char>::empty() + seq![digit_alphabet()[(v % base) as int]]);
    } else {
        assert(v / base > 0) by (nonlinear_arith)
            requires
                v >= base,
                base > 0,
        ;
        assert(v % base < 16) by (nonlinear_arith)
            requires
                base <= 16,
                base > 0,
        ;
    }
}

fn digit_text(d: u64) -> (r: String)
    requires
        d < 16,
    ensures
        r@ == seq![digit_alphabet()[d as int]],
{
    let table = "0123456789abcdef";
    proof {
        reveal_strlit("0123456789abcdef");
    }
    let s = table.substring_char(d as usize, d as usize + 1);
    assert(s@ =~= seq![digit_alphabet()[d as int]]);
    String::from_str(s)
}

fn unsigned_digits(v: u64, base: u64) -> (r: String)
    requires
        base == 10 || base == 16,
    ensures
        r@ == digits(v as nat, base as nat),
{
    proof {
        lemma_digits_split(v as nat, base as nat);
    }
    let mut s = digit_text(v % base);
    let mut rest: u64 = v / base;
    while rest > 0
        invariant
            base == 10 || base == 16,
            digits(v as nat, base as nat) == (if rest == 0 {
                Seq::<char>::empty()
            } else {
                digits(rest as nat, base as nat)
            }) + s@,
        decreases rest,
    {
        proof {
            lemma_digits_split(rest as nat, base as nat);
        }
        let d = digit_text(rest % base);
        let ghost before = s@;
        s = d.concat(s.as_str());
        rest = rest / base;
        assert(s@ =~= d@ + before);
    }
    s
}

/// Decimal text of `n`, as an integer is written in a query string.
pub fn decimal_text(n: i64) -> (r: String)
    ensures
        r@ == decimal(n as int),
{
    if n < 0 {
        let magnitude: u64 = if n == i64::MIN {
            0x8000_0000_0000_0000u64
        } else {
            (-n) as u64
        };
        let body = unsigned_digits(magnitude, 10);
        let mut r = String::from_str("-");
        proof {
            reveal_strlit("-");
        }
        r.append(body.as_str());
        assert(r@ =~= decimal(n as int));
        r
    } else {
        unsigned_digits(n as u64, 10)
    }
}

/// `0x` followed by the lower-case hexadecimal digits of `n`; a negative `n`
/// is written as its 64-bit two's-complement pattern.
pub fn hex_tag_text(n: i64) -> (r: String)
    ensures
        r@ == hex_tag(n as int),
{
    let pattern: u64 = if n >= 0 {
        n as u64
    } else {
        ((n + 1) + i64::MAX) as u64 + 0x8000_0000_0000_0000u64
    };
    let body = unsigned_digits(pattern, 16);
    let mut r = String::from_str("0x");
    proof {
        reveal_strlit("0x");
    }
    r.append(body.as_str());
    assert(r@ =~= hex_tag(n as int));
    r
}

/// The views of a list of string slices.
pub open spec fn views_of(parts: Seq<&str>) -> Seq<Seq<char>> {
    parts.map_values(|p: &str| p@)
}

/// The parts joined into one text, separated by single commas (a list of
/// addresses becomes one query value).
pub fn join_with_commas(parts: &Vec<&str>) -> (r: String)
    ensures
        r@ == comma_joined(views_of(parts@)),
{
    let mut r = String::new();
    let mut i: usize = 0;
    while i < parts.len()
        invariant
            i <= parts@.len(),
            r@ == comma_joined(views_of(parts@.subrange(0, i as int))),
        decreases parts@.len() - i,
    {
        let ghost prefix = views_of(parts@.subrange(0, i as int + 1));
        assert(prefix.drop_last() =~= views_of(parts@.subrange(0, i as int)));
        assert(prefix.last() == parts@[i as int]@);
        if i > 0 {
            r.append(",");
            proof {
                reveal_strlit(",");
            }
        }
        r.append(parts[i]);
        if i == 0 {
            assert(r@ =~= comma_joined(prefix));
        }
        i = i + 1;
    }
    assert(parts@.subrange(0, parts@.len() as int) =~= parts@);
    r
}

} // verus!
