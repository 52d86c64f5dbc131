//! Diagnostics grid: renders the 16 distance samples as four lines of four
//! decimal numbers for the debug display, two spaces between columns and a
//! newline between rows.

use vstd::prelude::*;
use vstd::pervasive::VecAdditionalExecFns;
use vstd::string::StringExecFns;

verus! {

/// The character for one decimal digit value.
pub open spec fn digit_char(d: int) -> char {
    if d == 0 {
        '0'
    } else if d == 1 {
        '1'
    } else if d == 2 {
        '2'
    } else if d == 3 {
        '3'
    } else if d == 4 {
        '4'
    } else if d == 5 {
        '5'
    } else if d == 6 {
        '6'
    } else if d == 7 {
        '7'
    } else if d == 8 {
        '8'
    } else {
        '9'
    }
}

/// The decimal rendering of a nonnegative number: most significant digit
/// first, no leading zeros (a lone zero renders as "0").
pub open spec fn dec_of(n: int) -> Seq<char>
    decreases n,
{
    if n < 10 {
        seq![digit_char(n)]
    } else {
        dec_of(n / 10).push(digit_char(n % 10))
    }
}

/// The characters contributed by a sequence of digit values read back to
/// front: the rendering of digits collected least-significant first.
pub open spec fn rev_digit_chars(s: Seq<u16>) -> Seq<char>
    decreases s.len(),
{
    if s.len() == 0 {
        Seq::empty()
    } else {
        rev_digit_chars(s.drop_first()) + seq![digit_char(s.first() as int)]
    }
}

/// Appending one more (more significant) digit to the collected digits
/// prepends its character to the rendering.
proof fn lemma_rev_digit_chars_push(s: Seq<u16>, x: u16)
    ensures
        rev_digit_chars(s.push(x)) == seq![digit_char(x as int)] + rev_digit_chars(s),
    decreases s.len(),
{
    if s.len() == 0 {
        assert(s.push(x).drop_first() =~= Seq::<u16>::empty());
        assert(rev_digit_chars(Seq::<u16>::empty()) =~= Seq::<char>::empty());
        assert(s =~= Seq::<u16>::empty());
        assert(s.push(x).first() == x);
        assert(rev_digit_chars(s.push(x)) =~= seq![digit_char(x as int)] + rev_digit_chars(s));
    } else {
        assert(s.push(x).drop_first() =~= s.drop_first().push(x));
        lemma_rev_digit_chars_push(s.drop_first(), x);
        assert(rev_digit_chars(s.push(x)) =~= seq![digit_char(x as int)] + rev_digit_chars(s));
    }
}

/// The string slice for one decimal digit value.
fn digit_str(d: u16) -> (r: &'static str)
    requires
        d < 10,
    ensures
        r@ == seq![digit_char(d as int)],
{
    proof {
        reveal_strlit("0");
        reveal_strlit("1");
        reveal_strlit("2");
        reveal_strlit("3");
        reveal_strlit("4");
        reveal_strlit("5");
        reveal_strlit("6");
        reveal_strlit("7");
        reveal_strlit("8");
        reveal_strlit("9");
    }
    match d {
        0 => "0",
        1 => "1",
        2 => "2",
        3 => "3",
        4 => "4",
        5 => "5",
        6 => "6",
        7 => "7",
        8 => "8",
        _ => "9",
    }
}

/// Renders a number in decimal, most significant digit first.
pub fn u16_to_dec(n: u16) -> (s: String)
    ensures
        s@ == dec_of(n as int),
{
    let mut digits: Vec<u16> = Vec::new();
    let mut m: u16 = n;
    digits.push(m % 10);
    m = m / 10;
    proof {
        assert(digits@ =~= Seq::<u16>::empty().push((n % 10) as u16));
        lemma_rev_digit_chars_push(Seq::<u16>::empty(), (n % 10) as u16);
        assert(rev_digit_chars(digits@) =~= seq![digit_char((n % 10) as int)]);
        if n >= 10 {
            assert(dec_of(n as int) =~= dec_of(m as int) + rev_digit_chars(digits@));
        }
    }
    while m > 0
        invariant
            digits@.len() >= 1,
            forall|j: int| 0 <= j < digits@.len() ==> digits@[j] < 10,
            m > 0 ==> dec_of(n as int) == dec_of(m as int) + rev_digit_chars(digits@),
            m == 0 ==> dec_of(n as int) == rev_digit_chars(digits@),
        decreases m,
    {
        let d: u16 = m % 10;
        let ghost old_digits = digits@;
        let ghost old_m = m;
        digits.push(d);
        m = m / 10;
        proof {
            lemma_rev_digit_chars_push(old_digits, d);
            if old_m >= 10 {
                assert(dec_of(old_m as int) == dec_of(m as int).push(digit_char(d as int)));
                assert(dec_of(m as int).push(digit_char(d as int)) =~= dec_of(m as int) + seq![
                    digit_char(d as int),
                ]);
                assert(dec_of(n as int) =~= dec_of(m as int) + rev_digit_chars(digits@));
            } else {
                assert(dec_of(old_m as int) =~= seq![digit_char(d as int)]);
                assert(dec_of(n as int) =~= rev_digit_chars(digits@));
            }
        }
    }
    let mut s = String::new();
    let mut i: usize = digits.len();
    while i > 0
        invariant
            i <= digits@.len(),
            forall|j: int| 0 <= j < digits@.len() ==> digits@[j] < 10,
            dec_of(n as int) == rev_digit_chars(digits@),
            s@ == rev_digit_chars(digits@.skip(i as int)),
        decreases i,
    {
        i = i - 1;
        s.append(digit_str(digits[i]));
        proof {
            assert(digits@.skip(i as int).drop_first() =~= digits@.skip(i as int + 1));
            assert(s@ =~= rev_digit_chars(digits@.skip(i as int)));
        }
    }
    proof {
        assert(digits@.skip(0) =~= digits@);
    }
    s
}

/// The column or row separator standing before the sample at an index:
/// a newline at the start of each new row of four, two spaces otherwise.
pub open spec fn sep_before(i: int) -> Seq<char> {
    if i % 4 == 0 {
        seq!['\n']
    } else {
        seq![' ', ' ']
    }
}

/// The rendering of the first `i` distance samples, separators included.
pub open spec fn grid_prefix(d: Seq<u16>, i: int) -> Seq<char>
    decreases i,
{
    if i <= 0 {
        Seq::empty()
    } else if i == 1 {
        dec_of(d[0] as int)
    } else {
        grid_prefix(d, i - 1) + sep_before(i - 1) + dec_of(d[i - 1] as int)
    }
}

/// The full rendering of a 16-sample distance grid: four lines of four
/// numbers, columns separated by two spaces.
pub open spec fn grid_of(d: Seq<u16>) -> Seq<char> {
    grid_prefix(d, 16)
}

/// Renders the 16 distance samples for the debug display.
pub fn stringify_distances(distances: &Vec<u16>) -> (s: String)
    requires
        distances@.len() == 16,
    ensures
        s@ == grid_of(distances@),
{
    let mut s = String::new();
    let mut i: usize = 0;
    while i < 16
        invariant
            distances@.len() == 16,
            i <= 16,
            s@ == grid_prefix(distances@, i as int),
        decreases 16 - i,
    {
        if i > 0 {
            if i % 4 == 0 {
                proof {
                    reveal_strlit("\n");
                }
                s.append("\n");
            } else {
                proof {
                    reveal_strlit("  ");
                }
                s.append("  ");
            }
        }
        let piece = u16_to_dec(distances[i]);
        s.append(piece.as_str());
        proof {
            if i == 0 {
                assert(s@ =~= grid_prefix(distances@, 1));
            } else {
                assert(s@ =~= grid_prefix(distances@, i as int + 1));
            }
        }
        i = i + 1;
    }
    s
}

} // verus!
