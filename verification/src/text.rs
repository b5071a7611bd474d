use vstd::prelude::*;
use vstd::string::StringExecFns;

verus! {

/// The views of a vector of strings.
pub open spec fn texts(v: Seq<String>) -> Seq<Seq<char>> {
    v.map_values(|s: String| s@)
}

/// The views of a vector of string slices.
pub open spec fn slices(v: Seq<&str>) -> Seq<Seq<char>> {
    v.map_values(|s: &str| s@)
}

/// The character of a decimal digit.
pub open spec fn digit(d: int) -> char {
    if d == 0 {
        '0'
    } else if d == 1 {
        '1'
    } else if d == 2 {
        '2'
    } else if d == 3 {
        '3'
    } else if d == 4 {
        '4'
    } else if d == 5 {
        '5'
    } else if d == 6 {
        '6'
    } else if d == 7 {
        '7'
    } else if d == 8 {
        '8'
    } else {
        '9'
    }
}

/// The decimal digits of `n`, most significant first, with zeros in front
/// where there are fewer than `width` of them.
pub open spec fn zero_padded(n: nat, width: nat) -> Seq<char>
    decreases n, width,
{
    if n < 10 && width <= 1 {
        seq![digit(n as int)]
    } else {
        let rest = if width > 0 {
            (width - 1) as nat
        } else {
            0
        };
        zero_padded(n / 10, rest).push(digit((n % 10) as int))
    }
}

/// A signed integer in decimal: a minus sign where it is negative, then its
/// digits without leading zeros.
pub open spec fn int_text(n: int) -> Seq<char> {
    if n < 0 {
        seq!['-'] + zero_padded((-n) as nat, 1)
    } else {
        zero_padded(n as nat, 1)
    }
}

/// The parts in order, with the separator between each two neighbours.
pub open spec fn joined(parts: Seq<Seq<char>>, sep: Seq<char>) -> Seq<char>
    decreases parts.len(),
{
    if parts.len() == 0 {
        Seq::empty()
    } else if parts.len() == 1 {
        parts[0]
    } else {
        joined(parts.drop_last(), sep) + sep + parts.last()
    }
}

fn digit_str(d: u32) -> (r: &'static str)
    requires
        d < 10,
    ensures
        r@ == seq![digit(d as int)],
{
    proof {
        reveal_strlit("0");
        reveal_strlit("1");
        reveal_strlit("2");
        reveal_strlit("3");
        reveal_strlit("4");
        reveal_strlit("5");
        reveal_strlit("6");
        reveal_strlit("7");
        reveal_strlit("8");
        reveal_strlit("9");
    }
    let r = if d == 0 {
        "0"
    } else if d == 1 {
        "1"
    } else if d == 2 {
        "2"
    } else if d == 3 {
        "3"
    } else if d == 4 {
        "4"
    } else if d == 5 {
        "5"
    } else if d == 6 {
        "6"
    } else if d == 7 {
        "7"
    } else if d == 8 {
        "8"
    } else {
        "9"
    };
    assert(r@ =~= seq![digit(d as int)]);
    r
}

/// Appends the digits of `n` to `out`, padded with zeros to `width`.
pub fn push_padded(out: &mut String, n: u32, width: u32)
    ensures
        final(out)@ == old(out)@ + zero_padded(n as nat, width as nat),
    decreases n, width,
{
    if n < 10 && width <= 1 {
        out.append(digit_str(n));
    } else {
        let rest: u32 = if width > 0 { width - 1 } else { 0 };
        push_padded(out, n / 10, rest);
        out.append(digit_str(n % 10));
        assert(out@ =~= old(out)@ + zero_padded(n as nat, width as nat));
    }
}

/// The decimal text of a signed integer, as `to_string` gives it.
pub fn decimal(n: i32) -> (r: String)
    ensures
        r@ == int_text(n as int),
{
    let wide: i64 = n as i64;
    let mut out = String::new();
    if wide < 0 {
        out.append("-");
        proof {
            reveal_strlit("-");
            assert("-"@ =~= seq!['-']);
        }
        push_padded(&mut out, (0 - wide) as u32, 1);
    } else {
        push_padded(&mut out, wide as u32, 1);
    }
    assert(out@ =~= int_text(n as int));
    out
}

/// Joins the parts with the separator between them.
pub fn join(parts: &Vec<String>, sep: &str) -> (r: String)
    ensures
        r@ == joined(texts(parts@), sep@),
{
    let mut out = String::new();
    let mut i: usize = 0;
    while i < parts.len()
        invariant
            i <= parts.len(),
            out@ == joined(texts(parts@).take(i as int), sep@),
        decreases parts.len() - i,
    {
        let ghost before = texts(parts@).take(i as int);
        let ghost after = texts(parts@).take(i + 1);
        proof {
            assert(after.drop_last() =~= before);
            assert(after.last() == parts@[i as int]@);
        }
        if i > 0 {
            out.append(sep);
        }
        out.append(parts[i].as_str());
        proof {
            if i == 0 {
                assert(out@ =~= parts@[0]@);
            }
        }
        i += 1;
    }
    proof {
        assert(texts(parts@).take(i as int) =~= texts(parts@));
    }
    out
}

/// Copies string slices into owned strings, in order.
pub fn owned(values: &Vec<&str>) -> (r: Vec<String>)
    ensures
        texts(r@) == slices(values@),
{
    let mut out: Vec<String> = Vec::new();
    let mut i: usize = 0;
    while i < values.len()
        invariant
            i <= values.len(),
            out@.len() == i,
            texts(out@) == slices(values@).take(i as int),
        decreases values.len() - i,
    {
        let ghost before = out@;
        out.push(String::from_str(values[i]));
        proof {
            assert(texts(before) == slices(values@).take(i as int));
            assert forall|j: int| 0 <= j < out@.len() implies texts(out@)[j] == slices(
                values@,
            ).take(i + 1)[j] by {
                if j < i {
                    assert(out@[j] == before[j]);
                    assert(texts(before)[j] == slices(values@).take(i as int)[j]);
                }
            }
            assert(texts(out@) =~= slices(values@).take(i + 1));
        }
        i += 1;
    }
    assert(slices(values@).take(i as int) =~= slices(values@));
    out
}

} // verus!
