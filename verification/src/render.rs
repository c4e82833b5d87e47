//! Verified text rendering: decimal formatting of integers, joining string
//! lists with a separator, and the HTML link anchors used in outbound
//! messages. Every outbound text of the library is assembled from these.

use vstd::prelude::*;
use vstd::string::*;

verus! {

/// The decimal digit character for `d`.
pub open spec fn dec_digit(d: int) -> char {
    if d == 0 {
        '0'
    } else if d == 1 {
        '1'
    } else if d == 2 {
        '2'
    } else if d == 3 {
        '3'
    } else if d == 4 {
        '4'
    } else if d == 5 {
        '5'
    } else if d == 6 {
        '6'
    } else if d == 7 {
        '7'
    } else if d == 8 {
        '8'
    } else {
        '9'
    }
}

/// Decimal rendering of a nonnegative integer, most significant digit first.
pub open spec fn spec_dec(n: nat) -> Seq<char>
    decreases n,
{
    if n < 10 {
        seq![dec_digit(n as int)]
    } else {
        spec_dec(n / 10).push(dec_digit((n % 10) as int))
    }
}

/// Decimal rendering of a signed integer: a minus sign before the magnitude.
pub open spec fn spec_dec_signed(n: int) -> Seq<char> {
    if n < 0 {
        seq!['-'] + spec_dec((-n) as nat)
    } else {
        spec_dec(n as nat)
    }
}

fn digit_str(d: u64) -> (s: String)
    requires
        d < 10,
    ensures
        s@ == seq![dec_digit(d as int)],
{
    let r: &str = if d == 0 {
        "0"
    } else if d == 1 {
        "1"
    } else if d == 2 {
        "2"
    } else if d == 3 {
        "3"
    } else if d == 4 {
        "4"
    } else if d == 5 {
        "5"
    } else if d == 6 {
        "6"
    } else if d == 7 {
        "7"
    } else if d == 8 {
        "8"
    } else {
        "9"
    };
    proof {
        reveal_strlit("0");
        reveal_strlit("1");
        reveal_strlit("2");
        reveal_strlit("3");
        reveal_strlit("4");
        reveal_strlit("5");
        reveal_strlit("6");
        reveal_strlit("7");
        reveal_strlit("8");
        reveal_strlit("9");
        assert(r@ =~= seq![dec_digit(d as int)]);
    }
    r.to_owned()
}

pub fn u64_to_dec(n: u64) -> (s: String)
    ensures
        s@ == spec_dec(n as nat),
    decreases n,
{
    if n < 10 {
        digit_str(n)
    } else {
        let mut s = u64_to_dec(n / 10);
        let d = digit_str(n % 10);
        s.append(d.as_str());
        proof {
            assert(spec_dec((n / 10) as nat).push(dec_digit((n % 10) as int)) =~= spec_dec(
                (n / 10) as nat,
            ) + seq![dec_digit((n % 10) as int)]);
        }
        s
    }
}

pub fn i64_to_dec(n: i64) -> (s: String)
    ensures
        s@ == spec_dec_signed(n as int),
{
    if n >= 0 {
        u64_to_dec(n as u64)
    } else {
        let m: u64 = ((-(n + 1)) as u64) + 1;
        assert(m as int == -(n as int));
        let mut s = String::from_str("-");
        let d = u64_to_dec(m);
        s.append(d.as_str());
        proof {
            reveal_strlit("-");
            assert("-"@ =~= seq!['-']);
        }
        s
    }
}

/// The elements of `xs` joined with `sep` between neighbours.
pub open spec fn join_with(xs: Seq<Seq<char>>, sep: Seq<char>) -> Seq<char>
    decreases xs.len(),
{
    if xs.len() == 0 {
        Seq::<char>::empty()
    } else if xs.len() == 1 {
        xs[0]
    } else {
        join_with(xs.drop_last(), sep) + sep + xs.last()
    }
}

pub fn join_strings(v: &Vec<String>, sep: &str) -> (r: String)
    ensures
        r@ == join_with(v.deep_view(), sep@),
{
    let mut r = String::new();
    let mut i: usize = 0;
    while i < v.len()
        invariant
            i <= v.len(),
            r@ == join_with(v.deep_view().take(i as int), sep@),
        decreases v.len() - i,
    {
        if i > 0 {
            r.append(sep);
        }
        r.append(v[i].as_str());
        proof {
            let dv = v.deep_view();
            assert(dv.take(i + 1).drop_last() =~= dv.take(i as int));
            assert(dv.take(i + 1).last() == dv[i as int]);
            if i == 0 {
                assert(join_with(dv.take(1), sep@) == dv[0]);
            }
        }
        i += 1;
    }
    proof {
        assert(v.deep_view().take(v.len() as int) =~= v.deep_view());
    }
    r
}

/// An HTML anchor with the given target and label.
pub open spec fn spec_anchor(url: Seq<char>, label: Seq<char>) -> Seq<char> {
    "<a href=\""@ + url + "\">"@ + label + "</a>"@
}

pub fn anchor(url: &str, label: &str) -> (r: String)
    ensures
        r@ == spec_anchor(url@, label@),
{
    let mut r = String::from_str("<a href=\"");
    r.append(url);
    r.append("\">");
    r.append(label);
    r.append("</a>");
    r
}

} // verus!
