use vstd::prelude::*;
use vstd::string::StringExecFns;

verus! {

/// The character for one decimal digit.
pub open spec fn digit_char(d: int) -> char {
    if d == 0 {
        '0'
    } else if d == 1 {
        '1'
    } else if d == 2 {
        '2'
    } else if d == 3 {
        '3'
    } else if d == 4 {
        '4'
    } else if d == 5 {
        '5'
    } else if d == 6 {
        '6'
    } else if d == 7 {
        '7'
    } else if d == 8 {
        '8'
    } else {
        '9'
    }
}

/// The decimal rendering of a natural number, most significant digit first,
/// with no leading zero except for the number 0 itself.
pub open spec fn dec_rep(n: nat) -> Seq<char>
    decreases n,
{
    if n < 10 {
        seq![digit_char(n as int)]
    } else {
        dec_rep(n / 10) + seq![digit_char((n % 10) as int)]
    }
}

/// The decimal rendering of an integer: a minus sign in front of the
/// magnitude when negative.
pub open spec fn int_rep(n: int) -> Seq<char> {
    if n >= 0 {
        dec_rep(n as nat)
    } else {
        seq!['-'] + dec_rep((-n) as nat)
    }
}

/// A number zero-padded on the left to two digits, as the date format wants
/// days and months.
pub open spec fn pad2(n: int) -> Seq<char> {
    if n < 10 {
        seq!['0'] + dec_rep(n as nat)
    } else {
        dec_rep(n as nat)
    }
}

/// A number zero-padded on the left to at least four digits, as the date
/// format wants years.
pub open spec fn pad4(n: int) -> Seq<char> {
    if n < 10 {
        seq!['0', '0', '0'] + dec_rep(n as nat)
    } else if n < 100 {
        seq!['0', '0'] + dec_rep(n as nat)
    } else if n < 1000 {
        seq!['0'] + dec_rep(n as nat)
    } else {
        dec_rep(n as nat)
    }
}

/// A year as the date format renders it: at least four digits, the sign in
/// front when negative.
pub open spec fn year4(y: int) -> Seq<char> {
    if y < 0 {
        seq!['-'] + pad4(-y)
    } else {
        pad4(y)
    }
}

/// A calendar date rendered `DD-MM-YYYY`.
pub open spec fn date_str(d: int, m: int, y: int) -> Seq<char> {
    pad2(d) + seq!['-'] + pad2(m) + seq!['-'] + year4(y)
}

fn digit_str(d: u64) -> (r: &'static str)
    requires
        d < 10,
    ensures
        r@ == seq![digit_char(d as int)],
{
    proof {
        reveal_strlit("0");
        reveal_strlit("1");
        reveal_strlit("2");
        reveal_strlit("3");
        reveal_strlit("4");
        reveal_strlit("5");
        reveal_strlit("6");
        reveal_strlit("7");
        reveal_strlit("8");
        reveal_strlit("9");
    }
    let r: &'static str = if d == 0 {
        "0"
    } else if d == 1 {
        "1"
    } else if d == 2 {
        "2"
    } else if d == 3 {
        "3"
    } else if d == 4 {
        "4"
    } else if d == 5 {
        "5"
    } else if d == 6 {
        "6"
    } else if d == 7 {
        "7"
    } else if d == 8 {
        "8"
    } else {
        "9"
    };
    proof {
        assert(r@ =~= seq![digit_char(d as int)]);
    }
    r
}

/// Renders an unsigned number in decimal.
pub fn u64_to_dec(n: u64) -> (r: String)
    ensures
        r@ == dec_rep(n as nat),
    decreases n,
{
    if n < 10 {
        String::from_str(digit_str(n))
    } else {
        let mut r = u64_to_dec(n / 10);
        r.append(digit_str(n % 10));
        r
    }
}

/// Renders a signed number in decimal, with a minus sign when negative.
pub fn i32_to_dec(n: i32) -> (r: String)
    ensures
        r@ == int_rep(n as int),
{
    if n >= 0 {
        u64_to_dec(n as u64)
    } else {
        let wide: i64 = n as i64;
        let mag: u64 = (-wide) as u64;
        let mut r = String::from_str("-");
        let digits = u64_to_dec(mag);
        r.append(digits.as_str());
        proof {
            reveal_strlit("-");
            assert("-"@ =~= seq!['-']);
        }
        r
    }
}

/// Renders a count in decimal.
pub fn usize_to_dec(n: usize) -> (r: String)
    ensures
        r@ == dec_rep(n as nat),
{
    u64_to_dec(n as u64)
}

fn two_digits(n: u64) -> (r: String)
    requires
        n < 100,
    ensures
        r@ == pad2(n as int),
{
    if n < 10 {
        let mut r = String::from_str("0");
        r.append(digit_str(n));
        proof {
            reveal_strlit("0");
            assert("0"@ =~= seq!['0']);
        }
        r
    } else {
        u64_to_dec(n)
    }
}

fn four_digits(n: u64) -> (r: String)
    ensures
        r@ == pad4(n as int),
{
    let mut r = String::new();
    if n < 10 {
        r.append("000");
    } else if n < 100 {
        r.append("00");
    } else if n < 1000 {
        r.append("0");
    }
    let digits = u64_to_dec(n);
    r.append(digits.as_str());
    proof {
        reveal_strlit("0");
        reveal_strlit("00");
        reveal_strlit("000");
        assert("0"@ =~= seq!['0']);
        assert("00"@ =~= seq!['0', '0']);
        assert("000"@ =~= seq!['0', '0', '0']);
        assert(r@ =~= pad4(n as int));
    }
    r
}

/// Renders a calendar date as `DD-MM-YYYY`, the form the appointment API
/// expects in its query string.
pub fn format_ddmmyyyy(d: u32, m: u32, y: i32) -> (r: String)
    requires
        1 <= d <= 31,
        1 <= m <= 12,
    ensures
        r@ == date_str(d as int, m as int, y as int),
{
    let mut r = two_digits(d as u64);
    r.append("-");
    let mm = two_digits(m as u64);
    r.append(mm.as_str());
    r.append("-");
    let wide: i64 = y as i64;
    if wide < 0 {
        r.append("-");
        let yy = four_digits((-wide) as u64);
        r.append(yy.as_str());
    } else {
        let yy = four_digits(wide as u64);
        r.append(yy.as_str());
    }
    proof {
        reveal_strlit("-");
        assert("-"@ =~= seq!['-']);
        assert(r@ =~= date_str(d as int, m as int, y as int));
    }
    r
}

} // verus!
