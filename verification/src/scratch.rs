//! Scratch-file naming for the temporary file manager.
//!
//! A session's scratch file lives in the platform scratch directory under a
//! name derived from the process id, a high-resolution timestamp and a
//! per-process counter, so that concurrent invocations are unlikely to
//! collide. The name is pure computation and is built here with an exact
//! contract; the laws at the bottom state the collision avoidance itself:
//! the name is one-to-one in the process id, the timestamp and the counter,
//! so invocations that differ in any of the three get distinct names.

use vstd::prelude::*;

verus! {

use vstd::string::StringExecFns;

/// The character for one decimal digit.
pub open spec fn digit_char(d: nat) -> char {
    if d == 0 {
        '0'
    } else if d == 1 {
        '1'
    } else if d == 2 {
        '2'
    } else if d == 3 {
        '3'
    } else if d == 4 {
        '4'
    } else if d == 5 {
        '5'
    } else if d == 6 {
        '6'
    } else if d == 7 {
        '7'
    } else if d == 8 {
        '8'
    } else {
        '9'
    }
}

/// The decimal rendering of `n`, most significant digit first, without
/// leading zeros (a single `'0'` for zero itself).
pub open spec fn dec_digits(n: nat) -> Seq<char>
    decreases n,
{
    if n < 10 {
        seq![digit_char(n)]
    } else {
        dec_digits(n / 10).push(digit_char(n % 10))
    }
}

/// The name of the scratch file for one invocation: the process id, the
/// timestamp and the counter in decimal, separated by underscores.
pub open spec fn scratch_name_spec(pid: u64, stamp: u64, counter: u64) -> Seq<char> {
    "scrawl_"@ + dec_digits(pid as nat) + "_"@ + dec_digits(stamp as nat) + "_"@ + dec_digits(
        counter as nat,
    ) + ".txt"@
}

fn digit_str(d: u64) -> (r: &'static str)
    requires
        d < 10,
    ensures
        r@ == seq![digit_char(d as nat)],
{
    if d == 0 {
        proof {
            reveal_strlit("0");
            assert("0"@ =~= seq![digit_char(0)]);
        }
        "0"
    } else if d == 1 {
        proof {
            reveal_strlit("1");
            assert("1"@ =~= seq![digit_char(1)]);
        }
        "1"
    } else if d == 2 {
        proof {
            reveal_strlit("2");
            assert("2"@ =~= seq![digit_char(2)]);
        }
        "2"
    } else if d == 3 {
        proof {
            reveal_strlit("3");
            assert("3"@ =~= seq![digit_char(3)]);
        }
        "3"
    } else if d == 4 {
        proof {
            reveal_strlit("4");
            assert("4"@ =~= seq![digit_char(4)]);
        }
        "4"
    } else if d == 5 {
        proof {
            reveal_strlit("5");
            assert("5"@ =~= seq![digit_char(5)]);
        }
        "5"
    } else if d == 6 {
        proof {
            reveal_strlit("6");
            assert("6"@ =~= seq![digit_char(6)]);
        }
        "6"
    } else if d == 7 {
        proof {
            reveal_strlit("7");
            assert("7"@ =~= seq![digit_char(7)]);
        }
        "7"
    } else if d == 8 {
        proof {
            reveal_strlit("8");
            assert("8"@ =~= seq![digit_char(8)]);
        }
        "8"
    } else {
        proof {
            reveal_strlit("9");
            assert("9"@ =~= seq![digit_char(9)]);
        }
        "9"
    }
}

/// Renders `n` in decimal.
pub fn u64_digits(n: u64) -> (s: String)
    ensures
        s@ == dec_digits(n as nat),
    decreases n,
{
    if n < 10 {
        digit_str(n).to_string()
    } else {
        let mut s = u64_digits(n / 10);
        s.append(digit_str(n % 10));
        proof {
            assert(s@ =~= dec_digits((n / 10) as nat).push(digit_char((n % 10) as nat)));
        }
        s
    }
}

/// Builds the scratch file's name for one invocation, exactly as
/// [`scratch_name_spec`] states it.
pub fn scratch_name(pid: u64, stamp: u64, counter: u64) -> (name: String)
    ensures
        name@ == scratch_name_spec(pid, stamp, counter),
{
    let mut name = "scrawl_".to_string();
    let pid_digits = u64_digits(pid);
    name.append(pid_digits.as_str());
    name.append("_");
    let stamp_digits = u64_digits(stamp);
    name.append(stamp_digits.as_str());
    name.append("_");
    let counter_digits = u64_digits(counter);
    name.append(counter_digits.as_str());
    name.append(".txt");
    proof {
        assert(name@ =~= scratch_name_spec(pid, stamp, counter));
    }
    name
}

proof fn lemma_dec_digits_nonempty(n: nat)
    ensures
        dec_digits(n).len() >= 1,
    decreases n,
{
    if n >= 10 {
        lemma_dec_digits_nonempty(n / 10);
    }
}

proof fn lemma_digit_char_injective(x: nat, y: nat)
    requires
        x < 10,
        y < 10,
        digit_char(x) == digit_char(y),
    ensures
        x == y,
{
}

/// The decimal rendering is one-to-one: two numbers with the same digits
/// are the same number.
pub proof fn lemma_dec_digits_injective(a: nat, b: nat)
    requires
        dec_digits(a) == dec_digits(b),
    ensures
        a == b,
    decreases a,
{
    if a < 10 && b < 10 {
        assert(dec_digits(a)[0] == dec_digits(b)[0]);
        assert(dec_digits(a)[0] == digit_char(a));
        assert(dec_digits(b)[0] == digit_char(b));
        lemma_digit_char_injective(a, b);
    } else if a < 10 {
        assert(dec_digits(a).len() == 1);
        assert(dec_digits(b).len() == dec_digits(b / 10).len() + 1);
        lemma_dec_digits_nonempty(b / 10);
        assert(false);
    } else if b < 10 {
        assert(dec_digits(b).len() == 1);
        assert(dec_digits(a).len() == dec_digits(a / 10).len() + 1);
        lemma_dec_digits_nonempty(a / 10);
        assert(false);
    } else {
        assert(dec_digits(a).last() == digit_char(a % 10));
        assert(dec_digits(b).last() == digit_char(b % 10));
        lemma_digit_char_injective(a % 10, b % 10);
        assert(dec_digits(a).drop_last() =~= dec_digits(a / 10));
        assert(dec_digits(b).drop_last() =~= dec_digits(b / 10));
        lemma_dec_digits_injective(a / 10, b / 10);
        vstd::arithmetic::div_mod::lemma_fundamental_div_mod(a as int, 10);
        vstd::arithmetic::div_mod::lemma_fundamental_div_mod(b as int, 10);
    }
}

proof fn lemma_concat_cancel_left(p: Seq<char>, x: Seq<char>, y: Seq<char>)
    requires
        p + x == p + y,
    ensures
        x == y,
{
    assert((p + x).len() == p.len() + x.len());
    assert((p + y).len() == p.len() + y.len());
    assert(x.len() == y.len());
    assert forall|i: int| 0 <= i < x.len() implies x[i] == y[i] by {
        assert((p + x)[p.len() + i] == x[i]);
        assert((p + y)[p.len() + i] == y[i]);
    }
    assert(x =~= y);
}

/// The character is a decimal digit.
pub open spec fn is_digit(c: char) -> bool {
    c == '0' || c == '1' || c == '2' || c == '3' || c == '4' || c == '5' || c == '6' || c == '7'
        || c == '8' || c == '9'
}

proof fn lemma_dec_digits_are_digits(n: nat)
    ensures
        forall|i: int| 0 <= i < dec_digits(n).len() ==> is_digit(#[trigger] dec_digits(n)[i]),
    decreases n,
{
    if n >= 10 {
        lemma_dec_digits_are_digits(n / 10);
        assert forall|i: int| 0 <= i < dec_digits(n).len() implies is_digit(
            #[trigger] dec_digits(n)[i],
        ) by {
            if i < dec_digits(n).len() - 1 {
                assert(dec_digits(n)[i] == dec_digits(n / 10)[i]);
            } else {
                assert(dec_digits(n)[i] == digit_char(n % 10));
            }
        }
    }
}

/// A digit run followed by a non-digit marker decomposes uniquely: if two
/// such concatenations are equal, the digit runs agree and the remainders
/// agree, since a longer run would put a digit where the other side has its
/// marker.
proof fn lemma_digits_then_marker(x: Seq<char>, s: Seq<char>, y: Seq<char>, t: Seq<char>)
    requires
        x + s == y + t,
        forall|i: int| 0 <= i < x.len() ==> is_digit(#[trigger] x[i]),
        forall|i: int| 0 <= i < y.len() ==> is_digit(#[trigger] y[i]),
        s.len() > 0,
        t.len() > 0,
        !is_digit(s[0]),
        !is_digit(t[0]),
    ensures
        x == y,
        s == t,
{
    assert((x + s).len() == x.len() + s.len());
    assert((y + t).len() == y.len() + t.len());
    if x.len() < y.len() {
        assert((x + s)[x.len() as int] == s[0]);
        assert((y + t)[x.len() as int] == y[x.len() as int]);
        assert(false);
    }
    if y.len() < x.len() {
        assert((y + t)[y.len() as int] == t[0]);
        assert((x + s)[y.len() as int] == x[y.len() as int]);
        assert(false);
    }
    assert forall|i: int| 0 <= i < x.len() implies x[i] == y[i] by {
        assert((x + s)[i] == x[i]);
        assert((y + t)[i] == y[i]);
    }
    assert(x =~= y);
    lemma_concat_cancel_left(x, s, t);
}

/// Law: scratch names never collide between invocations. The name is
/// one-to-one in the process id, the timestamp and the counter together, so
/// two invocations that differ in any of the three are given distinct
/// scratch files.
#[verifier::rlimit(60)]
pub proof fn lemma_scratch_name_injective(p1: u64, t1: u64, c1: u64, p2: u64, t2: u64, c2: u64)
    requires
        scratch_name_spec(p1, t1, c1) == scratch_name_spec(p2, t2, c2),
    ensures
        p1 == p2,
        t1 == t2,
        c1 == c2,
{
    let sep = "_"@;
    let marker = ".txt"@;
    reveal_strlit("_");
    reveal_strlit(".txt");
    assert(sep.len() == 1 && sep[0] == '_');
    assert(marker.len() == 4 && marker[0] == '.');
    let tail1 = dec_digits(t1 as nat) + (sep + (dec_digits(c1 as nat) + marker));
    let tail2 = dec_digits(t2 as nat) + (sep + (dec_digits(c2 as nat) + marker));
    assert(scratch_name_spec(p1, t1, c1) =~= "scrawl_"@ + (dec_digits(p1 as nat) + (sep
        + tail1)));
    assert(scratch_name_spec(p2, t2, c2) =~= "scrawl_"@ + (dec_digits(p2 as nat) + (sep
        + tail2)));
    lemma_concat_cancel_left(
        "scrawl_"@,
        dec_digits(p1 as nat) + (sep + tail1),
        dec_digits(p2 as nat) + (sep + tail2),
    );
    lemma_dec_digits_are_digits(p1 as nat);
    lemma_dec_digits_are_digits(p2 as nat);
    lemma_dec_digits_are_digits(t1 as nat);
    lemma_dec_digits_are_digits(t2 as nat);
    lemma_dec_digits_are_digits(c1 as nat);
    lemma_dec_digits_are_digits(c2 as nat);
    lemma_digits_then_marker(dec_digits(p1 as nat), sep + tail1, dec_digits(p2 as nat), sep + tail2);
    lemma_dec_digits_injective(p1 as nat, p2 as nat);
    lemma_concat_cancel_left(sep, tail1, tail2);
    lemma_digits_then_marker(
        dec_digits(t1 as nat),
        sep + (dec_digits(c1 as nat) + marker),
        dec_digits(t2 as nat),
        sep + (dec_digits(c2 as nat) + marker),
    );
    lemma_dec_digits_injective(t1 as nat, t2 as nat);
    lemma_concat_cancel_left(sep, dec_digits(c1 as nat) + marker, dec_digits(c2 as nat) + marker);
    lemma_digits_then_marker(dec_digits(c1 as nat), marker, dec_digits(c2 as nat), marker);
    lemma_dec_digits_injective(c1 as nat, c2 as nat);
}

/// Law: scratch names do not collide: two invocations that differ in the
/// process id, the timestamp or the counter are given distinct names.
pub proof fn lemma_scratch_names_distinct(p1: u64, t1: u64, c1: u64, p2: u64, t2: u64, c2: u64)
    requires
        p1 != p2 || t1 != t2 || c1 != c2,
    ensures
        scratch_name_spec(p1, t1, c1) != scratch_name_spec(p2, t2, c2),
{
    if scratch_name_spec(p1, t1, c1) == scratch_name_spec(p2, t2, c2) {
        lemma_scratch_name_injective(p1, t1, c1, p2, t2, c2);
        assert(false);
    }
}

} // verus!
