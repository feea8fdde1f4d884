use vstd::prelude::*;
use vstd::string::StringExecFns;

verus! {

/// The character that writes the single decimal digit `d`.
pub open spec fn digit_char(d: int) -> char {
    if d == 0 {
        '0'
    } else if d == 1 {
        '1'
    } else if d == 2 {
        '2'
    } else if d == 3 {
        '3'
    } else if d == 4 {
        '4'
    } else if d == 5 {
        '5'
    } else if d == 6 {
        '6'
    } else if d == 7 {
        '7'
    } else if d == 8 {
        '8'
    } else {
        '9'
    }
}

/// Whether `c` is one of the ten decimal digit characters.
pub open spec fn is_digit(c: char) -> bool {
    c == '0' || c == '1' || c == '2' || c == '3' || c == '4' || c == '5' || c == '6' || c == '7'
        || c == '8' || c == '9'
}

/// The decimal digit string of `n`, most significant digit first, with no
/// leading zeros (except for `n == 0`, which is written "0").
pub open spec fn dec_str(n: nat) -> Seq<char>
    decreases n,
{
    if n < 10 {
        seq![digit_char(n as int)]
    } else {
        dec_str(n / 10).push(digit_char((n % 10) as int))
    }
}

/// The decimal digit written by character `c`, for the ten digit characters.
pub open spec fn digit_val(c: char) -> int {
    if c == '0' {
        0
    } else if c == '1' {
        1
    } else if c == '2' {
        2
    } else if c == '3' {
        3
    } else if c == '4' {
        4
    } else if c == '5' {
        5
    } else if c == '6' {
        6
    } else if c == '7' {
        7
    } else if c == '8' {
        8
    } else {
        9
    }
}

/// The number a digit string denotes, most significant digit first.
pub open spec fn str_val(s: Seq<char>) -> int
    decreases s.len(),
{
    if s.len() == 0 {
        0
    } else {
        str_val(s.drop_last()) * 10 + digit_val(s.last())
    }
}

/// Reading the decimal string of `n` back as a number gives `n` again:
/// `dec_str` really writes `n`, not some other value.
pub proof fn lemma_dec_str_round_trip(n: nat)
    ensures
        str_val(dec_str(n)) == n,
    decreases n,
{
    if n < 10 {
        assert(dec_str(n).drop_last() =~= Seq::<char>::empty());
        assert(str_val(Seq::<char>::empty()) == 0);
    } else {
        lemma_dec_str_round_trip(n / 10);
        assert(dec_str(n).drop_last() =~= dec_str(n / 10));
    }
}

/// Every decimal string is non-empty and starts with a digit character.
pub proof fn lemma_dec_str_first_digit(n: nat)
    ensures
        dec_str(n).len() >= 1,
        is_digit(dec_str(n)[0]),
    decreases n,
{
    if n >= 10 {
        lemma_dec_str_first_digit(n / 10);
    }
}

/// The one-character string for the decimal digit `d`.
fn digit_str(d: u32) -> (s: &'static str)
    requires
        d < 10,
    ensures
        s@ == seq![digit_char(d as int)],
{
    proof {
        reveal_strlit("0");
        reveal_strlit("1");
        reveal_strlit("2");
        reveal_strlit("3");
        reveal_strlit("4");
        reveal_strlit("5");
        reveal_strlit("6");
        reveal_strlit("7");
        reveal_strlit("8");
        reveal_strlit("9");
    }
    let s: &'static str = if d == 0 {
        "0"
    } else if d == 1 {
        "1"
    } else if d == 2 {
        "2"
    } else if d == 3 {
        "3"
    } else if d == 4 {
        "4"
    } else if d == 5 {
        "5"
    } else if d == 6 {
        "6"
    } else if d == 7 {
        "7"
    } else if d == 8 {
        "8"
    } else {
        "9"
    };
    proof {
        assert(s@ =~= seq![digit_char(d as int)]);
    }
    s
}

/// Renders `n` in decimal.
pub fn u32_to_string(n: u32) -> (s: String)
    ensures
        s@ == dec_str(n as nat),
    decreases n,
{
    if n < 10 {
        digit_str(n).to_owned()
    } else {
        let mut s = u32_to_string(n / 10);
        s.append(digit_str(n % 10));
        proof {
            assert(s@ =~= dec_str(n as nat));
        }
        s
    }
}

/// The line the fizz-buzz game prints for `n`: "fizzbuzz" when `n` is
/// divisible by both 3 and 5, "fizz" when divisible by 3 only, "buzz" when
/// divisible by 5 only, and the decimal string of `n` otherwise.
pub open spec fn fizzbuzz_label(n: u32) -> Seq<char> {
    if n % 3 == 0 && n % 5 == 0 {
        "fizzbuzz"@
    } else if n % 3 == 0 {
        "fizz"@
    } else if n % 5 == 0 {
        "buzz"@
    } else {
        dec_str(n as nat)
    }
}

/// Computes the fizz-buzz line for `n`.
pub fn fizzbuzz_line(n: u32) -> (s: String)
    ensures
        s@ == fizzbuzz_label(n),
{
    if n % 3 == 0 && n % 5 == 0 {
        "fizzbuzz".to_owned()
    } else if n % 3 == 0 {
        "fizz".to_owned()
    } else if n % 5 == 0 {
        "buzz".to_owned()
    } else {
        u32_to_string(n)
    }
}

/// Each of the three words appears as the fizz-buzz line for `n` exactly
/// when the matching divisibility condition holds; on every other `n` the
/// line is the decimal string of `n`. In particular, a decimal string is
/// never mistaken for one of the words.
pub proof fn lemma_fizzbuzz_label_cases(n: u32)
    ensures
        (fizzbuzz_label(n) == "fizzbuzz"@) <==> (n % 3 == 0 && n % 5 == 0),
        (fizzbuzz_label(n) == "fizz"@) <==> (n % 3 == 0 && n % 5 != 0),
        (fizzbuzz_label(n) == "buzz"@) <==> (n % 3 != 0 && n % 5 == 0),
        (n % 3 != 0 && n % 5 != 0) ==> fizzbuzz_label(n) == dec_str(n as nat),
{
    reveal_strlit("fizzbuzz");
    reveal_strlit("fizz");
    reveal_strlit("buzz");
    lemma_dec_str_first_digit(n as nat);
    assert("fizz"@.len() == 4);
    assert("fizzbuzz"@.len() == 8);
    assert("buzz"@.len() == 4);
    assert("fizz"@[0] == 'f');
    assert("buzz"@[0] == 'b');
}

/// The fizz-buzz lines for 1 through `count`, in order.
pub fn fizzbuzz_sequence(count: u32) -> (lines: Vec<String>)
    ensures
        lines@.len() == count,
        forall|k: int|
            0 <= k < count ==> (#[trigger] lines@[k])@ == fizzbuzz_label((k + 1) as u32),
{
    let mut lines: Vec<String> = Vec::new();
    for i in 0..count
        invariant
            lines@.len() == i,
            forall|k: int|
                0 <= k < i ==> (#[trigger] lines@[k])@ == fizzbuzz_label((k + 1) as u32),
    {
        lines.push(fizzbuzz_line(i + 1));
    }
    lines
}

} // verus!
