use vstd::prelude::*;

verus! {

pub open spec fn is_digit(c: char) -> bool {
    '0' <= c && c <= '9'
}

/// The number written by the decimal digits `s`, most significant first.
pub open spec fn digits_value(s: Seq<char>) -> nat
    decreases s.len(),
{
    if s.len() == 0 {
        0
    } else {
        digits_value(s.drop_last()) * 10 + ((s.last() as u32) - ('0' as u32)) as nat
    }
}

/// `s` without one leading plus sign.
pub open spec fn unsigned_part(s: Seq<char>) -> Seq<char> {
    if s.len() > 0 && s[0] == '+' {
        s.drop_first()
    } else {
        s
    }
}

/// The unsigned 64-bit integer `s` writes in decimal: an optional plus sign,
/// then at least one digit, and a value that fits.
pub open spec fn decimal_u64(s: Seq<char>) -> Option<u64> {
    let d = unsigned_part(s);
    if d.len() > 0 && (forall|i: int| 0 <= i < d.len() ==> is_digit(#[trigger] d[i]))
        && digits_value(d) <= u64::MAX {
        Some(digits_value(d) as u64)
    } else {
        None
    }
}

proof fn lemma_digits_step(s: Seq<char>, lo: int, hi: int)
    requires
        0 <= lo < hi <= s.len(),
    ensures
        digits_value(s.subrange(lo, hi)) == digits_value(s.subrange(lo, hi - 1)) * 10 + ((
        s[hi - 1] as u32) - ('0' as u32)) as nat,
{
    assert(s.subrange(lo, hi).drop_last() =~= s.subrange(lo, hi - 1));
}

/// Reads a decimal unsigned 64-bit integer: an optional `+`, then digits only.
pub fn parse_u64(s: &str) -> (r: Option<u64>)
    ensures
        r == decimal_u64(s@),
{
    let n: usize = s.unicode_len();
    let mut start: usize = 0;
    if n > 0 && s.get_char(0) == '+' {
        start = 1;
    }
    proof {
        assert(unsigned_part(s@) =~= s@.subrange(start as int, n as int));
    }
    if start >= n {
        return None;
    }
    let mut value: u64 = 0;
    let mut overflow: bool = false;
    let mut i: usize = start;
    while i < n
        invariant
            start <= i <= n,
            n == s@.len(),
            unsigned_part(s@) == s@.subrange(start as int, n as int),
            forall|j: int| start <= j < i ==> is_digit(#[trigger] s@[j]),
            !overflow ==> value == digits_value(s@.subrange(start as int, i as int)),
            overflow ==> digits_value(s@.subrange(start as int, i as int)) > u64::MAX,
        decreases n - i,
    {
        let c = s.get_char(i);
        if !('0' <= c && c <= '9') {
            proof {
                let d = unsigned_part(s@);
                assert(!is_digit(d[i - start]));
            }
            return None;
        }
        let digit: u64 = ((c as u32) - ('0' as u32)) as u64;
        proof {
            lemma_digits_step(s@, start as int, i + 1);
        }
        if !overflow {
            if value > (u64::MAX - digit) / 10 {
                overflow = true;
                assert(value * 10 + digit > u64::MAX) by (nonlinear_arith)
                    requires
                        value > (u64::MAX - digit) / 10,
                        digit <= 9,
                ;
            } else {
                assert(value * 10 + digit <= u64::MAX) by (nonlinear_arith)
                    requires
                        value <= (u64::MAX - digit) / 10,
                        digit <= 9,
                ;
                value = value * 10 + digit;
            }
        } else {
            let ghost prev = digits_value(s@.subrange(start as int, i as int));
            assert(prev * 10 + digit > u64::MAX) by (nonlinear_arith)
                requires
                    prev > u64::MAX,
            ;
        }
        i = i + 1;
    }
    proof {
        assert(s@.subrange(start as int, i as int) == unsigned_part(s@));
        assert forall|j: int| 0 <= j < unsigned_part(s@).len() implies is_digit(
            #[trigger] unsigned_part(s@)[j],
        ) by {
            assert(unsigned_part(s@)[j] == s@[j + start]);
        }
    }
    if overflow {
        None
    } else {
        Some(value)
    }
}

/// A one-shot blink request: which line, for how long, and with which half-period.
#[derive(Clone, Copy, Debug, PartialEq, Eq, Structural)]
pub struct Arguments {
    pub pin: u64,
    pub duration_ms: u64,
    pub period_ms: u64,
}

/// The blink request written by the command line `args` (program name first,
/// then exactly three numbers: pin, duration and half-period in milliseconds).
pub open spec fn blink_arguments_of(args: Seq<String>) -> Option<Arguments> {
    if args.len() == 4 && decimal_u64(args[1]@) is Some && decimal_u64(args[2]@) is Some
        && decimal_u64(args[3]@) is Some {
        Some(
            Arguments {
                pin: decimal_u64(args[1]@)->0,
                duration_ms: decimal_u64(args[2]@)->0,
                period_ms: decimal_u64(args[3]@)->0,
            },
        )
    } else {
        None
    }
}

/// The line that the command line `args` (program name, then exactly one
/// number) asks to poll.
pub open spec fn poll_pin_of(args: Seq<String>) -> Option<u64> {
    if args.len() == 2 {
        decimal_u64(args[1]@)
    } else {
        None
    }
}

/// Decodes a blink command line; `None` means the usage must be shown.
pub fn parse_blink_args(args: &Vec<String>) -> (r: Option<Arguments>)
    ensures
        r == blink_arguments_of(args@),
{
    if args.len() != 4 {
        return None;
    }
    let pin: u64 = match parse_u64(args[1].as_str()) {
        Some(v) => v,
        None => return None,
    };
    let duration_ms: u64 = match parse_u64(args[2].as_str()) {
        Some(v) => v,
        None => return None,
    };
    let period_ms: u64 = match parse_u64(args[3].as_str()) {
        Some(v) => v,
        None => return None,
    };
    Some(Arguments { pin, duration_ms, period_ms })
}

/// Decodes a poll command line; `None` means the usage must be shown.
pub fn parse_poll_args(args: &Vec<String>) -> (r: Option<u64>)
    ensures
        r == poll_pin_of(args@),
{
    if args.len() != 2 {
        return None;
    }
    parse_u64(args[1].as_str())
}

} // verus!
