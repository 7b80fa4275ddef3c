//! Small client-side helpers: human-oriented number formatting and the
//! classification of the RPC-endpoint configuration field.

use vstd::prelude::*;
use crate::Error;

verus! {

/// The character for one decimal digit.
pub open spec fn digit_char(d: nat) -> char {
    if d == 0 {
        '0'
    } else if d == 1 {
        '1'
    } else if d == 2 {
        '2'
    } else if d == 3 {
        '3'
    } else if d == 4 {
        '4'
    } else if d == 5 {
        '5'
    } else if d == 6 {
        '6'
    } else if d == 7 {
        '7'
    } else if d == 8 {
        '8'
    } else {
        '9'
    }
}

/// The decimal digits of a number, most significant first, with no leading
/// zeros (a lone zero for 0).
pub open spec fn spec_digits(n: nat) -> Seq<char>
    decreases n,
{
    if n < 10 {
        seq![digit_char(n)]
    } else {
        spec_digits(n / 10) + seq![digit_char(n % 10)]
    }
}

/// The characters with an underscore inserted before every group of three,
/// counted from the right.
pub open spec fn spec_group3(s: Seq<char>) -> Seq<char>
    decreases s.len(),
{
    if s.len() <= 3 {
        s
    } else {
        spec_group3(s.take(s.len() - 3)) + seq!['_'] + s.skip(s.len() - 3)
    }
}

fn digit_of(d: u64) -> (c: char)
    requires
        d < 10,
    ensures
        c == digit_char(d as nat),
{
    if d == 0 {
        '0'
    } else if d == 1 {
        '1'
    } else if d == 2 {
        '2'
    } else if d == 3 {
        '3'
    } else if d == 4 {
        '4'
    } else if d == 5 {
        '5'
    } else if d == 6 {
        '6'
    } else if d == 7 {
        '7'
    } else if d == 8 {
        '8'
    } else {
        '9'
    }
}

fn decimal_digits(num: u64) -> (digits: Vec<char>)
    ensures
        digits@ == spec_digits(num as nat),
{
    let mut n: u64 = num;
    let mut digits: Vec<char> = Vec::new();
    while n >= 10
        invariant
            spec_digits(num as nat) == spec_digits(n as nat) + digits@,
        decreases n,
    {
        let d = digit_of(n % 10);
        digits.insert(0, d);
        proof {
            assert(digits@ =~= seq![digit_char((n % 10) as nat)] + digits@.skip(1));
            assert(spec_digits(n as nat) + digits@.skip(1) =~= spec_digits((n / 10) as nat)
                + digits@);
        }
        n = n / 10;
    }
    digits.insert(0, digit_of(n));
    proof {
        assert(digits@ =~= spec_digits(n as nat) + digits@.skip(1));
        assert(spec_digits(num as nat) =~= digits@);
    }
    digits
}

fn grouped_prefix(s: &Vec<char>, end: usize) -> (r: Vec<char>)
    requires
        end <= s@.len(),
    ensures
        r@ == spec_group3(s@.take(end as int)),
    decreases end,
{
    if end <= 3 {
        let mut r: Vec<char> = Vec::new();
        let mut i: usize = 0;
        while i < end
            invariant
                i <= end,
                end <= s@.len(),
                r@ == s@.take(end as int).take(i as int),
            decreases end - i,
        {
            r.push(s[i]);
            proof {
                assert(s@.take(end as int).take(i + 1) =~= s@.take(end as int).take(i as int).push(
                    s@[i as int],
                ));
            }
            i = i + 1;
        }
        proof {
            assert(s@.take(end as int).take(end as int) =~= s@.take(end as int));
        }
        r
    } else {
        let mut r = grouped_prefix(s, end - 3);
        proof {
            assert(s@.take(end as int).take(end - 3) =~= s@.take(end - 3));
        }
        r.push('_');
        let mut i: usize = end - 3;
        while i < end
            invariant
                end - 3 <= i <= end,
                end <= s@.len(),
                3 < end,
                r@ == spec_group3(s@.take(end - 3)) + seq!['_'] + s@.subrange(end - 3, i as int),
            decreases end - i,
        {
            r.push(s[i]);
            proof {
                assert(s@.subrange(end - 3, i + 1) =~= s@.subrange(end - 3, i as int).push(
                    s@[i as int],
                ));
            }
            i = i + 1;
        }
        proof {
            assert(s@.take(end as int).skip(end - 3) =~= s@.subrange(end - 3, end as int));
            assert(r@ =~= spec_group3(s@.take(end as int).take(end - 3)) + seq!['_'] + s@.take(
                end as int,
            ).skip(end - 3));
        }
        r
    }
}

/// Relies on std's `String::push`: appends exactly the one character.
#[verifier::external_body]
fn push_char(s: &mut String, c: char)
    ensures
        final(s)@ == old(s)@.push(c),
{
    s.push(c);
}

/// Format a number with an underscore between three-digit groups,
/// e.g. 3_834_260_000.
pub fn add_separator(num: u64) -> (r: String)
    ensures
        r@ == spec_group3(spec_digits(num as nat)),
{
    let digits = decimal_digits(num);
    let grouped = grouped_prefix(&digits, digits.len());
    proof {
        assert(digits@.take(digits@.len() as int) =~= digits@);
    }
    let mut r = String::new();
    let mut i: usize = 0;
    while i < grouped.len()
        invariant
            i <= grouped@.len(),
            r@ == grouped@.take(i as int),
        decreases grouped@.len() - i,
    {
        push_char(&mut r, grouped[i]);
        proof {
            assert(grouped@.take(i + 1) =~= grouped@.take(i as int).push(grouped@[i as int]));
        }
        i = i + 1;
    }
    proof {
        assert(grouped@.take(grouped@.len() as int) =~= grouped@);
    }
    r
}

/// Classify the designated program account: one that is not executable cannot
/// interpret the stored records and is a configuration error.
pub fn validate_program_account(executable: bool) -> (r: Result<(), Error>)
    ensures
        executable ==> r == Ok::<(), Error>(()),
        !executable ==> r == Err::<(), Error>(Error::InvalidConfig),
{
    if executable {
        Ok(())
    } else {
        Err(Error::InvalidConfig)
    }
}

/// Classify the RPC-endpoint field read from the local configuration: a
/// present value is returned as the endpoint, a missing one is a
/// configuration error.
pub fn get_rpc_url(json_rpc_url: Option<String>) -> (r: Result<String, Error>)
    ensures
        match json_rpc_url {
            Some(url) => r == Ok::<String, Error>(url),
            None => r == Err::<String, Error>(Error::InvalidConfig),
        },
{
    match json_rpc_url {
        Some(url) => Ok(url),
        None => Err(Error::InvalidConfig),
    }
}

} // verus!
