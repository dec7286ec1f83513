use vstd::prelude::*;

verus! {

/// The character of a decimal digit `d` (0 to 9).
pub open spec fn digit_char(d: nat) -> char {
    if d == 0 {
        '0'
    } else if d == 1 {
        '1'
    } else if d == 2 {
        '2'
    } else if d == 3 {
        '3'
    } else if d == 4 {
        '4'
    } else if d == 5 {
        '5'
    } else if d == 6 {
        '6'
    } else if d == 7 {
        '7'
    } else if d == 8 {
        '8'
    } else {
        '9'
    }
}

/// The decimal digits of `n`, most significant first, without leading zeros.
pub open spec fn nat_digits(n: nat) -> Seq<char>
    decreases n,
{
    if n < 10 {
        seq![digit_char(n)]
    } else {
        nat_digits(n / 10).push(digit_char(n % 10))
    }
}

/// The decimal text of an integer, with a leading `-` when it is negative.
pub open spec fn int_text(n: int) -> Seq<char> {
    if n < 0 {
        seq!['-'] + nat_digits((-n) as nat)
    } else {
        nat_digits(n as nat)
    }
}

/// The socket address text for a bind host and port: a host that holds a
/// colon and is not already bracketed is an IPv6 literal and is wrapped in
/// brackets, since the colon also separates the port.
pub open spec fn bind_address_text(host: Seq<char>, port: int) -> Seq<char> {
    if !(host.len() > 0 && host[0] == '[') && host.contains(':') {
        seq!['['] + host + seq![']', ':'] + int_text(port)
    } else {
        host + seq![':'] + int_text(port)
    }
}

fn digit_str(d: u64) -> (r: &'static str)
    requires
        d < 10,
    ensures
        r@ == seq![digit_char(d as nat)],
{
    proof {
        reveal_strlit("0");
        reveal_strlit("1");
        reveal_strlit("2");
        reveal_strlit("3");
        reveal_strlit("4");
        reveal_strlit("5");
        reveal_strlit("6");
        reveal_strlit("7");
        reveal_strlit("8");
        reveal_strlit("9");
    }
    match d {
        0 => "0",
        1 => "1",
        2 => "2",
        3 => "3",
        4 => "4",
        5 => "5",
        6 => "6",
        7 => "7",
        8 => "8",
        _ => "9",
    }
}

fn append_digits(s: &mut String, n: u64)
    ensures
        final(s)@ == old(s)@ + nat_digits(n as nat),
    decreases n,
{
    if n >= 10 {
        append_digits(s, n / 10);
    }
    s.append(digit_str(n % 10));
    proof {
        assert(old(s)@ + nat_digits(n as nat) =~= final(s)@) by {
            if n >= 10 {
                assert(nat_digits(n as nat) == nat_digits((n / 10) as nat).push(
                    digit_char((n % 10) as nat),
                ));
            }
        }
    }
}

fn append_int(s: &mut String, n: i32)
    ensures
        final(s)@ == old(s)@ + int_text(n as int),
{
    if n < 0 {
        proof {
            reveal_strlit("-");
        }
        s.append("-");
        let m: u64 = (0i64 - n as i64) as u64;
        append_digits(s, m);
        assert(final(s)@ =~= old(s)@ + int_text(n as int));
    } else {
        append_digits(s, n as u64);
    }
}

/// Whether `s` holds the character `c`.
pub(crate) fn holds_char(s: &str, c: char) -> (r: bool)
    ensures
        r == s@.contains(c),
{
    let n = s.unicode_len();
    let mut i: usize = 0;
    while i < n
        invariant
            n == s@.len(),
            i <= n,
            forall|j: int| 0 <= j < i ==> s@[j] != c,
        decreases n - i,
    {
        if s.get_char(i) == c {
            return true;
        }
        i = i + 1;
    }
    false
}

/// The text of the address to listen on, from the bind host and port: an
/// IPv6 literal host is bracketed (`[::1]:8080`), any other host is joined
/// to the port by a colon (`127.0.0.1:8080`).
pub fn bind_address(bind_ip: &str, local_port: i32) -> (r: String)
    ensures
        r@ == bind_address_text(bind_ip@, local_port as int),
{
    let bracketed = bind_ip.unicode_len() > 0 && bind_ip.get_char(0) == '[';
    let mut r = String::new();
    if !bracketed && holds_char(bind_ip, ':') {
        proof {
            reveal_strlit("[");
            reveal_strlit("]:");
        }
        r.append("[");
        r.append(bind_ip);
        r.append("]:");
    } else {
        proof {
            reveal_strlit(":");
        }
        r.append(bind_ip);
        r.append(":");
    }
    append_int(&mut r, local_port);
    proof {
        assert(r@ =~= bind_address_text(bind_ip@, local_port as int));
    }
    r
}

} // verus!
