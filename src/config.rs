use vstd::prelude::*;

verus! {

pub open spec fn is_digit(c: char) -> bool {
    '0' as u32 <= c as u32 <= '9' as u32
}

pub open spec fn digit_value(c: char) -> int {
    c as u32 as int - '0' as u32 as int
}

/// The value of a run of decimal digits, most significant first.
pub open spec fn digits_value(s: Seq<char>) -> int
    decreases s.len(),
{
    if s.len() == 0 {
        0
    } else {
        digits_value(s.drop_last()) * 10 + digit_value(s.last())
    }
}

pub open spec fn all_digits(s: Seq<char>) -> bool {
    s.len() > 0 && forall|i: int| 0 <= i < s.len() ==> is_digit(#[trigger] s[i])
}

/// The value of decimal text: an optional `+` or `-` and one or more digits.
pub open spec fn decimal_value(s: Seq<char>) -> Option<int> {
    if s.len() > 0 && (s[0] == '+' || s[0] == '-') {
        if all_digits(s.drop_first()) {
            if s[0] == '-' {
                Some(-digits_value(s.drop_first()))
            } else {
                Some(digits_value(s.drop_first()))
            }
        } else {
            None
        }
    } else if all_digits(s) {
        Some(digits_value(s))
    } else {
        None
    }
}

/// The `i32` that decimal text stands for, where it is one.
pub open spec fn i32_value(s: Seq<char>) -> Option<i32> {
    match decimal_value(s) {
        Some(v) => if i32::MIN <= v <= i32::MAX {
            Some(v as i32)
        } else {
            None
        },
        None => None,
    }
}

/// Adding digits never makes the value of a run of digits smaller.
proof fn lemma_digits_grow(s: Seq<char>, i: int)
    requires
        0 <= i <= s.len(),
        forall|j: int| 0 <= j < s.len() ==> is_digit(#[trigger] s[j]),
    ensures
        0 <= digits_value(s.subrange(0, i)) <= digits_value(s),
    decreases s.len(),
{
    if s.len() > 0 {
        let t = s.drop_last();
        if i < s.len() {
            assert(t.subrange(0, i) =~= s.subrange(0, i));
            lemma_digits_grow(t, i);
        } else {
            assert(s.subrange(0, i) =~= s);
            lemma_digits_grow(t, t.len() as int);
            assert(t.subrange(0, t.len() as int) =~= t);
        }
        assert(is_digit(s[s.len() - 1]));
    }
}

/// Reads decimal text as an `i32`, as Rust's integer parsing does: an
/// optional sign, then one or more digits, with a value in range.
pub fn parse_i32(s: &str) -> (r: Option<i32>)
    ensures
        r == i32_value(s@),
{
    let n = s.unicode_len();
    if n == 0 {
        return None;
    }
    let first = s.get_char(0);
    let start: usize = if first == '+' || first == '-' {
        1
    } else {
        0
    };
    if start == n {
        return None;
    }
    let ghost body = s@.subrange(start as int, n as int);
    assert(start == 1 ==> body =~= s@.drop_first());
    assert(start == 0 ==> body =~= s@);
    let mut acc: u64 = 0;
    let mut i: usize = start;
    while i < n
        invariant
            n == s@.len(),
            n > 0,
            s@[0] == first,
            start == 1 <==> (first == '+' || first == '-'),
            start <= 1,
            start < n,
            start == 1 ==> body == s@.drop_first(),
            start == 0 ==> body == s@,
            start <= i <= n,
            body == s@.subrange(start as int, n as int),
            forall|j: int| 0 <= j < i - start ==> is_digit(#[trigger] body[j]),
            acc == digits_value(body.subrange(0, i - start)),
            acc <= 2147483648,
        decreases n - i,
    {
        let c = s.get_char(i);
        if !('0' as u32 <= c as u32 && c as u32 <= '9' as u32) {
            assert(body[i - start] == c);
            assert(!all_digits(body));
            return None;
        }
        let d = (c as u32 - '0' as u32) as u64;
        assert(body.subrange(0, i + 1 - start).drop_last() =~= body.subrange(0, i - start));
        acc = acc * 10 + d;
        i = i + 1;
        if acc > 2147483648 {
            proof {
                if all_digits(body) {
                    lemma_digits_grow(body, i - start);
                }
            }
            return None;
        }
    }
    assert(body.subrange(0, n - start) =~= body);
    if first == '-' {
        Some((0 - acc as i64) as i32)
    } else if acc > 2147483647 {
        None
    } else {
        Some(acc as i32)
    }
}

/// What is wrong with the command line.
#[derive(Clone, Copy, Debug, PartialEq, Eq, Structural)]
pub enum ConfigError {
    /// Not exactly one remote target was given.
    Usage,
    /// The remote target has no `:port` part.
    MissingRemotePort,
    /// The local port is not a decimal `i32`.
    InvalidLocalPort,
}

/// The settings of a relay: where to listen, where to relay to, and
/// whether to report byte counts.
pub struct Config {
    pub bind_ip: String,
    pub local_port: i32,
    pub remote: String,
    pub verbose: bool,
}

impl Config {
    /// The remote target names a port.
    pub open spec fn wf(&self) -> bool {
        self.remote@.contains(':')
    }

    /// The settings from the command line's values: its free arguments (the
    /// remote target must be the only one), the bind host if given (else
    /// `127.0.0.1`), the local port if given (else `0`, a port the system
    /// picks) and the verbose flag.
    pub fn from_args(
        free: Vec<String>,
        bind_ip: Option<String>,
        local_port: Option<String>,
        verbose: bool,
    ) -> (r: Result<Config, ConfigError>)
        ensures
            free@.len() != 1 ==> r == Err::<Config, ConfigError>(ConfigError::Usage),
            free@.len() == 1 && !free@[0]@.contains(':') ==> r == Err::<Config, ConfigError>(
                ConfigError::MissingRemotePort,
            ),
            free@.len() == 1 && free@[0]@.contains(':') ==> match local_port {
                Some(p) if i32_value(p@) is None => r == Err::<Config, ConfigError>(
                    ConfigError::InvalidLocalPort,
                ),
                _ => r matches Ok(c) && {
                    &&& c.wf()
                    &&& c.remote@ == free@[0]@
                    &&& c.local_port == match local_port {
                        Some(p) => i32_value(p@)->Some_0,
                        None => 0i32,
                    }
                    &&& c.bind_ip@ == match bind_ip {
                        Some(b) => b@,
                        None => "127.0.0.1"@,
                    }
                    &&& c.verbose == verbose
                },
            },
    {
        let ghost args = free@;
        let mut free = free;
        if free.len() != 1 {
            return Err(ConfigError::Usage);
        }
        let remote = free.pop().unwrap();
        assert(remote == args[0]);
        if !crate::address::holds_char(remote.as_str(), ':') {
            return Err(ConfigError::MissingRemotePort);
        }
        let port: i32 = match local_port {
            Some(p) => match parse_i32(p.as_str()) {
                Some(v) => v,
                None => return Err(ConfigError::InvalidLocalPort),
            },
            None => 0,
        };
        let bind_ip = match bind_ip {
            Some(b) => b,
            None => String::from_str("127.0.0.1"),
        };
        Ok(Config { bind_ip, local_port: port, remote, verbose })
    }
}

} // verus!
