//! Assembles the worker's runtime configuration from plain, already-read
//! setting values.  The message-bus host and port have defaults; everything
//! else is required, and ports must be decimal numbers that fit in sixteen
//! bits.  Reading the process environment happens outside the library.

use vstd::prelude::*;
use vstd::string::*;

use crate::errors::AppError;

verus! {

/// Default host for the message-bus connection when none is configured.
pub fn default_rabbitmq_host() -> (r: String)
    ensures
        r@ == "localhost"@,
{
    "localhost".to_owned()
}

/// Default port for the message-bus connection when none is configured.
pub fn default_rabbitmq_port() -> (r: u16)
    ensures
        r == 5552,
{
    5552
}

pub open spec fn spec_is_digit(c: char) -> bool {
    c == '0' || c == '1' || c == '2' || c == '3' || c == '4' || c == '5' || c == '6' || c == '7'
        || c == '8' || c == '9'
}

pub open spec fn spec_digit_val(c: char) -> nat {
    if c == '0' {
        0
    } else if c == '1' {
        1
    } else if c == '2' {
        2
    } else if c == '3' {
        3
    } else if c == '4' {
        4
    } else if c == '5' {
        5
    } else if c == '6' {
        6
    } else if c == '7' {
        7
    } else if c == '8' {
        8
    } else {
        9
    }
}

pub open spec fn spec_all_digits(s: Seq<char>) -> bool {
    forall|i: int| 0 <= i < s.len() ==> spec_is_digit(#[trigger] s[i])
}

/// The numeric value of a decimal digit string.
pub open spec fn spec_digits_val(s: Seq<char>) -> nat
    decreases s.len(),
{
    if s.len() == 0 {
        0
    } else {
        spec_digits_val(s.drop_last()) * 10 + spec_digit_val(s.last())
    }
}

/// A valid port setting: nonempty, all decimal digits, value at most 65535.
pub open spec fn spec_port_ok(s: Seq<char>) -> bool {
    s.len() > 0 && spec_all_digits(s) && spec_digits_val(s) <= 65535
}

proof fn lemma_digits_val_take(s: Seq<char>, i: int)
    requires
        0 <= i <= s.len(),
    ensures
        spec_digits_val(s.take(i)) <= spec_digits_val(s),
    decreases s.len() - i,
{
    if i == s.len() {
        assert(s.take(i) =~= s);
    } else {
        let t1 = s.take(i + 1);
        assert(t1.drop_last() =~= s.take(i));
        assert(t1.last() == s[i]);
        assert(spec_digits_val(s.take(i)) <= spec_digits_val(s.take(i)) * 10);
        lemma_digits_val_take(s, i + 1);
    }
}

fn digit_of(c: char) -> (r: Option<u8>)
    ensures
        r is Some <==> spec_is_digit(c),
        r matches Some(d) ==> d < 10 && d as nat == spec_digit_val(c),
{
    if c == '0' {
        Some(0)
    } else if c == '1' {
        Some(1)
    } else if c == '2' {
        Some(2)
    } else if c == '3' {
        Some(3)
    } else if c == '4' {
        Some(4)
    } else if c == '5' {
        Some(5)
    } else if c == '6' {
        Some(6)
    } else if c == '7' {
        Some(7)
    } else if c == '8' {
        Some(8)
    } else if c == '9' {
        Some(9)
    } else {
        None
    }
}

/// Parses a decimal port number.  Returns a value iff the text is nonempty,
/// all digits, and the value fits in sixteen bits.
pub fn parse_u16(s: &str) -> (r: Option<u16>)
    ensures
        r is Some <==> spec_port_ok(s@),
        r matches Some(v) ==> v as nat == spec_digits_val(s@),
{
    let n = s.unicode_len();
    if n == 0 {
        return None;
    }
    let mut acc: u32 = 0;
    let mut i: usize = 0;
    proof {
        assert(s@.take(0) =~= Seq::<char>::empty());
    }
    while i < n
        invariant
            n == s@.len(),
            0 <= i <= n,
            acc <= 65535,
            acc as nat == spec_digits_val(s@.take(i as int)),
            forall|j: int| 0 <= j < i ==> spec_is_digit(#[trigger] s@[j]),
        decreases n - i,
    {
        let c = s.get_char(i);
        match digit_of(c) {
            Some(d) => {
                let next: u32 = acc * 10 + (d as u32);
                proof {
                    let t1 = s@.take(i as int + 1);
                    assert(t1.drop_last() =~= s@.take(i as int));
                    assert(t1.last() == s@[i as int]);
                    assert(next as nat == spec_digits_val(t1));
                }
                if next > 65535 {
                    proof {
                        lemma_digits_val_take(s@, i as int + 1);
                    }
                    return None;
                }
                acc = next;
            },
            None => {
                return None;
            },
        }
        i = i + 1;
    }
    proof {
        assert(s@.take(n as int) =~= s@);
    }
    Some(acc as u16)
}

/// The worker's runtime configuration.
#[derive(Debug, Clone)]
pub struct AppConfig {
    pub rabbitmq_host: String,
    pub rabbitmq_port: u16,
    pub github_token: String,
    pub slurmrestd_host: String,
    pub slurmrestd_port: u16,
    pub slurmrestd_user: String,
    pub slurmrestd_token: String,
}

/// When a set of raw setting values yields a configuration: the four
/// credential and host settings are present, the scheduler port is present
/// and valid, and the bus port, where present, is valid.
pub open spec fn spec_config_ok(
    rabbitmq_port: Option<String>,
    github_token: Option<String>,
    slurmrestd_host: Option<String>,
    slurmrestd_port: Option<String>,
    slurmrestd_user: Option<String>,
    slurmrestd_token: Option<String>,
) -> bool {
    &&& github_token is Some
    &&& slurmrestd_host is Some
    &&& slurmrestd_user is Some
    &&& slurmrestd_token is Some
    &&& match slurmrestd_port {
        Some(p) => spec_port_ok(p@),
        None => false,
    }
    &&& match rabbitmq_port {
        Some(p) => spec_port_ok(p@),
        None => true,
    }
}

impl AppConfig {
    /// Builds the configuration from raw setting values, applying the bus
    /// defaults where a value is absent.
    pub fn new(
        rabbitmq_host: Option<String>,
        rabbitmq_port: Option<String>,
        github_token: Option<String>,
        slurmrestd_host: Option<String>,
        slurmrestd_port: Option<String>,
        slurmrestd_user: Option<String>,
        slurmrestd_token: Option<String>,
    ) -> (r: Result<AppConfig, AppError>)
        ensures
            r is Ok <==> spec_config_ok(
                rabbitmq_port,
                github_token,
                slurmrestd_host,
                slurmrestd_port,
                slurmrestd_user,
                slurmrestd_token,
            ),
            r matches Ok(c) ==> {
                &&& c.rabbitmq_host@ == match rabbitmq_host {
                    Some(h) => h@,
                    None => "localhost"@,
                }
                &&& c.rabbitmq_port as nat == match rabbitmq_port {
                    Some(p) => spec_digits_val(p@),
                    None => 5552,
                }
                &&& c.github_token@ == github_token->Some_0@
                &&& c.slurmrestd_host@ == slurmrestd_host->Some_0@
                &&& c.slurmrestd_port as nat == spec_digits_val(slurmrestd_port->Some_0@)
                &&& c.slurmrestd_user@ == slurmrestd_user->Some_0@
                &&& c.slurmrestd_token@ == slurmrestd_token->Some_0@
            },
            r matches Err(e) ==> e matches AppError::ConfigError(_),
    {
        let rabbitmq_host_v: String = match rabbitmq_host {
            Some(h) => h,
            None => default_rabbitmq_host(),
        };
        let rabbitmq_port_v: u16 = match &rabbitmq_port {
            Some(p) => match parse_u16(p.as_str()) {
                Some(v) => v,
                None => {
                    return Err(
                        AppError::ConfigError("invalid rabbitmq_port".to_owned()),
                    );
                },
            },
            None => default_rabbitmq_port(),
        };
        let github_token_v: String = match github_token {
            Some(t) => t,
            None => {
                return Err(AppError::ConfigError("missing github_token".to_owned()));
            },
        };
        let slurmrestd_host_v: String = match slurmrestd_host {
            Some(h) => h,
            None => {
                return Err(AppError::ConfigError("missing slurmrestd_host".to_owned()));
            },
        };
        let slurmrestd_port_v: u16 = match &slurmrestd_port {
            Some(p) => match parse_u16(p.as_str()) {
                Some(v) => v,
                None => {
                    return Err(
                        AppError::ConfigError("invalid slurmrestd_port".to_owned()),
                    );
                },
            },
            None => {
                return Err(AppError::ConfigError("missing slurmrestd_port".to_owned()));
            },
        };
        let slurmrestd_user_v: String = match slurmrestd_user {
            Some(u) => u,
            None => {
                return Err(AppError::ConfigError("missing slurmrestd_user".to_owned()));
            },
        };
        let slurmrestd_token_v: String = match slurmrestd_token {
            Some(t) => t,
            None => {
                return Err(AppError::ConfigError("missing slurmrestd_token".to_owned()));
            },
        };
        Ok(AppConfig {
            rabbitmq_host: rabbitmq_host_v,
            rabbitmq_port: rabbitmq_port_v,
            github_token: github_token_v,
            slurmrestd_host: slurmrestd_host_v,
            slurmrestd_port: slurmrestd_port_v,
            slurmrestd_user: slurmrestd_user_v,
            slurmrestd_token: slurmrestd_token_v,
        })
    }
}

} // verus!
