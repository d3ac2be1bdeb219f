//! Decision logic of the driver-process supervisor: the command-line
//! arguments the driver executable is started with, the endpoint URL built
//! from its listening port, and port discovery from the line the driver
//! prints on startup. Spawning, stopping and reading the process itself is
//! I/O and stays with the caller.

use crate::digits::{
    all_digits, decimal_string, digit_value, digits_value, lemma_digits_value_take, spec_decimal,
};
use vstd::prelude::*;

verus! {

/// How the supervisor learns the driver's listening port: either it is fixed
/// and passed to the executable, or it is discovered from the startup line
/// the executable prints.
#[derive(Clone, Copy, PartialEq, Eq, Structural, Debug)]
pub enum PortMode {
    Fixed(u16),
    AutoDiscover,
}

/// Startup configuration of the driver process.
#[derive(Clone, Copy, PartialEq, Eq, Structural, Debug)]
pub struct DriverConfig {
    pub headless: bool,
    pub port_mode: PortMode,
}

/// The command-line arguments for the driver executable: the headless flag
/// when headless mode is configured, then `--port=<N>` when the port is
/// fixed. In discovery mode no port argument is passed and the port is read
/// from the startup output instead.
pub fn driver_args(config: &DriverConfig) -> (r: Vec<String>)
    ensures
        r@.len() == (if config.headless { 1int } else { 0int }) + (if config.port_mode is Fixed {
            1int
        } else {
            0int
        }),
        config.headless ==> r@[0]@ == "--headless"@,
        (match config.port_mode {
            PortMode::Fixed(p) => r@.last()@ == "--port="@ + spec_decimal(p as nat),
            PortMode::AutoDiscover => true,
        }),
{
    let mut r: Vec<String> = Vec::new();
    if config.headless {
        r.push(String::from_str("--headless"));
    }
    match config.port_mode {
        PortMode::Fixed(p) => {
            r.push(port_argument(p));
        },
        PortMode::AutoDiscover => {},
    }
    r
}

/// The `--port=<N>` argument for a fixed driver port.
pub fn port_argument(port: u16) -> (r: String)
    ensures
        r@ == "--port="@ + spec_decimal(port as nat),
{
    let mut r = String::from_str("--port=");
    let digits = decimal_string(port as u64);
    r.append(digits.as_str());
    r
}

/// The HTTP endpoint of a driver listening on `port` on the local host.
pub fn endpoint_url(port: u16) -> (r: String)
    ensures
        r@ == "http://localhost:"@ + spec_decimal(port as nat),
{
    let mut r = String::from_str("http://localhost:");
    let digits = decimal_string(port as u64);
    r.append(digits.as_str());
    r
}

/// The fixed text that precedes the port number in the driver's startup line.
pub open spec fn started_line_prefix() -> Seq<char> {
    "ChromeDriver was started successfully on port "@
}

/// The port announced by a driver startup line, if the line has exactly the
/// announcement form: the fixed prefix, one or more decimal digits whose
/// value fits a TCP port, and a closing period ending the line.
pub open spec fn spec_parse_started_port(line: Seq<char>) -> Option<u16> {
    let p = started_line_prefix().len() as int;
    if line.len() >= p + 2 && line.take(p) == started_line_prefix() && line.last() == '.' {
        let ds = line.subrange(p, line.len() - 1);
        if all_digits(ds) && digits_value(ds) <= u16::MAX {
            Some(digits_value(ds) as u16)
        } else {
            None
        }
    } else {
        None
    }
}

/// Reads the driver's port from one line of its startup output, in discovery
/// mode. Returns the announced port exactly when the line has the
/// announcement form.
pub fn parse_started_port(line: &str) -> (r: Option<u16>)
    ensures
        r == spec_parse_started_port(line@),
{
    let prefix = "ChromeDriver was started successfully on port ";
    proof {
        reveal_strlit("ChromeDriver was started successfully on port ");
    }
    let p = prefix.unicode_len();
    let n = line.unicode_len();
    if n < p + 2 {
        return None;
    }
    let mut i: usize = 0;
    while i < p
        invariant
            0 <= i <= p,
            p + 2 <= n == line@.len(),
            p == started_line_prefix().len(),
            prefix@ == started_line_prefix(),
            forall|j: int| 0 <= j < i ==> line@[j] == started_line_prefix()[j],
        decreases p - i,
    {
        if line.get_char(i) != prefix.get_char(i) {
            proof {
                assert(line@.take(p as int)[i as int] != started_line_prefix()[i as int]);
            }
            return None;
        }
        i += 1;
    }
    proof {
        assert(line@.take(p as int) =~= started_line_prefix());
    }
    if line.get_char(n - 1) != '.' {
        return None;
    }
    let ghost ds = line@.subrange(p as int, n - 1);
    let mut value: u64 = 0;
    let mut i: usize = p;
    while i < n - 1
        invariant
            p <= i <= n - 1,
            p + 2 <= n == line@.len(),
            p == started_line_prefix().len(),
            ds == line@.subrange(p as int, n - 1),
            value == digits_value(ds.take(i - p)),
            value <= u16::MAX,
            all_digits(ds.take(i - p)),
        decreases n - 1 - i,
    {
        let c = line.get_char(i);
        if !(c >= '0' && c <= '9') {
            proof {
                assert(ds[i - p] == c);
                assert(!all_digits(ds));
            }
            return None;
        }
        let d: u64 = (c as u32 as u64) - ('0' as u32 as u64);
        proof {
            assert(ds.take(i - p + 1).drop_last() =~= ds.take(i - p));
            assert(ds.take(i - p + 1).last() == c);
            assert(d == digit_value(c));
        }
        value = value * 10 + d;
        if value > u16::MAX as u64 {
            proof {
                lemma_digits_value_take(ds, i - p + 1);
                if all_digits(ds) {
                    assert(digits_value(ds) >= digits_value(ds.take(i - p + 1)));
                }
            }
            return None;
        }
        i += 1;
    }
    proof {
        assert(ds.take(i - p) =~= ds);
    }
    Some(value as u16)
}

} // verus!
