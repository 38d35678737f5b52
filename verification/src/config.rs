//! Resolution of the service configuration from two optional texts: the port
//! and the bind address.

use crate::text::{all_digits, is_digit};
use vstd::prelude::*;

verus! {

/// Name of the environment variable that holds the port.
pub const PORT_VAR: &'static str = "ZEUS_HTTP_PORT";

/// Name of the environment variable that holds the bind address.
pub const BIND_ADDR_VAR: &'static str = "ZEUS_BIND_ADDR";

/// Port used when none is configured.
pub const DEFAULT_PORT: u16 = 8080;

/// Bind address used when none is configured.
pub const DEFAULT_BIND_ADDR: &'static str = "0.0.0.0";

/// Why a configuration could not be resolved.
#[derive(Clone, Copy, Debug, PartialEq, Eq, Structural)]
pub enum ConfigError {
    /// The port text is not an optional `+` followed by one or more decimal digits.
    PortNotNumeric,
    /// The port text is a decimal number above 65535.
    PortOutOfRange,
}

/// The value of a decimal digit.
pub open spec fn digit_value(c: char) -> int {
    c as int - '0' as int
}

/// The number that a sequence of decimal digits denotes, most significant digit first.
pub open spec fn decimal_value(s: Seq<char>) -> int
    decreases s.len(),
{
    if s.len() == 0 {
        0
    } else {
        10 * decimal_value(s.drop_last()) + digit_value(s.last())
    }
}

/// The text without its leading `+`, if it has one.
pub open spec fn unsigned_part(s: Seq<char>) -> Seq<char> {
    if s.len() > 0 && s[0] == '+' {
        s.subrange(1, s.len() as int)
    } else {
        s
    }
}

/// An optional `+`, then at least one decimal digit and nothing else.
pub open spec fn is_numeric(s: Seq<char>) -> bool {
    unsigned_part(s).len() > 0 && all_digits(unsigned_part(s))
}

/// What a port text stands for.
pub open spec fn port_of(s: Seq<char>) -> Result<u16, ConfigError> {
    if !is_numeric(s) {
        Err(ConfigError::PortNotNumeric)
    } else if decimal_value(unsigned_part(s)) > u16::MAX {
        Err(ConfigError::PortOutOfRange)
    } else {
        Ok(decimal_value(unsigned_part(s)) as u16)
    }
}

proof fn lemma_decimal_value_push(s: Seq<char>, c: char)
    ensures
        decimal_value(s.push(c)) == 10 * decimal_value(s) + digit_value(c),
{
    assert(s.push(c).drop_last() =~= s);
}

proof fn lemma_decimal_value_nonnegative(s: Seq<char>)
    requires
        all_digits(s),
    ensures
        decimal_value(s) >= 0,
    decreases s.len(),
{
    if s.len() > 0 {
        lemma_decimal_value_nonnegative(s.drop_last());
    }
}

/// Reads a port number: an optional `+` and decimal digits, with a value of
/// at most 65535. Leading zeros are accepted; blanks, a `-` and any other
/// character are not.
pub fn parse_port(text: &str) -> (r: Result<u16, ConfigError>)
    ensures
        r == port_of(text@),
{
    let mut first = true;
    let mut plus = false;
    let mut seen_digit = false;
    let mut overflow = false;
    let mut acc: u32 = 0;
    for c in it: text.chars()
        invariant
            it.seq() == text@,
            first == (it.index() == 0),
            plus ==> it.index() >= 1 && text@[0] == '+',
            !plus && it.index() >= 1 ==> text@[0] != '+',
            seen_digit == (it.index() > (if plus { 1int } else { 0int })),
            all_digits(text@.subrange(if plus { 1int } else { 0int }, it.index())),
            acc <= u16::MAX,
            !overflow ==> acc == decimal_value(
                text@.subrange(if plus { 1int } else { 0int }, it.index()),
            ),
            overflow ==> decimal_value(text@.subrange(if plus { 1int } else { 0int }, it.index()))
                > u16::MAX,
    {
        let ghost start = if plus { 1int } else { 0int };
        let ghost idx = it.index();
        let ghost before = text@.subrange(start, idx);
        if first && c == '+' {
            plus = true;
            assert(text@.subrange(1, idx + 1) =~= Seq::<char>::empty());
        } else if c >= '0' && c <= '9' {
            let d: u32 = c as u32 - '0' as u32;
            proof {
                assert(text@.subrange(start, idx + 1) =~= before.push(c));
                lemma_decimal_value_push(before, c);
                lemma_decimal_value_nonnegative(before);
            }
            if !overflow {
                let next: u32 = acc * 10 + d;
                if next > 65535 {
                    overflow = true;
                } else {
                    acc = next;
                }
            }
            seen_digit = true;
        } else {
            proof {
                let rest = unsigned_part(text@);
                assert(rest[idx - start] == c);
            }
            return Err(ConfigError::PortNotNumeric);
        }
        first = false;
    }
    proof {
        let start = if plus { 1int } else { 0int };
        assert(unsigned_part(text@) =~= text@.subrange(start, text@.len() as int));
    }
    if !seen_digit {
        Err(ConfigError::PortNotNumeric)
    } else if overflow {
        Err(ConfigError::PortOutOfRange)
    } else {
        Ok(acc as u16)
    }
}

/// The resolved configuration: where the service listens.
#[derive(Debug, PartialEq, Eq)]
pub struct Config {
    pub port: u16,
    pub bind_addr: String,
}

/// The mathematical content of a [`Config`].
pub struct ConfigView {
    pub port: u16,
    pub bind_addr: Seq<char>,
}

impl View for Config {
    type V = ConfigView;

    open spec fn view(&self) -> ConfigView {
        ConfigView { port: self.port, bind_addr: self.bind_addr@ }
    }
}

impl Clone for Config {
    fn clone(&self) -> (copy: Self)
        ensures
            copy@ == self@,
    {
        Config { port: self.port, bind_addr: self.bind_addr.clone() }
    }
}

/// The content of an optional text.
pub open spec fn text_of(value: Option<&str>) -> Option<Seq<char>> {
    match value {
        Some(s) => Some(s@),
        None => None,
    }
}

/// The configuration that two optional settings resolve to: an absent port
/// is the default port, an absent bind address the default address, and a
/// port that is present must be a valid port text.
pub open spec fn resolved(port: Option<Seq<char>>, bind_addr: Option<Seq<char>>) -> Result<
    ConfigView,
    ConfigError,
> {
    let addr = match bind_addr {
        Some(a) => a,
        None => DEFAULT_BIND_ADDR@,
    };
    match port {
        None => Ok(ConfigView { port: DEFAULT_PORT, bind_addr: addr }),
        Some(p) => match port_of(p) {
            Ok(n) => Ok(ConfigView { port: n, bind_addr: addr }),
            Err(e) => Err(e),
        },
    }
}

/// What was found under the name of a setting.
#[derive(Clone, Copy, Debug)]
pub enum Setting<'a> {
    /// Nothing is set under the name.
    Absent,
    /// The setting is present and holds this text.
    Text(&'a str),
    /// The setting is present and what it holds is no text.
    NotText,
}

/// The text that a bind address setting stands for: its own where it holds
/// one, none where it is absent or holds no text.
pub open spec fn bind_addr_text(bind_addr: Setting<'_>) -> Option<Seq<char>> {
    match bind_addr {
        Setting::Text(text) => Some(text@),
        _ => None,
    }
}

/// The configuration that the two settings resolve to, as they were found.
/// A port that is present and holds no text is no number; a bind address
/// that holds no text counts as absent; otherwise as in [`resolved`].
pub open spec fn resolved_found(port: Setting<'_>, bind_addr: Setting<'_>) -> Result<
    ConfigView,
    ConfigError,
> {
    match port {
        Setting::Absent => resolved(None, bind_addr_text(bind_addr)),
        Setting::Text(text) => resolved(Some(text@), bind_addr_text(bind_addr)),
        Setting::NotText => Err(ConfigError::PortNotNumeric),
    }
}

/// The single digit `d` as a character.
pub open spec fn digit_char(d: int) -> char {
    if d == 0 {
        '0'
    } else if d == 1 {
        '1'
    } else if d == 2 {
        '2'
    } else if d == 3 {
        '3'
    } else if d == 4 {
        '4'
    } else if d == 5 {
        '5'
    } else if d == 6 {
        '6'
    } else if d == 7 {
        '7'
    } else if d == 8 {
        '8'
    } else {
        '9'
    }
}

/// The shortest decimal text of a number: no sign, no leading zeros.
pub open spec fn decimal_text(n: nat) -> Seq<char>
    decreases n,
{
    if n < 10 {
        seq![digit_char(n as int)]
    } else {
        decimal_text(n / 10).push(digit_char((n % 10) as int))
    }
}

/// The socket address of a configuration: bind address, a colon, the port.
pub open spec fn socket_addr_text(config: ConfigView) -> Seq<char> {
    config.bind_addr + seq![':'] + decimal_text(config.port as nat)
}

fn digit_str(d: u16) -> (r: &'static str)
    requires
        d < 10,
    ensures
        r@ == seq![digit_char(d as int)],
{
    proof {
        reveal_strlit("0");
        reveal_strlit("1");
        reveal_strlit("2");
        reveal_strlit("3");
        reveal_strlit("4");
        reveal_strlit("5");
        reveal_strlit("6");
        reveal_strlit("7");
        reveal_strlit("8");
        reveal_strlit("9");
    }
    let r = match d {
        0 => "0",
        1 => "1",
        2 => "2",
        3 => "3",
        4 => "4",
        5 => "5",
        6 => "6",
        7 => "7",
        8 => "8",
        _ => "9",
    };
    assert(r@ =~= seq![digit_char(d as int)]);
    r
}

fn append_decimal(out: &mut String, n: u16)
    ensures
        final(out)@ == old(out)@ + decimal_text(n as nat),
    decreases n,
{
    if n >= 10 {
        append_decimal(out, n / 10);
    }
    out.append(digit_str(n % 10));
    proof {
        let head = old(out)@;
        if n >= 10 {
            assert(head + decimal_text((n / 10) as nat) + seq![digit_char((n % 10) as int)] =~= head
                + decimal_text(n as nat));
        }
    }
}

/// Writes a port number in decimal, without sign or leading zeros.
pub fn format_port(port: u16) -> (text: String)
    ensures
        text@ == decimal_text(port as nat),
{
    let mut text = String::new();
    append_decimal(&mut text, port);
    assert(Seq::<char>::empty() + decimal_text(port as nat) =~= decimal_text(port as nat));
    text
}

impl Config {
    /// Resolves the configuration from the two settings as they were found:
    /// `None` stands for a setting that is absent.
    pub fn resolve(port: Option<&str>, bind_addr: Option<&str>) -> (r: Result<Config, ConfigError>)
        ensures
            match r {
                Ok(config) => resolved(text_of(port), text_of(bind_addr)) == Ok::<
                    ConfigView,
                    ConfigError,
                >(config@),
                Err(e) => resolved(text_of(port), text_of(bind_addr)) == Err::<
                    ConfigView,
                    ConfigError,
                >(e),
            },
    {
        let port = match port {
            Some(text) => match parse_port(text) {
                Ok(n) => n,
                Err(e) => { return Err(e); },
            },
            None => DEFAULT_PORT,
        };
        let bind_addr = match bind_addr {
            Some(text) => String::from_str(text),
            None => String::from_str(DEFAULT_BIND_ADDR),
        };
        Ok(Config { port, bind_addr })
    }

    /// Resolves the configuration from the two settings as they were found.
    /// Only an absent port falls back to the default: one that is present
    /// fails the resolution unless it is a valid port text. A bind address
    /// that is absent or holds no text falls back to the default.
    pub fn resolve_found(port: Setting<'_>, bind_addr: Setting<'_>) -> (r: Result<
        Config,
        ConfigError,
    >)
        ensures
            match r {
                Ok(config) => resolved_found(port, bind_addr) == Ok::<ConfigView, ConfigError>(
                    config@,
                ),
                Err(e) => resolved_found(port, bind_addr) == Err::<ConfigView, ConfigError>(e),
            },
    {
        let addr = match bind_addr {
            Setting::Text(text) => Some(text),
            _ => None,
        };
        match port {
            Setting::Absent => Config::resolve(None, addr),
            Setting::Text(text) => Config::resolve(Some(text), addr),
            Setting::NotText => Err(ConfigError::PortNotNumeric),
        }
    }

    /// The address to listen on, as `{bind_addr}:{port}`.
    pub fn socket_addr(&self) -> (addr: String)
        ensures
            addr@ == socket_addr_text(self@),
    {
        let mut addr = self.bind_addr.clone();
        addr.append(":");
        append_decimal(&mut addr, self.port);
        proof {
            reveal_strlit(":");
            assert(":"@ =~= seq![':']);
        }
        addr
    }
}

/// The decimal text of a number is made of digits only, is not empty, and
/// denotes that number.
pub proof fn lemma_decimal_text_value(n: nat)
    ensures
        decimal_text(n).len() > 0,
        all_digits(decimal_text(n)),
        decimal_value(decimal_text(n)) == n,
    decreases n,
{
    if n < 10 {
        let c = digit_char(n as int);
        assert(seq![c] =~= Seq::<char>::empty().push(c));
        lemma_decimal_value_push(Seq::<char>::empty(), c);
    } else {
        let c = digit_char((n % 10) as int);
        lemma_decimal_text_value(n / 10);
        lemma_decimal_value_push(decimal_text(n / 10), c);
    }
}

/// Every port, written out by [`format_port`], is read back by
/// [`parse_port`] as the same port.
pub proof fn lemma_port_text_round_trip(port: u16)
    ensures
        port_of(decimal_text(port as nat)) == Ok::<u16, ConfigError>(port),
{
    let text = decimal_text(port as nat);
    lemma_decimal_text_value(port as nat);
    assert(is_digit(text[0]));
    assert(unsigned_part(text) == text);
}

/// With a port that is absent or valid, every bind address resolves: to
/// itself where it is given, to the default where it is not.
pub proof fn lemma_valid_settings_resolve(port: Option<Seq<char>>, bind_addr: Option<Seq<char>>)
    requires
        port matches Some(p) ==> port_of(p) is Ok,
    ensures
        resolved(port, bind_addr) is Ok,
        resolved(port, bind_addr)->Ok_0.port == (match port {
            Some(p) => port_of(p)->Ok_0,
            None => DEFAULT_PORT,
        }),
        resolved(port, bind_addr)->Ok_0.bind_addr == (match bind_addr {
            Some(a) => a,
            None => DEFAULT_BIND_ADDR@,
        }),
{
}

/// A port that is present and is no valid port text fails the resolution,
/// whatever the bind address.
pub proof fn lemma_invalid_port_fails(port: Seq<char>, bind_addr: Option<Seq<char>>)
    requires
        port_of(port) is Err,
    ensures
        resolved(Some(port), bind_addr) == Err::<ConfigView, ConfigError>(port_of(port)->Err_0),
{
}

/// A port setting that is present resolves only where it holds a valid port
/// text; an absent one always resolves, to the default port. The bind
/// address never decides.
pub proof fn lemma_present_port_must_be_valid(port: Setting<'_>, bind_addr: Setting<'_>)
    ensures
        resolved_found(port, bind_addr) is Ok <==> (match port {
            Setting::Absent => true,
            Setting::Text(text) => port_of(text@) is Ok,
            Setting::NotText => false,
        }),
        port is Absent ==> resolved_found(port, bind_addr)->Ok_0.port == DEFAULT_PORT,
{
}

} // verus!
