//! The transport connector: resolves the address a user typed (appending the
//! configured default port when none is given) and classifies the outcomes of
//! the three steps of a connection attempt — parsing the address, opening the
//! transport within the timeout, and enabling low-latency delivery. The steps
//! themselves are OS calls and run outside; the attempt state machine here
//! decides what each outcome means and yields a connection only when every
//! step succeeded.

use vstd::prelude::*;

verus! {

/// The character for one decimal digit.
pub open spec fn dec_digit_char(d: nat) -> char {
    if d == 0 {
        '0'
    } else if d == 1 {
        '1'
    } else if d == 2 {
        '2'
    } else if d == 3 {
        '3'
    } else if d == 4 {
        '4'
    } else if d == 5 {
        '5'
    } else if d == 6 {
        '6'
    } else if d == 7 {
        '7'
    } else if d == 8 {
        '8'
    } else {
        '9'
    }
}

/// The decimal digits of `n`, most significant first, without leading zeros
/// (a single `'0'` for zero itself).
pub open spec fn dec_digits(n: nat) -> Seq<char>
    decreases n,
{
    if n < 10 {
        seq![dec_digit_char(n)]
    } else {
        dec_digits(n / 10).push(dec_digit_char(n % 10))
    }
}

/// Whether the address already names a port (or is an IPv6 form): any colon.
pub open spec fn has_colon(s: Seq<char>) -> bool {
    exists|i: int| 0 <= i < s.len() && s[i] == ':'
}

/// What the connector dials: the address as typed when it holds a colon,
/// otherwise the address with `:` and the default port appended.
pub open spec fn resolved_address(addr: Seq<char>, default_port: u16) -> Seq<char> {
    if has_colon(addr) {
        addr
    } else {
        addr + seq![':'] + dec_digits(default_port as nat)
    }
}

/// Law: an address without a colon gets exactly the configured default port
/// appended, after one `':'`; an address with a colon is dialed as typed.
pub proof fn lemma_resolved_address_cases(addr: Seq<char>, default_port: u16)
    ensures
        !has_colon(addr) ==> resolved_address(addr, default_port) == addr + seq![':'] + dec_digits(
            default_port as nat,
        ),
        has_colon(addr) ==> resolved_address(addr, default_port) == addr,
{
}

/// The one-character string for a decimal digit.
fn digit_str(d: u16) -> (r: &'static str)
    requires
        d < 10,
    ensures
        r@ == seq![dec_digit_char(d as nat)],
{
    proof {
        reveal_strlit("0");
        reveal_strlit("1");
        reveal_strlit("2");
        reveal_strlit("3");
        reveal_strlit("4");
        reveal_strlit("5");
        reveal_strlit("6");
        reveal_strlit("7");
        reveal_strlit("8");
        reveal_strlit("9");
    }
    let r = match d {
        0 => "0",
        1 => "1",
        2 => "2",
        3 => "3",
        4 => "4",
        5 => "5",
        6 => "6",
        7 => "7",
        8 => "8",
        _ => "9",
    };
    assert(r@ =~= seq![dec_digit_char(d as nat)]);
    r
}

/// Renders `n` in decimal.
pub fn decimal_string(n: u16) -> (r: String)
    ensures
        r@ == dec_digits(n as nat),
    decreases n,
{
    if n < 10 {
        String::from_str(digit_str(n))
    } else {
        proof {
            assert(n / 10 < n) by (nonlinear_arith)
                requires
                    n >= 10,
            ;
        }
        let mut r = decimal_string(n / 10);
        r.append(digit_str(n % 10));
        assert(r@ =~= dec_digits(n as nat));
        r
    }
}

/// Whether `s` holds a colon.
pub fn str_has_colon(s: &str) -> (r: bool)
    ensures
        r == has_colon(s@),
{
    let len = s.unicode_len();
    let mut i: usize = 0;
    while i < len
        invariant
            i <= len,
            len == s@.len(),
            forall|j: int| 0 <= j < i ==> s@[j] != ':',
        decreases len - i,
    {
        if s.get_char(i) == ':' {
            return true;
        }
        i += 1;
    }
    false
}

/// Resolves the address the user typed: appends `':'` and the configured
/// default port when the address names none.
pub fn resolve_address(address: String, default_port: u16) -> (r: String)
    ensures
        r@ == resolved_address(address@, default_port),
{
    if str_has_colon(address.as_str()) {
        address
    } else {
        proof {
            reveal_strlit(":");
        }
        let mut r = address;
        r.append(":");
        let digits = decimal_string(default_port);
        r.append(digits.as_str());
        assert(r@ =~= resolved_address(address@, default_port));
        r
    }
}

/// Why a connection attempt failed, each with the underlying cause's text.
#[derive(Debug)]
pub enum ConnectError {
    /// The combined host:port string did not parse as a socket address.
    InvalidAddress(String),
    /// The transport could not be opened: refused, or the timeout elapsed.
    ConnectFailed(String),
    /// The transport opened, but low-latency delivery could not be enabled.
    ConfigureFailed(String),
}

/// The human-readable error line for each failure.
pub open spec fn connect_error_text(e: ConnectError) -> Seq<char> {
    match e {
        ConnectError::InvalidAddress(detail) => "Invalid address: "@ + detail@,
        ConnectError::ConnectFailed(detail) => "Failed: "@ + detail@,
        ConnectError::ConfigureFailed(detail) => detail@,
    }
}

impl ConnectError {
    /// Renders the error for the caller, who sees plain strings.
    pub fn message(self) -> (r: String)
        ensures
            r@ == connect_error_text(self),
    {
        match self {
            ConnectError::InvalidAddress(detail) => {
                let mut r = String::from_str("Invalid address: ");
                r.append(detail.as_str());
                r
            },
            ConnectError::ConnectFailed(detail) => {
                let mut r = String::from_str("Failed: ");
                r.append(detail.as_str());
                r
            },
            ConnectError::ConfigureFailed(detail) => detail,
        }
    }
}

/// One live transport session, as the session core models it.
#[derive(Debug)]
pub struct Connection {
    /// The resolved remote address that was dialed.
    pub peer: String,
    /// Low-latency delivery (no coalescing of small writes); always enabled
    /// once the connector completes.
    pub low_latency: bool,
}

/// Where a connection attempt stands: which outcome it awaits next.
#[derive(Clone, Copy, Debug, PartialEq, Eq, Structural)]
pub enum ConnectStage {
    /// The resolved address goes to the parser next.
    AwaitingParse,
    /// The parsed address goes to the transport open (5-second timeout) next.
    AwaitingOpen,
    /// The open transport awaits the low-latency option next.
    AwaitingConfigure,
    /// Every step succeeded; the connection can be taken.
    Complete,
    /// A step failed; the attempt is over and yields no connection.
    Failed,
}

/// One connection attempt. The caller performs each OS step and reports its
/// outcome (`None` for success, the cause's text for failure); the machine
/// classifies failures and releases a [`Connection`] only from `Complete`,
/// so no failed attempt ever yields one to store.
#[derive(Debug)]
pub struct ConnectAttempt {
    /// What will be, or was, dialed.
    pub target: String,
    /// Which outcome the attempt awaits.
    pub stage: ConnectStage,
}

impl ConnectAttempt {
    /// Starts an attempt for the address the user typed: resolves it against
    /// the configured default port and awaits the parse outcome.
    pub fn begin(address: String, default_port: u16) -> (a: Self)
        ensures
            a.target@ == resolved_address(address@, default_port),
            a.stage is AwaitingParse,
    {
        ConnectAttempt { target: resolve_address(address, default_port), stage: ConnectStage::AwaitingParse }
    }

    /// Records the outcome of parsing the resolved address. A failure makes
    /// the attempt fail for good with `InvalidAddress` carrying the parser's
    /// detail; the target is never changed.
    pub fn parse_outcome(&mut self, error: Option<String>) -> (r: Option<ConnectError>)
        requires
            old(self).stage is AwaitingParse,
        ensures
            final(self).target == old(self).target,
            error is None ==> final(self).stage is AwaitingOpen && r is None,
            (match error {
                Some(detail) => final(self).stage is Failed && r == Some(
                    ConnectError::InvalidAddress(detail),
                ),
                None => true,
            }),
    {
        match error {
            None => {
                self.stage = ConnectStage::AwaitingOpen;
                None
            },
            Some(detail) => {
                self.stage = ConnectStage::Failed;
                Some(ConnectError::InvalidAddress(detail))
            },
        }
    }

    /// Records the outcome of opening the transport. Timeout or refusal makes
    /// the attempt fail for good with `ConnectFailed` carrying the cause.
    pub fn open_outcome(&mut self, error: Option<String>) -> (r: Option<ConnectError>)
        requires
            old(self).stage is AwaitingOpen,
        ensures
            final(self).target == old(self).target,
            error is None ==> final(self).stage is AwaitingConfigure && r is None,
            (match error {
                Some(detail) => final(self).stage is Failed && r == Some(
                    ConnectError::ConnectFailed(detail),
                ),
                None => true,
            }),
    {
        match error {
            None => {
                self.stage = ConnectStage::AwaitingConfigure;
                None
            },
            Some(detail) => {
                self.stage = ConnectStage::Failed;
                Some(ConnectError::ConnectFailed(detail))
            },
        }
    }

    /// Records the outcome of enabling low-latency delivery. A failure makes
    /// this attempt fail for good with `ConfigureFailed`; success completes
    /// the attempt.
    pub fn configure_outcome(&mut self, error: Option<String>) -> (r: Option<ConnectError>)
        requires
            old(self).stage is AwaitingConfigure,
        ensures
            final(self).target == old(self).target,
            error is None ==> final(self).stage is Complete && r is None,
            (match error {
                Some(detail) => final(self).stage is Failed && r == Some(
                    ConnectError::ConfigureFailed(detail),
                ),
                None => true,
            }),
    {
        match error {
            None => {
                self.stage = ConnectStage::Complete;
                None
            },
            Some(detail) => {
                self.stage = ConnectStage::Failed;
                Some(ConnectError::ConfigureFailed(detail))
            },
        }
    }

    /// Takes the connection out of a completed attempt: it dialed the
    /// resolved target and has low-latency delivery enabled. Only a completed
    /// attempt yields one.
    pub fn into_connection(self) -> (c: Connection)
        requires
            self.stage is Complete,
        ensures
            c.peer == self.target,
            c.low_latency,
    {
        Connection { peer: self.target, low_latency: true }
    }
}

} // verus!
