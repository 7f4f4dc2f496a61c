//! What the server's answer to a launch request means for the launch and
//! for the process's exit status.
use vstd::prelude::*;

verus! {

/// How a launch request ended, once the server has answered.
#[derive(PartialEq, Eq, Structural, Debug, Clone, Copy)]
pub enum LaunchOutcome {
    /// The server accepted the experiment.
    Launched,
    /// The server answered with a status other than success.
    Rejected { status: u16 },
}

/// Whether an HTTP status means success.
pub open spec fn is_success_status(status: u16) -> bool {
    200 <= status < 300
}

/// The decimal digit of `d`, for `d` below ten.
pub open spec fn digit_char(d: nat) -> char {
    if d == 0 {
        '0'
    } else if d == 1 {
        '1'
    } else if d == 2 {
        '2'
    } else if d == 3 {
        '3'
    } else if d == 4 {
        '4'
    } else if d == 5 {
        '5'
    } else if d == 6 {
        '6'
    } else if d == 7 {
        '7'
    } else if d == 8 {
        '8'
    } else {
        '9'
    }
}

/// `n` in decimal, without leading zeros.
pub open spec fn decimal(n: nat) -> Seq<char>
    decreases n,
{
    if n < 10 {
        seq![digit_char(n)]
    } else {
        decimal(n / 10).push(digit_char(n % 10))
    }
}

/// The message that reports an outcome.
pub open spec fn outcome_message(o: LaunchOutcome) -> Seq<char> {
    match o {
        LaunchOutcome::Launched => "Successfully launched experiment"@,
        LaunchOutcome::Rejected { status } => "Failed to launch experiment: HTTP status "@
            + decimal(status as nat),
    }
}

/// The outcome of a launch whose request the server answered with `status`.
/// Any status outside the success range is a failure; nothing is retried.
pub fn outcome_for_status(status: u16) -> (r: LaunchOutcome)
    ensures
        r == (if is_success_status(status) {
            LaunchOutcome::Launched
        } else {
            LaunchOutcome::Rejected { status }
        }),
{
    if 200 <= status && status < 300 {
        LaunchOutcome::Launched
    } else {
        LaunchOutcome::Rejected { status }
    }
}

fn digit_str(d: u16) -> (r: &'static str)
    requires
        d < 10,
    ensures
        r@ == seq![digit_char(d as nat)],
{
    proof {
        reveal_strlit("0");
        reveal_strlit("1");
        reveal_strlit("2");
        reveal_strlit("3");
        reveal_strlit("4");
        reveal_strlit("5");
        reveal_strlit("6");
        reveal_strlit("7");
        reveal_strlit("8");
        reveal_strlit("9");
    }
    let r = if d == 0 {
        "0"
    } else if d == 1 {
        "1"
    } else if d == 2 {
        "2"
    } else if d == 3 {
        "3"
    } else if d == 4 {
        "4"
    } else if d == 5 {
        "5"
    } else if d == 6 {
        "6"
    } else if d == 7 {
        "7"
    } else if d == 8 {
        "8"
    } else {
        "9"
    };
    assert(r@ =~= seq![digit_char(d as nat)]);
    r
}

/// `n` in decimal.
pub fn decimal_text(n: u16) -> (r: String)
    ensures
        r@ == decimal(n as nat),
{
    let mut m: u16 = n / 10;
    let mut r = String::from_str(digit_str(n % 10));
    while m > 0
        invariant
            m > 0 ==> decimal(n as nat) == decimal(m as nat) + r@,
            m == 0 ==> decimal(n as nat) == r@,
        decreases m,
    {
        let ghost before = r@;
        r = String::from_str(digit_str(m % 10)).concat(r.as_str());
        proof {
            if m >= 10 {
                assert(decimal(m as nat) == decimal((m / 10) as nat).push(digit_char((m % 10) as nat)));
                assert(decimal((m / 10) as nat) + r@ =~= decimal(m as nat) + before);
            } else {
                assert(r@ =~= decimal(m as nat) + before);
            }
        }
        m = m / 10;
    }
    r
}

impl LaunchOutcome {
    /// The process exit status that reports the outcome: zero for a launch,
    /// one for a rejection.
    pub fn exit_code(&self) -> (r: u8)
        ensures
            r == (if *self == LaunchOutcome::Launched { 0u8 } else { 1u8 }),
    {
        match self {
            LaunchOutcome::Launched => 0,
            LaunchOutcome::Rejected { .. } => 1,
        }
    }

    /// The line that reports the outcome.
    pub fn message(&self) -> (r: String)
        ensures
            r@ == outcome_message(*self),
    {
        match self {
            LaunchOutcome::Launched => String::from_str("Successfully launched experiment"),
            LaunchOutcome::Rejected { status } => {
                let mut r = String::from_str("Failed to launch experiment: HTTP status ");
                let d = decimal_text(*status);
                r.append(d.as_str());
                r
            },
        }
    }
}

} // verus!
