//! The periodic poller: how often it wakes, which program it runs and how
//! the run is judged.

use crate::settings::Settings;
use vstd::prelude::*;
use vstd::string::StringSliceAdditionalSpecFns;

verus! {

/// `std::io::Error`, carried unopened from a runner to the caller that
/// reports it.
#[verifier::external_type_specification]
#[verifier::external_body]
pub struct ExIoError(std::io::Error);

/// Environment variable that overrides the poller's period.
pub const INTERVAL_VAR: &'static str = "DAYLIT_SCHEDULER_INTERVAL_MS";

/// The poller's period when nothing overrides it, in milliseconds.
pub const DEFAULT_INTERVAL_MS: u64 = 60000;

/// The external notifier's program when settings name none.
pub const DEFAULT_PROGRAM: &'static str = "daylit";

/// The single argument the external notifier is run with.
pub const NOTIFY_ARG: &'static str = "notify";

/// What a finished child process reported.
pub struct CommandOutput {
    pub success: bool,
    pub status_code: Option<i32>,
    pub stderr: Vec<u8>,
}

/// Runs a program with arguments and waits for it.
pub trait CommandRunner {
    /// `result` is what running `program` with `args` gave. A runner that
    /// states nothing about its runs keeps this default.
    open spec fn ran(
        &self,
        program: Seq<char>,
        args: Seq<Seq<char>>,
        result: std::io::Result<CommandOutput>,
    ) -> bool {
        true
    }

    fn run(&self, program: &str, args: &[&str]) -> (r: std::io::Result<CommandOutput>)
        ensures
            self.ran(program@, args@.map_values(|a: &str| a@), r),
    ;
}

/// How one run of the external notifier went.
pub enum NotifyOutcome {
    Succeeded,
    /// It ran and exited unsuccessfully.
    Failed { status_code: Option<i32>, stderr: Vec<u8> },
    /// It could not be started.
    SpawnFailed(std::io::Error),
}

/// `outcome` is the judgement of `result`: a successful exit, an
/// unsuccessful one with its code and error output, or a failure to start.
pub open spec fn judged(result: std::io::Result<CommandOutput>, outcome: NotifyOutcome) -> bool {
    match result {
        Ok(o) => if o.success {
            outcome is Succeeded
        } else {
            outcome matches NotifyOutcome::Failed { status_code, stderr } && status_code
                == o.status_code && stderr@ == o.stderr@
        },
        Err(e) => outcome == NotifyOutcome::SpawnFailed(e),
    }
}

/// Judges the result of running the external notifier.
pub fn notify_outcome(result: std::io::Result<CommandOutput>) -> (r: NotifyOutcome)
    ensures
        judged(result, r),
{
    match result {
        Ok(o) => if o.success {
            NotifyOutcome::Succeeded
        } else {
            NotifyOutcome::Failed { status_code: o.status_code, stderr: o.stderr }
        },
        Err(e) => NotifyOutcome::SpawnFailed(e),
    }
}

/// Runs `<daylit_path> notify` once through `runner`; the outcome is the
/// judgement of what that run gave.
pub fn run_notify_check<R: CommandRunner>(daylit_path: &str, runner: &R) -> (r: NotifyOutcome)
    ensures
        exists|res: std::io::Result<CommandOutput>|
            runner.ran(daylit_path@, seq![NOTIFY_ARG@], res) && judged(res, r),
{
    let args: [&str; 1] = [NOTIFY_ARG];
    let arg_slice: &[&str] = args.as_slice();
    assert(arg_slice@.map_values(|a: &str| a@) =~= seq![NOTIFY_ARG@]);
    let result = runner.run(daylit_path, arg_slice);
    let ghost ran = result;
    let r = notify_outcome(result);
    assert(runner.ran(daylit_path@, seq![NOTIFY_ARG@], ran) && judged(ran, r));
    r
}

/// The program the poller runs: the configured path, else `daylit`.
pub fn notifier_program(settings: &Settings) -> (p: String)
    ensures
        p@ == match settings@.daylit_path {
            Some(path) => path,
            None => DEFAULT_PROGRAM@,
        },
{
    match &settings.daylit_path {
        Some(path) => path.clone(),
        None => DEFAULT_PROGRAM.to_owned(),
    }
}

pub open spec fn is_digit(b: u8) -> bool {
    48 <= b <= 57
}

/// The number that a string of decimal digits stands for.
pub open spec fn digits_value(s: Seq<u8>) -> nat
    decreases s.len(),
{
    if s.len() == 0 {
        0
    } else {
        digits_value(s.drop_last()) * 10 + (s.last() - 48) as nat
    }
}

/// The digits of a number: the text without one leading `+`.
pub open spec fn unsigned_digits(s: Seq<u8>) -> Seq<u8> {
    if s.len() > 0 && s[0] == 43 {
        s.drop_first()
    } else {
        s
    }
}

/// What `u64::from_str` accepts: an optional `+`, then one or more decimal
/// digits whose value fits in 64 bits.
pub open spec fn parse_u64(s: Seq<u8>) -> Option<u64> {
    let digits = unsigned_digits(s);
    if digits.len() > 0 && (forall|i: int| 0 <= i < digits.len() ==> #[trigger] is_digit(digits[i]))
        && digits_value(digits) <= u64::MAX {
        Some(digits_value(digits) as u64)
    } else {
        None
    }
}

proof fn lemma_digits_value_grows(s: Seq<u8>, i: int, j: int)
    requires
        0 <= i <= j <= s.len(),
        forall|k: int| 0 <= k < s.len() ==> #[trigger] is_digit(s[k]),
    ensures
        digits_value(s.subrange(0, i)) <= digits_value(s.subrange(0, j)),
    decreases j - i,
{
    if i < j {
        lemma_digits_value_grows(s, i, j - 1);
        assert(s.subrange(0, j).drop_last() =~= s.subrange(0, j - 1));
    }
}

/// Parses a decimal `u64` the way `str::parse::<u64>` does.
pub fn parse_decimal_u64(text: &str) -> (r: Option<u64>)
    ensures
        r == parse_u64(text.spec_bytes()),
{
    let s = text.as_bytes();
    let start: usize = if s.len() > 0 && s[0] == 43u8 { 1 } else { 0 };
    let ghost digits = unsigned_digits(s@);
    assert(digits =~= s@.subrange(start as int, s@.len() as int));
    if start == s.len() {
        return None;
    }
    let mut i: usize = start;
    let mut v: u64 = 0;
    while i < s.len()
        invariant
            start <= i <= s@.len(),
            digits =~= s@.subrange(start as int, s@.len() as int),
            digits == unsigned_digits(s@),
            s@ == text.spec_bytes(),
            forall|k: int| 0 <= k < i - start ==> #[trigger] is_digit(digits[k]),
            v as nat == digits_value(digits.subrange(0, i - start)),
        decreases s@.len() - i,
    {
        let b: u8 = s[i];
        if b < 48u8 || b > 57u8 {
            assert(!is_digit(digits[i - start]));
            assert(parse_u64(s@) is None);
            return None;
        }
        let ghost prefix = digits.subrange(0, i + 1 - start);
        assert(prefix.drop_last() =~= digits.subrange(0, i - start));
        assert(digits_value(prefix) == v * 10 + (b - 48) as nat);
        match v.checked_mul(10) {
            Some(m) => match m.checked_add((b - 48u8) as u64) {
                Some(n) => {
                    v = n;
                },
                None => {
                    proof {
                        assert(digits_value(prefix) > u64::MAX);
                        if forall|k: int| 0 <= k < digits.len() ==> #[trigger] is_digit(digits[k]) {
                            lemma_digits_value_grows(
                                digits,
                                i + 1 - start,
                                digits.len() as int,
                            );
                            assert(digits.subrange(0, digits.len() as int) =~= digits);
                        }
                    }
                    assert(parse_u64(s@) is None);
                    return None;
                },
            },
            None => {
                proof {
                    assert(v * 10 > u64::MAX);
                    assert(digits_value(prefix) > u64::MAX);
                    if forall|k: int| 0 <= k < digits.len() ==> #[trigger] is_digit(digits[k]) {
                        lemma_digits_value_grows(digits, i + 1 - start, digits.len() as int);
                        assert(digits.subrange(0, digits.len() as int) =~= digits);
                    }
                }
                assert(parse_u64(s@) is None);
                return None;
            },
        }
        i = i + 1;
    }
    assert(digits.subrange(0, digits.len() as int) =~= digits);
    Some(v)
}

/// The poller's period: the variable's value when it parses as a `u64`,
/// else the default.
pub fn scheduler_interval(raw: Option<&str>) -> (ms: u64)
    ensures
        ms == match raw {
            Some(t) => match parse_u64(t.spec_bytes()) {
                Some(n) => n,
                None => DEFAULT_INTERVAL_MS,
            },
            None => DEFAULT_INTERVAL_MS,
        },
{
    match raw {
        Some(t) => match parse_decimal_u64(t) {
            Some(n) => n,
            None => DEFAULT_INTERVAL_MS,
        },
        None => DEFAULT_INTERVAL_MS,
    }
}

} // verus!
