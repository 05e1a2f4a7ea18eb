//! Per-domain status records and the batch report aggregator.

use vstd::prelude::*;
use vstd::string::StringExecFns;

use crate::error::MonitorError;
use crate::error::message_of;

verus! {

/// The outcome of checking one domain. A successful check carries an empty
/// error text; a failed one carries the human-readable reason.
#[derive(Debug, Clone)]
pub struct Status {
    pub domain: String,
    pub valid: bool,
    pub error: String,
}

/// The consolidated outcome of a batch: either every domain passed, or a
/// multi-line summary of the failing domains.
#[derive(Debug, Clone)]
pub enum Report {
    Valid,
    Invalid(String),
}

/// The decimal digit character for `d` (meaningful for `0 <= d <= 9`).
pub open spec fn digit_char(d: nat) -> char {
    if d == 0 {
        '0'
    } else if d == 1 {
        '1'
    } else if d == 2 {
        '2'
    } else if d == 3 {
        '3'
    } else if d == 4 {
        '4'
    } else if d == 5 {
        '5'
    } else if d == 6 {
        '6'
    } else if d == 7 {
        '7'
    } else if d == 8 {
        '8'
    } else {
        '9'
    }
}

/// The decimal rendering of `n`, most significant digit first.
pub open spec fn dec_digits(n: nat) -> Seq<char>
    decreases n,
{
    if n < 10 {
        seq![digit_char(n)]
    } else {
        dec_digits(n / 10).push(digit_char(n % 10))
    }
}

/// The summary line for one failing status.
pub open spec fn status_line(s: Status) -> Seq<char> {
    "Domain "@ + s.domain@ + " ("@ + s.error@ + ")"@
}

/// How many statuses of the sequence are invalid.
pub open spec fn n_invalid(ss: Seq<Status>) -> nat
    decreases ss.len(),
{
    if ss.len() == 0 {
        0
    } else {
        n_invalid(ss.drop_last()) + (if ss.last().valid {
            0nat
        } else {
            1nat
        })
    }
}

/// The summary lines of the invalid statuses, in input order, joined by a
/// newline.
pub open spec fn invalid_lines(ss: Seq<Status>) -> Seq<char>
    decreases ss.len(),
{
    if ss.len() == 0 {
        Seq::empty()
    } else if ss.last().valid {
        invalid_lines(ss.drop_last())
    } else if n_invalid(ss.drop_last()) == 0 {
        status_line(ss.last())
    } else {
        invalid_lines(ss.drop_last()) + "\n"@ + status_line(ss.last())
    }
}

/// The full failure message: a count line followed by one line per invalid
/// status, in input order.
pub open spec fn report_message(ss: Seq<Status>) -> Seq<char> {
    "Found "@ + dec_digits(n_invalid(ss)) + " issues.\n"@ + invalid_lines(ss)
}

/// What the aggregator promises of its report: `Valid` exactly when no
/// status is invalid, else `Invalid` carrying the full failure message.
pub open spec fn aggregate_post(ss: Seq<Status>, r: Report) -> bool {
    if n_invalid(ss) == 0 {
        r is Valid
    } else {
        r matches Report::Invalid(m) && m@ == report_message(ss)
    }
}

/// A sequence without invalid statuses contributes no summary lines.
proof fn lemma_no_invalid_no_lines(ss: Seq<Status>)
    requires
        n_invalid(ss) == 0,
    ensures
        invalid_lines(ss) == Seq::<char>::empty(),
    decreases ss.len(),
{
    if ss.len() > 0 {
        lemma_no_invalid_no_lines(ss.drop_last());
    }
}

/// Appends the decimal rendering of `n` to `s`.
fn push_dec(s: &mut String, n: u64)
    ensures
        final(s)@ == old(s)@ + dec_digits(n as nat),
    decreases n,
{
    proof {
        reveal_strlit("0");
        reveal_strlit("1");
        reveal_strlit("2");
        reveal_strlit("3");
        reveal_strlit("4");
        reveal_strlit("5");
        reveal_strlit("6");
        reveal_strlit("7");
        reveal_strlit("8");
        reveal_strlit("9");
    }
    if n >= 10 {
        push_dec(s, n / 10);
    }
    let d: u64 = n % 10;
    if d == 0 {
        s.append("0");
    } else if d == 1 {
        s.append("1");
    } else if d == 2 {
        s.append("2");
    } else if d == 3 {
        s.append("3");
    } else if d == 4 {
        s.append("4");
    } else if d == 5 {
        s.append("5");
    } else if d == 6 {
        s.append("6");
    } else if d == 7 {
        s.append("7");
    } else if d == 8 {
        s.append("8");
    } else {
        s.append("9");
    }
    proof {
        assert(final(s)@ =~= old(s)@ + dec_digits(n as nat));
    }
}

/// Converts the outcome of one domain's check into its status record: a
/// successful check keeps the boolean result and an empty error text, a
/// failed one reports invalid with the error's message.
pub fn domain_status(domain: String, outcome: Result<bool, MonitorError>) -> (s: Status)
    ensures
        s.domain@ == domain@,
        outcome matches Ok(v) ==> s.valid == v && s.error@ == Seq::<char>::empty(),
        outcome matches Err(e) ==> s.valid == false && s.error@ == message_of(e),
{
    match outcome {
        Ok(v) => Status { domain, valid: v, error: String::new() },
        Err(e) => Status { domain, valid: false, error: e.render() },
    }
}

/// Reduces a batch of status records to one report. Never errors: the
/// `Ok` is unconditional.
pub fn aggregate(statuses: Vec<Status>) -> (r: Result<Report, MonitorError>)
    ensures
        r matches Ok(rep) && aggregate_post(statuses@, rep),
{
    let n = statuses.len();
    let mut count: u64 = 0;
    let mut i: usize = 0;
    while i < n
        invariant
            n == statuses@.len(),
            0 <= i <= n,
            count == n_invalid(statuses@.take(i as int)),
            count <= i,
        decreases n - i,
    {
        proof {
            assert(statuses@.take(i + 1).drop_last() =~= statuses@.take(i as int));
            assert(statuses@.take(i + 1).last() == statuses@[i as int]);
        }
        if !statuses[i].valid {
            count = count + 1;
        }
        i += 1;
    }
    proof {
        assert(statuses@.take(n as int) =~= statuses@);
    }
    if count == 0 {
        Ok(Report::Valid)
    } else {
        let mut message = "Found ".to_owned();
        push_dec(&mut message, count);
        message.append(" issues.\n");
        let ghost header: Seq<char> = "Found "@ + dec_digits(n_invalid(statuses@))
            + " issues.\n"@;
        proof {
            assert(message@ =~= header);
        }
        let mut first: bool = true;
        let mut i: usize = 0;
        while i < n
            invariant
                n == statuses@.len(),
                0 <= i <= n,
                first <==> n_invalid(statuses@.take(i as int)) == 0,
                message@ == header + invalid_lines(statuses@.take(i as int)),
            decreases n - i,
        {
            proof {
                assert(statuses@.take(i + 1).drop_last() =~= statuses@.take(i as int));
                assert(statuses@.take(i + 1).last() == statuses@[i as int]);
            }
            if !statuses[i].valid {
                if !first {
                    message.append("\n");
                } else {
                    proof {
                        lemma_no_invalid_no_lines(statuses@.take(i as int));
                    }
                }
                message.append("Domain ");
                message.append(statuses[i].domain.as_str());
                message.append(" (");
                message.append(statuses[i].error.as_str());
                message.append(")");
                first = false;
            }
            proof {
                assert(message@ =~= header + invalid_lines(statuses@.take(i + 1)));
            }
            i += 1;
        }
        proof {
            assert(statuses@.take(n as int) =~= statuses@);
        }
        Ok(Report::Invalid(message))
    }
}

/// Law: aggregation is deterministic — any two reports that meet the
/// aggregator's contract for the same status sequence agree, and the
/// failure message (which lists the invalid entries in input order) is the
/// same character sequence in both.
pub proof fn lemma_aggregate_deterministic(ss: Seq<Status>, r1: Report, r2: Report)
    requires
        aggregate_post(ss, r1),
        aggregate_post(ss, r2),
    ensures
        r1 is Valid <==> r2 is Valid,
        r1 matches Report::Invalid(m1) ==> (r2 matches Report::Invalid(m2) && m1@ == m2@),
{
}

} // verus!
