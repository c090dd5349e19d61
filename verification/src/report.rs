//! Rendering of per-iteration report lines.

use crate::input::Method;
use crate::input::spec_method_name;
use vstd::prelude::*;

verus! {

/// The decimal digit character for a value below ten.
pub open spec fn digit_char(d: nat) -> char {
    if d == 0 {
        '0'
    } else if d == 1 {
        '1'
    } else if d == 2 {
        '2'
    } else if d == 3 {
        '3'
    } else if d == 4 {
        '4'
    } else if d == 5 {
        '5'
    } else if d == 6 {
        '6'
    } else if d == 7 {
        '7'
    } else if d == 8 {
        '8'
    } else {
        '9'
    }
}

/// The decimal digit string of `n`, most significant digit first, with no
/// leading zeros (the single digit `0` for zero itself).
pub open spec fn dec_digits(n: nat) -> Seq<char>
    decreases n,
{
    if n < 10 {
        seq![digit_char(n)]
    } else {
        dec_digits(n / 10) + seq![digit_char(n % 10)]
    }
}

/// The one-character string slice for a decimal digit.
fn digit_str(d: u64) -> (r: &'static str)
    requires
        d < 10,
    ensures
        r@ =~= seq![digit_char(d as nat)],
{
    proof {
        reveal_strlit("0");
        reveal_strlit("1");
        reveal_strlit("2");
        reveal_strlit("3");
        reveal_strlit("4");
        reveal_strlit("5");
        reveal_strlit("6");
        reveal_strlit("7");
        reveal_strlit("8");
        reveal_strlit("9");
    }
    if d == 0 {
        "0"
    } else if d == 1 {
        "1"
    } else if d == 2 {
        "2"
    } else if d == 3 {
        "3"
    } else if d == 4 {
        "4"
    } else if d == 5 {
        "5"
    } else if d == 6 {
        "6"
    } else if d == 7 {
        "7"
    } else if d == 8 {
        "8"
    } else {
        "9"
    }
}

/// Renders `n` in decimal.
pub fn u64_to_dec(n: u64) -> (r: String)
    ensures
        r@ =~= dec_digits(n as nat),
    decreases n,
{
    if n < 10 {
        String::from_str(digit_str(n))
    } else {
        let s = u64_to_dec(n / 10);
        let r = s.concat(digit_str(n % 10));
        r
    }
}

/// What one dispatched request came to: a completed response, or a failure
/// that prevented any response (connection error, timeout).
#[derive(Clone, Debug)]
pub enum Outcome {
    Success { status: u16, body: String },
    Failure { error: String },
}

/// The header line announcing the 1-based iteration `i`.
pub open spec fn spec_iteration_header(i: nat) -> Seq<char> {
    "=== Iteration "@ + dec_digits(i) + " ==="@
}

/// The line naming the chosen method.
pub open spec fn spec_method_line(m: Method) -> Seq<char> {
    "Method: "@ + spec_method_name(m)
}

/// The line echoing the generated body.
pub open spec fn spec_body_line(b: Seq<char>) -> Seq<char> {
    "Body: "@ + b
}

/// The line giving the response's status code.
pub open spec fn spec_status_line(status: nat) -> Seq<char> {
    "Status: "@ + dec_digits(status)
}

/// The line echoing the response's body text.
pub open spec fn spec_response_line(t: Seq<char>) -> Seq<char> {
    "Response: "@ + t
}

/// The line describing a dispatch failure.
pub open spec fn spec_error_line(e: Seq<char>) -> Seq<char> {
    "Request error: "@ + e
}

/// The lines that open an iteration's block: the iteration header, the
/// method line, and the body line when a body was generated.
pub open spec fn spec_intro_lines(i: nat, m: Method, b: Option<String>) -> Seq<Seq<char>> {
    match b {
        Some(s) => seq![spec_iteration_header(i), spec_method_line(m), spec_body_line(s@)],
        None => seq![spec_iteration_header(i), spec_method_line(m)],
    }
}

/// The lines that report an iteration's outcome: status and response text
/// for a completed response, a single error line for a dispatch failure.
pub open spec fn spec_outcome_lines(oc: Outcome) -> Seq<Seq<char>> {
    match oc {
        Outcome::Success { status, body } => seq![
            spec_status_line(status as nat),
            spec_response_line(body@),
        ],
        Outcome::Failure { error } => seq![spec_error_line(error@)],
    }
}

/// Every line one iteration's report consists of, in print order.
pub open spec fn spec_block(i: nat, m: Method, b: Option<String>, oc: Outcome) -> Seq<Seq<char>> {
    spec_intro_lines(i, m, b) + spec_outcome_lines(oc)
}

/// Holds when the strings of `v` read, line for line, as `s`.
pub open spec fn views_match(v: Seq<String>, s: Seq<Seq<char>>) -> bool {
    &&& v.len() == s.len()
    &&& forall|k: int| 0 <= k < v.len() ==> #[trigger] v[k]@ == s[k]
}

/// A status line never reads as an error line: the two open differently.
pub proof fn lemma_status_line_not_error_line(s: nat, e: Seq<char>)
    ensures
        spec_status_line(s) != spec_error_line(e),
{
    reveal_strlit("Status: ");
    reveal_strlit("Request error: ");
    assert(spec_status_line(s)[0] == 'S');
    assert(spec_error_line(e)[0] == 'R');
}

/// A response line never reads as an error line: the two differ at their
/// third character.
pub proof fn lemma_response_line_not_error_line(t: Seq<char>, e: Seq<char>)
    ensures
        spec_response_line(t) != spec_error_line(e),
{
    reveal_strlit("Response: ");
    reveal_strlit("Request error: ");
    assert(spec_response_line(t)[2] == 's');
    assert(spec_error_line(e)[2] == 'q');
}

/// Law: every iteration reports exactly one outcome, and none is dropped.
/// The report block always carries its outcome's lines after the intro
/// lines — the status and response lines when the request completed, the
/// single error line when it did not — and a completed outcome's lines
/// are never error lines, so the two readings exclude one another.
pub proof fn lemma_exactly_one_outcome_reported(i: nat, m: Method, b: Option<String>, oc: Outcome)
    ensures
        spec_block(i, m, b, oc) =~= spec_intro_lines(i, m, b) + spec_outcome_lines(oc),
        spec_outcome_lines(oc).len() >= 1,
        oc matches Outcome::Success { status, body } ==> spec_outcome_lines(oc) =~= seq![
            spec_status_line(status as nat),
            spec_response_line(body@),
        ],
        oc matches Outcome::Failure { error } ==> spec_outcome_lines(oc) =~= seq![
            spec_error_line(error@),
        ],
        forall|s: nat, e: Seq<char>|
            #![trigger spec_status_line(s), spec_error_line(e)]
            spec_status_line(s) != spec_error_line(e),
        forall|t: Seq<char>, e: Seq<char>|
            #![trigger spec_response_line(t), spec_error_line(e)]
            spec_response_line(t) != spec_error_line(e),
{
    assert forall|s: nat, e: Seq<char>|
        #![trigger spec_status_line(s), spec_error_line(e)]
        spec_status_line(s) != spec_error_line(e) by {
        lemma_status_line_not_error_line(s, e);
    }
    assert forall|t: Seq<char>, e: Seq<char>|
        #![trigger spec_response_line(t), spec_error_line(e)]
        spec_response_line(t) != spec_error_line(e) by {
        lemma_response_line_not_error_line(t, e);
    }
}

/// The response body text to report: the decoded text when decoding
/// succeeded, the fixed placeholder when it did not.
pub fn response_text_or_placeholder(t: Option<String>) -> (r: String)
    ensures
        t matches Some(s) ==> r == s,
        t is None ==> r@ == "<error>"@,
{
    match t {
        Some(s) => s,
        None => String::from_str("<error>"),
    }
}

/// Renders the report block of one iteration. `iteration` is the 1-based
/// iteration number.
pub fn report_lines(iteration: u64, method: Method, body: &Option<String>, outcome: &Outcome) -> (r:
    Vec<String>)
    ensures
        views_match(r@, spec_block(iteration as nat, method, *body, *outcome)),
{
    let ghost blk = spec_block(iteration as nat, method, *body, *outcome);
    let mut r: Vec<String> = Vec::new();

    let mut header = String::from_str("=== Iteration ");
    let num = u64_to_dec(iteration);
    header.append(num.as_str());
    header.append(" ===");
    r.push(header);

    let mut mline = String::from_str("Method: ");
    mline.append(method.name());
    r.push(mline);

    if let Some(b) = body {
        let mut bline = String::from_str("Body: ");
        bline.append(b.as_str());
        r.push(bline);
    }

    match outcome {
        Outcome::Success { status, body: text } => {
            let mut sline = String::from_str("Status: ");
            let code = u64_to_dec(*status as u64);
            sline.append(code.as_str());
            r.push(sline);
            let mut rline = String::from_str("Response: ");
            rline.append(text.as_str());
            r.push(rline);
        },
        Outcome::Failure { error } => {
            let mut eline = String::from_str("Request error: ");
            eline.append(error.as_str());
            r.push(eline);
        },
    }
    proof {
        assert forall|k: int| 0 <= k < r@.len() implies #[trigger] r@[k]@ == blk[k] by {
            assert(r@[k]@ == blk[k]);
        }
    }
    r
}

} // verus!
