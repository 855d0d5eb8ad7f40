//! Submission of one rendered script to the scheduler: the request body and
//! endpoint URL it is carried in, and the classification of what came back.
//! The network call itself lives outside the library; it hands back the
//! response status and body, or nothing where transport already failed.

use vstd::prelude::*;
use vstd::string::*;

use crate::text::{spec_dec_chars, u64_to_string};

verus! {

/// How one submission ended.  `Submitted` carries the scheduler's response
/// text (which names the scheduler job), `Rejected` a non-success status,
/// `TransportFailure` a request that could not be completed or read.  The
/// outcome only decides logging and whether the next job proceeds; it is
/// never persisted.
#[derive(Debug, Clone, PartialEq, Eq)]
pub enum DispatchOutcome {
    Submitted(String),
    Rejected(String),
    TransportFailure(String),
}

/// True for the statuses the scheduler counts as success.
pub open spec fn spec_success_status(status: u16) -> bool {
    200 <= status < 300
}

/// Classifies a completed HTTP exchange: a success status with a readable
/// body is `Submitted` with that body; a success status whose body could not
/// be read is a `TransportFailure`; any other status is `Rejected`.  A
/// request that never completed is classified by the caller as
/// `TransportFailure` with the transport's reason.
pub fn classify_submission(status: u16, body: Option<String>) -> (r: DispatchOutcome)
    ensures
        spec_success_status(status) && body is Some ==> r == DispatchOutcome::Submitted(
            body->Some_0,
        ),
        spec_success_status(status) && body is None ==> (r matches DispatchOutcome::TransportFailure(m)
            && m@ == "response body could not be read"@),
        !spec_success_status(status) ==> (r matches DispatchOutcome::Rejected(m) && m@
            == "scheduler returned status "@ + spec_dec_chars(status as nat)),
{
    if 200 <= status && status < 300 {
        match body {
            Some(t) => DispatchOutcome::Submitted(t),
            None => DispatchOutcome::TransportFailure(
                "response body could not be read".to_owned(),
            ),
        }
    } else {
        let mut m: String = "scheduler returned status ".to_owned();
        let digits = u64_to_string(status as u64);
        m.append(digits.as_str());
        DispatchOutcome::Rejected(m)
    }
}

/// The scheduler's job-submission endpoint on the configured host and port.
pub fn submission_url(host: &String, port: u16) -> (r: String)
    ensures
        r@ == "http://"@ + host@ + ":"@ + spec_dec_chars(port as nat)
            + "/slurm/v0.0.39/job/submit"@,
{
    let mut r: String = "http://".to_owned();
    r.append(host.as_str());
    r.append(":");
    let digits = u64_to_string(port as u64);
    r.append(digits.as_str());
    r.append("/slurm/v0.0.39/job/submit");
    proof {
        assert(r@ =~= "http://"@ + host@ + ":"@ + spec_dec_chars(port as nat)
            + "/slurm/v0.0.39/job/submit"@);
    }
    r
}

/// The JSON string literal (quotes and escapes included) that encodes exactly
/// the given characters.
pub uninterp spec fn json_string_of(s: Seq<char>) -> Seq<char>;

/// Relies on serde_json::to_string for &str: the returned text is the JSON
/// string literal encoding exactly the argument's characters, a function of
/// those characters alone.  For a string the call cannot fail — it writes
/// through an infallible Vec writer and a str's serialization has no other
/// error path — so the result is owed on every input.
#[verifier::external_body]
fn json_quote(s: &str) -> (r: String)
    ensures
        r@ == json_string_of(s@),
{
    serde_json::to_string(s).unwrap()
}

/// The submission request body: the script under `job.script`, the fixed
/// minimal execution environment, and the fixed remote working directory.
pub open spec fn spec_submission_body(script: Seq<char>) -> Seq<char> {
    "{\"job\":{\"script\":"@ + json_string_of(script)
        + ",\"environment\":[\"PATH=/usr/local/sbin:/usr/local/bin:/usr/sbin:/usr/bin:/sbin:/bin:/snap/bin\"],\"current_working_directory\":\"/home/slurm\"}}"@
}

/// Frames the request body around the script text.
pub fn build_submission_body(script: &String) -> (r: String)
    ensures
        r@ == spec_submission_body(script@),
{
    let q = json_quote(script.as_str());
    let mut b: String = "{\"job\":{\"script\":".to_owned();
    b.append(q.as_str());
    b.append(",\"environment\":[\"PATH=/usr/local/sbin:/usr/local/bin:/usr/sbin:/usr/bin:/sbin:/bin:/snap/bin\"],\"current_working_directory\":\"/home/slurm\"}}");
    proof {
        assert(b@ =~= spec_submission_body(script@));
    }
    b
}

} // verus!
