use crate::decimal::decimal;
use crate::decimal::decimal_string;
use vstd::prelude::*;

verus! {

/// One HTTP header, as a name and a value.
pub struct Header {
    pub name: String,
    pub value: String,
}

/// Everything a probe asks the transport to send: the target URL and at most
/// one custom header.
pub struct RequestDescriptor {
    pub url: String,
    pub header: Option<Header>,
}

/// The fixed endpoint the authenticated probe targets.
pub open spec fn openai_url() -> Seq<char> {
    "https://api.openai.com/v1/models"@
}

/// The fixed endpoint the unauthenticated probe targets.
pub open spec fn generic_url() -> Seq<char> {
    "https://httpbin.org/get"@
}

/// The credential characters actually used: the configured value, or nothing
/// when none is configured.
pub open spec fn credential_chars(credential: Option<String>) -> Seq<char> {
    match credential {
        Some(c) => c@,
        None => Seq::<char>::empty(),
    }
}

/// The value of the authorization header for a credential: the bearer scheme
/// prefix followed by the credential itself.
pub open spec fn bearer_value(credential: Seq<char>) -> Seq<char> {
    "Bearer "@ + credential
}

/// The request the authenticated probe sends. It is built for every
/// credential value: a missing credential is not an error and does not
/// short-circuit the probe; it yields a bearer header whose token part is
/// empty.
pub fn openai_request(credential: Option<String>) -> (r: RequestDescriptor)
    ensures
        r.url@ == openai_url(),
        r.header matches Some(h) && h.name@ == "Authorization"@ && h.value@ == bearer_value(
            credential_chars(credential),
        ),
{
    let value = match credential {
        Some(c) => String::from_str("Bearer ").concat(c.as_str()),
        None => String::from_str("Bearer "),
    };
    proof {
        assert(value@ =~= bearer_value(credential_chars(credential)));
    }
    RequestDescriptor {
        url: String::from_str("https://api.openai.com/v1/models"),
        header: Some(
            Header { name: String::from_str("Authorization"), value },
        ),
    }
}

/// The request the unauthenticated probe sends: no custom header at all.
pub fn generic_request() -> (r: RequestDescriptor)
    ensures
        r.url@ == generic_url(),
        r.header is None,
{
    RequestDescriptor { url: String::from_str("https://httpbin.org/get"), header: None }
}

/// The report of a successful authenticated probe exchange: the numeric
/// status, then the response body itself, unparsed.
pub open spec fn openai_success_text(status: u16, body: Seq<char>) -> Seq<char> {
    "Status: "@ + decimal(status as nat) + ", Response: "@ + body
}

/// The byte length of the UTF-8 encoding of `s`, as `str::len` reports it.
pub open spec fn utf8_len(s: Seq<char>) -> nat {
    (vstd::utf8::encode_utf8(s).len() as usize) as nat
}

/// The report of a successful unauthenticated probe exchange: the numeric
/// status and the byte length of the response body, not the body itself.
pub open spec fn generic_success_text(status: u16, body_len: nat) -> Seq<char> {
    "HTTP Test - Status: "@ + decimal(status as nat) + ", Response length: "@ + decimal(body_len)
        + " chars"@
}

/// Turns a transport outcome of the authenticated probe into its report. A
/// completed exchange is a success whatever its status code, a received 401
/// or 500 included; only a transport failure is an error, and its message is
/// passed through word for word, never interpreted or retried.
pub fn openai_report(outcome: Result<(u16, String), String>) -> (r: Result<String, String>)
    ensures
        outcome matches Ok(p) ==> r matches Ok(s) && s@ == openai_success_text(p.0, p.1@),
        outcome matches Err(e) ==> r matches Err(m) && m@ == e@,
{
    match outcome {
        Ok((status, body)) => {
            let digits = decimal_string(status as u64);
            let s = String::from_str("Status: ").concat(digits.as_str()).concat(
                ", Response: ",
            ).concat(body.as_str());
            proof {
                assert(s@ =~= openai_success_text(status, body@));
            }
            Ok(s)
        },
        Err(e) => Err(e),
    }
}

/// Turns a transport outcome of the unauthenticated probe into its report,
/// with the same success and failure rule as the authenticated probe.
pub fn generic_report(outcome: Result<(u16, String), String>) -> (r: Result<String, String>)
    ensures
        outcome matches Ok(p) ==> r matches Ok(s) && s@ == generic_success_text(
            p.0,
            utf8_len(p.1@),
        ),
        outcome matches Err(e) ==> r matches Err(m) && m@ == e@,
{
    match outcome {
        Ok((status, body)) => {
            let status_digits = decimal_string(status as u64);
            let len: usize = body.as_str().len();
            let len_digits = decimal_string(len as u64);
            let s = String::from_str("HTTP Test - Status: ").concat(status_digits.as_str())
                .concat(", Response length: ").concat(len_digits.as_str()).concat(" chars");
            proof {
                assert(s@ =~= generic_success_text(status, utf8_len(body@)));
            }
            Ok(s)
        },
        Err(e) => Err(e),
    }
}

} // verus!
