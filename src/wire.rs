use vstd::prelude::*;
use vstd::string::StringExecFns;

verus! {

/// HTTP method of a registry request.
#[derive(Clone, Copy, Debug, PartialEq, Eq, Structural)]
pub enum Method {
    /// Parameters travel in the query string.
    Get,
    /// Parameters travel as a form-encoded body.
    Post,
}

/// Why a registry operation failed.
#[derive(Clone, Copy, Debug, PartialEq, Eq, Structural)]
pub enum ClientError {
    /// The operation needs both a login and a password, and the client lacks one.
    MissingCredentials,
    /// The base address cannot be joined with the operation's path.
    InvalidUrl,
    /// The transport could not deliver the request or read the reply.
    Transport,
    /// The registry answered with a status outside the success range.
    Status(u16),
    /// A successful reply whose body does not have the expected shape.
    Decode,
}

/// A request ready to be sent: method, absolute address, and the ordered
/// key/value pairs of the query (for `Get`) or of the form (for `Post`).
#[derive(Clone, Debug)]
pub struct Request {
    pub method: Method,
    pub url: String,
    pub params: Vec<(String, String)>,
}

/// The parameters of a request as pairs of character sequences.
pub open spec fn params_view(params: Seq<(String, String)>) -> Seq<(Seq<char>, Seq<char>)> {
    params.map_values(|p: (String, String)| (p.0@, p.1@))
}

impl Request {
    /// The parameters of this request as pairs of character sequences.
    pub open spec fn pairs(&self) -> Seq<(Seq<char>, Seq<char>)> {
        params_view(self.params@)
    }
}

/// A status in the success range 200..=299.
pub open spec fn is_success(status: u16) -> bool {
    200 <= status && status < 300
}

/// Classifies a reply status: success passes, anything else is a status error
/// carrying the status, and the body is then not to be read.
pub fn check_status(status: u16) -> (r: Result<(), ClientError>)
    ensures
        is_success(status) ==> r == Ok::<(), ClientError>(()),
        !is_success(status) ==> r == Err::<(), ClientError>(ClientError::Status(status)),
{
    if 200 <= status && status < 300 {
        Ok(())
    } else {
        Err(ClientError::Status(status))
    }
}

/// The character of a decimal digit.
pub open spec fn digit_char(d: nat) -> char {
    if d == 0 { '0' }
    else if d == 1 { '1' }
    else if d == 2 { '2' }
    else if d == 3 { '3' }
    else if d == 4 { '4' }
    else if d == 5 { '5' }
    else if d == 6 { '6' }
    else if d == 7 { '7' }
    else if d == 8 { '8' }
    else { '9' }
}

/// The decimal rendering of `n`, most significant digit first, with no
/// leading zeros (zero itself is `"0"`).
pub open spec fn decimal_text(n: nat) -> Seq<char>
    decreases n,
{
    if n < 10 {
        seq![digit_char(n)]
    } else {
        decimal_text(n / 10) + seq![digit_char(n % 10)]
    }
}

/// The rendering of a boolean: `"true"` or `"false"`.
pub open spec fn bool_text(b: bool) -> Seq<char> {
    if b { seq!['t', 'r', 'u', 'e'] } else { seq!['f', 'a', 'l', 's', 'e'] }
}

fn digit_str(d: u64) -> (r: &'static str)
    requires
        d < 10,
    ensures
        r@ == seq![digit_char(d as nat)],
{
    if d == 0 {
        proof { reveal_strlit("0"); }
        "0"
    } else if d == 1 {
        proof { reveal_strlit("1"); }
        "1"
    } else if d == 2 {
        proof { reveal_strlit("2"); }
        "2"
    } else if d == 3 {
        proof { reveal_strlit("3"); }
        "3"
    } else if d == 4 {
        proof { reveal_strlit("4"); }
        "4"
    } else if d == 5 {
        proof { reveal_strlit("5"); }
        "5"
    } else if d == 6 {
        proof { reveal_strlit("6"); }
        "6"
    } else if d == 7 {
        proof { reveal_strlit("7"); }
        "7"
    } else if d == 8 {
        proof { reveal_strlit("8"); }
        "8"
    } else {
        proof { reveal_strlit("9"); }
        "9"
    }
}

/// Renders `n` in decimal.
pub fn decimal(n: u64) -> (r: String)
    ensures
        r@ == decimal_text(n as nat),
    decreases n,
{
    if n < 10 {
        String::from_str(digit_str(n))
    } else {
        let mut s = decimal(n / 10);
        s.append(digit_str(n % 10));
        s
    }
}

/// Renders `b` as `"true"` or `"false"`.
pub fn boolean(b: bool) -> (r: String)
    ensures
        r@ == bool_text(b),
{
    if b {
        proof { reveal_strlit("true"); }
        String::from_str("true")
    } else {
        proof { reveal_strlit("false"); }
        String::from_str("false")
    }
}

} // verus!
