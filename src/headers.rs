//! Turning the extra header fields of the options into HTTP headers.
use vstd::prelude::*;

use crate::error::Error;
use crate::options::WebAuthOptions;
use http::header::{HeaderName, HeaderValue, InvalidHeaderName, InvalidHeaderValue};
use std::str::FromStr;

verus! {

#[verifier::external_type_specification]
#[verifier::external_body]
pub struct ExHeaderName(http::header::HeaderName);

#[verifier::external_type_specification]
#[verifier::external_body]
pub struct ExHeaderValue(http::header::HeaderValue);

/// An HTTP token character: a letter, a digit, or one of ``!#$%&'*+-.^_`|~``.
pub open spec fn is_token_char(c: char) -> bool {
    ||| ('a' <= c && c <= 'z')
    ||| ('A' <= c && c <= 'Z')
    ||| ('0' <= c && c <= '9')
    ||| c == '!' || c == '#' || c == '$' || c == '%' || c == '&' || c == '\''
    ||| c == '*' || c == '+' || c == '-' || c == '.' || c == '^' || c == '_'
    ||| c == '`' || c == '|' || c == '~'
}

/// A header name: 1 to 65535 token characters.
pub open spec fn valid_header_name(s: Seq<char>) -> bool {
    &&& 1 <= s.len() <= 65535
    &&& forall|i: int| 0 <= i < s.len() ==> is_token_char(#[trigger] s[i])
}

/// A header value: no control character but the horizontal tab.
pub open spec fn valid_header_value(s: Seq<char>) -> bool {
    forall|i: int|
        0 <= i < s.len() ==> #[trigger] s[i] == '\t' || (' ' <= s[i] && s[i] != '\x7f')
}

/// Relies on `http::HeaderName::from_str`: it accepts exactly the names of 1
/// to 65535 bytes that are all token characters.
#[verifier::external_body]
fn parse_header_name(s: &str) -> (r: Result<HeaderName, InvalidHeaderName>)
    ensures
        r is Ok <==> valid_header_name(s@),
{
    HeaderName::from_str(s)
}

/// Relies on `http::HeaderValue::from_str`: it accepts exactly the texts whose
/// bytes are all at least 32 and not 127, or tabs.
#[verifier::external_body]
fn parse_header_value(s: &str) -> (r: Result<HeaderValue, InvalidHeaderValue>)
    ensures
        r is Ok <==> valid_header_value(s@),
{
    HeaderValue::from_str(s)
}

/// Both the name and the value of a field are valid.
pub open spec fn valid_field(f: (String, String)) -> bool {
    valid_header_name(f.0@) && valid_header_value(f.1@)
}

/// Every field is valid.
pub open spec fn valid_fields(fields: Seq<(String, String)>) -> bool {
    forall|i: int| 0 <= i < fields.len() ==> valid_field(#[trigger] fields[i])
}

/// `e` is the error for the first invalid field: `InvalidHeaderName` when its
/// name is invalid, else `InvalidHeaderValue`.
pub open spec fn first_field_error(fields: Seq<(String, String)>, e: Error) -> bool {
    exists|i: int|
        0 <= i < fields.len() && valid_fields(fields.take(i)) && !valid_field(#[trigger] fields[i])
            && if valid_header_name(fields[i].0@) {
            e is InvalidHeaderValue
        } else {
            e is InvalidHeaderName
        }
}

/// Converts the extra header fields, in order, into HTTP header names and
/// values. Fails on the first field whose name or value is not valid.
pub fn header_fields(options: &WebAuthOptions) -> (r: Result<Vec<(HeaderName, HeaderValue)>, Error>)
    ensures
        r is Ok <==> valid_fields(options.fields()),
        r is Ok ==> r->Ok_0.len() == options.fields().len(),
        r is Err ==> first_field_error(options.fields(), r->Err_0),
{
    let fields = options.header_fields();
    let n = fields.len();
    let mut out: Vec<(HeaderName, HeaderValue)> = Vec::new();
    let mut i: usize = 0;
    while i < n
        invariant
            n == fields@.len(),
            fields@ == options.fields(),
            i <= n,
            out@.len() == i,
            valid_fields(fields@.take(i as int)),
        decreases n - i,
    {
        let ghost prefix = fields@.take(i as int);
        let name = match parse_header_name(fields[i].0.as_str()) {
            Ok(name) => name,
            Err(e) => {
                assert(first_field_error(fields@, Error::InvalidHeaderName(e))) by {
                    assert(fields@.take(i as int) == prefix);
                };
                return Err(Error::InvalidHeaderName(e));
            },
        };
        let value = match parse_header_value(fields[i].1.as_str()) {
            Ok(value) => value,
            Err(e) => {
                assert(first_field_error(fields@, Error::InvalidHeaderValue(e))) by {
                    assert(fields@.take(i as int) == prefix);
                };
                return Err(Error::InvalidHeaderValue(e));
            },
        };
        out.push((name, value));
        assert(fields@.take(i + 1) =~= prefix.push(fields@[i as int]));
        i = i + 1;
    }
    assert(fields@.take(n as int) =~= fields@);
    Ok(out)
}

} // verus!
