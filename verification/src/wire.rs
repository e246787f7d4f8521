//! The error wire protocol and the header grammar.
//!
//! Every non-success response carries `{"error":{"type":K,"message":M}}`
//! with a stable type discriminant, so collaborating services pattern-match
//! on it; [`AuthError::to_json_body`] renders exactly that shape. A
//! collaborator that received such a body hands its two fields back as a
//! [`ServiceErrorJSON`] and reconstructs the typed error with
//! [`AuthError::from_wire`].

use crate::errors::AuthError;
use crate::hashing::hex_digit;
use crate::strutil::str_eq;
use vstd::prelude::*;
use vstd::string::*;

verus! {

broadcast use vstd::string::group_string_axioms;

/// The inner object of a serialized error: its type discriminant and its
/// message.
pub struct ServiceErrorInner {
    pub kind: String,
    pub message: String,
}

/// A serialized error body, as a collaborator receives it.
pub struct ServiceErrorJSON {
    pub error: ServiceErrorInner,
}

/// The message holds two distinct quote characters: something is quoted.
pub open spec fn has_quoted_span(s: Seq<char>) -> bool {
    exists|i: int, j: int| 0 <= i < j < s.len() && s[i] == '\'' && s[j] == '\''
}

/// `i` is the position of the first quote of `s`.
pub open spec fn is_first_quote(s: Seq<char>, i: int) -> bool {
    &&& 0 <= i < s.len()
    &&& s[i] == '\''
    &&& forall|k: int| 0 <= k < i ==> s[k] != '\''
}

/// `j` is the position of the last quote of `s`.
pub open spec fn is_last_quote(s: Seq<char>, j: int) -> bool {
    &&& 0 <= j < s.len()
    &&& s[j] == '\''
    &&& forall|k: int| j < k < s.len() ==> s[k] != '\''
}

/// `out` is the span of `msg` between its first and its last quote,
/// exclusive.
pub open spec fn is_quoted_span(msg: Seq<char>, out: Seq<char>) -> bool {
    exists|i: int, j: int|
        is_first_quote(msg, i) && is_last_quote(msg, j) && i < j && out == msg.subrange(i + 1, j)
}

impl ServiceErrorInner {
    /// The username quoted inside the message: the span between the first
    /// and the last quote character.
    pub fn get_username(&self) -> (r: String)
        requires
            has_quoted_span(self.message@),
        ensures
            is_quoted_span(self.message@, r@),
    {
        let msg = self.message.as_str();
        let n = msg.unicode_len();
        let mut first: usize = 0;
        while first < n && msg.get_char(first) != '\''
            invariant
                n == msg@.len(),
                first <= n,
                forall|k: int| 0 <= k < first ==> msg@[k] != '\'',
            decreases n - first,
        {
            first = first + 1;
        }
        proof {
            if first >= n {
                let (i, j) = choose|i: int, j: int|
                    0 <= i < j < msg@.len() && msg@[i] == '\'' && msg@[j] == '\'';
                assert(msg@[i] != '\'');
            }
        }
        let mut stop: usize = n;
        while stop > 0 && msg.get_char(stop - 1) != '\''
            invariant
                n == msg@.len(),
                stop <= n,
                forall|k: int| stop <= k < n ==> msg@[k] != '\'',
            decreases stop,
        {
            stop = stop - 1;
        }
        let last = stop - 1;
        proof {
            let (i, j) = choose|i: int, j: int|
                0 <= i < j < msg@.len() && msg@[i] == '\'' && msg@[j] == '\'';
            assert(first <= i) by {
                if i < first {
                    assert(msg@[i] != '\'');
                }
            }
            assert(j <= last) by {
                if last < j {
                    assert(msg@[j] != '\'');
                }
            }
            assert(is_first_quote(msg@, first as int));
            assert(is_last_quote(msg@, last as int));
        }
        let span = msg.substring_char(first + 1, last);
        span.to_owned()
    }
}

/// What reconstructing a received wire body yields, by its type
/// discriminant: the username-bearing variants take their username back out
/// of the quoted span of the message, the message-bearing ones keep the
/// message, and an unrecognized discriminant is read as not-found.
pub open spec fn reconstructed_error(kind: Seq<char>, message: Seq<char>, r: AuthError) -> bool {
    if kind == "UserNotFound"@ {
        r matches AuthError::UserNotFound(name) && is_quoted_span(message, name@)
    } else if kind == "UsernameTaken"@ {
        r matches AuthError::UsernameTaken(name) && is_quoted_span(message, name@)
    } else if kind == "JsonParsingError"@ {
        r matches AuthError::JsonParsingError(m) && m@ == message
    } else if kind == "DatabaseError"@ {
        r matches AuthError::DatabaseError(m) && m@ == message
    } else if kind == "InvalidPassword"@ {
        r matches AuthError::InvalidPassword
    } else if kind == "AuthenticationError"@ {
        r matches AuthError::AuthenticationError
    } else if kind == "AuthorizationError"@ {
        r matches AuthError::AuthorizationError
    } else if kind == "AuthorizationHeaderError"@ {
        r matches AuthError::AuthorizationHeaderError
    } else {
        r matches AuthError::NotFound
    }
}

impl AuthError {
    /// Reconstructs the typed error that a received wire body denotes, as
    /// [`reconstructed_error`] dictates.
    pub fn from_wire(wire: &ServiceErrorJSON) -> (r: AuthError)
        requires
            (wire.error.kind@ == "UserNotFound"@ || wire.error.kind@ == "UsernameTaken"@)
                ==> has_quoted_span(wire.error.message@),
        ensures
            reconstructed_error(wire.error.kind@, wire.error.message@, r),
    {
        let kind = wire.error.kind.as_str();
        if str_eq(kind, "UserNotFound") {
            AuthError::UserNotFound(wire.error.get_username())
        } else if str_eq(kind, "UsernameTaken") {
            AuthError::UsernameTaken(wire.error.get_username())
        } else if str_eq(kind, "JsonParsingError") {
            AuthError::JsonParsingError(wire.error.message.clone())
        } else if str_eq(kind, "DatabaseError") {
            AuthError::DatabaseError(wire.error.message.clone())
        } else if str_eq(kind, "InvalidPassword") {
            AuthError::InvalidPassword
        } else if str_eq(kind, "AuthenticationError") {
            AuthError::AuthenticationError
        } else if str_eq(kind, "AuthorizationError") {
            AuthError::AuthorizationError
        } else if str_eq(kind, "AuthorizationHeaderError") {
            AuthError::AuthorizationHeaderError
        } else {
            AuthError::NotFound
        }
    }
}

/// How one character is written inside a JSON string: quotes and
/// backslashes get a backslash escape, control characters a `\u00..`
/// escape, everything else stands as itself.
pub open spec fn json_escaped_char(c: char) -> Seq<char> {
    if c == '"' {
        seq!['\\', '"']
    } else if c == '\\' {
        seq!['\\', '\\']
    } else if (c as u32) < 32 {
        seq![
            '\\',
            'u',
            '0',
            '0',
            hex_digit(((c as u32) >> 4) as int),
            hex_digit(((c as u32) & 15) as int),
        ]
    } else {
        seq![c]
    }
}

/// A string written inside JSON quotes: each character escaped.
pub open spec fn json_escaped(s: Seq<char>) -> Seq<char>
    decreases s.len(),
{
    if s.len() == 0 {
        Seq::empty()
    } else {
        json_escaped(s.drop_last()) + json_escaped_char(s.last())
    }
}

/// The body of a non-success response: the error object with its type
/// discriminant and message, both escaped.
pub open spec fn spec_error_body(kind: Seq<char>, message: Seq<char>) -> Seq<char> {
    "{\"error\":{\"type\":\""@ + json_escaped(kind) + "\",\"message\":\""@ + json_escaped(message)
        + "\"}}"@
}

/// Relies on alloc::string::String::push: appends exactly the one
/// character.
#[verifier::external_body]
fn push_char(s: &mut String, c: char)
    ensures
        final(s)@ == old(s)@.push(c),
{
    s.push(c);
}

/// The lowercase hexadecimal digit character for a value below 16.
fn hex_digit_char(n: u8) -> (r: char)
    requires
        n < 16,
    ensures
        r == hex_digit(n as int),
{
    if n == 0 {
        '0'
    } else if n == 1 {
        '1'
    } else if n == 2 {
        '2'
    } else if n == 3 {
        '3'
    } else if n == 4 {
        '4'
    } else if n == 5 {
        '5'
    } else if n == 6 {
        '6'
    } else if n == 7 {
        '7'
    } else if n == 8 {
        '8'
    } else if n == 9 {
        '9'
    } else if n == 10 {
        'a'
    } else if n == 11 {
        'b'
    } else if n == 12 {
        'c'
    } else if n == 13 {
        'd'
    } else if n == 14 {
        'e'
    } else {
        'f'
    }
}

/// Escapes a string for inclusion inside JSON quotes.
pub fn escape_json(s: &str) -> (r: String)
    ensures
        r@ == json_escaped(s@),
{
    let n = s.unicode_len();
    let mut out = String::new();
    assert(s@.take(0) =~= Seq::<char>::empty());
    for i in 0..n
        invariant
            n == s@.len(),
            out@ == json_escaped(s@.take(i as int)),
    {
        let c = s.get_char(i);
        let ghost out0 = out@;
        if c == '"' {
            push_char(&mut out, '\\');
            push_char(&mut out, '"');
        } else if c == '\\' {
            push_char(&mut out, '\\');
            push_char(&mut out, '\\');
        } else if (c as u32) < 32 {
            let code = c as u32;
            assert((code >> 4) < 16 && (code & 15) < 16) by (bit_vector)
                requires
                    code < 32,
            ;
            push_char(&mut out, '\\');
            push_char(&mut out, 'u');
            push_char(&mut out, '0');
            push_char(&mut out, '0');
            push_char(&mut out, hex_digit_char((code >> 4) as u8));
            push_char(&mut out, hex_digit_char((code & 15) as u8));
        } else {
            push_char(&mut out, c);
        }
        proof {
            assert(out@ =~= out0 + json_escaped_char(c));
            assert(s@.take(i + 1).drop_last() =~= s@.take(i as int));
            assert(s@.take(i + 1).last() == s@[i as int]);
            assert(out@ =~= json_escaped(s@.take(i + 1)));
        }
    }
    proof {
        assert(s@.take(n as int) =~= s@);
    }
    out
}

impl AuthError {
    /// Renders the error as the wire body
    /// `{"error":{"type":K,"message":M}}`, with the same type discriminant
    /// and message that [`AuthError::error_type`] and
    /// [`AuthError::error_message`] report.
    pub fn to_json_body(&self) -> (r: String)
        ensures
            r@ == spec_error_body(
                crate::errors::spec_error_type(*self),
                crate::errors::spec_error_message(*self),
            ),
    {
        let kind = self.error_type();
        let message = self.error_message();
        let mut out = String::from_str("{\"error\":{\"type\":\"");
        out.append(escape_json(kind.as_str()).as_str());
        out.append("\",\"message\":\"");
        out.append(escape_json(message.as_str()).as_str());
        out.append("\"}}");
        out
    }
}

/// Reads the bearer token out of an authorization header: a missing or
/// malformed header is rejected, a header of the shape `Bearer <token>`
/// yields the token.
pub fn parse_bearer_header(header: Option<&str>) -> (r: Result<String, AuthError>)
    ensures
        header matches None ==> r matches Err(AuthError::AuthorizationHeaderError),
        header matches Some(h) ==> {
            &&& (h@.len() >= 7 && h@.take(7) == "Bearer "@) ==> (r matches Ok(t) && t@ == h@.skip(
                7,
            ))
            &&& !(h@.len() >= 7 && h@.take(7) == "Bearer "@) ==> r matches Err(
                AuthError::AuthorizationHeaderError,
            )
        },
{
    match header {
        None => Err(AuthError::AuthorizationHeaderError),
        Some(h) => {
            let n = h.unicode_len();
            if n >= 7 {
                let prefix = h.substring_char(0, 7);
                if str_eq(prefix, "Bearer ") {
                    let token = h.substring_char(7, n);
                    proof {
                        assert(h@.take(7) =~= h@.subrange(0, 7));
                        assert(h@.skip(7) =~= h@.subrange(7, h@.len() as int));
                    }
                    Ok(token.to_owned())
                } else {
                    proof {
                        assert(h@.take(7) =~= h@.subrange(0, 7));
                    }
                    Err(AuthError::AuthorizationHeaderError)
                }
            } else {
                Err(AuthError::AuthorizationHeaderError)
            }
        },
    }
}

/// Confirms that the username an authentication resolved to is the expected
/// principal; any other principal fails authentication.
pub fn check_authenticated_username(username: &str, expected_username: &str) -> (r: Result<
    (),
    AuthError,
>)
    ensures
        username@ == expected_username@ ==> (r matches Ok(u) && u == ()),
        username@ != expected_username@ ==> r matches Err(AuthError::AuthenticationError),
{
    if str_eq(username, expected_username) {
        Ok(())
    } else {
        Err(AuthError::AuthenticationError)
    }
}

} // verus!
