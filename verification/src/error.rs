//! The errors that a bridge can deliver, and how each one reads.

use vstd::prelude::*;

verus! {

/// Status code of the native engine for a transaction that went well.
pub const STATUS_OK: u32 = 0;

#[verifier::external_type_specification]
#[verifier::external_body]
pub struct ExJsonFailure(serde_json::Error);

/// True for a `serde_json::Error` that stands for a failed read or write
/// rather than for a fault of the text.
pub uninterp spec fn json_error_is_io(err: serde_json::Error) -> bool;

/// The text that a `serde_json::Error` prints of itself, where the error
/// does not stand for a failed read or write.
pub uninterp spec fn json_error_text(err: serde_json::Error) -> Seq<char>;

/// Trusted: `serde_json::Error::is_io`, which tells by the error's kind
/// whether it stands for a failed read or write. The answer depends on the
/// error alone; the contract only gives it a name.
#[verifier::external_body]
fn json_error_from_io(err: &serde_json::Error) -> (io: bool)
    ensures
        io == json_error_is_io(*err),
{
    err.is_io()
}

/// Trusted: `Display` of `serde_json::Error`, which writes the kind of the
/// failure and, where the input position is known, its line and column. For
/// a fault of the text these are held in the error, and the contract gives
/// what is written a name. For a failed read or write the text is that of
/// the platform's error, of which nothing is claimed.
#[verifier::external_body]
fn print_json_error(err: &serde_json::Error) -> (text: String)
    ensures
        !json_error_is_io(*err) ==> text@ == json_error_text(*err),
{
    err.to_string()
}

/// A payload that could not be decoded, with the decoder's own account of it.
#[derive(Debug)]
pub struct JsonError {
    err: serde_json::Error,
}

impl JsonError {
    /// The error that stands for the decoder's failure `err`.
    pub closed spec fn wrap(err: serde_json::Error) -> JsonError {
        JsonError { err }
    }

    /// The decoder's failure behind this error.
    pub closed spec fn cause(self) -> serde_json::Error {
        self.err
    }

    /// True when the decoder failed to read its input, not to make sense
    /// of it. No decoding of a text in memory ends so.
    pub open spec fn from_io(self) -> bool {
        json_error_is_io(self.cause())
    }

    /// What `message` returns for a fault of the text.
    pub open spec fn text(self) -> Seq<char> {
        json_error_text(self.cause())
    }

    pub fn new(err: serde_json::Error) -> (wrapped: JsonError)
        ensures
            wrapped == JsonError::wrap(err),
    {
        JsonError { err }
    }

    /// Tells whether the decoder failed to read its input.
    pub fn is_io(&self) -> (io: bool)
        ensures
            io == self.from_io(),
    {
        json_error_from_io(&self.err)
    }

    /// The decoder's own message. For a fault of the text it is the text
    /// that the error holds; for a failed read it is the platform's.
    pub fn message(&self) -> (text: String)
        ensures
            !self.from_io() ==> text@ == self.text(),
    {
        print_json_error(&self.err)
    }

    /// The decoder's failure, for callers that chain errors.
    pub fn inner(&self) -> (err: &serde_json::Error)
        ensures
            *err == self.cause(),
    {
        &self.err
    }

    /// Gives the decoder's failure back.
    pub fn into_inner(self) -> (err: serde_json::Error)
        ensures
            err == self.cause(),
    {
        self.err
    }

    /// `wrap` and `cause` undo each other.
    pub proof fn lemma_wrap_cause(self, err: serde_json::Error)
        ensures
            JsonError::wrap(err).cause() == err,
            JsonError::wrap(self.cause()) == self,
    {
    }
}

/// What can go wrong between a native completion and the value handed to the
/// consumer.
#[derive(Debug)]
pub enum ClientError {
    /// The engine reported success but had no result text.
    NullPointerError,
    /// The result text could not be decoded.
    ParseError(JsonError),
    /// The queue between the callback and the consumer failed.
    PollError,
    /// The engine reported a status other than success.
    PubNub { code: u32 },
}

/// The character of a decimal digit.
pub open spec fn digit(d: nat) -> char
    recommends
        d < 10,
{
    ('0' as u8 + d) as char
}

/// `n` in decimal, without sign or leading zeros.
pub open spec fn decimal(n: nat) -> Seq<char>
    decreases n,
{
    if n < 10 {
        seq![digit(n)]
    } else {
        decimal(n / 10) + seq![digit(n % 10)]
    }
}

fn digit_text(d: u32) -> (text: &'static str)
    requires
        d < 10,
    ensures
        text@ == seq![digit(d as nat)],
{
    proof {
        reveal_strlit("0");
        reveal_strlit("1");
        reveal_strlit("2");
        reveal_strlit("3");
        reveal_strlit("4");
        reveal_strlit("5");
        reveal_strlit("6");
        reveal_strlit("7");
        reveal_strlit("8");
        reveal_strlit("9");
    }
    let text = if d == 0 {
        "0"
    } else if d == 1 {
        "1"
    } else if d == 2 {
        "2"
    } else if d == 3 {
        "3"
    } else if d == 4 {
        "4"
    } else if d == 5 {
        "5"
    } else if d == 6 {
        "6"
    } else if d == 7 {
        "7"
    } else if d == 8 {
        "8"
    } else {
        "9"
    };
    assert(text@ =~= seq![digit(d as nat)]);
    text
}

/// Writes `n` in decimal.
pub fn decimal_text(n: u32) -> (text: String)
    ensures
        text@ == decimal(n as nat),
    decreases n,
{
    if n < 10 {
        String::from_str(digit_text(n))
    } else {
        decimal_text(n / 10).concat(digit_text(n % 10))
    }
}

/// The message of a parse error whose decoder said `detail`: the heading of
/// a parse error, then the decoder's message word for word.
pub fn parse_error_message(detail: &str) -> (text: String)
    ensures
        text@ == "PubNub client parse error: "@ + detail@,
{
    String::from_str("PubNub client parse error: ").concat(detail)
}

impl ClientError {
    /// The fixed words that the message of this error begins with.
    pub open spec fn heading(self) -> Seq<char> {
        match self {
            ClientError::NullPointerError => "PubNub client null pointer error"@,
            ClientError::ParseError(_) => "PubNub client parse error: "@,
            ClientError::PollError => "PubNub client poll error"@,
            ClientError::PubNub { .. } => "PubNub client error with code "@,
        }
    }

    /// What follows the heading: the decoder's message for a parse error,
    /// the status code in decimal for a native failure, nothing otherwise.
    pub open spec fn detail(self) -> Seq<char> {
        match self {
            ClientError::ParseError(e) => e.text(),
            ClientError::PubNub { code } => decimal(code as nat),
            _ => Seq::empty(),
        }
    }

    /// What `message` returns: the heading, then the detail.
    pub open spec fn text(self) -> Seq<char> {
        self.heading() + self.detail()
    }

    /// True for a parse error whose decoder failed to read its input.
    pub open spec fn from_io(self) -> bool {
        self matches ClientError::ParseError(e) && e.from_io()
    }

    /// The message of this error, for a person to read. It always begins
    /// with the heading. What follows is the detail, but for a decoder that
    /// failed to read its input, where it is the platform's message.
    pub fn message(&self) -> (text: String)
        ensures
            self.heading().is_prefix_of(text@),
            !self.from_io() ==> text@ == self.text(),
    {
        match self {
            ClientError::NullPointerError => {
                let text = String::from_str("PubNub client null pointer error");
                assert(text@ == self.heading() + Seq::<char>::empty());
                text
            },
            ClientError::ParseError(e) => {
                let detail = e.message();
                parse_error_message(detail.as_str())
            },
            ClientError::PollError => {
                let text = String::from_str("PubNub client poll error");
                assert(text@ == self.heading() + Seq::<char>::empty());
                text
            },
            ClientError::PubNub { code } => {
                let digits = decimal_text(*code);
                String::from_str("PubNub client error with code ").concat(digits.as_str())
            },
        }
    }

    /// The error underneath this one: the decoder's failure for a payload
    /// that could not be decoded, nothing for the other kinds.
    pub fn source(&self) -> (cause: Option<&JsonError>)
        ensures
            match *self {
                ClientError::ParseError(e) => cause == Some(&e),
                _ => cause is None,
            },
    {
        match self {
            ClientError::ParseError(e) => Some(e),
            _ => None,
        }
    }
}

} // verus!
