use vstd::prelude::*;
use vstd::string::StringExecFns;

verus! {

/// A categorical error code.
#[derive(Clone, Copy, PartialEq, Eq, Debug)]
pub struct Errno(pub i32);

/// A recoverable error: an optional message and an optional error code.
#[derive(Clone, Copy, PartialEq, Eq, Debug)]
pub struct KError {
    pub message: Option<&'static str>,
    pub errno: Option<Errno>,
}

pub type KResult<T> = Result<T, KError>;

/// The character of a decimal digit.
pub open spec fn digit_char(d: nat) -> char {
    seq!['0', '1', '2', '3', '4', '5', '6', '7', '8', '9'][d as int]
}

/// The decimal digits of `n`, most significant first, with no leading zero.
pub open spec fn digits_of(n: nat) -> Seq<char>
    decreases n,
{
    if n < 10 {
        seq![digit_char(n)]
    } else {
        digits_of(n / 10).push(digit_char(n % 10))
    }
}

/// The decimal form of an error code, with a leading `-` when negative.
pub open spec fn decimal_of(code: i32) -> Seq<char> {
    if code < 0 {
        seq!['-'] + digits_of((-(code as int)) as nat)
    } else {
        digits_of(code as nat)
    }
}

/// Relies on `i32::to_string`: the decimal form of the code.
#[verifier::external_body]
fn decimal(code: i32) -> (r: String)
    ensures
        r@ == decimal_of(code),
{
    code.to_string()
}

/// The text form of an error: its message, then its code in parentheses.
pub open spec fn text_of(message: Option<&'static str>, errno: Option<Errno>) -> Seq<char> {
    let m = match message {
        Some(m) => m@,
        None => Seq::<char>::empty(),
    };
    match errno {
        Some(e) => m + " ("@ + decimal_of(e.0) + ")"@,
        None => m,
    }
}

impl KError {
    pub fn new(message: Option<&'static str>, errno: Option<Errno>) -> (r: KError)
        ensures
            r.message == message,
            r.errno == errno,
    {
        KError { message, errno }
    }

    pub fn from_errno(errno: Errno) -> (r: KError)
        ensures
            r.message.is_none(),
            r.errno == Some(errno),
    {
        KError { message: None, errno: Some(errno) }
    }

    pub fn from_message(message: &'static str) -> (r: KError)
        ensures
            r.message == Some(message),
            r.errno.is_none(),
    {
        KError { message: Some(message), errno: None }
    }

    pub fn message(&self) -> (r: Option<&'static str>)
        ensures
            r == self.message,
    {
        self.message
    }

    pub fn errno(&self) -> (r: Option<Errno>)
        ensures
            r == self.errno,
    {
        self.errno
    }

    /// The message, then the error code in parentheses: each part only when
    /// present.
    pub fn describe(&self) -> (r: String)
        ensures
            r@ == text_of(self.message, self.errno),
    {
        let mut text = String::new();
        if let Some(m) = self.message {
            text.append(m);
        }
        if let Some(e) = self.errno {
            text.append(" (");
            let code = decimal(e.0);
            text.append(code.as_str());
            text.append(")");
        }
        proof {
            reveal_strlit(" (");
            reveal_strlit(")");
        }
        text
    }
}

impl From<&'static str> for KError {
    fn from(message: &'static str) -> (r: KError) {
        KError::from_message(message)
    }
}

impl vstd::std_specs::convert::FromSpecImpl<&'static str> for KError {
    open spec fn obeys_from_spec() -> bool {
        true
    }

    open spec fn from_spec(message: &'static str) -> KError {
        KError { message: Some(message), errno: None }
    }
}

impl From<Errno> for KError {
    fn from(errno: Errno) -> (r: KError) {
        KError::from_errno(errno)
    }
}

impl vstd::std_specs::convert::FromSpecImpl<Errno> for KError {
    open spec fn obeys_from_spec() -> bool {
        true
    }

    open spec fn from_spec(errno: Errno) -> KError {
        KError { message: None, errno: Some(errno) }
    }
}

} // verus!
