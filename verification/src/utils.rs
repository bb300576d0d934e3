//! Small helpers shared by the collaborators.

use crate::json::{stream_item, Json, StreamItem, StreamItemView};
use vstd::prelude::*;
use vstd::string::StringExecFns;

verus! {

/// The most specific thing known about a failure: the message of its cause
/// where it names one, else its own message.
pub fn error_details(message: &str, cause: Option<&str>) -> (r: String)
    ensures
        r@ == match cause {
            Some(inner) => inner@,
            None => message@,
        },
{
    match cause {
        Some(inner) => inner.to_owned(),
        None => message.to_owned(),
    }
}

/// A run of JSON documents in a buffer, read one after the other.
pub struct JSONStream {
    input: Vec<u8>,
    position: usize,
    failed: bool,
}

impl JSONStream {
    /// The bytes that the stream reads.
    pub closed spec fn input(self) -> Seq<u8> {
        self.input@
    }

    /// How far the stream has read.
    pub closed spec fn position(self) -> nat {
        self.position as nat
    }

    /// Whether the stream has met bytes that are no document.
    pub closed spec fn failed(self) -> bool {
        self.failed
    }

    /// A stream never reads past its input.
    #[verifier::type_invariant]
    spec fn within_input(self) -> bool {
        self.position <= self.input.len()
    }

    /// The bytes that are still to be read.
    pub open spec fn remaining(self) -> nat {
        (self.input().len() - self.position()) as nat
    }

    /// A stream at the start of `input`.
    pub fn new(input: Vec<u8>) -> (r: JSONStream)
        ensures
            r.input() == input@,
            r.position() == 0,
            !r.failed(),
    {
        JSONStream { input, position: 0, failed: false }
    }

    /// The next document. `None` at the end of the input and after a
    /// failure; the failure itself is handed out once, with its message.
    pub fn next(&mut self) -> (r: Option<Result<Json, String>>)
        ensures
            final(self).input() == old(self).input(),
            final(self).position() <= final(self).input().len(),
            old(self).failed() ==> r is None && *final(self) == *old(self),
            !old(self).failed() ==> match stream_item(
                old(self).input(),
                old(self).position() as int,
            ) {
                StreamItemView::End => {
                    &&& r is None
                    &&& *final(self) == *old(self)
                },
                StreamItemView::Document(json, used) => {
                    &&& r matches Some(Ok(document)) && document@ == json
                    &&& used > 0
                    &&& final(self).position() == old(self).position() + used
                    &&& !final(self).failed()
                },
                StreamItemView::Invalid(message) => {
                    &&& r matches Some(Err(text)) && text@ == message
                    &&& final(self).position() == old(self).position()
                    &&& final(self).failed()
                },
            },
    {
        proof {
            use_type_invariant(&*self);
        }
        if self.failed {
            return None;
        }
        match Json::parse_at(self.input.as_slice(), self.position) {
            StreamItem::End => None,
            StreamItem::Document(json, used) => {
                self.position = self.position + used;
                Some(Ok(json))
            },
            StreamItem::Invalid(message) => {
                self.failed = true;
                Some(Err(message))
            },
        }
    }
}

/// A stream of the documents in `input`.
pub fn iter_to_stream(input: Vec<u8>) -> (r: JSONStream)
    ensures
        r.input() == input@,
        r.position() == 0,
        !r.failed(),
{
    JSONStream::new(input)
}

/// What came back from a collaborator over HTTP: the status, the status as
/// the collaborator worded it, and the body.
#[derive(Debug, Clone, PartialEq, Eq)]
pub struct Reply {
    pub status: u16,
    pub status_text: String,
    pub body: String,
}

impl Reply {
    /// Whether the status is 200.
    pub open spec fn is_ok(self) -> bool {
        self.status == 200
    }

    pub fn ok(&self) -> (r: bool)
        ensures
            r == self.is_ok(),
    {
        self.status == 200
    }
}

/// The digits of a number, most significant first.
pub open spec fn digits(n: nat) -> Seq<char>
    decreases n,
{
    if n < 10 {
        seq!["0123456789"@[n as int]]
    } else {
        digits(n / 10).push("0123456789"@[(n % 10) as int])
    }
}

/// A number as people write it: in decimal, with a minus sign before a
/// negative one.
pub open spec fn decimal_text(n: int) -> Seq<char> {
    if n < 0 {
        seq!['-'] + digits((-n) as nat)
    } else {
        digits(n as nat)
    }
}

/// The digit `d` as a text.
fn digit(d: u64) -> (r: &'static str)
    requires
        d < 10,
    ensures
        r@ == seq!["0123456789"@[d as int]],
{
    proof {
        reveal_strlit("0123456789");
        reveal_strlit("0");
        reveal_strlit("1");
        reveal_strlit("2");
        reveal_strlit("3");
        reveal_strlit("4");
        reveal_strlit("5");
        reveal_strlit("6");
        reveal_strlit("7");
        reveal_strlit("8");
        reveal_strlit("9");
    }
    let r = if d == 0 {
        "0"
    } else if d == 1 {
        "1"
    } else if d == 2 {
        "2"
    } else if d == 3 {
        "3"
    } else if d == 4 {
        "4"
    } else if d == 5 {
        "5"
    } else if d == 6 {
        "6"
    } else if d == 7 {
        "7"
    } else if d == 8 {
        "8"
    } else {
        "9"
    };
    assert(r@ =~= seq!["0123456789"@[d as int]]);
    r
}

/// The digits of `n`, most significant first.
fn digits_of(n: u64) -> (r: String)
    ensures
        r@ == digits(n as nat),
    decreases n,
{
    if n < 10 {
        digit(n).to_owned()
    } else {
        let front = digits_of(n / 10);
        let last = digit(n % 10);
        assert(front@ + last@ =~= front@.push("0123456789"@[(n % 10) as int]));
        front.concat(last)
    }
}

/// A number as people write it.
pub fn decimal(n: i64) -> (r: String)
    ensures
        r@ == decimal_text(n as int),
{
    if n < 0 {
        let magnitude: u64 = ((-(n + 1)) as u64) + 1;
        let digits = digits_of(magnitude);
        proof {
            reveal_strlit("-");
            assert("-"@ =~= seq!['-']);
        }
        "-".to_owned().concat(digits.as_str())
    } else {
        digits_of(n as u64)
    }
}

} // verus!
