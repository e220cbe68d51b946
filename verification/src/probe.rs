//! The network probe: a token is served on the address to which outbound
//! connections are expected to be redirected, and a connection to some
//! other address has to deliver exactly that token. The sockets are the
//! caller's; what is sent, when reading ends, whether the answer is right
//! and with which status the process leaves are settled here.

use rand::distributions::{Alphanumeric, DistString};
use vstd::prelude::*;
use vstd::string::StringSliceAdditionalSpecFns;

verus! {

/// Number of random characters in a token.
pub const TOKEN_LENGTH: usize = 63;

/// The byte that ends a token: a line feed.
pub const TOKEN_END: u8 = 0x0a;

/// Status with which the process leaves when the network is validated.
pub const EXIT_VALIDATED: i32 = 0;

/// Status with which the process leaves in every other case (errno 95,
/// operation not supported).
pub const EXIT_UNSUCCESSFUL: i32 = 95;

/// Timeout of the probe where none is given.
pub const DEFAULT_TIMEOUT: &'static str = "10s";

/// Address on which the token is served where none is given.
pub const DEFAULT_LISTEN_ADDR: &'static str = "0.0.0.0:4140";

/// Address to which the probe connects where none is given.
pub const DEFAULT_CONNECT_ADDR: &'static str = "192.0.2.2:1404";

/// The step of the validation that failed.
#[derive(Clone, Copy, Debug, PartialEq, Eq, Structural)]
pub enum ProbeError {
    /// The address to serve the token on could not be bound.
    Bind,
    /// The connection could not be made.
    Connect,
    /// Reading from the connection failed.
    Read,
    /// What was read is not the token.
    Mismatch,
}

/// How a run of the probe ended.
#[derive(Clone, Copy, Debug, PartialEq, Eq, Structural)]
pub enum ProbeOutcome {
    /// The token came back: connections are redirected.
    Validated,
    /// A step of the validation failed.
    Failed(ProbeError),
    /// The validation did not end in time.
    TimedOut,
    /// The process was interrupted.
    Interrupted,
    /// The process was asked to terminate.
    Terminated,
}

/// Whether a character is a letter or a digit of ASCII.
pub open spec fn is_alphanumeric(c: char) -> bool {
    let n = c as u32;
    ||| 0x30 <= n <= 0x39
    ||| 0x41 <= n <= 0x5a
    ||| 0x61 <= n <= 0x7a
}

/// Whether a text is made of letters and digits of ASCII alone.
pub open spec fn all_alphanumeric(s: Seq<char>) -> bool {
    forall|i: int| 0 <= i < s.len() ==> is_alphanumeric(#[trigger] s[i])
}

/// The token that is made of a text: its bytes, and a line feed.
pub open spec fn token_of(text: Seq<char>) -> Seq<u8> {
    vstd::utf8::encode_utf8(text.push('\n'))
}

/// Whether bytes are a token: letters and digits of ASCII, as many as a
/// token has, and a line feed.
pub open spec fn is_token(token: Seq<u8>) -> bool {
    &&& token.len() == TOKEN_LENGTH + 1
    &&& token[TOKEN_LENGTH as int] == TOKEN_END
    &&& forall|i: int| 0 <= i < TOKEN_LENGTH ==> is_alphanumeric(#[trigger] token[i] as char)
}

/// The status with which the process leaves.
pub open spec fn exit_status(outcome: ProbeOutcome) -> i32 {
    if outcome == ProbeOutcome::Validated {
        EXIT_VALIDATED
    } else {
        EXIT_UNSUCCESSFUL
    }
}

/// `DistString::sample_string` of `rand`'s `Alphanumeric`, on the
/// generator of the thread: a text of `len` characters, each of them drawn
/// from the letters and digits of ASCII. Nothing else is known of it. The
/// generator panics where the operating system gives it no seed.
#[verifier::external_body]
fn random_alphanumeric(len: usize) -> (s: String)
    ensures
        s@.len() == len,
        all_alphanumeric(s@),
{
    Alphanumeric.sample_string(&mut rand::thread_rng(), len)
}

/// A character is one of ASCII exactly when its code point is below 128.
proof fn lemma_ascii(c: char)
    ensures
        ('\0' <= c <= '\u{7f}') == (c as u32 <= 0x7f),
{
}

/// A token of letters, digits and a line feed is as long in bytes as in
/// characters, and holds the same characters.
proof fn lemma_token_bytes(text: Seq<char>)
    requires
        all_alphanumeric(text),
    ensures
        token_of(text).len() == text.len() + 1,
        token_of(text)[text.len() as int] == TOKEN_END,
        forall|i: int| 0 <= i < text.len() ==> #[trigger] token_of(text)[i] as char == text[i],
{
    let line = text.push('\n');
    assert(vstd::utf8::is_ascii_chars(line)) by {
        assert forall|i: int| 0 <= i < line.len() implies '\0' <= #[trigger] line[i] <= '\u{7f}' by {
            if i < text.len() {
                assert(line[i] == text[i]);
                assert(is_alphanumeric(text[i]));
            } else {
                assert(line[i] == '\n');
            }
            lemma_ascii(line[i]);
        }
    }
    vstd::utf8::is_ascii_chars_encode_utf8(line);
    assert(line[text.len() as int] == '\n');
    assert forall|i: int| 0 <= i < text.len() implies #[trigger] token_of(text)[i] as char
        == text[i] by {
        assert(line[i] == text[i]);
        assert(is_alphanumeric(text[i]));
        assert(line[i] as u8 == token_of(text)[i]);
    }
}

/// Makes the token of a text: its bytes, and a line feed.
pub fn token_from(text: String) -> (token: Vec<u8>)
    ensures
        token@ == token_of(text@),
        text@.len() == TOKEN_LENGTH && all_alphanumeric(text@) ==> is_token(token@),
{
    let mut line = text;
    proof {
        reveal_strlit("\n");
    }
    line.append("\n");
    assert(line@ =~= text@.push('\n'));
    proof {
        if all_alphanumeric(text@) {
            lemma_token_bytes(text@);
        }
    }
    line.as_str().as_bytes_vec()
}

/// Makes a new random token.
pub fn new_token() -> (token: Vec<u8>)
    ensures
        is_token(token@),
{
    token_from(random_alphanumeric(TOKEN_LENGTH))
}

/// What has been read from the connection so far.
pub struct Reader {
    expected: usize,
    received: Vec<u8>,
    ended: bool,
}

impl Reader {
    /// The number of bytes that are expected.
    pub closed spec fn expected(&self) -> nat {
        self.expected as nat
    }

    /// The bytes that were read, in the order read.
    pub closed spec fn received(&self) -> Seq<u8> {
        self.received@
    }

    /// Whether the connection has delivered its last byte.
    pub closed spec fn ended(&self) -> bool {
        self.ended
    }

    /// Reading is over once the connection has ended or exactly the
    /// expected number of bytes has been read.
    pub open spec fn done(&self) -> bool {
        self.ended() || self.received().len() == self.expected()
    }

    /// Starts reading `expected` bytes.
    pub fn new(expected: usize) -> (r: Reader)
        ensures
            r.expected() == expected,
            r.received() == Seq::<u8>::empty(),
            !r.ended(),
    {
        Reader { expected, received: Vec::new(), ended: false }
    }

    /// Whether reading is over.
    pub fn is_done(&self) -> (r: bool)
        ensures
            r == self.done(),
    {
        self.ended || self.received.len() == self.expected
    }

    /// Takes what one read delivered. A read that delivers nothing is the
    /// end of the connection.
    pub fn accept(&mut self, chunk: &[u8])
        ensures
            final(self).expected() == old(self).expected(),
            final(self).received() == old(self).received() + chunk@,
            final(self).ended() == (old(self).ended() || chunk@.len() == 0),
    {
        if chunk.len() == 0 {
            self.ended = true;
        }
        let mut i: usize = 0;
        while i < chunk.len()
            invariant
                i <= chunk@.len(),
                self.expected == old(self).expected,
                self.ended == (old(self).ended || chunk@.len() == 0),
                self.received@ == old(self).received@ + chunk@.take(i as int),
            decreases chunk@.len() - i,
        {
            self.received.push(chunk[i]);
            i += 1;
            assert(chunk@.take(i as int) == chunk@.take(i - 1).push(chunk@[i - 1]));
        }
        assert(chunk@.take(i as int) == chunk@);
    }

    /// Compares what was read with the token.
    pub fn check(&self, token: &[u8]) -> (r: Result<(), ProbeError>)
        ensures
            r == checked(self.received(), token@),
    {
        check_token(self.received.as_slice(), token)
    }
}

/// The verdict on what was read: it has to be the token, byte for byte.
pub open spec fn checked(received: Seq<u8>, token: Seq<u8>) -> Result<(), ProbeError> {
    if received == token {
        Ok(())
    } else {
        Err(ProbeError::Mismatch)
    }
}

/// Compares what was read with the token.
pub fn check_token(received: &[u8], token: &[u8]) -> (r: Result<(), ProbeError>)
    ensures
        r == checked(received@, token@),
{
    if received.len() != token.len() {
        return Err(ProbeError::Mismatch);
    }
    let mut i: usize = 0;
    while i < received.len()
        invariant
            i <= received@.len(),
            received@.len() == token@.len(),
            forall|k: int| 0 <= k < i ==> received@[k] == token@[k],
        decreases received@.len() - i,
    {
        if received[i] != token[i] {
            return Err(ProbeError::Mismatch);
        }
        i += 1;
    }
    assert(received@ =~= token@);
    Ok(())
}

/// The status with which the process leaves: success only where the
/// network was validated.
pub fn exit_code(outcome: ProbeOutcome) -> (r: i32)
    ensures
        r == exit_status(outcome),
{
    match outcome {
        ProbeOutcome::Validated => EXIT_VALIDATED,
        _ => EXIT_UNSUCCESSFUL,
    }
}

/// The outcome of a validation that ran to its end.
pub fn outcome_of(validation: Result<(), ProbeError>) -> (r: ProbeOutcome)
    ensures
        r == match validation {
            Ok(_) => ProbeOutcome::Validated,
            Err(e) => ProbeOutcome::Failed(e),
        },
{
    match validation {
        Ok(_) => ProbeOutcome::Validated,
        Err(e) => ProbeOutcome::Failed(e),
    }
}

/// A connection that delivers the token, in whatever pieces, is
/// validated: once all pieces are read, reading is over and the check
/// succeeds.
pub proof fn lemma_delivered_token_validates(reader: Reader, token: Seq<u8>)
    requires
        reader.received() == token,
        reader.expected() == token.len(),
    ensures
        reader.done(),
        checked(reader.received(), token) == Ok::<(), ProbeError>(()),
        exit_status(ProbeOutcome::Validated) == 0,
{
}

/// A connection that ends before it has delivered a whole token is not
/// validated, and the process leaves with the unsuccessful status.
pub proof fn lemma_short_read_fails(reader: Reader, token: Seq<u8>)
    requires
        reader.received().len() < token.len(),
    ensures
        checked(reader.received(), token) == Err::<(), ProbeError>(ProbeError::Mismatch),
        exit_status(ProbeOutcome::Failed(ProbeError::Mismatch)) == 95,
{
}

} // verus!
