//! Identifiers. Each holds the 128 bits of a UUID, so that one kind of id
//! cannot be passed where another is expected.

use vstd::prelude::*;
use vstd::arithmetic::power::pow;

use crate::error::{Error, ErrorView};
use crate::text::joined;

verus! {

/// The lower-case hexadecimal digit for a value below sixteen.
pub open spec fn hex_digit(v: int) -> char {
    if v < 10 {
        (v + 48) as char
    } else {
        (v + 87) as char
    }
}

/// The `k`-th of the 32 hexadecimal digits of `bits`, most significant first.
pub open spec fn nibble(bits: u128, k: int) -> int {
    (bits as int / pow(16, (31 - k) as nat)) % 16
}

/// The 32-digit lower-case hexadecimal text of a UUID.
pub open spec fn simple_text(bits: u128) -> Seq<char> {
    Seq::new(32, |k: int| hex_digit(nibble(bits, k)))
}

/// The hyphenated 8-4-4-4-12 text of a UUID.
pub open spec fn hyphenated_text(bits: u128) -> Seq<char> {
    let s = simple_text(bits);
    let h = seq!['-'];
    s.subrange(0, 8) + h + s.subrange(8, 12) + h + s.subrange(12, 16) + h + s.subrange(16, 20) + h
        + s.subrange(20, 32)
}

/// The text of a UUID starts with a hexadecimal digit, so as a path it is
/// relative.
pub proof fn lemma_hyphenated_is_relative(bits: u128)
    ensures
        hyphenated_text(bits).len() > 0,
        hyphenated_text(bits)[0] != '/',
{
    let s = simple_text(bits);
    let v = nibble(bits, 0);
    assert(0 <= v < 16);
    assert(hyphenated_text(bits)[0] == s[0]);
}

/// What `uuid::Uuid::parse_str` makes of a text: the UUID's bits, or nothing.
pub uninterp spec fn uuid_parse_text(s: Seq<char>) -> Option<u128>;

/// Whether the bits are those of a random (version 4, RFC 4122 variant)
/// UUID: its 13th hexadecimal digit is `4` and its 17th is one of `8`, `9`,
/// `a`, `b`.
pub open spec fn is_random_uuid(bits: u128) -> bool {
    nibble(bits, 12) == 4 && 8 <= nibble(bits, 16) <= 11
}

/// Calls `uuid::Uuid::new_v4` and hands back its bits. The bits are random;
/// claimed, as its source shows (it masks random bits and sets the version
/// and variant fields), only that they are those of a version 4 UUID of the
/// RFC 4122 variant.
#[verifier::external_body]
fn fresh_uuid_bits() -> (r: u128)
    ensures
        is_random_uuid(r),
{
    uuid::Uuid::new_v4().as_u128()
}

/// Calls `Uuid::to_string` (its `Display`) on the UUID with these bits.
/// Claimed: the text is the lower-case hyphenated form, and
/// `uuid::Uuid::parse_str` reads it back to the same bits.
#[verifier::external_body]
fn uuid_hyphenated(bits: u128) -> (r: String)
    ensures
        r@ == hyphenated_text(bits),
        uuid_parse_text(r@) == Some(bits),
{
    uuid::Uuid::from_u128(bits).to_string()
}

/// Calls `Uuid::simple().to_string()`. Claimed: the 32 lower-case digits.
#[verifier::external_body]
fn uuid_simple(bits: u128) -> (r: String)
    ensures
        r@ == simple_text(bits),
{
    uuid::Uuid::from_u128(bits).simple().to_string()
}

/// Calls `uuid::Uuid::parse_str`, keeping the bits on success and dropping
/// the error's detail. Claimed: the result is the named parse of the text;
/// which texts it accepts is left to that name.
#[verifier::external_body]
fn uuid_parse(s: &str) -> (r: Option<u128>)
    ensures
        r == uuid_parse_text(s@),
{
    match uuid::Uuid::parse_str(s) {
        Ok(u) => Some(u.as_u128()),
        Err(_) => None,
    }
}

/// The error for a text that is not a UUID.
fn bad_id(s: &str) -> (e: Error)
    ensures
        e@ == ErrorView::Invalid("invalid id: "@ + s@),
{
    Error::Invalid(joined("invalid id: ", s))
}

/// The 32-digit text of an id's bits.
pub(crate) fn simple_of(bits: u128) -> (r: String)
    ensures
        r@ == simple_text(bits),
{
    uuid_simple(bits)
}

/// The six-character short form of a UUID's text.
pub open spec fn short_text(bits: u128) -> Seq<char> {
    simple_text(bits).subrange(0, 6)
}

fn short_of(bits: u128) -> (r: String)
    ensures
        r@ == short_text(bits),
{
    let s = uuid_simple(bits);
    let t = s.as_str().substring_char(0, 6);
    String::from_str(t)
}

/// Identifies a registered repository.
#[derive(Debug, Clone, Copy, PartialEq, Eq, Hash, Structural)]
pub struct RepoId(pub u128);

/// Identifies a queue entry.
#[derive(Debug, Clone, Copy, PartialEq, Eq, Hash, Structural)]
pub struct QueueEntryId(pub u128);

/// Identifies a conflict-resolution session.
#[derive(Debug, Clone, Copy, PartialEq, Eq, Hash, Structural)]
pub struct ConflictSessionId(pub u128);

impl RepoId {
    /// A fresh random id: the bits of a version 4 UUID.
    pub fn new() -> (r: Self)
        ensures
            is_random_uuid(r.0),
    {
        RepoId(fresh_uuid_bits())
    }

    /// Six-character short form for human-readable display.
    pub fn short(&self) -> (r: String)
        ensures
            r@ == short_text(self.0),
    {
        short_of(self.0)
    }

    /// The hyphenated text of the id; parsing it gives the id back.
    pub fn to_string(&self) -> (r: String)
        ensures
            r@ == hyphenated_text(self.0),
            uuid_parse_text(r@) == Some(self.0),
    {
        uuid_hyphenated(self.0)
    }

    /// Reads an id from UUID text.
    pub fn parse_str(s: &str) -> (r: Result<RepoId, Error>)
        ensures
            match uuid_parse_text(s@) {
                Some(b) => r == Ok::<RepoId, Error>(RepoId(b)),
                None => r matches Err(e) && e@ == ErrorView::Invalid("invalid id: "@ + s@),
            },
    {
        match uuid_parse(s) {
            Some(b) => Ok(RepoId(b)),
            None => Err(bad_id(s)),
        }
    }
}

impl QueueEntryId {
    /// A fresh random id: the bits of a version 4 UUID.
    pub fn new() -> (r: Self)
        ensures
            is_random_uuid(r.0),
    {
        QueueEntryId(fresh_uuid_bits())
    }

    /// Six-character short form for human-readable display.
    pub fn short(&self) -> (r: String)
        ensures
            r@ == short_text(self.0),
    {
        short_of(self.0)
    }

    /// The hyphenated text of the id; parsing it gives the id back.
    pub fn to_string(&self) -> (r: String)
        ensures
            r@ == hyphenated_text(self.0),
            uuid_parse_text(r@) == Some(self.0),
    {
        uuid_hyphenated(self.0)
    }

    /// Reads an id from UUID text.
    pub fn parse_str(s: &str) -> (r: Result<QueueEntryId, Error>)
        ensures
            match uuid_parse_text(s@) {
                Some(b) => r == Ok::<QueueEntryId, Error>(QueueEntryId(b)),
                None => r matches Err(e) && e@ == ErrorView::Invalid("invalid id: "@ + s@),
            },
    {
        match uuid_parse(s) {
            Some(b) => Ok(QueueEntryId(b)),
            None => Err(bad_id(s)),
        }
    }
}

impl ConflictSessionId {
    /// A fresh random id: the bits of a version 4 UUID.
    pub fn new() -> (r: Self)
        ensures
            is_random_uuid(r.0),
    {
        ConflictSessionId(fresh_uuid_bits())
    }

    /// Six-character short form for human-readable display.
    pub fn short(&self) -> (r: String)
        ensures
            r@ == short_text(self.0),
    {
        short_of(self.0)
    }

    /// The hyphenated text of the id; parsing it gives the id back.
    pub fn to_string(&self) -> (r: String)
        ensures
            r@ == hyphenated_text(self.0),
            uuid_parse_text(r@) == Some(self.0),
    {
        uuid_hyphenated(self.0)
    }

    /// Reads an id from UUID text.
    pub fn parse_str(s: &str) -> (r: Result<ConflictSessionId, Error>)
        ensures
            match uuid_parse_text(s@) {
                Some(b) => r == Ok::<ConflictSessionId, Error>(ConflictSessionId(b)),
                None => r matches Err(e) && e@ == ErrorView::Invalid("invalid id: "@ + s@),
            },
    {
        match uuid_parse(s) {
            Some(b) => Ok(ConflictSessionId(b)),
            None => Err(bad_id(s)),
        }
    }
}

impl Default for RepoId {
    fn default() -> Self {
        RepoId::new()
    }
}

impl Default for QueueEntryId {
    fn default() -> Self {
        QueueEntryId::new()
    }
}

impl Default for ConflictSessionId {
    fn default() -> Self {
        ConflictSessionId::new()
    }
}

impl std::str::FromStr for RepoId {
    type Err = Error;

    /// Reads an id from UUID text, as `parse_str` does.
    fn from_str(s: &str) -> (r: Result<RepoId, Error>)
        ensures
            match uuid_parse_text(s@) {
                Some(b) => r == Ok::<RepoId, Error>(RepoId(b)),
                None => r matches Err(e) && e@ == ErrorView::Invalid("invalid id: "@ + s@),
            },
    {
        RepoId::parse_str(s)
    }
}

impl std::str::FromStr for QueueEntryId {
    type Err = Error;

    /// Reads an id from UUID text, as `parse_str` does.
    fn from_str(s: &str) -> (r: Result<QueueEntryId, Error>)
        ensures
            match uuid_parse_text(s@) {
                Some(b) => r == Ok::<QueueEntryId, Error>(QueueEntryId(b)),
                None => r matches Err(e) && e@ == ErrorView::Invalid("invalid id: "@ + s@),
            },
    {
        QueueEntryId::parse_str(s)
    }
}

impl std::str::FromStr for ConflictSessionId {
    type Err = Error;

    /// Reads an id from UUID text, as `parse_str` does.
    fn from_str(s: &str) -> (r: Result<ConflictSessionId, Error>)
        ensures
            match uuid_parse_text(s@) {
                Some(b) => r == Ok::<ConflictSessionId, Error>(ConflictSessionId(b)),
                None => r matches Err(e) && e@ == ErrorView::Invalid("invalid id: "@ + s@),
            },
    {
        ConflictSessionId::parse_str(s)
    }
}

} // verus!
