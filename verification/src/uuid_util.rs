//! Identifiers: version 7 UUIDs held as their 128 bits, how they are minted
//! and written, and which of them may name an episode.

use crate::clock::{read_clock, Reading};
use crate::error::Error;
use crate::text::{decimal, push_decimal};
use vstd::arithmetic::div_mod::lemma_fundamental_div_mod_converse;
use vstd::prelude::*;
use vstd::string::*;

verus! {

/// The identifier of an inference, an episode or a batch: the 128 bits of a
/// UUID, most significant first.
#[derive(Clone, Copy, Debug, PartialEq, Eq, Hash, Structural)]
pub struct Id {
    pub bits: u128,
}

/// The earliest second, counted from the Unix epoch, that the timestamp of an
/// episode id may lie in: 1 January 2024, 00:00:00 UTC.
pub const EARLIEST_EPISODE_SECONDS: u64 = 1_704_067_200;

/// The version field of a UUID: bits 76 to 79.
pub open spec fn version_of(bits: u128) -> nat {
    ((bits as nat) / 0x1000_0000_0000_0000_0000) % 16
}

/// The variant field of a UUID: bits 62 and 63.
pub open spec fn variant_of(bits: u128) -> nat {
    ((bits as nat) / 0x4000_0000_0000_0000) % 4
}

/// The timestamp field of a version 7 UUID: the 48 bits at the top, which
/// count the milliseconds since the Unix epoch.
pub open spec fn unix_millis_of(bits: u128) -> nat {
    (bits as nat) / 0x1_0000_0000_0000_0000_0000
}

/// The 128 bits of the version 7 UUID with the given timestamp and payload:
/// `rand_a` fills the 12 bits below the version, `rand_b` the 62 bits below
/// the variant.
pub open spec fn compose_v7(millis: nat, rand_a: nat, rand_b: nat) -> nat {
    millis * 0x1_0000_0000_0000_0000_0000 + 7 * 0x1000_0000_0000_0000_0000 + rand_a
        * 0x1_0000_0000_0000_0000 + 2 * 0x4000_0000_0000_0000 + rand_b
}

/// The lower-case hexadecimal digit for a value below sixteen.
pub open spec fn hex_char(n: nat) -> char
    recommends
        n < 16,
{
    if n < 10 {
        ((48 + n) as u8) as char
    } else {
        ((87 + n) as u8) as char
    }
}

/// The `k`-th of the 32 hexadecimal digits of `bits`, counted from the most
/// significant.
pub open spec fn hex_digit_of(bits: u128, k: int) -> nat
    recommends
        0 <= k < 32,
{
    ((bits >> ((4 * (31 - k)) as u128)) & 0xf) as nat
}

/// The usual notation of a UUID: 32 lower-case hexadecimal digits in groups
/// of 8, 4, 4, 4 and 12, with a hyphen between the groups.
pub open spec fn hyphenated(bits: u128) -> Seq<char> {
    Seq::new(
        36,
        |i: int|
            if i == 8 || i == 13 || i == 18 || i == 23 {
                '-'
            } else if i < 8 {
                hex_char(hex_digit_of(bits, i))
            } else if i < 13 {
                hex_char(hex_digit_of(bits, i - 1))
            } else if i < 18 {
                hex_char(hex_digit_of(bits, i - 2))
            } else if i < 23 {
                hex_char(hex_digit_of(bits, i - 3))
            } else {
                hex_char(hex_digit_of(bits, i - 4))
            },
    )
}

/// Whether an id may name an episode: it is a version 7 UUID and its
/// timestamp is not before `EARLIEST_EPISODE_SECONDS`.
pub open spec fn episode_id_valid(bits: u128) -> bool {
    version_of(bits) == 7 && unix_millis_of(bits) / 1000 >= EARLIEST_EPISODE_SECONDS
}

/// The milliseconds since the Unix epoch that a reading of the clock comes
/// to, or the largest number of them that can be counted.
pub open spec fn stamp_millis(reading: Reading) -> nat {
    let millis = reading.seconds * 1000 + reading.nanos / 1_000_000;
    if millis > u64::MAX {
        u64::MAX as nat
    } else {
        millis as nat
    }
}

/// Whether these are the bits of a version 7 UUID that was minted at the
/// given reading of the clock: the version and the variant are those of
/// the standard, and the timestamp holds the milliseconds of the reading,
/// as far as its 48 bits can.
pub open spec fn minted_at(bits: u128, reading: Reading) -> bool {
    &&& version_of(bits) == 7
    &&& variant_of(bits) == 2
    &&& unix_millis_of(bits) == stamp_millis(reading) % 0x1_0000_0000_0000
}

/// Calls `uuid::Uuid::new_v7` on the timestamp that
/// `uuid::Timestamp::from_unix_time` makes of the reading, without a
/// counter, and hands out the bits of the UUID. The crate counts the
/// milliseconds of the reading with saturating arithmetic, writes their
/// lower 48 bits into the first six bytes, sets the version to 7 and the
/// variant to the two bits `10`, and fills the rest with random bits of its
/// own. It reads no clock. It draws the random bits from the operating
/// system and panics where the system has none to give.
#[verifier::external_body]
fn uuid_new_v7(reading: Reading) -> (bits: u128)
    ensures
        minted_at(bits, reading),
{
    uuid::Uuid::new_v7(uuid::Timestamp::from_unix_time(reading.seconds, reading.nanos, 0, 0))
        .as_u128()
}

/// Calls `uuid::Uuid::get_version_num`, which reads the upper half of the
/// seventh byte: bits 76 to 79 of the whole.
#[verifier::external_body]
fn uuid_version_num(bits: u128) -> (version: usize)
    ensures
        version == version_of(bits),
{
    uuid::Uuid::from_u128(bits).get_version_num()
}

/// Calls `uuid::Uuid::get_timestamp` and keeps the whole seconds of what it
/// returns. For a version 7 UUID these are the milliseconds in the first six
/// bytes, divided by a thousand. Versions 1 and 6 carry a timestamp of
/// another kind, of which nothing is claimed; no other version carries one.
#[verifier::external_body]
fn uuid_unix_seconds(bits: u128) -> (seconds: Option<u64>)
    ensures
        version_of(bits) == 7 ==> seconds == Some((unix_millis_of(bits) / 1000) as u64),
        version_of(bits) != 1 && version_of(bits) != 6 && version_of(bits) != 7 ==> seconds
            is None,
{
    uuid::Uuid::from_u128(bits).get_timestamp().map(|t| t.to_unix().0)
}

/// Calls the `Display` of `uuid::Uuid`, which writes the hyphenated
/// lower-case notation.
#[verifier::external_body]
fn uuid_to_string(bits: u128) -> (s: String)
    ensures
        s@ == hyphenated(bits),
{
    uuid::Uuid::from_u128(bits).to_string()
}

impl Id {
    /// The id with the given bits.
    pub fn from_u128(bits: u128) -> (id: Id)
        ensures
            id.bits == bits,
    {
        Id { bits }
    }

    /// The bits of the id.
    pub fn as_u128(&self) -> (bits: u128)
        ensures
            bits == self.bits,
    {
        self.bits
    }

    /// A fresh version 7 id, stamped with the given reading of the clock. An
    /// id that is stamped at or after the earliest second that an episode
    /// may lie in, and within the range of its timestamp, may name an
    /// episode.
    pub fn new_v7(reading: Reading) -> (id: Id)
        ensures
            minted_at(id.bits, reading),
            reading.seconds >= EARLIEST_EPISODE_SECONDS && stamp_millis(reading)
                < 0x1_0000_0000_0000 ==> episode_id_valid(id.bits),
    {
        Id { bits: uuid_new_v7(reading) }
    }

    /// A fresh version 7 id, stamped with the current time: whatever the
    /// clock reads, the id is one that is minted at that reading.
    pub fn now_v7() -> (id: Id)
        ensures
            version_of(id.bits) == 7,
            variant_of(id.bits) == 2,
            exists|reading: Reading| reading.well_formed() && #[trigger] minted_at(id.bits, reading),
    {
        let reading = read_clock();
        let id = Id::new_v7(reading);
        assert(minted_at(id.bits, reading));
        id
    }

    /// The version field of the id.
    pub fn version(&self) -> (version: usize)
        ensures
            version == version_of(self.bits),
    {
        uuid_version_num(self.bits)
    }

    /// The hyphenated notation of the id.
    pub fn to_text(&self) -> (s: String)
        ensures
            s@ == hyphenated(self.bits),
    {
        uuid_to_string(self.bits)
    }
}

/// The message of the failure for an id of another version than 7.
pub open spec fn wrong_version_text(version: nat) -> Seq<char> {
    "Version must be 7, got "@ + decimal(version)
}

/// What is wrong with an id that may not name an episode: its version,
/// where that is not 7, else its timestamp.
pub open spec fn episode_refusal_text(bits: u128) -> Seq<char> {
    if version_of(bits) != 7 {
        wrong_version_text(version_of(bits))
    } else {
        "Timestamp is too early"@
    }
}

/// Whether a failure is the refusal of the given id as the name of an
/// episode.
pub open spec fn refuses_episode_id(e: Error, bits: u128) -> bool {
    e matches Error::InvalidEpisodeId { message } && message@ == episode_refusal_text(bits)
}

/// Accepts the ids that may name an episode and says what is wrong with the
/// others: the version first, the timestamp second.
pub fn validate_episode_id(id: Id) -> (res: Result<(), Error>)
    ensures
        match res {
            Ok(_) => episode_id_valid(id.bits),
            Err(e) => !episode_id_valid(id.bits) && refuses_episode_id(e, id.bits),
        },
{
    let version: usize = uuid_version_num(id.bits);
    if version != 7 {
        let mut message = "Version must be 7, got ".to_owned();
        push_decimal(&mut message, version);
        return Err(Error::InvalidEpisodeId { message });
    }
    match uuid_unix_seconds(id.bits) {
        Some(seconds) => {
            if seconds < EARLIEST_EPISODE_SECONDS {
                Err(Error::InvalidEpisodeId { message: "Timestamp is too early".to_owned() })
            } else {
                Ok(())
            }
        },
        None => Err(Error::InvalidEpisodeId { message: "Timestamp is too early".to_owned() }),
    }
}

/// An id that is minted at or after the earliest second that an episode may
/// lie in, and within the range of its timestamp, may name an episode.
pub proof fn lemma_minted_id_validates(bits: u128, reading: Reading)
    requires
        minted_at(bits, reading),
        reading.seconds >= EARLIEST_EPISODE_SECONDS,
        stamp_millis(reading) < 0x1_0000_0000_0000,
    ensures
        episode_id_valid(bits),
{
}

/// A version 7 UUID shows the version and the timestamp that it was composed
/// with, so it may name an episode exactly when it was stamped at or after
/// the earliest second allowed.
pub proof fn lemma_composed_id_validates(millis: nat, rand_a: nat, rand_b: nat)
    requires
        millis < 0x1_0000_0000_0000,
        rand_a < 0x1000,
        rand_b < 0x4000_0000_0000_0000,
    ensures
        compose_v7(millis, rand_a, rand_b) <= u128::MAX,
        version_of(compose_v7(millis, rand_a, rand_b) as u128) == 7,
        variant_of(compose_v7(millis, rand_a, rand_b) as u128) == 2,
        unix_millis_of(compose_v7(millis, rand_a, rand_b) as u128) == millis,
        episode_id_valid(compose_v7(millis, rand_a, rand_b) as u128) <==> millis / 1000
            >= EARLIEST_EPISODE_SECONDS,
{
    let whole = compose_v7(millis, rand_a, rand_b) as int;
    let below_version = rand_a * 0x1_0000_0000_0000_0000 + 2 * 0x4000_0000_0000_0000 + rand_b;
    let below_millis = 7 * 0x1000_0000_0000_0000_0000 + below_version;
    lemma_fundamental_div_mod_converse(
        whole,
        0x1000_0000_0000_0000_0000,
        (millis * 16 + 7) as int,
        below_version as int,
    );
    lemma_fundamental_div_mod_converse(
        whole,
        0x1_0000_0000_0000_0000_0000,
        millis as int,
        below_millis as int,
    );
    lemma_fundamental_div_mod_converse(
        whole,
        0x4000_0000_0000_0000,
        ((millis * 0x1_0000 + 7 * 0x1000 + rand_a) * 4 + 2) as int,
        rand_b as int,
    );
}

/// Version 7 UUIDs are ordered by their timestamps: one stamped at an earlier
/// millisecond is smaller, whatever the payloads.
pub proof fn lemma_composed_ids_ordered_by_time(
    millis1: nat,
    a1: nat,
    b1: nat,
    millis2: nat,
    a2: nat,
    b2: nat,
)
    requires
        millis1 < millis2,
        a1 < 0x1000,
        b1 < 0x4000_0000_0000_0000,
        a2 < 0x1000,
        b2 < 0x4000_0000_0000_0000,
    ensures
        compose_v7(millis1, a1, b1) < compose_v7(millis2, a2, b2),
{
}

} // verus!
