//! Building shot records at the producer side: fresh arrow identities, the
//! current time, the target track identity read from its file, and the
//! assembly of a record from what the sensors reported.
use vstd::prelude::*;
use crate::shot::ShotEvent;

verus! {

/// The text that `str::trim` leaves of `s`.
pub uninterp spec fn trimmed(s: Seq<char>) -> Seq<char>;

/// The identity that `uuid::Uuid::parse_str` reads from `s`, if any.
pub uninterp spec fn uuid_parsed(s: Seq<char>) -> Option<u128>;

/// A random (version 4, RFC 4122 variant) UUID: version nibble 4 and the
/// two variant bits 0b10.
pub open spec fn is_random_uuid(id: u128) -> bool {
    &&& (id >> 76u128) & 0xFu128 == 4
    &&& (id >> 62u128) & 0x3u128 == 2
}

/// Relies on `uuid::Uuid::new_v4`: random bits under the version and
/// variant mask, read back whole by `as_u128`.
#[verifier::external_body]
fn new_random_id() -> (r: u128)
    ensures
        is_random_uuid(r),
{
    uuid::Uuid::new_v4().as_u128()
}

/// Relies on `chrono::Utc::now` and `DateTime::timestamp_millis`: the
/// current time in milliseconds since the Unix epoch, which `now` requires
/// the system clock not to precede.
#[verifier::external_body]
fn now_millis() -> (r: i64)
    ensures
        r >= 0,
{
    chrono::Utc::now().timestamp_millis()
}

/// An ASCII letter or digit: never whitespace.
pub open spec fn is_ascii_alnum(c: char) -> bool {
    ('0' <= c && c <= '9') || ('a' <= c && c <= 'z') || ('A' <= c && c <= 'Z')
}

/// Whether `part` is a contiguous run of `whole`.
pub open spec fn is_slice_of(part: Seq<char>, whole: Seq<char>) -> bool {
    exists|i: int, j: int| 0 <= i <= j <= whole.len() && part == whole.subrange(i, j)
}

/// Relies on `str::trim`, which depends on the text alone and only cuts
/// whitespace from both ends: the result is a slice of the input, and a
/// text that begins and ends with a letter or digit is kept whole.
#[verifier::external_body]
fn trim_text(s: &str) -> (r: &str)
    ensures
        r@ == trimmed(s@),
        is_slice_of(r@, s@),
        s@.len() > 0 && is_ascii_alnum(s@[0]) && is_ascii_alnum(s@.last()) ==> r@ == s@,
{
    s.trim()
}

/// Relies on `uuid::Uuid::parse_str`, which depends on the text alone and
/// reads the hyphenated form back, and on `as_u128` to read the identity
/// back whole.
#[verifier::external_body]
fn parse_uuid(s: &str) -> (r: Option<u128>)
    ensures
        r == uuid_parsed(s@),
        forall|id: u128| s@ == hyphenated(id) ==> r == Some(id),
{
    match uuid::Uuid::parse_str(s) {
        Ok(u) => Some(u.as_u128()),
        Err(_) => None,
    }
}

/// The identity written in a track identity file: the UUID that the text
/// holds once surrounding whitespace is trimmed. The text that
/// `new_track_id` gives for an identity reads back as that identity.
pub fn parse_track_id(content: &str) -> (r: Option<u128>)
    ensures
        r == uuid_parsed(trimmed(content@)),
        forall|id: u128| content@ == hyphenated(id) ==> r == Some(id),
{
    let t = trim_text(content);
    proof {
        assert forall|id: u128| content@ == hyphenated(id) implies t@ == content@ by {
            lemma_hyphenated_ends(id);
        }
    }
    parse_uuid(t)
}

/// A record assembled from sensor parts; none while a required part is
/// missing. The landing time may be absent; the record has no identity.
pub open spec fn assembled(
    arrow_id: Option<u128>,
    engage: Option<i64>,
    disengage: Option<i64>,
    landing: Option<i64>,
    x: Option<u32>,
    y: Option<u32>,
    pull: Option<u32>,
    distance: u32,
) -> Option<ShotEvent> {
    if arrow_id is Some && engage is Some && disengage is Some && x is Some && y is Some
        && pull is Some {
        Some(
            ShotEvent {
                id: None,
                arrow_engage_time: engage,
                arrow_disengage_time: disengage,
                arrow_landing_time: landing,
                x_coordinate: x.unwrap(),
                y_coordinate: y.unwrap(),
                pull_length: pull.unwrap(),
                distance,
                arrow_id: arrow_id.unwrap(),
            },
        )
    } else {
        None
    }
}

/// Assembles a record from sensor parts.
pub fn assemble_reading(
    arrow_id: Option<u128>,
    engage: Option<i64>,
    disengage: Option<i64>,
    landing: Option<i64>,
    x: Option<u32>,
    y: Option<u32>,
    pull: Option<u32>,
    distance: u32,
) -> (r: Option<ShotEvent>)
    ensures
        r == assembled(arrow_id, engage, disengage, landing, x, y, pull, distance),
{
    match (arrow_id, engage, disengage, x, y, pull) {
        (Some(a), Some(en), Some(dis), Some(xv), Some(yv), Some(p)) => Some(
            ShotEvent {
                id: None,
                arrow_engage_time: Some(en),
                arrow_disengage_time: Some(dis),
                arrow_landing_time: landing,
                x_coordinate: xv,
                y_coordinate: yv,
                pull_length: p,
                distance,
                arrow_id: a,
            },
        ),
        _ => None,
    }
}

/// Reads one shot now: a fresh random arrow identity, the engage and
/// disengage times taken from the clock, the landing time too once the
/// arrow has `landed`, and the measured values; none while a measurement is
/// missing.
pub fn read_sensor_data(
    x: Option<u32>,
    y: Option<u32>,
    pull: Option<u32>,
    distance: u32,
    landed: bool,
) -> (r: Option<ShotEvent>)
    ensures
        r is Some <==> (x is Some && y is Some && pull is Some),
        r matches Some(e) ==> {
            &&& e.id is None
            &&& is_random_uuid(e.arrow_id)
            &&& e.arrow_engage_time is Some
            &&& e.arrow_disengage_time is Some
            &&& e.arrow_landing_time is Some <==> landed
            &&& Some(e.x_coordinate) == x
            &&& Some(e.y_coordinate) == y
            &&& Some(e.pull_length) == pull
            &&& e.distance == distance
        },
{
    let arrow_id = new_random_id();
    let engage = now_millis();
    let disengage = now_millis();
    let landing = if landed {
        Some(now_millis())
    } else {
        None
    };
    assemble_reading(Some(arrow_id), Some(engage), Some(disengage), landing, x, y, pull, distance)
}

/// The lowercase hexadecimal digit for `n < 16`.
pub open spec fn hex_digit(n: u128) -> char {
    seq!['0', '1', '2', '3', '4', '5', '6', '7', '8', '9', 'a', 'b', 'c', 'd', 'e', 'f'][n as int]
}

/// The `k`-th of the 32 hexadecimal digits of `id`, most significant first.
pub open spec fn nibble(id: u128, k: int) -> u128 {
    (id >> ((124 - 4 * k) as u128)) & 0xFu128
}

/// The hyphenated lowercase text of `id`, as in
/// `67e55044-10b1-426f-9247-bb680e5fe0c8`: 36 characters, with hyphens at
/// positions 8, 13, 18 and 23 and the digits in between.
pub open spec fn hyphenated(id: u128) -> Seq<char> {
    Seq::new(
        36,
        |i: int|
            if i == 8 || i == 13 || i == 18 || i == 23 {
                '-'
            } else {
                let k = if i < 8 {
                    i
                } else if i < 13 {
                    i - 1
                } else if i < 18 {
                    i - 2
                } else if i < 23 {
                    i - 3
                } else {
                    i - 4
                };
                hex_digit(nibble(id, k))
            },
    )
}

proof fn lemma_hyphenated_ends(id: u128)
    ensures
        hyphenated(id).len() == 36,
        is_ascii_alnum(hyphenated(id)[0]),
        is_ascii_alnum(hyphenated(id).last()),
{
    let a = nibble(id, 0);
    let b = nibble(id, 31);
    assert(a < 16) by (bit_vector)
        requires
            a == (id >> 124u128) & 0xFu128,
    ;
    assert(b < 16) by (bit_vector)
        requires
            b == (id >> 0u128) & 0xFu128,
    ;
}

/// Relies on `uuid::Uuid`'s `Display`, which writes the hyphenated
/// lowercase form, most significant byte first.
#[verifier::external_body]
fn uuid_text(id: u128) -> (r: String)
    ensures
        r@ == hyphenated(id),
{
    uuid::Uuid::from_u128(id).to_string()
}

/// A fresh random track identity and the text that its identity file
/// holds.
pub fn new_track_id() -> (r: (u128, String))
    ensures
        is_random_uuid(r.0),
        r.1@ == hyphenated(r.0),
{
    let id = new_random_id();
    (id, uuid_text(id))
}

} // verus!
