use vstd::prelude::*;

verus! {

/// One recorded arrow release.
///
/// Times are milliseconds since the Unix epoch; each may be absent. The four
/// measurements are IEEE-754 single-precision values held as their bit
/// patterns, so that a record compares and round-trips bit for bit. Both
/// identities are 128-bit UUID values.
#[derive(Clone, Copy, Debug, PartialEq, Eq, Structural)]
pub struct ShotEvent {
    /// Assigned by the store on a successful insert; absent before.
    pub id: Option<u128>,
    pub arrow_engage_time: Option<i64>,
    pub arrow_disengage_time: Option<i64>,
    pub arrow_landing_time: Option<i64>,
    pub x_coordinate: u32,
    pub y_coordinate: u32,
    pub pull_length: u32,
    pub distance: u32,
    pub arrow_id: u128,
}

impl ShotEvent {
    /// The same record carrying the identity `id`.
    pub open spec fn spec_with_identity(self, id: u128) -> ShotEvent {
        ShotEvent { id: Some(id), ..self }
    }

    /// Returns this record with the store-assigned identity `id`; every
    /// other field is kept. An identity is given once: the record has none
    /// yet.
    pub fn with_identity(self, id: u128) -> (r: ShotEvent)
        requires
            self.id is None,
        ensures
            r == self.spec_with_identity(id),
    {
        ShotEvent { id: Some(id), ..self }
    }
}

} // verus!
