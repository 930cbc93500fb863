//! The coordinate record that the browser reports back.

use vstd::prelude::*;

verus! {

/// A double-precision number, carried as its IEEE 754 bit pattern.
///
/// The handshake never computes with a coordinate, it only hands it on, so
/// the pattern is kept exactly as it was read: nothing is rounded.
#[derive(Clone, Copy, Debug, PartialEq, Eq, Structural)]
pub struct Binary64 {
    pub bits: u64,
}

/// One location report: where the browser says it is, how sure it is, and
/// when it took the fix.
#[derive(Clone, Copy, Debug, PartialEq, Eq, Structural)]
pub struct LocationData {
    /// Degrees north of the equator.
    pub latitude: Binary64,
    /// Degrees east of the prime meridian.
    pub longitude: Binary64,
    /// Radius of confidence, in meters.
    pub accuracy: Binary64,
    /// Capture time, in milliseconds since the epoch.
    pub timestamp: i64,
}

/// What could be read out of a posted body: each of the four fields of a
/// report, where the body held it as a number.
///
/// A field that is absent, or that is not a number, is `None`. A body that
/// could not be read at all is the draft with no field.
#[derive(Clone, Copy, Debug, PartialEq, Eq, Structural)]
pub struct Draft {
    pub latitude: Option<Binary64>,
    pub longitude: Option<Binary64>,
    pub accuracy: Option<Binary64>,
    pub timestamp: Option<i64>,
}

impl Draft {
    /// All four fields are there.
    pub open spec fn is_complete(self) -> bool {
        &&& self.latitude is Some
        &&& self.longitude is Some
        &&& self.accuracy is Some
        &&& self.timestamp is Some
    }

    /// The report that a draft stands for: there is one exactly when no
    /// field is missing, and it holds the fields as they were read.
    pub open spec fn record(self) -> Option<LocationData> {
        if self.is_complete() {
            Some(
                LocationData {
                    latitude: self.latitude->0,
                    longitude: self.longitude->0,
                    accuracy: self.accuracy->0,
                    timestamp: self.timestamp->0,
                },
            )
        } else {
            None
        }
    }

    /// The draft of a body from which nothing could be read.
    pub fn empty() -> (draft: Draft)
        ensures
            draft == (Draft { latitude: None, longitude: None, accuracy: None, timestamp: None }),
            draft.record() is None,
    {
        Draft { latitude: None, longitude: None, accuracy: None, timestamp: None }
    }

    /// Turns the draft into a report. Partial records are not accepted: one
    /// missing field and there is no report.
    pub fn complete(&self) -> (report: Option<LocationData>)
        ensures
            report == self.record(),
    {
        match (self.latitude, self.longitude, self.accuracy, self.timestamp) {
            (Some(latitude), Some(longitude), Some(accuracy), Some(timestamp)) => Some(
                LocationData { latitude, longitude, accuracy, timestamp },
            ),
            _ => None,
        }
    }
}

impl LocationData {
    /// The draft in which every field of this report was read.
    pub open spec fn as_draft(self) -> Draft {
        Draft {
            latitude: Some(self.latitude),
            longitude: Some(self.longitude),
            accuracy: Some(self.accuracy),
            timestamp: Some(self.timestamp),
        }
    }

    /// The three numbers that a caller asks for, in the order latitude,
    /// longitude, accuracy. The capture time is not among them.
    pub open spec fn coordinates_spec(self) -> Seq<Binary64> {
        seq![self.latitude, self.longitude, self.accuracy]
    }

    /// Latitude, longitude and accuracy, in that order.
    pub fn coordinates(&self) -> (triple: Vec<Binary64>)
        ensures
            triple@ == self.coordinates_spec(),
    {
        let mut triple: Vec<Binary64> = Vec::new();
        triple.push(self.latitude);
        triple.push(self.longitude);
        triple.push(self.accuracy);
        triple
    }
}

/// No partial record is ever a report: a draft stands for a report exactly
/// when none of its four fields is missing, and the report then holds each
/// field as the draft held it.
pub proof fn law_no_partial_record(draft: Draft)
    ensures
        draft.record() is Some <==> draft.is_complete(),
        draft.record() matches Some(report) ==> report.as_draft() == draft,
{
}

} // verus!
