//! The queue priority of a torrent or of a single file.

use vstd::prelude::*;

verus! {

/// The priority of a torrent as either:
///
/// - High
/// - Normal
/// - Low
///
/// Priority does not directly affect download speed but
/// instead changes how the torrent will be queued compared to other
/// torrents.
#[derive(Clone, Copy, Debug, PartialEq, Eq, Structural)]
pub enum Priority {
    Low,
    Normal,
    High,
}

/// The native byte for each priority: the native engine keeps low as
/// -1, normal as 0 and high as 1.
pub open spec fn native_of_priority(p: Priority) -> i8 {
    match p {
        Priority::Low => -1i8,
        Priority::Normal => 0i8,
        Priority::High => 1i8,
    }
}

/// The priority meant by a native byte. The native engine only ever
/// hands out -1, 0 and 1; every other negative value is read as low and
/// every other positive value as high.
pub open spec fn priority_of_native(v: i8) -> Priority {
    if v < 0 {
        Priority::Low
    } else if v == 0 {
        Priority::Normal
    } else {
        Priority::High
    }
}

impl From<i8> for Priority {
    /// Translate a native priority byte.
    fn from(v: i8) -> (r: Self) {
        if v < 0 {
            Priority::Low
        } else if v == 0 {
            Priority::Normal
        } else {
            Priority::High
        }
    }
}

impl vstd::std_specs::convert::FromSpecImpl<i8> for Priority {
    open spec fn obeys_from_spec() -> bool {
        true
    }

    open spec fn from_spec(v: i8) -> Priority {
        priority_of_native(v)
    }
}

impl Priority {
    /// The byte to hand to the native engine for this priority.
    pub fn to_native(&self) -> (v: i8)
        ensures
            v == native_of_priority(*self),
    {
        match *self {
            Priority::Low => -1,
            Priority::Normal => 0,
            Priority::High => 1,
        }
    }
}

/// Reading back the byte written for a priority yields that same
/// priority: the two translations are inverse on the native range.
pub proof fn lemma_priority_roundtrip(p: Priority)
    ensures
        priority_of_native(native_of_priority(p)) == p,
{
}

} // verus!
