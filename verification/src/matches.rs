//! Match locations: where in the scanned content a string was found.

use vstd::prelude::*;

verus! {

/// One place where a string of a rule was found in the scanned content.
#[derive(Clone, Copy, Debug, PartialEq, Eq, Structural)]
pub struct Match {
    /// Offset of the first matched byte from the start of the content.
    pub offset: u64,
    /// Number of bytes matched.
    pub length: u64,
}

impl Match {
    /// Whether the matched bytes lie inside content of `limit` bytes.
    pub open spec fn within(self, limit: u64) -> bool {
        self.offset + self.length <= limit
    }
}

/// A match location as the engine reports it: signed and split into the base
/// of the scanned block and an offset into that block.
#[derive(Clone, Copy, Debug, PartialEq, Eq, Structural)]
pub struct NativeMatch {
    /// Where the scanned block starts.
    pub base: i64,
    /// Offset of the match from `base`.
    pub offset: i64,
    /// Number of bytes matched.
    pub length: i32,
}

impl NativeMatch {
    /// Offset of the match from the start of the content.
    pub open spec fn start(self) -> int {
        self.base + self.offset
    }

    /// Whether the record describes bytes inside content of `limit` bytes:
    /// neither its start nor its length is negative, and it ends at or before
    /// the content's end.
    pub open spec fn fits(self, limit: u64) -> bool {
        &&& 0 <= self.start()
        &&& 0 <= self.length
        &&& self.start() + self.length <= limit
    }

    /// The location that a fitting record stands for.
    pub open spec fn location(self) -> Match {
        Match { offset: self.start() as u64, length: self.length as u64 }
    }

    /// Converts the record, or refuses it where it does not fit the content.
    pub fn locate(&self, limit: u64) -> (found: Option<Match>)
        ensures
            found == if self.fits(limit) {
                Some(self.location())
            } else {
                None::<Match>
            },
    {
        let start: i128 = self.base as i128 + self.offset as i128;
        let end: i128 = start + self.length as i128;
        if start >= 0 && self.length >= 0 && end <= limit as i128 {
            Some(Match { offset: start as u64, length: self.length as u64 })
        } else {
            None
        }
    }
}

/// Whether every record of `raw` fits content of `limit` bytes.
pub open spec fn all_fit(raw: Seq<NativeMatch>, limit: u64) -> bool {
    forall|i: int| 0 <= i < raw.len() ==> (#[trigger] raw[i]).fits(limit)
}

/// The locations that the records of `raw` stand for, in the same order.
pub open spec fn locations(raw: Seq<NativeMatch>) -> Seq<Match> {
    raw.map_values(|m: NativeMatch| m.location())
}

/// Converts a list of records, keeping their order. One record that does not
/// fit the content refuses the whole list.
pub fn locate_all(raw: &Vec<NativeMatch>, limit: u64) -> (found: Option<Vec<Match>>)
    ensures
        found is Some <==> all_fit(raw@, limit),
        found matches Some(list) ==> list@ == locations(raw@),
{
    let mut list: Vec<Match> = Vec::new();
    let mut i: usize = 0;
    while i < raw.len()
        invariant
            i <= raw.len(),
            list@.len() == i,
            forall|j: int| 0 <= j < i ==> (#[trigger] raw@[j]).fits(limit),
            forall|j: int| 0 <= j < i ==> list@[j] == (#[trigger] raw@[j]).location(),
        decreases raw.len() - i,
    {
        match raw[i].locate(limit) {
            Some(location) => list.push(location),
            None => {
                return None;
            },
        }
        i += 1;
    }
    assert(list@ =~= locations(raw@));
    Some(list)
}

} // verus!
