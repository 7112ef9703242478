//! Matched strings: a string of a rule together with the places where it was
//! found.

use vstd::prelude::*;
use crate::matches::{all_fit, locate_all, locations, Match, NativeMatch};

verus! {

/// A string of a matching rule and every place where it was found.
///
/// The value owns all of its data; nothing in it points into the engine.
#[derive(Debug, PartialEq, Eq)]
pub struct YrString {
    /// Name of the string in the rule, such as `$text`.
    pub identifier: String,
    /// The places where the string was found, in the engine's order.
    pub matches: Vec<Match>,
}

/// What a `YrString` holds.
pub struct YrStringView {
    pub identifier: Seq<char>,
    pub matches: Seq<Match>,
}

impl View for YrString {
    type V = YrStringView;

    open spec fn view(&self) -> YrStringView {
        YrStringView { identifier: self.identifier@, matches: self.matches@ }
    }
}

impl Clone for YrString {
    fn clone(&self) -> (copy: YrString)
        ensures
            copy@ == self@,
    {
        let mut matches: Vec<Match> = Vec::new();
        let mut i: usize = 0;
        while i < self.matches.len()
            invariant
                i <= self.matches.len(),
                matches@ == self.matches@.take(i as int),
            decreases self.matches.len() - i,
        {
            proof {
                self.matches@.lemma_take_succ_push(i as int);
            }
            matches.push(self.matches[i]);
            i += 1;
        }
        assert(self.matches@.take(i as int) == self.matches@);
        YrString { identifier: self.identifier.clone(), matches }
    }
}

impl YrStringView {
    /// Whether the record has a location and all its locations lie inside
    /// content of `limit` bytes.
    pub open spec fn well_formed(self, limit: u64) -> bool {
        &&& self.matches.len() > 0
        &&& forall|i: int| 0 <= i < self.matches.len() ==> (#[trigger] self.matches[i]).within(limit)
    }
}

/// A string of a rule as the engine shows it during a callback. The
/// identifier is borrowed from the engine and must not outlive the callback.
#[derive(Debug)]
pub struct NativeString<'a> {
    /// Name of the string in the rule.
    pub identifier: &'a str,
    /// The engine's match records for the string; empty where the string was
    /// not found.
    pub matches: Vec<NativeMatch>,
}

/// What a `NativeString` holds.
pub struct NativeStringView {
    pub identifier: Seq<char>,
    pub matches: Seq<NativeMatch>,
}

impl<'a> View for NativeString<'a> {
    type V = NativeStringView;

    open spec fn view(&self) -> NativeStringView {
        NativeStringView { identifier: self.identifier@, matches: self.matches@ }
    }
}

impl NativeStringView {
    /// Whether the string was found at all.
    pub open spec fn matched(self) -> bool {
        self.matches.len() > 0
    }

    /// Whether every match record fits content of `limit` bytes.
    pub open spec fn fits(self, limit: u64) -> bool {
        all_fit(self.matches, limit)
    }

    /// The owned record that the string stands for.
    pub open spec fn owned(self) -> YrStringView {
        YrStringView { identifier: self.identifier, matches: locations(self.matches) }
    }
}

impl<'a> NativeString<'a> {
    /// Copies the string and its locations out of the engine's memory, or
    /// refuses it where a match record does not fit the content.
    pub fn copy_out(&self, limit: u64) -> (copy: Option<YrString>)
        ensures
            copy is Some <==> self@.fits(limit),
            copy matches Some(string) ==> string@ == self@.owned(),
    {
        match locate_all(&self.matches, limit) {
            Some(matches) => Some(YrString { identifier: self.identifier.to_owned(), matches }),
            None => None,
        }
    }
}

} // verus!
