//! Places in the file system, told by how they are reached.

use crate::text::{copy_texts, texts, Text};
use vstd::prelude::*;
use vstd::string::*;

verus! {

/// A path, as the parts to join to a base directory one after the other. Where the base directory
/// lies, and how the platform joins paths, is for the caller to know.
pub struct Location {
    parts: Vec<String>,
}

impl View for Location {
    type V = Seq<Text>;

    closed spec fn view(&self) -> Seq<Text> {
        texts(self.parts@)
    }
}

impl Location {
    /// The base directory itself.
    pub fn base() -> (location: Location)
        ensures
            location@ == Seq::<Text>::empty(),
    {
        let location = Location { parts: Vec::new() };
        assert(location@ =~= Seq::<Text>::empty());
        location
    }

    /// The place that `part` reaches from here.
    pub fn join(&self, part: &str) -> (location: Location)
        ensures
            location@ == self@.push(part@),
    {
        let mut parts = copy_texts(&self.parts);
        let ghost before = texts(parts@);
        parts.push(part.to_owned());
        assert(texts(parts@) =~= before.push(part@));
        Location { parts }
    }

    /// The same place once more.
    pub fn copy(&self) -> (location: Location)
        ensures
            location@ == self@,
    {
        Location { parts: copy_texts(&self.parts) }
    }

    /// The parts to join to the base directory, first to last.
    pub fn parts(&self) -> (parts: &Vec<String>)
        ensures
            texts(parts@) == self@,
    {
        &self.parts
    }
}

/// Where marketplaces are installed, below the home directory.
pub const INSTALLED_MARKETPLACES_DIR: &'static str = ".tmp/marketplaces";

/// Where upgrades are prepared, below the directory of installed marketplaces.
pub const STAGING_DIR: &'static str = ".staging";

/// The directory of installed marketplaces.
pub fn marketplace_install_root(codex_home: &Location) -> (root: Location)
    ensures
        root@ == codex_home@.push(INSTALLED_MARKETPLACES_DIR@),
{
    codex_home.join(INSTALLED_MARKETPLACES_DIR)
}

} // verus!
