//! The description itself, in its two formats.

use vstd::prelude::*;

verus! {

/// One error that a program declares.
#[derive(Debug, Clone)]
pub struct IdlError {
    pub code: u32,
    pub name: String,
    pub msg: String,
}

/// The metadata block; only the newer format has one.
#[derive(Debug)]
pub struct IdlMetadata {
    pub name: String,
    pub version: String,
    pub spec: String,
}

/// An interface description. The newer format names the program in its
/// metadata, the older one at the top level.
#[derive(Debug)]
pub struct Idl {
    pub address: String,
    pub metadata: Option<IdlMetadata>,
    pub name: String,
    pub version: String,
    pub errors: Vec<IdlError>,
}

impl Idl {
    /// The name of the described program, as a sequence of characters.
    pub open spec fn name_text(self) -> Seq<char> {
        match self.metadata {
            Some(metadata) => metadata.name@,
            None => self.name@,
        }
    }

    /// The version of the described program, as a sequence of characters.
    pub open spec fn version_text(self) -> Seq<char> {
        match self.metadata {
            Some(metadata) => metadata.version@,
            None => self.version@,
        }
    }

    pub fn is_modern_format(&self) -> (b: bool)
        ensures
            b == (self.address@.len() > 0 && self.metadata is Some),
    {
        !self.address.as_str().is_empty() && self.metadata.is_some()
    }

    pub fn get_name(&self) -> (name: String)
        ensures
            name@ == self.name_text(),
    {
        match &self.metadata {
            Some(metadata) => metadata.name.clone(),
            None => self.name.clone(),
        }
    }

    pub fn get_version(&self) -> (version: String)
        ensures
            version@ == self.version_text(),
    {
        match &self.metadata {
            Some(metadata) => metadata.version.clone(),
            None => self.version.clone(),
        }
    }
}

} // verus!
