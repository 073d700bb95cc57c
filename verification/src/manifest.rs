//! Typed model of the manifest document that describes the files to
//! install and their mirror URLs.

use vstd::prelude::*;
use crate::text::str_eq;

verus! {

/// Whether a side (client or server) needs an entry.
#[derive(Debug, Clone, Copy, PartialEq, Eq, Structural)]
pub enum Requirement {
    Required,
    Unsupported,
}

/// The requirement named by a manifest string: exactly `required` or
/// `unsupported`, anything else naming none.
pub open spec fn requirement_of(s: Seq<char>) -> Option<Requirement> {
    if s == "required"@ {
        Some(Requirement::Required)
    } else if s == "unsupported"@ {
        Some(Requirement::Unsupported)
    } else {
        None
    }
}

impl Requirement {
    /// Parses the textual form the manifest document uses.
    pub fn parse(s: &str) -> (r: Option<Requirement>)
        ensures
            r == requirement_of(s@),
    {
        if str_eq(s, "required") {
            Some(Requirement::Required)
        } else if str_eq(s, "unsupported") {
            Some(Requirement::Unsupported)
        } else {
            None
        }
    }
}

/// Content digests carried by an entry; the core passes them through
/// without checking them.
#[derive(Debug)]
pub struct Hashes {
    pub sha1: String,
    pub sha512: String,
}

/// Which sides need an entry; carried through unused by the core.
#[derive(Debug, Clone, Copy, PartialEq, Eq, Structural)]
pub struct Env {
    pub client: Requirement,
    pub server: Requirement,
}

/// Identifiers of the platform versions the modpack targets.
#[derive(Debug)]
pub struct Dependencies {
    pub forge: String,
    pub minecraft: String,
}

/// One file to install: a relative destination path, an ordered,
/// non-empty list of mirror URLs, and metadata carried through unused.
#[derive(Debug)]
pub struct File {
    pub path: String,
    pub hashes: Hashes,
    pub env: Env,
    pub downloads: Vec<String>,
    pub file_size: u32,
}

impl File {
    /// An entry is well-formed when it has at least one mirror URL.
    /// Mirror order is significant: it defines fallback priority.
    pub open spec fn wf(&self) -> bool {
        self.downloads.len() > 0
    }
}

/// The whole manifest: format version, target identifiers, and the
/// ordered list of entries, each processed independently.
#[derive(Debug)]
pub struct MrPack {
    pub format_version: i32,
    pub game: String,
    pub version_id: String,
    pub name: String,
    pub files: Vec<File>,
    pub dependencies: Dependencies,
}

impl MrPack {
    /// A manifest is well-formed when every entry is.
    pub open spec fn wf(&self) -> bool {
        forall|i: int| 0 <= i < self.files.len() ==> (#[trigger] self.files[i]).wf()
    }
}

/// Why no manifest could be produced. Both cases are fatal to a run: no
/// entry is processed after either.
#[derive(Debug, Clone, Copy, PartialEq, Eq, Structural)]
pub enum ManifestError {
    /// The manifest source is absent.
    NotFound,
    /// The document is not well-formed JSON or does not follow the
    /// manifest schema.
    Parse,
}

} // verus!
