//! Rows of a package listing, and the widths they take when printed.
use vstd::prelude::*;
use vstd::utf8::encode_utf8;

verus! {

/// The length in bytes of the UTF-8 encoding of `s`.
pub open spec fn byte_len(s: Seq<char>) -> nat {
    encode_utf8(s).len()
}

/// A package version with its release number, both as printed.
#[derive(Debug, Clone, PartialEq, Eq)]
pub struct Revision {
    pub version: String,
    pub release: String,
}

/// The printed width of a revision.
pub open spec fn revision_width(r: Revision) -> nat {
    byte_len(r.version@) + byte_len(r.release@)
}

impl Revision {
    /// The bytes that the version and the release take together.
    pub fn size(&self) -> (r: usize)
        requires
            revision_width(*self) <= usize::MAX,
        ensures
            r == revision_width(*self),
    {
        self.version.as_str().len() + self.release.as_str().len()
    }
}

/// One row of a package listing.
#[derive(Debug, Clone, PartialEq, Eq)]
pub struct Format {
    pub name: String,
    pub summary: String,
    pub revision: Revision,
    pub explicit: bool,
    /// The revision a sync would move to, if any.
    pub sync: Option<Revision>,
}

/// The printed width of a row: its name, its revision and its sync revision.
pub open spec fn format_width(f: Format) -> nat {
    byte_len(f.name@) + revision_width(f.revision) + match f.sync {
        Some(s) => revision_width(s),
        None => 0,
    }
}

impl Format {
    /// The bytes that the name, the revision and the sync revision take together.
    pub fn size(&self) -> (r: usize)
        requires
            format_width(*self) <= usize::MAX,
        ensures
            r == format_width(*self),
    {
        let sync = match &self.sync {
            Some(s) => s.size(),
            None => 0,
        };
        self.name.as_str().len() + self.revision.size() + sync
    }
}

} // verus!
