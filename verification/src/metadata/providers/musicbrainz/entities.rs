//! The records that the backend answers with.
//!
//! Every record is plain data, filled once from a decoded answer. A field
//! that the backend may leave out is an `Option`, and `None` says that it was
//! left out.

use vstd::prelude::*;

verus! {

/// `==` on string slices, as std defines it: two slices are equal exactly
/// when they hold the same characters in the same order.
pub assume_specification[ <str as PartialEq>::eq ](a: &str, b: &str) -> (same: bool)
    ensures
        same == (a@ == b@),
;

/// Another name that an artist goes by.
#[derive(Debug)]
pub struct Alias {
    pub locale: Option<String>,
    pub sort_name: String,
    pub ty: Option<String>,
    pub type_id: Option<String>,
    pub name: String,
}

#[derive(Debug)]
pub struct Artist {
    pub id: String,
    pub name: String,
    pub sort_name: String,
    pub aliases: Option<Vec<Alias>>,
}

/// An artist as credited on a recording or a release. `name` is the credit
/// as printed, where it differs from the artist's own name.
#[derive(Debug)]
pub struct ArtistCredit {
    pub name: Option<String>,
    pub artist: Artist,
}

#[derive(Debug)]
pub struct Recording {
    pub id: Option<String>,
    pub title: Option<String>,
    pub artist_credit: Vec<ArtistCredit>,
    pub length: Option<u32>,
    pub releases: Option<Vec<Release>>,
}

#[derive(Debug)]
pub struct Label {
    pub id: String,
    pub name: String,
    pub lc: String,
    pub ty: String,
    pub aliases: Vec<String>,
    pub country: String,
}

/// The status of a release. The backend's vocabulary can grow, so a status
/// that is not known here is kept with its text.
#[derive(Debug)]
pub enum ReleaseStatus {
    Official,
    Promotional,
    Bootleg,
    PseudoRelease,
    Unknown(String),
}

impl ReleaseStatus {
    /// The backend's text for the status.
    pub open spec fn text(self) -> Seq<char> {
        match self {
            ReleaseStatus::Official => "Official"@,
            ReleaseStatus::Promotional => "Promotional"@,
            ReleaseStatus::Bootleg => "Bootleg"@,
            ReleaseStatus::PseudoRelease => "Pseudo-Release"@,
            ReleaseStatus::Unknown(s) => s@,
        }
    }

    /// Whether `text` is one of the four statuses known by name.
    pub open spec fn is_known(text: Seq<char>) -> bool {
        text == "Official"@ || text == "Promotional"@ || text == "Bootleg"@ || text
            == "Pseudo-Release"@
    }

    /// Reads a status from the backend's text. Every text is a status: one of
    /// the four known names gives its variant, and any other text is kept, as
    /// it is, in `Unknown`.
    pub fn from_text(value: &str) -> (status: ReleaseStatus)
        ensures
            status.text() == value@,
            status is Unknown <==> !Self::is_known(value@),
    {
        proof {
            reveal_strlit("Official");
            reveal_strlit("Promotional");
            reveal_strlit("Bootleg");
            reveal_strlit("Pseudo-Release");
        }
        if PartialEq::eq(value, "Official") {
            ReleaseStatus::Official
        } else if PartialEq::eq(value, "Promotional") {
            ReleaseStatus::Promotional
        } else if PartialEq::eq(value, "Bootleg") {
            ReleaseStatus::Bootleg
        } else if PartialEq::eq(value, "Pseudo-Release") {
            ReleaseStatus::PseudoRelease
        } else {
            ReleaseStatus::Unknown(String::from_str(value))
        }
    }
}

#[derive(Debug)]
pub struct Release {
    pub id: String,
    pub title: String,
    pub artist_credit: Option<Vec<ArtistCredit>>,
    pub date: Option<String>,
    pub country: Option<String>,
    pub status: ReleaseStatus,
    pub media: Vec<Medium>,
}

#[derive(Debug)]
pub struct ReleaseGroup {
    pub id: String,
    pub title: String,
    pub type_id: String,
}

#[derive(Debug)]
pub struct Track {
    pub id: String,
    pub number: String,
    pub title: String,
    pub length: Option<u32>,
}

/// One disc, or other carrier, of a release.
#[derive(Debug)]
pub struct Medium {
    pub position: u16,
    pub format: Option<String>,
    pub track: Vec<Track>,
}

} // verus!
