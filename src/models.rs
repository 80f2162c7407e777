//! Request and response bodies of the collection, info and publishing
//! endpoints.

use vstd::prelude::*;
use crate::identifier::{ascii_digits, digits_value};
use crate::text::same_text;

verus! {

/// The kind of a collection.
#[allow(non_camel_case_types)]
#[derive(Debug, Clone, Copy, PartialEq, Eq, Structural)]
pub enum DataverseType {
    DEPARTMENT,
    JOURNALS,
    LABORATORY,
    ORGANIZATIONS_INSTITUTIONS,
    RESEARCHERS,
    RESEARCH_GROUP,
    RESEARCH_PROJECTS,
    TEACHING_COURSES,
    UNCATEGORIZED,
}

/// A contact address of a collection.
#[derive(Debug, Clone)]
#[allow(non_snake_case)]
pub struct DataverseContact {
    pub contactEmail: String,
    pub displayOrder: Option<u32>,
}

/// The body that creates a collection.
#[derive(Debug, Clone)]
#[allow(non_snake_case)]
pub struct CreateBody {
    pub name: String,
    pub alias: String,
    pub affiliation: String,
    pub description: String,
    pub dataverseContacts: Vec<DataverseContact>,
    pub dataverseType: DataverseType,
}

impl CreateBody {
    /// A body with the given fields and no contacts yet.
    pub fn new(
        name: &str,
        alias: &str,
        affiliation: &str,
        description: &str,
        dataverse_type: DataverseType,
    ) -> (r: CreateBody)
        ensures
            r.name@ == name@,
            r.alias@ == alias@,
            r.affiliation@ == affiliation@,
            r.description@ == description@,
            r.dataverseContacts@.len() == 0,
            r.dataverseType == dataverse_type,
    {
        CreateBody {
            name: name.to_owned(),
            alias: alias.to_owned(),
            dataverseContacts: Vec::new(),
            affiliation: affiliation.to_owned(),
            description: description.to_owned(),
            dataverseType: dataverse_type,
        }
    }

    /// Appends a contact with the given address and no display order.
    pub fn add_contact(&mut self, contact_email: &str)
        ensures
            final(self).dataverseContacts@.len() == old(self).dataverseContacts@.len() + 1,
            forall|i: int|
                0 <= i < old(self).dataverseContacts@.len() ==> final(self).dataverseContacts@[i]
                    == old(self).dataverseContacts@[i],
            final(self).dataverseContacts@.last().contactEmail@ == contact_email@,
            final(self).dataverseContacts@.last().displayOrder is None,
            final(self).name == old(self).name,
            final(self).alias == old(self).alias,
            final(self).affiliation == old(self).affiliation,
            final(self).description == old(self).description,
            final(self).dataverseType == old(self).dataverseType,
    {
        self.dataverseContacts.push(
            DataverseContact { contactEmail: contact_email.to_owned(), displayOrder: None },
        );
    }
}

/// The metadata sent along with a file that is uploaded through the
/// service, or that replaces another file.
#[derive(Debug, Clone)]
#[allow(non_snake_case)]
pub struct UploadBody {
    pub description: Option<String>,
    pub directoryLabel: Option<String>,
    pub categories: Option<Vec<String>>,
    pub restrict: Option<bool>,
    pub forceReplace: Option<bool>,
    pub tabIngest: Option<bool>,
}

/// The metadata for a file replacement: the body read from the user's
/// file, if any, with `forceReplace` set to `force` where the body leaves
/// it open.
pub fn prepare_replace_body(body: Option<UploadBody>, force: bool) -> (r: Option<UploadBody>)
    ensures
        body is None ==> r is None,
        body matches Some(b) ==> r matches Some(rb) && {
            &&& rb.forceReplace == if b.forceReplace is Some {
                b.forceReplace
            } else {
                Some(force)
            }
            &&& rb.description == b.description
            &&& rb.directoryLabel == b.directoryLabel
            &&& rb.categories == b.categories
            &&& rb.restrict == b.restrict
            &&& rb.tabIngest == b.tabIngest
        },
{
    match body {
        Some(mut b) => {
            if b.forceReplace.is_none() {
                b.forceReplace = Some(force);
            }
            Some(b)
        },
        None => None,
    }
}

/// The service's answer to a collection creation.
#[derive(Debug, Clone)]
#[allow(non_snake_case)]
pub struct CreateResponse {
    pub id: u32,
    pub alias: String,
    pub name: String,
    pub affiliation: String,
    pub dataverseContacts: Vec<DataverseContact>,
    pub permissionRoot: bool,
    pub description: String,
    pub dataverseType: DataverseType,
    pub ownerId: u32,
    pub creationDate: String,
    pub isReleased: bool,
}

/// The version of the service: major and minor number, and the build.
#[derive(Debug)]
pub struct VersionResponse {
    pub version: (u32, u32),
    pub build: Option<String>,
}

/// What `str::parse::<u32>` gives for `s`: an optional `+` followed by one
/// or more ASCII digits, whose value fits.
pub open spec fn parse_u32_spec(s: Seq<char>) -> Option<u32> {
    let d = if s.len() > 0 && s[0] == '+' {
        s.drop_first()
    } else {
        s
    };
    if d.len() > 0 && ascii_digits(d) && digits_value(d) <= u32::MAX {
        Some(digits_value(d) as u32)
    } else {
        None
    }
}

/// Relies on `str::parse::<u32>`: an optional `+` and decimal digits whose
/// value fits; anything else is an error.
#[verifier::external_body]
fn parse_u32(s: &str) -> (r: Option<u32>)
    ensures
        r == parse_u32_spec(s@),
{
    s.parse::<u32>().ok()
}

/// `s` holds exactly one `.`, at position `i`.
pub open spec fn single_dot_at(s: Seq<char>, i: int) -> bool {
    &&& 0 <= i < s.len()
    &&& s[i] == '.'
    &&& forall|j: int| 0 <= j < s.len() && j != i ==> s[j] != '.'
}

/// The major and minor number of a version written `major.minor`.
pub open spec fn version_numbers(s: Seq<char>) -> Option<(u32, u32)> {
    if exists|i: int| single_dot_at(s, i) {
        let i = choose|i: int| single_dot_at(s, i);
        match (parse_u32_spec(s.subrange(0, i)), parse_u32_spec(s.subrange(i + 1, s.len() as int))) {
            (Some(major), Some(minor)) => Some((major, minor)),
            _ => None,
        }
    } else {
        None
    }
}

/// Reads a version written `major.minor`, both numbers in decimal.
pub fn parse_version(s: &str) -> (r: Result<(u32, u32), String>)
    ensures
        match version_numbers(s@) {
            Some(v) => r == Ok::<(u32, u32), String>(v),
            None => r is Err,
        },
{
    let n = s.unicode_len();
    let mut dots: usize = 0;
    let mut pos: usize = 0;
    let mut i: usize = 0;
    while i < n
        invariant
            n == s@.len(),
            i <= n,
            dots <= i,
            dots == 0 ==> forall|j: int| 0 <= j < i ==> s@[j] != '.',
            dots == 1 ==> single_dot_at(s@.subrange(0, i as int), pos as int),
            dots >= 1 ==> pos < i && s@[pos as int] == '.',
            dots >= 2 ==> exists|j: int| 0 <= j < i && j != pos && s@[j] == '.',
        decreases n - i,
    {
        if s.get_char(i) == '.' {
            dots = if dots < 2 {
                dots + 1
            } else {
                dots
            };
            pos = i;
        }
        i += 1;
    }
    assert(s@.subrange(0, n as int) =~= s@);
    if dots != 1 {
        proof {
            if exists|k: int| single_dot_at(s@, k) {
                let k = choose|k: int| single_dot_at(s@, k);
                if dots >= 2 {
                    let j = choose|j: int| 0 <= j < n && j != pos && s@[j] == '.';
                    assert(j == k);
                    assert(pos as int == k);
                }
            }
        }
        return Err(String::from_str("Version should have two parts"));
    }
    assert(single_dot_at(s@, pos as int));
    assert forall|k: int| single_dot_at(s@, k) implies k == pos by {}
    let major = parse_u32(s.substring_char(0, pos));
    let minor = parse_u32(s.substring_char(pos + 1, n));
    match (major, minor) {
        (Some(a), Some(b)) => Ok((a, b)),
        _ => Err(String::from_str("Version numbers should be decimal numbers")),
    }
}

/// How a dataset's version number moves when it is published.
#[derive(Debug, Clone, Copy, PartialEq, Eq, Structural)]
pub enum Version {
    Major,
    Minor,
    UpdateCurrent,
}

impl Version {
    /// The version kind that `s` names, if any.
    pub open spec fn named(s: Seq<char>) -> Option<Version> {
        if s == "major"@ {
            Some(Version::Major)
        } else if s == "minor"@ {
            Some(Version::Minor)
        } else if s == "updatecurrent"@ {
            Some(Version::UpdateCurrent)
        } else {
            None
        }
    }

    /// Reads `major`, `minor` or `updatecurrent`; any other text is an
    /// error that names it.
    pub fn parse(s: &str) -> (r: Result<Version, String>)
        ensures
            match Version::named(s@) {
                Some(v) => r == Ok::<Version, String>(v),
                None => r is Err && r->Err_0@ == "Invalid version: "@ + s@,
            },
    {
        if same_text(s, "major") {
            Ok(Version::Major)
        } else if same_text(s, "minor") {
            Ok(Version::Minor)
        } else if same_text(s, "updatecurrent") {
            Ok(Version::UpdateCurrent)
        } else {
            let mut msg = String::from_str("Invalid version: ");
            msg.append(s);
            Err(msg)
        }
    }

    /// The value of the `type` query parameter that asks for this kind.
    pub fn as_param(&self) -> (r: &'static str)
        ensures
            *self == Version::Major ==> r@ == "major"@,
            *self == Version::Minor ==> r@ == "minor"@,
            *self == Version::UpdateCurrent ==> r@ == "updateCurrent"@,
    {
        match self {
            Version::Major => "major",
            Version::Minor => "minor",
            Version::UpdateCurrent => "updateCurrent",
        }
    }
}

impl std::str::FromStr for Version {
    type Err = String;

    fn from_str(s: &str) -> (r: Result<Version, String>)
        ensures
            match Version::named(s@) {
                Some(v) => r == Ok::<Version, String>(v),
                None => r is Err && r->Err_0@ == "Invalid version: "@ + s@,
            },
    {
        Version::parse(s)
    }
}

} // verus!
