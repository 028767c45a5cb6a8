//! The layout of a bookmark collection.

use vstd::prelude::*;

verus! {

/// Why a bookmark file could not be loaded, with the reason in words.
#[derive(Clone, Debug, PartialEq, Eq)]
pub enum Error {
    /// The file could not be read.
    IO(String),
    /// The file does not hold a bookmark collection.
    RmpDeserialize(String),
}

impl Error {
    /// The reason in words.
    pub open spec fn reason(self) -> String {
        match self {
            Error::IO(reason) => reason,
            Error::RmpDeserialize(reason) => reason,
        }
    }

    /// The reason in words.
    pub fn message(&self) -> (reason: &String)
        ensures
            *reason == self.reason(),
    {
        match self {
            Error::IO(reason) => reason,
            Error::RmpDeserialize(reason) => reason,
        }
    }
}

/// Everything stored in one bookmark file.
#[derive(Debug)]
pub struct FileData {
    /// Every tag in use.
    pub tag: Vec<String>,
    /// The categories.
    pub category: Vec<CategoryData>,
    /// The bookmarks.
    pub bookmark: Vec<BookmarkData>,
}

/// A category of bookmarks.
#[derive(Debug)]
pub struct CategoryData {
    /// Name of the category.
    pub name: String,
    /// Description of the category.
    pub info: String,
    /// The rules that decide which bookmarks belong to the category.
    pub identifier: IdentifierData,
    /// The categories within this one.
    pub subcategory: Vec<CategoryData>,
}

/// The rules by which a category picks its bookmarks.
#[derive(Debug)]
pub struct IdentifierData {
    /// Substrings that the address of every member contains.
    pub require: Vec<String>,
    /// Addresses that are members as they stand.
    pub whole: Vec<String>,
    /// Substrings of which the address of a member contains at least one.
    pub included: Vec<String>,
}

/// One bookmark.
#[derive(Debug)]
pub struct BookmarkData {
    /// The address.
    pub url: String,
    /// Description of the bookmark, often its display name.
    pub info: String,
    /// The identifier, as the 128-bit number of its UUID.
    pub uuid: u128,
    /// Tags by which the bookmark can be found.
    pub tag: Vec<String>,
}

/// The bits of a UUID that hold its version and its variant.
pub const UUID_KIND_MASK: u128 = 0x0000_0000_0000_f000_c000_0000_0000_0000;

/// The version and variant bits of a random UUID: version 4, RFC variant.
pub const UUID_RANDOM_KIND: u128 = 0x0000_0000_0000_4000_8000_0000_0000_0000;

/// Whether `uuid` is marked as a random UUID.
pub open spec fn is_random_uuid(uuid: u128) -> bool {
    uuid & UUID_KIND_MASK == UUID_RANDOM_KIND
}

/// Calls `uuid::Uuid::new_v4` and takes the result as a number with
/// `Uuid::as_u128`. The number is drawn at random, so the contract states
/// only what every outcome has: the version and variant bits that `new_v4`
/// sets.
#[verifier::external_body]
fn random_uuid() -> (uuid: u128)
    ensures
        is_random_uuid(uuid),
{
    uuid::Uuid::new_v4().as_u128()
}

impl Default for FileData {
    fn default() -> (data: FileData)
        ensures
            data.tag@.len() == 0,
            data.category@.len() == 0,
            data.bookmark@.len() == 0,
    {
        FileData { tag: Vec::new(), category: Vec::new(), bookmark: Vec::new() }
    }
}

impl Default for CategoryData {
    fn default() -> (data: CategoryData)
        ensures
            data.name@.len() == 0,
            data.info@.len() == 0,
            data.identifier.is_empty(),
            data.subcategory@.len() == 0,
    {
        CategoryData {
            name: String::new(),
            info: String::new(),
            identifier: IdentifierData::default(),
            subcategory: Vec::new(),
        }
    }
}

impl IdentifierData {
    /// Whether there are no rules at all.
    pub open spec fn is_empty(self) -> bool {
        &&& self.require@.len() == 0
        &&& self.whole@.len() == 0
        &&& self.included@.len() == 0
    }
}

impl Default for IdentifierData {
    fn default() -> (data: IdentifierData)
        ensures
            data.is_empty(),
    {
        IdentifierData { require: Vec::new(), whole: Vec::new(), included: Vec::new() }
    }
}

impl Default for BookmarkData {
    /// An empty bookmark with a fresh random identifier.
    fn default() -> (data: BookmarkData)
        ensures
            data.url@.len() == 0,
            data.info@.len() == 0,
            data.tag@.len() == 0,
            is_random_uuid(data.uuid),
    {
        BookmarkData {
            url: String::new(),
            info: String::new(),
            uuid: random_uuid(),
            tag: Vec::new(),
        }
    }
}

} // verus!
