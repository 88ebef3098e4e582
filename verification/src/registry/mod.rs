//! This module defines traits and structs for accessing the various modding
//! registries, such as CurseForge and Modrinth.
//!
//! A registry does no network traffic itself. It says which request to send
//! and what the reply to it means; sending is the caller's part.

use vstd::prelude::*;

pub mod curseforge;
pub mod modrinth;

verus! {

/// `time::OffsetDateTime`, carried in [`ModVersion`] as it came.
#[verifier::external_type_specification]
#[verifier::external_body]
pub struct ExOffsetDateTime(time::OffsetDateTime);

/// What a downloadable file of a mod is.
#[derive(Clone, Copy, Debug, PartialEq, Eq, Structural)]
pub enum ModFileType {
    Mod,
    Modpack,
    ResourcePack,
    World,
}

/// A downloadable file of a mod version.
#[derive(Clone, Debug, PartialEq, Eq)]
pub struct ModFile {
    pub id: String,
    pub name: String,
    pub download_url: String,
    /// The date as the registry writes it.
    pub date_published: String,
    pub game_versions: Vec<String>,
    pub file_type: ModFileType,
}

/// What a [`ModFile`] holds.
pub struct ModFileView {
    pub id: Seq<char>,
    pub name: Seq<char>,
    pub download_url: Seq<char>,
    pub date_published: Seq<char>,
    pub game_versions: Seq<Seq<char>>,
    pub file_type: ModFileType,
}

impl View for ModFile {
    type V = ModFileView;

    open spec fn view(&self) -> ModFileView {
        ModFileView {
            id: self.id@,
            name: self.name@,
            download_url: self.download_url@,
            date_published: self.date_published@,
            game_versions: self.game_versions.deep_view(),
            file_type: self.file_type,
        }
    }
}

/// A version of a mod.
#[derive(Debug, PartialEq, Eq)]
pub struct ModVersion {
    pub id: String,
    pub name: String,
    pub description: String,
    pub downloads: u64,
    pub date_published: time::OffsetDateTime,
    pub files: Vec<ModFile>,
}

/// What a [`ModVersion`] holds.
pub struct ModVersionView {
    pub id: Seq<char>,
    pub name: Seq<char>,
    pub description: Seq<char>,
    pub downloads: u64,
    pub date_published: time::OffsetDateTime,
    pub files: Seq<ModFileView>,
}

impl View for ModVersion {
    type V = ModVersionView;

    open spec fn view(&self) -> ModVersionView {
        ModVersionView {
            id: self.id@,
            name: self.name@,
            description: self.description@,
            downloads: self.downloads,
            date_published: self.date_published,
            files: Seq::new(self.files@.len(), |i: int| self.files@[i]@),
        }
    }
}

/// A mod from a registry.
#[derive(Debug, PartialEq, Eq)]
pub struct Mod {
    /// The mod's ID.
    pub id: String,
    /// The mod's name.
    pub name: String,
    /// A description of the mod.
    pub description: String,
    /// A list of authors of the mod.
    pub authors: Vec<String>,
    /// The versions of the mod, in the order the registry gave them. The
    /// first one counts as the latest.
    pub versions: Vec<ModVersion>,
}

/// What a [`Mod`] holds.
pub struct ModView {
    pub id: Seq<char>,
    pub name: Seq<char>,
    pub description: Seq<char>,
    pub authors: Seq<Seq<char>>,
    pub versions: Seq<ModVersionView>,
}

impl View for Mod {
    type V = ModView;

    open spec fn view(&self) -> ModView {
        ModView {
            id: self.id@,
            name: self.name@,
            description: self.description@,
            authors: self.authors.deep_view(),
            versions: Seq::new(self.versions@.len(), |i: int| self.versions@[i]@),
        }
    }
}

impl Mod {
    /// The latest version: the first one in the list.
    pub fn get_latest_version(&self) -> (version: &ModVersion)
        requires
            self.versions@.len() > 0,
        ensures
            *version == self.versions@[0],
    {
        &self.versions[0]
    }
}

/// The ways in which a registry operation fails.
#[derive(Clone, Copy, Debug, PartialEq, Eq, Structural)]
pub enum ModRegistryError {
    /// The request could not be completed, or the registry answered with a
    /// failure status.
    RequestError,
    /// The body of the reply does not follow the registry's schema.
    ParseError,
    /// The registry does not support the operation.
    NotImplemented,
    /// Unknown data store error.
    Unknown,
}

impl ModRegistryError {
    /// The text that describes this failure.
    pub open spec fn spec_message(self) -> Seq<char> {
        match self {
            ModRegistryError::RequestError => "Request error"@,
            ModRegistryError::ParseError => "JSON parse error"@,
            ModRegistryError::NotImplemented => "not implemented by this registry"@,
            ModRegistryError::Unknown => "unknown data store error"@,
        }
    }

    /// The text that describes this failure.
    pub fn message(&self) -> (text: String)
        ensures
            text@ == self.spec_message(),
    {
        match self {
            ModRegistryError::RequestError => "Request error".to_owned(),
            ModRegistryError::ParseError => "JSON parse error".to_owned(),
            ModRegistryError::NotImplemented => "not implemented by this registry".to_owned(),
            ModRegistryError::Unknown => "unknown data store error".to_owned(),
        }
    }
}

/// A `GET` request for the caller to send.
#[derive(Clone, Debug, PartialEq, Eq)]
pub struct Request {
    /// The address, without a query string.
    pub url: String,
    /// The query parameters, not yet encoded.
    pub query: Vec<(String, String)>,
}

/// What a [`Request`] holds.
pub struct RequestView {
    pub url: Seq<char>,
    pub query: Seq<(Seq<char>, Seq<char>)>,
}

impl View for Request {
    type V = RequestView;

    open spec fn view(&self) -> RequestView {
        RequestView {
            url: self.url@,
            query: Seq::new(self.query@.len(), |i: int| (self.query@[i].0@, self.query@[i].1@)),
        }
    }
}

/// What came back for a request.
#[derive(Clone, Debug, PartialEq, Eq)]
pub enum Reply {
    /// The body of a reply with a success status.
    Body(String),
    /// No such reply: the transport failed, timed out or was cancelled, or
    /// the status was a failure.
    Failed,
}

/// What a [`Reply`] holds.
pub enum ReplyView {
    Body(Seq<char>),
    Failed,
}

impl View for Reply {
    type V = ReplyView;

    open spec fn view(&self) -> ReplyView {
        match self {
            Reply::Body(text) => ReplyView::Body(text@),
            Reply::Failed => ReplyView::Failed,
        }
    }
}

/// What looking one mod up comes to.
pub open spec fn lookup_outcome(result: Result<Mod, ModRegistryError>) -> Result<
    ModView,
    ModRegistryError,
> {
    match result {
        Ok(found) => Ok(found@),
        Err(error) => Err(error),
    }
}

/// What a search comes to.
pub open spec fn search_outcome(result: Result<Vec<Mod>, ModRegistryError>) -> Result<
    Seq<ModView>,
    ModRegistryError,
> {
    match result {
        Ok(mods) => Ok(Seq::new(mods@.len(), |i: int| mods@[i]@)),
        Err(error) => Err(error),
    }
}

/// What a registry can do: look one mod up by its identifier, and search by
/// free text. Each operation is a request to send and a reading of the reply.
/// A reply is read once: nothing is retried.
pub trait ModRegistry {
    /// The request that looks up the mod with the given identifier.
    fn get_mod_request(&self, id: &str) -> Result<Request, ModRegistryError>;

    /// The mod in the reply to a lookup.
    fn get_mod_reply(&self, reply: &Reply) -> Result<Mod, ModRegistryError>;

    /// The request that searches for the given text.
    fn search_mods_request(&self, query: &str) -> Result<Request, ModRegistryError>;

    /// The mods in the reply to a search, in the order the registry ranks
    /// them.
    fn search_mods_reply(&self, reply: &Reply) -> Result<Vec<Mod>, ModRegistryError>;
}

} // verus!
