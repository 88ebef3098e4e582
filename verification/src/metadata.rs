//! Mod manifests as the three loaders write them, and the metadata they
//! share.
//!
//! Each manifest type mirrors one loader's schema. A manifest is read out of
//! a parsed document by its `from_node`, out of text by
//! [`Manifest::from_str`], and turned into [`ModMetadata`] by its `try_into`.
//! Every `try_into` returns a `Result`, also where it cannot fail: callers
//! treat the three loaders alike.

use vstd::prelude::*;
use crate::document::{
    find, json_document, lookup, optional_text_of, parse_json, parse_toml, read_optional_text,
    read_text, text_of, toml_document, Node,
};

verus! {

/// `std::io::Error`, carried in [`ManifestError::IoError`] as it came.
#[verifier::external_type_specification]
#[verifier::external_body]
pub struct ExIoError(std::io::Error);

/// `zip::result::ZipError`, carried in [`ManifestError::JairUnzipFail`] as it
/// came.
#[verifier::external_type_specification]
#[verifier::external_body]
pub struct ExZipError(zip::result::ZipError);

/// An enumeration of mod kinds.
#[derive(Clone, Copy, Debug, PartialEq, Eq, Structural)]
pub enum ModKind {
    Fabric,
    Forge,
    Quilt,
}

/// Metadata for a mod.
#[derive(Clone, Debug, PartialEq, Eq)]
pub struct ModMetadata {
    pub kind: ModKind,
    pub id: String,
    pub name: String,
    pub description: Option<String>,
    /// The version as the manifest gives it. A placeholder such as
    /// `${version}` is kept as it is written.
    pub version: String,
}

/// What a [`ModMetadata`] holds.
pub struct ModMetadataView {
    pub kind: ModKind,
    pub id: Seq<char>,
    pub name: Seq<char>,
    pub description: Option<Seq<char>>,
    pub version: Seq<char>,
}

impl View for ModMetadata {
    type V = ModMetadataView;

    open spec fn view(&self) -> ModMetadataView {
        ModMetadataView {
            kind: self.kind,
            id: self.id@,
            name: self.name@,
            description: self.description.deep_view(),
            version: self.version@,
        }
    }
}

/// An enumeration of error types that can be raised during metadata reading.
#[derive(Debug)]
pub enum ManifestError {
    /// An entry of the jar, or the jar file itself, could not be read.
    IoError(std::io::Error),
    /// The jar is not a readable zip archive, or the manifest in it cannot
    /// be opened.
    JairUnzipFail(zip::result::ZipError),
    /// The jar holds no manifest of a known loader.
    MissingMetadataFile,
    /// The manifest text does not follow its loader's schema.
    DeserializeError,
    /// The Forge manifest lists no mod.
    EmptyForgeManifest,
}

/// The kind of a [`ManifestError`], without what it carries.
#[derive(PartialEq, Eq, Structural)]
pub enum ManifestFailure {
    Io,
    Unzip,
    MissingMetadataFile,
    Deserialize,
    EmptyForgeManifest,
}

impl View for ManifestError {
    type V = ManifestFailure;

    open spec fn view(&self) -> ManifestFailure {
        match self {
            ManifestError::IoError(_) => ManifestFailure::Io,
            ManifestError::JairUnzipFail(_) => ManifestFailure::Unzip,
            ManifestError::MissingMetadataFile => ManifestFailure::MissingMetadataFile,
            ManifestError::DeserializeError => ManifestFailure::Deserialize,
            ManifestError::EmptyForgeManifest => ManifestFailure::EmptyForgeManifest,
        }
    }
}

impl ManifestError {
    /// The text that describes this failure.
    pub open spec fn spec_message(self) -> Seq<char> {
        match self@ {
            ManifestFailure::Io => "encountered an IO error"@,
            ManifestFailure::Unzip => "failed to unzip jar file"@,
            ManifestFailure::MissingMetadataFile => "failed to find a valid metadata file"@,
            ManifestFailure::Deserialize => "failed to deserialize manifest"@,
            ManifestFailure::EmptyForgeManifest => "empty forge manifest"@,
        }
    }

    /// The text that describes this failure.
    pub fn message(&self) -> (text: String)
        ensures
            text@ == self.spec_message(),
    {
        match self {
            ManifestError::IoError(_) => "encountered an IO error".to_owned(),
            ManifestError::JairUnzipFail(_) => "failed to unzip jar file".to_owned(),
            ManifestError::MissingMetadataFile => "failed to find a valid metadata file".to_owned(),
            ManifestError::DeserializeError => "failed to deserialize manifest".to_owned(),
            ManifestError::EmptyForgeManifest => "empty forge manifest".to_owned(),
        }
    }
}

/// What reading metadata comes to: the metadata, or the kind of failure.
pub open spec fn outcome(result: Result<ModMetadata, ManifestError>) -> Result<
    ModMetadataView,
    ManifestFailure,
> {
    match result {
        Ok(metadata) => Ok(metadata@),
        Err(error) => Err(error@),
    }
}

/// Utility trait for deserializing manifests.
pub trait Manifest: Sized {
    /// Read and return a manifest from a string.
    fn from_str(text: &str) -> Result<Self, ManifestError>;
}

/// A manifest file for a Fabric mod: `fabric.mod.json`.
#[derive(Debug)]
pub struct FabricManifest {
    /// Defines the mod's identifier.
    pub id: String,
    /// Define's the mod's version.
    pub version: String,
    /// The name of the mod.
    pub name: Option<String>,
    /// A description of the mod.
    pub description: Option<String>,
}

/// What a [`FabricManifest`] holds.
pub struct FabricManifestView {
    pub id: Seq<char>,
    pub version: Seq<char>,
    pub name: Option<Seq<char>>,
    pub description: Option<Seq<char>>,
}

impl View for FabricManifest {
    type V = FabricManifestView;

    open spec fn view(&self) -> FabricManifestView {
        FabricManifestView {
            id: self.id@,
            version: self.version@,
            name: self.name.deep_view(),
            description: self.description.deep_view(),
        }
    }
}

impl FabricManifest {
    /// The manifest that a document holds: a record with the strings `id`
    /// and `version`, and with `name` and `description` either missing, null
    /// or strings. Other keys are ignored.
    pub open spec fn read(document: Option<Node>) -> Option<FabricManifestView> {
        match document {
            Some(Node::Record(fields)) => {
                let id = text_of(lookup(fields@, "id"@));
                let version = text_of(lookup(fields@, "version"@));
                let name = optional_text_of(lookup(fields@, "name"@));
                let description = optional_text_of(lookup(fields@, "description"@));
                if id is Some && version is Some && name is Some && description is Some {
                    Some(
                        FabricManifestView {
                            id: id->0,
                            version: version->0,
                            name: name->0,
                            description: description->0,
                        },
                    )
                } else {
                    None
                }
            },
            _ => None,
        }
    }

    /// The metadata of a manifest. The name defaults to the identifier.
    pub open spec fn metadata(manifest: FabricManifestView) -> ModMetadataView {
        ModMetadataView {
            kind: ModKind::Fabric,
            id: manifest.id,
            name: match manifest.name {
                Some(name) => name,
                None => manifest.id,
            },
            description: manifest.description,
            version: manifest.version,
        }
    }

    /// Reads a manifest out of a parsed document.
    pub fn from_node(node: &Node) -> (manifest: Option<FabricManifest>)
        ensures
            manifest matches Some(m) ==> FabricManifest::read(Some(*node)) == Some(m@),
            manifest is None ==> FabricManifest::read(Some(*node)) is None,
    {
        match node {
            Node::Record(fields) => {
                let id = read_text(find(fields, "id"));
                let version = read_text(find(fields, "version"));
                let name = read_optional_text(find(fields, "name"));
                let description = read_optional_text(find(fields, "description"));
                match (id, version, name, description) {
                    (Some(id), Some(version), Some(name), Some(description)) => Some(
                        FabricManifest { id, version, name, description },
                    ),
                    _ => None,
                }
            },
            _ => None,
        }
    }

    /// Turns the manifest into metadata. This never fails.
    pub fn try_into(self) -> (result: Result<ModMetadata, ManifestError>)
        ensures
            result matches Ok(metadata) && metadata@ == FabricManifest::metadata(self@),
    {
        let name = match self.name {
            Some(name) => name,
            None => self.id.clone(),
        };
        Ok(
            ModMetadata {
                kind: ModKind::Fabric,
                id: self.id,
                name,
                description: self.description,
                version: self.version,
            },
        )
    }
}

impl Manifest for FabricManifest {
    /// Parses the text as JSON and reads the manifest out of it.
    fn from_str(text: &str) -> (result: Result<FabricManifest, ManifestError>)
        ensures
            result matches Ok(m) ==> FabricManifest::read(json_document(text@)) == Some(m@),
            result matches Err(e) ==> e@ == ManifestFailure::Deserialize && FabricManifest::read(
                json_document(text@),
            ) is None,
    {
        match parse_json(text) {
            Some(document) => match FabricManifest::from_node(&document) {
                Some(manifest) => Ok(manifest),
                None => Err(ManifestError::DeserializeError),
            },
            None => Err(ManifestError::DeserializeError),
        }
    }
}

/// A mod specified in a Forge manifest file.
#[derive(Debug)]
pub struct ForgeMod {
    /// The ID of the mod: the key `modId`.
    pub mod_id: String,
    /// The version of the mod.
    pub version: String,
    /// The display name of the mod: the key `displayName`.
    pub display_name: Option<String>,
    /// The description of the mod.
    pub description: Option<String>,
}

/// What a [`ForgeMod`] holds.
pub struct ForgeModView {
    pub mod_id: Seq<char>,
    pub version: Seq<char>,
    pub display_name: Option<Seq<char>>,
    pub description: Option<Seq<char>>,
}

impl View for ForgeMod {
    type V = ForgeModView;

    open spec fn view(&self) -> ForgeModView {
        ForgeModView {
            mod_id: self.mod_id@,
            version: self.version@,
            display_name: self.display_name.deep_view(),
            description: self.description.deep_view(),
        }
    }
}

impl ForgeMod {
    /// The mod that one item of the list `mods` holds: a record with the
    /// strings `modId` and `version`, and with `displayName` and
    /// `description` either missing or strings. Other keys are ignored.
    pub open spec fn read(node: Node) -> Option<ForgeModView> {
        match node {
            Node::Record(fields) => {
                let mod_id = text_of(lookup(fields@, "modId"@));
                let version = text_of(lookup(fields@, "version"@));
                let display_name = optional_text_of(lookup(fields@, "displayName"@));
                let description = optional_text_of(lookup(fields@, "description"@));
                if mod_id is Some && version is Some && display_name is Some
                    && description is Some {
                    Some(
                        ForgeModView {
                            mod_id: mod_id->0,
                            version: version->0,
                            display_name: display_name->0,
                            description: description->0,
                        },
                    )
                } else {
                    None
                }
            },
            _ => None,
        }
    }

    /// The metadata of a mod. The name defaults to the identifier.
    pub open spec fn metadata(entry: ForgeModView) -> ModMetadataView {
        ModMetadataView {
            kind: ModKind::Forge,
            id: entry.mod_id,
            name: match entry.display_name {
                Some(name) => name,
                None => entry.mod_id,
            },
            description: entry.description,
            version: entry.version,
        }
    }

    /// Reads a mod out of one item of the list `mods`.
    pub fn from_node(node: &Node) -> (entry: Option<ForgeMod>)
        ensures
            entry matches Some(m) ==> ForgeMod::read(*node) == Some(m@),
            entry is None ==> ForgeMod::read(*node) is None,
    {
        match node {
            Node::Record(fields) => {
                let mod_id = read_text(find(fields, "modId"));
                let version = read_text(find(fields, "version"));
                let display_name = read_optional_text(find(fields, "displayName"));
                let description = read_optional_text(find(fields, "description"));
                match (mod_id, version, display_name, description) {
                    (Some(mod_id), Some(version), Some(display_name), Some(description)) => Some(
                        ForgeMod { mod_id, version, display_name, description },
                    ),
                    _ => None,
                }
            },
            _ => None,
        }
    }
}

/// A manifest file for a Forge mod: `META-INF/mods.toml`.
#[derive(Debug)]
pub struct ForgeManifest {
    /// A list of mods contained in this jar.
    pub mods: Vec<ForgeMod>,
}

/// What a [`ForgeManifest`] holds.
pub struct ForgeManifestView {
    pub mods: Seq<ForgeModView>,
}

impl View for ForgeManifest {
    type V = ForgeManifestView;

    open spec fn view(&self) -> ForgeManifestView {
        ForgeManifestView { mods: Seq::new(self.mods@.len(), |i: int| self.mods@[i]@) }
    }
}

impl ForgeManifest {
    /// Whether every item of the list holds a mod.
    pub open spec fn all_mods(items: Seq<Node>) -> bool {
        forall|i: int| 0 <= i < items.len() ==> ForgeMod::read(#[trigger] items[i]) is Some
    }

    /// The manifest that a document holds: a record whose key `mods` is a
    /// list in which every item holds a mod. The list may be empty.
    pub open spec fn read(document: Option<Node>) -> Option<ForgeManifestView> {
        match document {
            Some(Node::Record(fields)) => match lookup(fields@, "mods"@) {
                Some(Node::List(items)) => if ForgeManifest::all_mods(items@) {
                    Some(
                        ForgeManifestView {
                            mods: Seq::new(items@.len(), |i: int| ForgeMod::read(items@[i])->0),
                        },
                    )
                } else {
                    None
                },
                _ => None,
            },
            _ => None,
        }
    }

    /// The metadata of a manifest: that of the first mod it lists.
    pub open spec fn metadata(manifest: ForgeManifestView) -> Result<
        ModMetadataView,
        ManifestFailure,
    > {
        if manifest.mods.len() == 0 {
            Err(ManifestFailure::EmptyForgeManifest)
        } else {
            Ok(ForgeMod::metadata(manifest.mods[0]))
        }
    }

    /// Reads a manifest out of a parsed document.
    #[verifier::loop_isolation(false)]
    pub fn from_node(node: &Node) -> (manifest: Option<ForgeManifest>)
        ensures
            manifest matches Some(m) ==> ForgeManifest::read(Some(*node)) == Some(m@),
            manifest is None ==> ForgeManifest::read(Some(*node)) is None,
    {
        match node {
            Node::Record(fields) => match find(fields, "mods") {
                Some(Node::List(items)) => {
                    let mut mods: Vec<ForgeMod> = Vec::new();
                    let mut i: usize = 0;
                    while i < items.len()
                        invariant
                            i <= items.len(),
                            mods.len() == i,
                            ForgeManifest::all_mods(items@.take(i as int)),
                            forall|j: int|
                                0 <= j < i ==> ForgeMod::read(items@[j]) == Some(
                                    (#[trigger] mods[j])@,
                                ),
                        decreases items.len() - i,
                    {
                        match ForgeMod::from_node(&items[i]) {
                            Some(entry) => {
                                mods.push(entry);
                            },
                            None => {
                                proof {
                                    assert(ForgeMod::read(items@[i as int]) is None);
                                }
                                return None;
                            },
                        }
                        i += 1;
                    }
                    let manifest = ForgeManifest { mods };
                    proof {
                        assert(items@.take(i as int) =~= items@);
                        assert(manifest@.mods =~= Seq::new(
                            items@.len(),
                            |i: int| ForgeMod::read(items@[i])->0,
                        ));
                    }
                    Some(manifest)
                },
                _ => None,
            },
            _ => None,
        }
    }

    /// Turns the manifest into metadata: that of the first mod it lists.
    /// Fails with `EmptyForgeManifest` where it lists none.
    pub fn try_into(self) -> (result: Result<ModMetadata, ManifestError>)
        ensures
            outcome(result) == ForgeManifest::metadata(self@),
    {
        if self.mods.len() == 0 {
            return Err(ManifestError::EmptyForgeManifest);
        }
        let entry = &self.mods[0];
        let name = match &entry.display_name {
            Some(name) => name.clone(),
            None => entry.mod_id.clone(),
        };
        Ok(
            ModMetadata {
                kind: ModKind::Forge,
                id: entry.mod_id.clone(),
                name,
                description: entry.description.clone(),
                version: entry.version.clone(),
            },
        )
    }
}

impl Manifest for ForgeManifest {
    /// Parses the text as TOML and reads the manifest out of it.
    fn from_str(text: &str) -> (result: Result<ForgeManifest, ManifestError>)
        ensures
            result matches Ok(m) ==> ForgeManifest::read(toml_document(text@)) == Some(m@),
            result matches Err(e) ==> e@ == ManifestFailure::Deserialize && ForgeManifest::read(
                toml_document(text@),
            ) is None,
    {
        match parse_toml(text) {
            Some(document) => match ForgeManifest::from_node(&document) {
                Some(manifest) => Ok(manifest),
                None => Err(ManifestError::DeserializeError),
            },
            None => Err(ManifestError::DeserializeError),
        }
    }
}

/// Extra information about a Quilt mod and its authors.
#[derive(Debug)]
pub struct QuiltModMetadata {
    pub name: String,
    pub description: String,
}

/// What a [`QuiltModMetadata`] holds.
pub struct QuiltModMetadataView {
    pub name: Seq<char>,
    pub description: Seq<char>,
}

impl View for QuiltModMetadata {
    type V = QuiltModMetadataView;

    open spec fn view(&self) -> QuiltModMetadataView {
        QuiltModMetadataView { name: self.name@, description: self.description@ }
    }
}

impl Default for QuiltModMetadata {
    fn default() -> (metadata: QuiltModMetadata)
        ensures
            metadata@.name.len() == 0,
            metadata@.description.len() == 0,
    {
        QuiltModMetadata { name: String::new(), description: String::new() }
    }
}

impl QuiltModMetadata {
    /// The section that the key `metadata` holds: `Some(None)` where the key
    /// is missing or null, the section where it is a record with the strings
    /// `name` and `description`, and `None` for anything else.
    pub open spec fn read(field: Option<Node>) -> Option<Option<QuiltModMetadataView>> {
        match field {
            None => Some(None),
            Some(Node::Null) => Some(None),
            Some(Node::Record(fields)) => {
                let name = text_of(lookup(fields@, "name"@));
                let description = text_of(lookup(fields@, "description"@));
                if name is Some && description is Some {
                    Some(Some(QuiltModMetadataView { name: name->0, description: description->0 }))
                } else {
                    None
                }
            },
            _ => None,
        }
    }

    /// Reads the section that the key `metadata` holds.
    pub fn from_field(field: Option<&Node>) -> (section: Option<Option<QuiltModMetadata>>)
        ensures
            section matches Some(Some(m)) ==> QuiltModMetadata::read(
                crate::document::deref_field(field),
            ) == Some(Some(m@)),
            section matches Some(None) ==> QuiltModMetadata::read(
                crate::document::deref_field(field),
            ) == Some(None::<QuiltModMetadataView>),
            section is None ==> QuiltModMetadata::read(crate::document::deref_field(field))
                is None,
    {
        match field {
            None => Some(None),
            Some(Node::Null) => Some(None),
            Some(Node::Record(fields)) => {
                let name = read_text(find(fields, "name"));
                let description = read_text(find(fields, "description"));
                match (name, description) {
                    (Some(name), Some(description)) => Some(
                        Some(QuiltModMetadata { name, description }),
                    ),
                    _ => None,
                }
            },
            _ => None,
        }
    }
}

/// Information related to loading a Quilt mod.
#[derive(Debug)]
pub struct QuiltManifestLoader {
    /// The ID of the mod.
    pub id: String,
    /// The group of the mod.
    pub group: String,
    /// The version of the mod.
    pub version: String,
    /// Extra information about this mod and/or its authors
    pub metadata: Option<QuiltModMetadata>,
}

/// What a [`QuiltManifestLoader`] holds.
pub struct QuiltManifestLoaderView {
    pub id: Seq<char>,
    pub group: Seq<char>,
    pub version: Seq<char>,
    pub metadata: Option<QuiltModMetadataView>,
}

impl View for QuiltManifestLoader {
    type V = QuiltManifestLoaderView;

    open spec fn view(&self) -> QuiltManifestLoaderView {
        QuiltManifestLoaderView {
            id: self.id@,
            group: self.group@,
            version: self.version@,
            metadata: match self.metadata {
                Some(metadata) => Some(metadata@),
                None => None,
            },
        }
    }
}

impl QuiltManifestLoader {
    /// The loader section that a node holds: a record with the strings `id`,
    /// `group` and `version`, and with a `metadata` section or none.
    pub open spec fn read(node: Option<Node>) -> Option<QuiltManifestLoaderView> {
        match node {
            Some(Node::Record(fields)) => {
                let id = text_of(lookup(fields@, "id"@));
                let group = text_of(lookup(fields@, "group"@));
                let version = text_of(lookup(fields@, "version"@));
                let metadata = QuiltModMetadata::read(lookup(fields@, "metadata"@));
                if id is Some && group is Some && version is Some && metadata is Some {
                    Some(
                        QuiltManifestLoaderView {
                            id: id->0,
                            group: group->0,
                            version: version->0,
                            metadata: metadata->0,
                        },
                    )
                } else {
                    None
                }
            },
            _ => None,
        }
    }

    /// Reads the loader section out of a node.
    pub fn from_node(node: &Node) -> (loader: Option<QuiltManifestLoader>)
        ensures
            loader matches Some(l) ==> QuiltManifestLoader::read(Some(*node)) == Some(l@),
            loader is None ==> QuiltManifestLoader::read(Some(*node)) is None,
    {
        match node {
            Node::Record(fields) => {
                let id = read_text(find(fields, "id"));
                let group = read_text(find(fields, "group"));
                let version = read_text(find(fields, "version"));
                let metadata = QuiltModMetadata::from_field(find(fields, "metadata"));
                match (id, group, version, metadata) {
                    (Some(id), Some(group), Some(version), Some(metadata)) => Some(
                        QuiltManifestLoader { id, group, version, metadata },
                    ),
                    _ => None,
                }
            },
            _ => None,
        }
    }
}

/// A manifest file for a Quilt mod: `quilt.mod.json`.
#[derive(Debug)]
pub struct QuiltManifest {
    /// Information related to loading the mod.
    pub quilt_loader: QuiltManifestLoader,
}

/// What a [`QuiltManifest`] holds.
pub struct QuiltManifestView {
    pub quilt_loader: QuiltManifestLoaderView,
}

impl View for QuiltManifest {
    type V = QuiltManifestView;

    open spec fn view(&self) -> QuiltManifestView {
        QuiltManifestView { quilt_loader: self.quilt_loader@ }
    }
}

impl QuiltManifest {
    /// The manifest that a document holds: a record whose key `quilt_loader`
    /// holds a loader section. Other keys are ignored.
    pub open spec fn read(document: Option<Node>) -> Option<QuiltManifestView> {
        match document {
            Some(Node::Record(fields)) => match QuiltManifestLoader::read(
                lookup(fields@, "quilt_loader"@),
            ) {
                Some(quilt_loader) => Some(QuiltManifestView { quilt_loader }),
                None => None,
            },
            _ => None,
        }
    }

    /// The metadata of a manifest. Name and description come from the
    /// `metadata` section. Without that section the name is the identifier
    /// and there is no description.
    pub open spec fn metadata(manifest: QuiltManifestView) -> ModMetadataView {
        ModMetadataView {
            kind: ModKind::Quilt,
            id: manifest.quilt_loader.id,
            name: match manifest.quilt_loader.metadata {
                Some(metadata) => metadata.name,
                None => manifest.quilt_loader.id,
            },
            description: match manifest.quilt_loader.metadata {
                Some(metadata) => Some(metadata.description),
                None => None,
            },
            version: manifest.quilt_loader.version,
        }
    }

    /// Reads a manifest out of a parsed document.
    pub fn from_node(node: &Node) -> (manifest: Option<QuiltManifest>)
        ensures
            manifest matches Some(m) ==> QuiltManifest::read(Some(*node)) == Some(m@),
            manifest is None ==> QuiltManifest::read(Some(*node)) is None,
    {
        match node {
            Node::Record(fields) => match find(fields, "quilt_loader") {
                Some(section) => match QuiltManifestLoader::from_node(section) {
                    Some(quilt_loader) => Some(QuiltManifest { quilt_loader }),
                    None => None,
                },
                None => None,
            },
            _ => None,
        }
    }

    /// Turns the manifest into metadata. This never fails.
    pub fn try_into(self) -> (result: Result<ModMetadata, ManifestError>)
        ensures
            result matches Ok(metadata) && metadata@ == QuiltManifest::metadata(self@),
    {
        let loader = self.quilt_loader;
        let (name, description) = match loader.metadata {
            Some(metadata) => (metadata.name, Some(metadata.description)),
            None => (loader.id.clone(), None),
        };
        Ok(
            ModMetadata {
                kind: ModKind::Quilt,
                id: loader.id,
                name,
                description,
                version: loader.version,
            },
        )
    }
}

impl Manifest for QuiltManifest {
    /// Parses the text as JSON and reads the manifest out of it.
    fn from_str(text: &str) -> (result: Result<QuiltManifest, ManifestError>)
        ensures
            result matches Ok(m) ==> QuiltManifest::read(json_document(text@)) == Some(m@),
            result matches Err(e) ==> e@ == ManifestFailure::Deserialize && QuiltManifest::read(
                json_document(text@),
            ) is None,
    {
        match parse_json(text) {
            Some(document) => match QuiltManifest::from_node(&document) {
                Some(manifest) => Ok(manifest),
                None => Err(ManifestError::DeserializeError),
            },
            None => Err(ManifestError::DeserializeError),
        }
    }
}

/// The metadata of a Fabric manifest carries the `id` and the `version` of
/// the document it was read from, and its `name`, or its `id` where the
/// document gives no name.
pub proof fn fabric_metadata_fields(document: Node)
    requires
        FabricManifest::read(Some(document)) is Some,
    ensures
        ({
            let metadata = FabricManifest::metadata(FabricManifest::read(Some(document))->0);
            &&& metadata.kind == ModKind::Fabric
            &&& document matches Node::Record(fields)
            &&& text_of(lookup(fields@, "id"@)) == Some(metadata.id)
            &&& text_of(lookup(fields@, "version"@)) == Some(metadata.version)
            &&& optional_text_of(lookup(fields@, "name"@)) matches Some(name)
            &&& metadata.name == match name {
                Some(name) => name,
                None => metadata.id,
            }
        }),
{
}

/// The metadata of a Forge manifest carries the `modId` and the `version` of
/// the first mod in the document it was read from, and that mod's
/// `displayName`, or its `modId` where the document gives no name.
pub proof fn forge_metadata_fields(document: Node)
    requires
        ForgeManifest::read(Some(document)) matches Some(manifest) && manifest.mods.len() > 0,
    ensures
        ({
            &&& ForgeManifest::metadata(ForgeManifest::read(Some(document))->0) matches Ok(
                metadata,
            )
            &&& metadata.kind == ModKind::Forge
            &&& document matches Node::Record(fields)
            &&& lookup(fields@, "mods"@) matches Some(Node::List(items))
            &&& items@.len() > 0
            &&& items@[0] matches Node::Record(entry)
            &&& text_of(lookup(entry@, "modId"@)) == Some(metadata.id)
            &&& text_of(lookup(entry@, "version"@)) == Some(metadata.version)
            &&& optional_text_of(lookup(entry@, "displayName"@)) matches Some(name)
            &&& metadata.name == match name {
                Some(name) => name,
                None => metadata.id,
            }
        }),
{
}

/// The metadata of a Quilt manifest carries the `id` and the `version` of
/// the loader section in the document it was read from, and the `name` of
/// the `metadata` section, or the `id` where the document has no such
/// section.
pub proof fn quilt_metadata_fields(document: Node)
    requires
        QuiltManifest::read(Some(document)) is Some,
    ensures
        ({
            let metadata = QuiltManifest::metadata(QuiltManifest::read(Some(document))->0);
            &&& metadata.kind == ModKind::Quilt
            &&& document matches Node::Record(fields)
            &&& lookup(fields@, "quilt_loader"@) matches Some(Node::Record(loader))
            &&& text_of(lookup(loader@, "id"@)) == Some(metadata.id)
            &&& text_of(lookup(loader@, "version"@)) == Some(metadata.version)
            &&& QuiltModMetadata::read(lookup(loader@, "metadata"@)) matches Some(section)
            &&& match section {
                Some(extra) => metadata.name == extra.name && metadata.description == Some(
                    extra.description,
                ),
                None => metadata.name == metadata.id && metadata.description is None,
            }
        }),
{
}

} // verus!
