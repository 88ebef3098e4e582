//! Finding and reading the manifest of a mod jar.
//!
//! A jar is probed for the manifest of each loader in a fixed order: Fabric,
//! then Forge, then Quilt. The first manifest found decides, also where it
//! cannot be opened, read or decoded: later ones are not looked at.
//!
//! The archive itself is read by `zip`, which is not verified. This module
//! names what `zip` makes of the bytes and proves what follows from it.

use std::io::Cursor;
use std::io::Read;
use vstd::prelude::*;
use zip::result::ZipError;
use zip::ZipArchive;
use crate::document::{json_document, toml_document};
use crate::metadata::{
    outcome, FabricManifest, ForgeManifest, Manifest, ManifestError, ManifestFailure, ModKind,
    ModMetadata, ModMetadataView, QuiltManifest,
};

verus! {

/// `std::io::Cursor`, which lets `zip` read an archive from memory.
#[verifier::external_type_specification]
#[verifier::external_body]
#[verifier::reject_recursive_types(T)]
pub struct ExCursor<T>(Cursor<T>);

/// `zip::ZipArchive`, an open archive. Nothing inside it is visible here.
#[verifier::external_type_specification]
#[verifier::external_body]
#[verifier::reject_recursive_types(R)]
pub struct ExZipArchive<R>(ZipArchive<R>);

/// What an archive gives for an entry name.
pub enum Entry {
    /// The archive has no entry of this name.
    Absent,
    /// There is an entry, and `zip` cannot open it.
    Failed,
    /// There is an entry, and reading it as text fails.
    Unreadable,
    /// The text of the entry.
    Text(Seq<char>),
}

/// What reading an entry of an archive came to.
pub enum EntryRead {
    /// The archive has no entry of this name.
    Absent,
    /// There is an entry, and `zip` could not open it: its compression is
    /// not supported, it is encrypted, or its header is broken.
    Failed(ZipError),
    /// There is an entry, and reading it as text failed.
    Unreadable(std::io::Error),
    /// The text of the entry.
    Text(String),
}

impl View for EntryRead {
    type V = Entry;

    open spec fn view(&self) -> Entry {
        match self {
            EntryRead::Absent => Entry::Absent,
            EntryRead::Failed(_) => Entry::Failed,
            EntryRead::Unreadable(_) => Entry::Unreadable,
            EntryRead::Text(text) => Entry::Text(text@),
        }
    }
}

/// Whether `zip` accepts the bytes as an archive.
pub uninterp spec fn zip_opens(bytes: Seq<u8>) -> bool;

/// The bytes that an archive opened by `ZipArchive::new` reads from.
pub uninterp spec fn archive_bytes(archive: ZipArchive<Cursor<Vec<u8>>>) -> Seq<u8>;

/// What `zip` gives for the entry `name` of an archive that
/// `ZipArchive::new` opened on these bytes.
pub uninterp spec fn zip_entry(bytes: Seq<u8>, name: Seq<char>) -> Entry;

/// Calls `zip::ZipArchive::new` on the bytes, behind a `std::io::Cursor`.
///
/// Trusted: whether the bytes are accepted depends on the bytes alone, and
/// the archive reads from the bytes it was given. Nothing is claimed about
/// which bytes are accepted.
#[verifier::external_body]
fn open_archive(bytes: Vec<u8>) -> (opened: Result<ZipArchive<Cursor<Vec<u8>>>, ZipError>)
    ensures
        opened is Ok <==> zip_opens(bytes@),
        opened matches Ok(archive) ==> archive_bytes(archive) == bytes@,
{
    ZipArchive::new(Cursor::new(bytes))
}

/// Calls `zip::ZipArchive::by_name` and, on the entry it gives,
/// `read_to_string`.
///
/// Trusted: the archive still reads from the same bytes afterwards, and what
/// comes back depends on those bytes and the name alone. The entry is absent
/// where `by_name` fails with `ZipError::FileNotFound`; any other failure of
/// `by_name` is handed on as it came. Nothing is claimed about which entries
/// an archive has.
#[verifier::external_body]
fn read_entry(archive: &mut ZipArchive<Cursor<Vec<u8>>>, name: &str) -> (entry: EntryRead)
    ensures
        archive_bytes(*final(archive)) == archive_bytes(*old(archive)),
        entry@ == zip_entry(archive_bytes(*old(archive)), name@),
{
    let mut text = String::new();
    match archive.by_name(name) {
        Ok(mut file) => match file.read_to_string(&mut text) {
            Ok(_) => EntryRead::Text(text),
            Err(error) => EntryRead::Unreadable(error),
        },
        Err(ZipError::FileNotFound) => EntryRead::Absent,
        Err(error) => EntryRead::Failed(error),
    }
}

impl ModKind {
    /// The path of this loader's manifest inside a jar.
    pub open spec fn spec_manifest_path(self) -> Seq<char> {
        match self {
            ModKind::Fabric => "fabric.mod.json"@,
            ModKind::Forge => "META-INF/mods.toml"@,
            ModKind::Quilt => "quilt.mod.json"@,
        }
    }

    /// The path of this loader's manifest inside a jar.
    pub fn manifest_path(self) -> (path: &'static str)
        ensures
            path@ == self.spec_manifest_path(),
    {
        match self {
            ModKind::Fabric => "fabric.mod.json",
            ModKind::Forge => "META-INF/mods.toml",
            ModKind::Quilt => "quilt.mod.json",
        }
    }
}

/// The loaders in the order in which a jar is probed for their manifests:
/// Fabric, then Forge, then Quilt.
pub open spec fn probe_order() -> Seq<ModKind> {
    seq![ModKind::Fabric, ModKind::Forge, ModKind::Quilt]
}

/// The loaders in the order in which a jar is probed for their manifests.
pub fn probe_kinds() -> (kinds: [ModKind; 3])
    ensures
        kinds@ == probe_order(),
{
    let kinds = [ModKind::Fabric, ModKind::Forge, ModKind::Quilt];
    proof {
        assert(kinds@ =~= probe_order());
    }
    kinds
}

/// What the manifest text of a loader comes to: the metadata of the manifest
/// it holds, `Deserialize` where it holds none, and `EmptyForgeManifest`
/// for a Forge manifest that lists no mod.
pub open spec fn decoded(kind: ModKind, text: Seq<char>) -> Result<
    ModMetadataView,
    ManifestFailure,
> {
    match kind {
        ModKind::Fabric => match FabricManifest::read(json_document(text)) {
            Some(manifest) => Ok(FabricManifest::metadata(manifest)),
            None => Err(ManifestFailure::Deserialize),
        },
        ModKind::Forge => match ForgeManifest::read(toml_document(text)) {
            Some(manifest) => ForgeManifest::metadata(manifest),
            None => Err(ManifestFailure::Deserialize),
        },
        ModKind::Quilt => match QuiltManifest::read(json_document(text)) {
            Some(manifest) => Ok(QuiltManifest::metadata(manifest)),
            None => Err(ManifestFailure::Deserialize),
        },
    }
}

/// What one probe decides: `None` to go on to the next loader where the
/// archive has no such entry, or the result of the whole read. An entry that
/// cannot be opened is an `Unzip` failure, and one that cannot be read as
/// text an `Io` failure: neither counts as a missing manifest.
pub open spec fn probe_step(kind: ModKind, entry: Entry) -> Option<
    Result<ModMetadataView, ManifestFailure>,
> {
    match entry {
        Entry::Absent => None,
        Entry::Failed => Some(Err(ManifestFailure::Unzip)),
        Entry::Unreadable => Some(Err(ManifestFailure::Io)),
        Entry::Text(text) => Some(decoded(kind, text)),
    }
}

/// What probing the loaders from position `from` on comes to.
pub open spec fn probed(bytes: Seq<u8>, from: int) -> Result<ModMetadataView, ManifestFailure>
    decreases probe_order().len() - from,
{
    if from < 0 || from >= probe_order().len() {
        Err(ManifestFailure::MissingMetadataFile)
    } else {
        let kind = probe_order()[from];
        match probe_step(kind, zip_entry(bytes, kind.spec_manifest_path())) {
            Some(result) => result,
            None => probed(bytes, from + 1),
        }
    }
}

/// What reading the jar with these bytes comes to.
pub open spec fn jar_metadata(bytes: Seq<u8>) -> Result<ModMetadataView, ManifestFailure> {
    if zip_opens(bytes) {
        probed(bytes, 0)
    } else {
        Err(ManifestFailure::Unzip)
    }
}

/// Decodes the manifest text of the given loader into metadata.
pub fn decode_manifest(kind: ModKind, text: &str) -> (result: Result<ModMetadata, ManifestError>)
    ensures
        outcome(result) == decoded(kind, text@),
{
    match kind {
        ModKind::Fabric => match FabricManifest::from_str(text) {
            Ok(manifest) => manifest.try_into(),
            Err(error) => Err(error),
        },
        ModKind::Forge => match ForgeManifest::from_str(text) {
            Ok(manifest) => manifest.try_into(),
            Err(error) => Err(error),
        },
        ModKind::Quilt => match QuiltManifest::from_str(text) {
            Ok(manifest) => manifest.try_into(),
            Err(error) => Err(error),
        },
    }
}

/// Decides what follows from one probe: `None` to go on to the next loader,
/// or the result of the whole read.
pub fn metadata_from_entry(kind: ModKind, entry: EntryRead) -> (step: Option<
    Result<ModMetadata, ManifestError>,
>)
    ensures
        step matches Some(result) ==> probe_step(kind, entry@) == Some(outcome(result)),
        step is None ==> probe_step(kind, entry@) is None,
{
    match entry {
        EntryRead::Absent => None,
        EntryRead::Failed(error) => Some(Err(ManifestError::JairUnzipFail(error))),
        EntryRead::Unreadable(error) => Some(Err(ManifestError::IoError(error))),
        EntryRead::Text(text) => Some(decode_manifest(kind, text.as_str())),
    }
}

/// Reads the metadata of the jar with the given bytes.
///
/// Fails with `JairUnzipFail` where the bytes are no zip archive or the
/// first manifest found cannot be opened, with `MissingMetadataFile` where
/// the archive holds no manifest of a known loader, with `IoError` where the
/// first manifest found cannot be read as text, and otherwise as decoding
/// that manifest fails.
pub fn read_jar_file(bytes: Vec<u8>) -> (result: Result<ModMetadata, ManifestError>)
    ensures
        outcome(result) == jar_metadata(bytes@),
{
    let ghost content = bytes@;
    let mut archive = match open_archive(bytes) {
        Ok(archive) => archive,
        Err(error) => {
            return Err(ManifestError::JairUnzipFail(error));
        },
    };
    let kinds = probe_kinds();
    let mut i: usize = 0;
    while i < 3
        invariant
            i <= 3,
            kinds@ == probe_order(),
            content == bytes@,
            archive_bytes(archive) == content,
            jar_metadata(content) == probed(content, i as int),
        decreases 3 - i,
    {
        let kind = kinds[i];
        let entry = read_entry(&mut archive, kind.manifest_path());
        match metadata_from_entry(kind, entry) {
            Some(result) => {
                return result;
            },
            None => {},
        }
        i += 1;
    }
    Err(ManifestError::MissingMetadataFile)
}

/// Whether the archive gives no entry for the manifest of any loader that is
/// probed before position `until`.
pub open spec fn none_before(bytes: Seq<u8>, until: int) -> bool {
    forall|j: int|
        0 <= j < until && j < probe_order().len() ==> zip_entry(
            bytes,
            (#[trigger] probe_order()[j]).spec_manifest_path(),
        ) is Absent
}

/// The first manifest that an archive gives decides the read: the result is
/// what that one entry comes to, and metadata read from it has the kind of
/// its loader.
pub proof fn first_manifest_decides(bytes: Seq<u8>, position: int)
    requires
        zip_opens(bytes),
        0 <= position < probe_order().len(),
        none_before(bytes, position),
        !(zip_entry(bytes, probe_order()[position].spec_manifest_path()) is Absent),
    ensures
        Some(jar_metadata(bytes)) == probe_step(
            probe_order()[position],
            zip_entry(bytes, probe_order()[position].spec_manifest_path()),
        ),
        jar_metadata(bytes) matches Ok(metadata) ==> metadata.kind == probe_order()[position],
{
    probed_skips_absent(bytes, 0, position);
}

/// Probing from `from` on comes to the same as probing from `until` on where
/// the archive gives no manifest in between.
proof fn probed_skips_absent(bytes: Seq<u8>, from: int, until: int)
    requires
        0 <= from <= until <= probe_order().len(),
        none_before(bytes, until),
    ensures
        probed(bytes, from) == probed(bytes, until),
    decreases until - from,
{
    if from < until {
        assert(zip_entry(bytes, probe_order()[from].spec_manifest_path()) is Absent);
        probed_skips_absent(bytes, from + 1, until);
    }
}

/// Manifests behind the first one found are ignored: two archives that give
/// the same first manifest read alike, whatever else they hold.
pub proof fn later_manifests_are_ignored(first: Seq<u8>, second: Seq<u8>, position: int)
    requires
        zip_opens(first),
        zip_opens(second),
        0 <= position < probe_order().len(),
        none_before(first, position),
        none_before(second, position),
        !(zip_entry(first, probe_order()[position].spec_manifest_path()) is Absent),
        zip_entry(first, probe_order()[position].spec_manifest_path()) == zip_entry(
            second,
            probe_order()[position].spec_manifest_path(),
        ),
    ensures
        jar_metadata(first) == jar_metadata(second),
{
    first_manifest_decides(first, position);
    first_manifest_decides(second, position);
}

/// An archive without any manifest reads as `MissingMetadataFile`, bytes that
/// are no archive read as `Unzip`, and the two differ.
pub proof fn missing_manifest_is_no_archive_failure(jar: Seq<u8>, broken: Seq<u8>)
    requires
        zip_opens(jar),
        none_before(jar, probe_order().len() as int),
        !zip_opens(broken),
    ensures
        jar_metadata(jar) == Err::<ModMetadataView, ManifestFailure>(
            ManifestFailure::MissingMetadataFile,
        ),
        jar_metadata(broken) == Err::<ModMetadataView, ManifestFailure>(ManifestFailure::Unzip),
        jar_metadata(jar) != jar_metadata(broken),
{
    probed_skips_absent(jar, 0, probe_order().len() as int);
}

/// A jar whose first manifest is a Forge manifest that lists no mod reads as
/// `EmptyForgeManifest`, never as metadata, whatever Quilt manifest it holds
/// besides.
pub proof fn empty_forge_manifest_fails(bytes: Seq<u8>, text: Seq<char>)
    requires
        zip_opens(bytes),
        zip_entry(bytes, ModKind::Fabric.spec_manifest_path()) is Absent,
        zip_entry(bytes, ModKind::Forge.spec_manifest_path()) == Entry::Text(text),
        ForgeManifest::read(toml_document(text)) matches Some(manifest) && manifest.mods.len()
            == 0,
    ensures
        decoded(ModKind::Forge, text) == Err::<ModMetadataView, ManifestFailure>(
            ManifestFailure::EmptyForgeManifest,
        ),
        jar_metadata(bytes) == Err::<ModMetadataView, ManifestFailure>(
            ManifestFailure::EmptyForgeManifest,
        ),
{
    first_manifest_decides(bytes, 1);
}

/// A manifest that `zip` cannot open or that cannot be read as text is no
/// missing manifest: the read fails with `Unzip` or `Io`, and later manifests
/// are not tried in its place.
pub proof fn broken_manifest_is_not_missing(bytes: Seq<u8>, position: int)
    requires
        zip_opens(bytes),
        0 <= position < probe_order().len(),
        none_before(bytes, position),
        zip_entry(bytes, probe_order()[position].spec_manifest_path()) is Failed || zip_entry(
            bytes,
            probe_order()[position].spec_manifest_path(),
        ) is Unreadable,
    ensures
        jar_metadata(bytes) == Err::<ModMetadataView, ManifestFailure>(
            if zip_entry(bytes, probe_order()[position].spec_manifest_path()) is Failed {
                ManifestFailure::Unzip
            } else {
                ManifestFailure::Io
            },
        ),
        jar_metadata(bytes) != Err::<ModMetadataView, ManifestFailure>(
            ManifestFailure::MissingMetadataFile,
        ),
{
    first_manifest_decides(bytes, position);
}

/// A jar that holds both a Fabric and a Quilt manifest reads as its Fabric
/// manifest does, whatever the Quilt manifest holds.
pub proof fn fabric_comes_before_quilt(bytes: Seq<u8>, text: Seq<char>)
    requires
        zip_opens(bytes),
        zip_entry(bytes, ModKind::Fabric.spec_manifest_path()) == Entry::Text(text),
    ensures
        jar_metadata(bytes) == decoded(ModKind::Fabric, text),
        jar_metadata(bytes) matches Ok(metadata) ==> metadata.kind == ModKind::Fabric,
{
    first_manifest_decides(bytes, 0);
}

/// Reading the same bytes twice gives the same outcome: the same metadata,
/// or the same kind of failure.
pub proof fn read_is_repeatable(
    bytes: Seq<u8>,
    first: Result<ModMetadata, ManifestError>,
    second: Result<ModMetadata, ManifestError>,
)
    requires
        outcome(first) == jar_metadata(bytes),
        outcome(second) == jar_metadata(bytes),
    ensures
        outcome(first) == outcome(second),
        first matches Ok(one) ==> second matches Ok(other) && one@ == other@,
        first matches Err(one) ==> second matches Err(other) && one@ == other@,
{
}

} // verus!
