use std::io::{Cursor, Write};

use zip::write::SimpleFileOptions;
use zip::result::ZipError;
use zip::{CompressionMethod, ZipWriter};
use zono::jar::{
    decode_manifest, metadata_from_entry, probe_kinds, read_jar_file, EntryRead,
};
use zono::metadata::{ManifestError, ModKind, ModMetadata};

const FABRIC_API: &str = r#"{
  "schemaVersion": 1,
  "id": "fabric-api",
  "name": "Fabric API",
  "version": "0.68.0+1.19.2",
  "environment": "*",
  "license": "Apache-2.0",
  "icon": "assets/fabric/icon.png",
  "authors": ["FabricMC"],
  "depends": {"fabricloader": ">=0.14.9", "java": ">=17", "minecraft": "~1.19.2"},
  "description": "Core API module providing key hooks and intercompatibility features."
}
"#;

const CLOTH_CONFIG: &str = r#"modLoader = "javafml"
loaderVersion = "[41,)"
license = "GNU LGPLv3"

[[mods]]
modId = "cloth_config"
version = "8.2.88"
displayName = "Cloth Config v8 API"
description = '''
An API for config screens.
'''
"#;

const OK_ZOOMER: &str = r#"{
  "schema_version": 1,
  "quilt_loader": {
    "group": "io.github.ennuil",
    "id": "ok_zoomer",
    "version": "5.0.0-beta.9+1.19",
    "metadata": {
      "name": "Ok Zoomer",
      "description": "Adds a highly-configurable zoom key for Quilt. The zoom is yours!",
      "license": "MIT"
    },
    "intermediate_mappings": "net.fabricmc:intermediary"
  }
}
"#;

fn jar_with(method: CompressionMethod, entries: &[(&str, &[u8])]) -> Vec<u8> {
    let mut writer = ZipWriter::new(Cursor::new(Vec::new()));
    let options = SimpleFileOptions::default().compression_method(method);
    for (name, content) in entries {
        writer.start_file(*name, options).unwrap();
        writer.write_all(content).unwrap();
    }
    writer.finish().unwrap().into_inner()
}

fn jar(entries: &[(&str, &[u8])]) -> Vec<u8> {
    jar_with(CompressionMethod::Deflated, entries)
}

/// Rewrites the compression method of every entry, in its local header and
/// in the central directory, to one that no reader knows.
fn with_unknown_compression(mut bytes: Vec<u8>) -> Vec<u8> {
    let mut at = 0;
    while at + 12 <= bytes.len() {
        if bytes[at..at + 4] == *b"PK\x03\x04" {
            bytes[at + 8] = 0x34;
            bytes[at + 9] = 0x12;
        } else if bytes[at..at + 4] == *b"PK\x01\x02" {
            bytes[at + 10] = 0x34;
            bytes[at + 11] = 0x12;
        }
        at += 1;
    }
    bytes
}

#[test]
fn test_read_fabric_jar() {
    let bytes = jar(&[
        ("META-INF/MANIFEST.MF", b"Manifest-Version: 1.0\n"),
        ("fabric.mod.json", FABRIC_API.as_bytes()),
        ("assets/fabric/icon.png", &[0x89, 0x50, 0x4e, 0x47]),
    ]);
    let metadata = read_jar_file(bytes).unwrap();

    assert_eq!("fabric-api", metadata.id);
    assert_eq!("Fabric API".to_string(), metadata.name);
    assert_eq!("0.68.0+1.19.2".to_string(), metadata.version);
}

#[test]
fn test_read_forge_jar() {
    let bytes = jar(&[
        ("META-INF/MANIFEST.MF", b"Manifest-Version: 1.0\n"),
        ("META-INF/mods.toml", CLOTH_CONFIG.as_bytes()),
        ("pack.mcmeta", b"{}"),
    ]);
    let metadata = read_jar_file(bytes).unwrap();

    assert_eq!("cloth_config", metadata.id);
    assert_eq!(Some("An API for config screens.\n".into()), metadata.description);
}

#[test]
fn test_read_quilt_jar() {
    let bytes = jar(&[
        ("META-INF/MANIFEST.MF", b"Manifest-Version: 1.0\n"),
        ("quilt.mod.json", OK_ZOOMER.as_bytes()),
    ]);
    let metadata = read_jar_file(bytes).unwrap();

    assert_eq!("ok_zoomer", metadata.id);
    assert_eq!("Ok Zoomer", metadata.name);
}

#[test]
fn read_jar_gives_every_field_and_the_kind() {
    let fabric = read_jar_file(jar(&[("fabric.mod.json", FABRIC_API.as_bytes())])).unwrap();
    assert_eq!(
        fabric,
        ModMetadata {
            kind: ModKind::Fabric,
            id: "fabric-api".to_string(),
            name: "Fabric API".to_string(),
            description: Some(
                "Core API module providing key hooks and intercompatibility features.".to_string()
            ),
            version: "0.68.0+1.19.2".to_string(),
        }
    );
    let forge = read_jar_file(jar(&[("META-INF/mods.toml", CLOTH_CONFIG.as_bytes())])).unwrap();
    assert_eq!(forge.kind, ModKind::Forge);
    assert_eq!(forge.name, "Cloth Config v8 API");
    assert_eq!(forge.version, "8.2.88");
    let quilt = read_jar_file(jar(&[("quilt.mod.json", OK_ZOOMER.as_bytes())])).unwrap();
    assert_eq!(quilt.kind, ModKind::Quilt);
    assert_eq!(quilt.version, "5.0.0-beta.9+1.19");
}

#[test]
fn read_jar_reads_stored_entries_too() {
    let bytes = jar_with(CompressionMethod::Stored, &[("fabric.mod.json", FABRIC_API.as_bytes())]);
    assert_eq!(read_jar_file(bytes).unwrap().id, "fabric-api");
}

#[test]
fn jar_without_a_manifest_is_missing_metadata() {
    let bytes = jar(&[("META-INF/MANIFEST.MF", b"Manifest-Version: 1.0\n"), ("a.class", b"x")]);
    assert!(matches!(read_jar_file(bytes), Err(ManifestError::MissingMetadataFile)));
    assert!(matches!(read_jar_file(jar(&[])), Err(ManifestError::MissingMetadataFile)));
}

#[test]
fn forge_manifest_outside_its_directory_does_not_count() {
    let bytes = jar(&[("mods.toml", CLOTH_CONFIG.as_bytes())]);
    assert!(matches!(read_jar_file(bytes), Err(ManifestError::MissingMetadataFile)));
    let nested = jar(&[("META-INF/fabric.mod.json", FABRIC_API.as_bytes())]);
    assert!(matches!(read_jar_file(nested), Err(ManifestError::MissingMetadataFile)));
}

#[test]
fn corrupt_archive_is_an_unzip_failure_not_missing_metadata() {
    let garbage = b"this is not a zip archive".to_vec();
    assert!(matches!(read_jar_file(garbage), Err(ManifestError::JairUnzipFail(_))));
    assert!(matches!(read_jar_file(Vec::new()), Err(ManifestError::JairUnzipFail(_))));
    let mut cut = jar(&[("fabric.mod.json", FABRIC_API.as_bytes())]);
    cut.truncate(cut.len() / 2);
    assert!(matches!(read_jar_file(cut), Err(ManifestError::JairUnzipFail(_))));
}

#[test]
fn fabric_manifest_wins_over_quilt() {
    let both = jar(&[
        ("quilt.mod.json", OK_ZOOMER.as_bytes()),
        ("fabric.mod.json", FABRIC_API.as_bytes()),
    ]);
    let metadata = read_jar_file(both).unwrap();
    assert_eq!(metadata.kind, ModKind::Fabric);
    assert_eq!(metadata.id, "fabric-api");
    assert_ne!(metadata.id, "ok_zoomer");
}

#[test]
fn fabric_manifest_wins_over_the_others() {
    let with_forge = jar(&[
        ("META-INF/mods.toml", CLOTH_CONFIG.as_bytes()),
        ("fabric.mod.json", FABRIC_API.as_bytes()),
    ]);
    let metadata = read_jar_file(with_forge).unwrap();
    assert_eq!(metadata.kind, ModKind::Fabric);
    assert_eq!(metadata.id, "fabric-api");

    let all = jar(&[
        ("quilt.mod.json", OK_ZOOMER.as_bytes()),
        ("META-INF/mods.toml", CLOTH_CONFIG.as_bytes()),
        ("fabric.mod.json", FABRIC_API.as_bytes()),
    ]);
    let metadata = read_jar_file(all).unwrap();
    assert_eq!(metadata.kind, ModKind::Fabric);
    assert_eq!(metadata.id, "fabric-api");
}

#[test]
fn forge_manifest_wins_over_quilt() {
    let both = jar(&[
        ("quilt.mod.json", OK_ZOOMER.as_bytes()),
        ("META-INF/mods.toml", CLOTH_CONFIG.as_bytes()),
    ]);
    let metadata = read_jar_file(both).unwrap();
    assert_eq!(metadata.kind, ModKind::Forge);
    assert_eq!(metadata.id, "cloth_config");
}

#[test]
fn first_manifest_decides_also_where_it_is_broken() {
    let bytes = jar(&[
        ("quilt.mod.json", OK_ZOOMER.as_bytes()),
        ("fabric.mod.json", b"{ not json"),
    ]);
    assert!(matches!(read_jar_file(bytes), Err(ManifestError::DeserializeError)));
    let empty_forge = jar(&[
        ("quilt.mod.json", OK_ZOOMER.as_bytes()),
        ("META-INF/mods.toml", b"mods = []\n"),
    ]);
    assert!(matches!(read_jar_file(empty_forge), Err(ManifestError::EmptyForgeManifest)));
}

#[test]
fn later_manifests_do_not_change_the_result() {
    let alone = read_jar_file(jar(&[("fabric.mod.json", FABRIC_API.as_bytes())])).unwrap();
    let with_quilt = read_jar_file(jar(&[
        ("fabric.mod.json", FABRIC_API.as_bytes()),
        ("quilt.mod.json", OK_ZOOMER.as_bytes()),
    ]))
    .unwrap();
    let with_broken_forge = read_jar_file(jar(&[
        ("fabric.mod.json", FABRIC_API.as_bytes()),
        ("META-INF/mods.toml", b"[[mods"),
    ]))
    .unwrap();
    assert_eq!(alone, with_quilt);
    assert_eq!(alone, with_broken_forge);
}

#[test]
fn empty_forge_manifest_in_a_jar_is_a_normalize_failure() {
    let bytes = jar(&[("META-INF/mods.toml", b"modLoader = \"javafml\"\nmods = []\n")]);
    assert!(matches!(read_jar_file(bytes), Err(ManifestError::EmptyForgeManifest)));
}

#[test]
fn manifest_that_is_not_text_is_an_io_error() {
    let bytes = jar(&[("quilt.mod.json", &[0xff, 0xfe, 0xfd])]);
    assert!(matches!(read_jar_file(bytes), Err(ManifestError::IoError(_))));
    let first = jar(&[
        ("fabric.mod.json", &[0xff, 0xfe, 0xfd]),
        ("quilt.mod.json", OK_ZOOMER.as_bytes()),
    ]);
    assert!(matches!(read_jar_file(first), Err(ManifestError::IoError(_))));
}

#[test]
fn manifest_that_cannot_be_opened_is_an_unzip_failure_not_missing_metadata() {
    let only = with_unknown_compression(jar_with(
        CompressionMethod::Stored,
        &[("fabric.mod.json", FABRIC_API.as_bytes())],
    ));
    assert!(matches!(read_jar_file(only), Err(ManifestError::JairUnzipFail(_))));

    let forge = with_unknown_compression(jar_with(
        CompressionMethod::Stored,
        &[("META-INF/mods.toml", CLOTH_CONFIG.as_bytes())],
    ));
    assert!(matches!(read_jar_file(forge), Err(ManifestError::JairUnzipFail(_))));
}

#[test]
fn entry_that_cannot_be_opened_matters_only_where_it_is_probed() {
    let other = with_unknown_compression(jar_with(
        CompressionMethod::Stored,
        &[("assets/icon.png", &[1, 2, 3])],
    ));
    assert!(matches!(read_jar_file(other), Err(ManifestError::MissingMetadataFile)));
}

#[test]
fn malformed_manifest_in_a_jar_is_a_deserialize_error() {
    let fabric = jar(&[("fabric.mod.json", b"{\"id\": \"a\"}")]);
    assert!(matches!(read_jar_file(fabric), Err(ManifestError::DeserializeError)));
    let forge = jar(&[("META-INF/mods.toml", b"modLoader = \"javafml\"\n")]);
    assert!(matches!(read_jar_file(forge), Err(ManifestError::DeserializeError)));
    let empty = jar(&[("quilt.mod.json", b"")]);
    assert!(matches!(read_jar_file(empty), Err(ManifestError::DeserializeError)));
}

#[test]
fn reading_the_same_jar_twice_gives_equal_metadata() {
    let bytes = jar(&[
        ("fabric.mod.json", FABRIC_API.as_bytes()),
        ("META-INF/mods.toml", CLOTH_CONFIG.as_bytes()),
    ]);
    let first = read_jar_file(bytes.clone()).unwrap();
    let second = read_jar_file(bytes).unwrap();
    assert_eq!(first, second);
    let missing = jar(&[("a", b"b")]);
    assert!(matches!(read_jar_file(missing.clone()), Err(ManifestError::MissingMetadataFile)));
    assert!(matches!(read_jar_file(missing), Err(ManifestError::MissingMetadataFile)));
}

#[test]
fn probe_order_is_fabric_forge_quilt() {
    assert_eq!(probe_kinds(), [ModKind::Fabric, ModKind::Forge, ModKind::Quilt]);
}

#[test]
fn manifest_paths() {
    assert_eq!(ModKind::Quilt.manifest_path(), "quilt.mod.json");
    assert_eq!(ModKind::Fabric.manifest_path(), "fabric.mod.json");
    assert_eq!(ModKind::Forge.manifest_path(), "META-INF/mods.toml");
}

#[test]
fn decode_manifest_goes_by_the_kind() {
    assert_eq!(decode_manifest(ModKind::Fabric, FABRIC_API).unwrap().kind, ModKind::Fabric);
    assert_eq!(decode_manifest(ModKind::Quilt, OK_ZOOMER).unwrap().kind, ModKind::Quilt);
    assert_eq!(decode_manifest(ModKind::Forge, CLOTH_CONFIG).unwrap().kind, ModKind::Forge);
    assert!(matches!(
        decode_manifest(ModKind::Quilt, FABRIC_API),
        Err(ManifestError::DeserializeError)
    ));
    assert!(matches!(
        decode_manifest(ModKind::Fabric, CLOTH_CONFIG),
        Err(ManifestError::DeserializeError)
    ));
    assert!(matches!(
        decode_manifest(ModKind::Forge, "mods = []"),
        Err(ManifestError::EmptyForgeManifest)
    ));
}

#[test]
fn metadata_from_entry_decides_each_case() {
    assert!(metadata_from_entry(ModKind::Fabric, EntryRead::Absent).is_none());
    assert!(matches!(
        metadata_from_entry(ModKind::Fabric, EntryRead::Failed(ZipError::InvalidPassword)),
        Some(Err(ManifestError::JairUnzipFail(ZipError::InvalidPassword)))
    ));
    assert!(matches!(
        metadata_from_entry(
            ModKind::Quilt,
            EntryRead::Failed(ZipError::CompressionMethodNotSupported(7))
        ),
        Some(Err(ManifestError::JairUnzipFail(ZipError::CompressionMethodNotSupported(7))))
    ));
    let failed = std::io::Error::new(std::io::ErrorKind::InvalidData, "not text");
    assert!(matches!(
        metadata_from_entry(ModKind::Fabric, EntryRead::Unreadable(failed)),
        Some(Err(ManifestError::IoError(_)))
    ));
    let read = metadata_from_entry(ModKind::Fabric, EntryRead::Text(FABRIC_API.to_string()));
    assert_eq!(read.unwrap().unwrap().id, "fabric-api");
    assert!(matches!(
        metadata_from_entry(ModKind::Quilt, EntryRead::Text("{}".to_string())),
        Some(Err(ManifestError::DeserializeError))
    ));
}
