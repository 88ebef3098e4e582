use zono::document::Node;
use zono::metadata::{
    FabricManifest, ForgeManifest, ForgeMod, Manifest, ManifestError, ModKind, ModMetadata,
    QuiltManifest, QuiltManifestLoader, QuiltModMetadata,
};

const FABRIC_MOD_JSON: &str = r#"{
  "schemaVersion": 1,
  "id": "fabric-api-base",
  "name": "Fabric API Base",
  "version": "${version}",
  "environment": "*",
  "license": "Apache-2.0",
  "icon": "assets/fabric-api-base/icon.png",
  "contact": {
    "homepage": "https://fabricmc.net",
    "irc": "irc://irc.esper.net:6667/fabric",
    "issues": "https://github.com/FabricMC/fabric/issues",
    "sources": "https://github.com/FabricMC/fabric"
  },
  "authors": [
    "FabricMC"
  ],
  "depends": {
    "fabricloader": ">=0.4.0"
  },
  "description": "Contains the essentials for Fabric API modules.",
  "custom": {
    "fabric-api:module-lifecycle": "stable"
  }
}
"#;

const MODS_TOML: &str = r#"modLoader = "javafml"
loaderVersion = "[41,)"
issueTrackerURL = "https://github.com/shedaniel/cloth-config/issues"
logoFile = "icon.png"
authors = "shedaniel"
license = "GNU LGPLv3"

[[mods]]
modId = "cloth_config"
version = "8.2.88"
displayName = "Cloth Config v8 API"
description = '''
An API for config screens.
'''

[[dependencies.cloth_config]]
modId = "forge"
mandatory = true
versionRange = "[41,)"
ordering = "NONE"
side = "BOTH"
"#;

const QUILT_MOD_JSON: &str = r#"{
  "schema_version": 1,
  "quilt_loader": {
    "group": "io.github.ennuil",
    "id": "ok_zoomer",
    "version": "5.0.0-beta.9+1.19",
    "metadata": {
      "name": "Ok Zoomer",
      "description": "Adds a highly-configurable zoom key for Quilt. The zoom is yours!",
      "contributors": {
        "Ennui Langeweile": "Owner"
      },
      "contact": {
        "homepage": "https://modrinth.com/mod/ok-zoomer"
      },
      "license": "MIT",
      "icon": "assets/ok_zoomer/icon.png"
    },
    "intermediate_mappings": "net.fabricmc:intermediary",
    "entrypoints": {
      "client_init": [
        "io.github.ennuil.ok_zoomer.OkZoomerClientMod"
      ]
    },
    "depends": [
      {
        "id": "quilt_loader",
        "versions": ">=0.17.1-"
      }
    ]
  },
  "mixin": [
    "ok_zoomer.mixins.json"
  ]
}
"#;

fn text(value: &str) -> Node {
    Node::Text(value.to_string())
}

fn record(fields: Vec<(&str, Node)>) -> Node {
    Node::Record(fields.into_iter().map(|(key, value)| (key.to_string(), value)).collect())
}

#[test]
fn test_deserialize_fabric_metadata() {
    let metadata: ModMetadata =
        FabricManifest::from_str(FABRIC_MOD_JSON).unwrap().try_into().unwrap();
    assert_eq!(metadata.id, "fabric-api-base");
    assert_eq!(metadata.name, "Fabric API Base".to_string());
    assert_eq!(metadata.version, "${version}".to_string());
}

#[test]
fn test_deserialize_forge_metadata() {
    let metadata: ModMetadata = ForgeManifest::from_str(MODS_TOML).unwrap().try_into().unwrap();

    assert_eq!(metadata.id, "cloth_config");
    assert_eq!(metadata.description, Some("An API for config screens.\n".into()));
}

#[test]
fn test_deserialize_quilt_metadata() {
    let metadata: ModMetadata =
        QuiltManifest::from_str(QUILT_MOD_JSON).unwrap().try_into().unwrap();

    assert_eq!(metadata.id, "ok_zoomer");
    assert_eq!(metadata.name, "Ok Zoomer");
}

#[test]
fn fabric_fixture_decodes_to_all_its_fields() {
    let metadata = FabricManifest::from_str(FABRIC_MOD_JSON).unwrap().try_into().unwrap();
    assert_eq!(
        metadata,
        ModMetadata {
            kind: ModKind::Fabric,
            id: "fabric-api-base".to_string(),
            name: "Fabric API Base".to_string(),
            description: Some("Contains the essentials for Fabric API modules.".to_string()),
            version: "${version}".to_string(),
        }
    );
}

#[test]
fn forge_fixture_decodes_to_all_its_fields() {
    let metadata = ForgeManifest::from_str(MODS_TOML).unwrap().try_into().unwrap();
    assert_eq!(
        metadata,
        ModMetadata {
            kind: ModKind::Forge,
            id: "cloth_config".to_string(),
            name: "Cloth Config v8 API".to_string(),
            description: Some("An API for config screens.\n".to_string()),
            version: "8.2.88".to_string(),
        }
    );
}

#[test]
fn quilt_fixture_decodes_to_all_its_fields() {
    let metadata = QuiltManifest::from_str(QUILT_MOD_JSON).unwrap().try_into().unwrap();
    assert_eq!(
        metadata,
        ModMetadata {
            kind: ModKind::Quilt,
            id: "ok_zoomer".to_string(),
            name: "Ok Zoomer".to_string(),
            description: Some(
                "Adds a highly-configurable zoom key for Quilt. The zoom is yours!".to_string()
            ),
            version: "5.0.0-beta.9+1.19".to_string(),
        }
    );
}

#[test]
fn fabric_name_defaults_to_id() {
    let manifest = FabricManifest::from_str(r#"{"id": "a", "version": "1"}"#).unwrap();
    assert_eq!(manifest.name, None);
    assert_eq!(manifest.description, None);
    let metadata = manifest.try_into().unwrap();
    assert_eq!(metadata.kind, ModKind::Fabric);
    assert_eq!(metadata.id, "a");
    assert_eq!(metadata.name, "a");
    assert_eq!(metadata.description, None);
    assert_eq!(metadata.version, "1");
}

#[test]
fn fabric_null_name_and_description_count_as_absent() {
    let manifest =
        FabricManifest::from_str(r#"{"id": "a", "version": "1", "name": null, "description": null}"#)
            .unwrap();
    assert_eq!(manifest.name, None);
    assert_eq!(manifest.description, None);
}

#[test]
fn fabric_manifest_needs_id_and_version() {
    assert!(matches!(
        FabricManifest::from_str(r#"{"version": "1"}"#),
        Err(ManifestError::DeserializeError)
    ));
    assert!(matches!(
        FabricManifest::from_str(r#"{"id": "a"}"#),
        Err(ManifestError::DeserializeError)
    ));
    assert!(matches!(
        FabricManifest::from_str(r#"{"id": null, "version": "1"}"#),
        Err(ManifestError::DeserializeError)
    ));
    assert!(matches!(
        FabricManifest::from_str(r#"{"id": 7, "version": "1"}"#),
        Err(ManifestError::DeserializeError)
    ));
}

#[test]
fn fabric_manifest_rejects_a_name_of_another_kind() {
    assert!(matches!(
        FabricManifest::from_str(r#"{"id": "a", "version": "1", "name": 3}"#),
        Err(ManifestError::DeserializeError)
    ));
    assert!(matches!(
        FabricManifest::from_str(r#"{"id": "a", "version": "1", "description": ["x"]}"#),
        Err(ManifestError::DeserializeError)
    ));
}

#[test]
fn fabric_manifest_rejects_malformed_json() {
    assert!(matches!(FabricManifest::from_str(""), Err(ManifestError::DeserializeError)));
    assert!(matches!(
        FabricManifest::from_str(r#"{"id": "a", "version": "1""#),
        Err(ManifestError::DeserializeError)
    ));
    assert!(matches!(FabricManifest::from_str("\"a\""), Err(ManifestError::DeserializeError)));
    assert!(matches!(FabricManifest::from_str("[]"), Err(ManifestError::DeserializeError)));
}

#[test]
fn fabric_from_node_reads_a_record() {
    let node = record(vec![
        ("version", text("2")),
        ("other", Node::Number(Some(1))),
        ("id", text("x")),
        ("description", text("d")),
    ]);
    let manifest = FabricManifest::from_node(&node).expect("the record holds a manifest");
    assert_eq!(manifest.id, "x");
    assert_eq!(manifest.version, "2");
    assert_eq!(manifest.name, None);
    assert_eq!(manifest.description, Some("d".to_string()));
    assert!(FabricManifest::from_node(&Node::List(vec![])).is_none());
    assert!(FabricManifest::from_node(&record(vec![("id", text("x"))])).is_none());
}

#[test]
fn forge_name_defaults_to_mod_id() {
    let manifest = ForgeManifest::from_str("[[mods]]\nmodId = \"m\"\nversion = \"1\"\n").unwrap();
    assert_eq!(manifest.mods.len(), 1);
    let metadata = manifest.try_into().unwrap();
    assert_eq!(metadata.kind, ModKind::Forge);
    assert_eq!(metadata.id, "m");
    assert_eq!(metadata.name, "m");
    assert_eq!(metadata.description, None);
    assert_eq!(metadata.version, "1");
}

#[test]
fn forge_metadata_comes_from_the_first_mod() {
    let manifest = ForgeManifest::from_str(
        "[[mods]]\nmodId = \"first\"\nversion = \"1\"\n\n[[mods]]\nmodId = \"second\"\nversion = \"2\"\ndisplayName = \"Second\"\n",
    )
    .unwrap();
    assert_eq!(manifest.mods.len(), 2);
    assert_eq!(manifest.mods[1].mod_id, "second");
    let metadata = manifest.try_into().unwrap();
    assert_eq!(metadata.id, "first");
    assert_eq!(metadata.name, "first");
    assert_eq!(metadata.version, "1");
}

#[test]
fn forge_manifest_without_mods_is_empty() {
    let manifest = ForgeManifest::from_str("mods = []\n").unwrap();
    assert!(manifest.mods.is_empty());
    assert!(matches!(manifest.try_into(), Err(ManifestError::EmptyForgeManifest)));
    let built = ForgeManifest { mods: Vec::new() };
    assert!(matches!(built.try_into(), Err(ManifestError::EmptyForgeManifest)));
}

#[test]
fn forge_manifest_needs_the_list_of_mods() {
    assert!(matches!(
        ForgeManifest::from_str("modLoader = \"javafml\"\n"),
        Err(ManifestError::DeserializeError)
    ));
    assert!(matches!(ForgeManifest::from_str(""), Err(ManifestError::DeserializeError)));
    assert!(matches!(
        ForgeManifest::from_str("mods = \"none\"\n"),
        Err(ManifestError::DeserializeError)
    ));
}

#[test]
fn forge_manifest_needs_every_mod_to_be_whole() {
    assert!(matches!(
        ForgeManifest::from_str(
            "[[mods]]\nmodId = \"a\"\nversion = \"1\"\n\n[[mods]]\nmodId = \"b\"\n"
        ),
        Err(ManifestError::DeserializeError)
    ));
    assert!(matches!(
        ForgeManifest::from_str("[[mods]]\nmodId = \"a\"\nversion = 1\n"),
        Err(ManifestError::DeserializeError)
    ));
    assert!(matches!(
        ForgeManifest::from_str("[[mods]]\nmodId = \"a\"\nversion = \"1\"\ndisplayName = 2\n"),
        Err(ManifestError::DeserializeError)
    ));
    assert!(matches!(
        ForgeManifest::from_str("mods = [\"a\"]\n"),
        Err(ManifestError::DeserializeError)
    ));
}

#[test]
fn forge_manifest_rejects_malformed_toml() {
    assert!(matches!(
        ForgeManifest::from_str("[[mods]\nmodId = \"a\"\n"),
        Err(ManifestError::DeserializeError)
    ));
}

#[test]
fn forge_try_into_uses_display_name_and_description() {
    let manifest = ForgeManifest {
        mods: vec![ForgeMod {
            mod_id: "m".to_string(),
            version: "3".to_string(),
            display_name: Some("Shown".to_string()),
            description: Some("about".to_string()),
        }],
    };
    assert_eq!(
        manifest.try_into().unwrap(),
        ModMetadata {
            kind: ModKind::Forge,
            id: "m".to_string(),
            name: "Shown".to_string(),
            description: Some("about".to_string()),
            version: "3".to_string(),
        }
    );
}

#[test]
fn quilt_without_metadata_falls_back_to_id_and_no_description() {
    let manifest = QuiltManifest::from_str(
        r#"{"quilt_loader": {"id": "q", "group": "g", "version": "1"}}"#,
    )
    .unwrap();
    assert!(manifest.quilt_loader.metadata.is_none());
    assert_eq!(manifest.quilt_loader.group, "g");
    let metadata = manifest.try_into().unwrap();
    assert_eq!(
        metadata,
        ModMetadata {
            kind: ModKind::Quilt,
            id: "q".to_string(),
            name: "q".to_string(),
            description: None,
            version: "1".to_string(),
        }
    );
}

#[test]
fn quilt_null_metadata_counts_as_absent() {
    let manifest = QuiltManifest::from_str(
        r#"{"quilt_loader": {"id": "q", "group": "g", "version": "1", "metadata": null}}"#,
    )
    .unwrap();
    assert!(manifest.quilt_loader.metadata.is_none());
}

#[test]
fn quilt_manifest_needs_the_loader_section() {
    assert!(matches!(
        QuiltManifest::from_str(r#"{"schema_version": 1}"#),
        Err(ManifestError::DeserializeError)
    ));
    assert!(matches!(
        QuiltManifest::from_str(r#"{"quilt_loader": null}"#),
        Err(ManifestError::DeserializeError)
    ));
    assert!(matches!(
        QuiltManifest::from_str(r#"{"quilt_loader": {"id": "q", "version": "1"}}"#),
        Err(ManifestError::DeserializeError)
    ));
    assert!(matches!(
        QuiltManifest::from_str(r#"{"quilt_loader": {"group": "g", "version": "1"}}"#),
        Err(ManifestError::DeserializeError)
    ));
    assert!(matches!(
        QuiltManifest::from_str(r#"{"quilt_loader": {"id": "q", "group": "g"}}"#),
        Err(ManifestError::DeserializeError)
    ));
}

#[test]
fn quilt_metadata_section_needs_name_and_description() {
    assert!(matches!(
        QuiltManifest::from_str(
            r#"{"quilt_loader": {"id": "q", "group": "g", "version": "1", "metadata": {"name": "n"}}}"#
        ),
        Err(ManifestError::DeserializeError)
    ));
    assert!(matches!(
        QuiltManifest::from_str(
            r#"{"quilt_loader": {"id": "q", "group": "g", "version": "1", "metadata": "n"}}"#
        ),
        Err(ManifestError::DeserializeError)
    ));
}

#[test]
fn quilt_manifest_rejects_malformed_json() {
    assert!(matches!(
        QuiltManifest::from_str("{\"quilt_loader\": "),
        Err(ManifestError::DeserializeError)
    ));
}

#[test]
fn quilt_try_into_uses_the_metadata_section() {
    let manifest = QuiltManifest {
        quilt_loader: QuiltManifestLoader {
            id: "q".to_string(),
            group: "g".to_string(),
            version: "2".to_string(),
            metadata: Some(QuiltModMetadata {
                name: "Shown".to_string(),
                description: "about".to_string(),
            }),
        },
    };
    assert_eq!(
        manifest.try_into().unwrap(),
        ModMetadata {
            kind: ModKind::Quilt,
            id: "q".to_string(),
            name: "Shown".to_string(),
            description: Some("about".to_string()),
            version: "2".to_string(),
        }
    );
}

#[test]
fn quilt_mod_metadata_default_is_empty() {
    let metadata = QuiltModMetadata::default();
    assert_eq!(metadata.name, "");
    assert_eq!(metadata.description, "");
}

#[test]
fn version_placeholder_is_kept_as_written() {
    let metadata = FabricManifest::from_str(r#"{"id": "a", "version": "${file.jarVersion}"}"#)
        .unwrap()
        .try_into()
        .unwrap();
    assert_eq!(metadata.version, "${file.jarVersion}");
}

#[test]
fn manifest_error_messages() {
    assert_eq!(ManifestError::MissingMetadataFile.message(), "failed to find a valid metadata file");
    assert_eq!(ManifestError::DeserializeError.message(), "failed to deserialize manifest");
    assert_eq!(ManifestError::EmptyForgeManifest.message(), "empty forge manifest");
    let io = std::io::Error::new(std::io::ErrorKind::Other, "x");
    assert_eq!(ManifestError::IoError(io).message(), "encountered an IO error");
    let unzip = zip::result::ZipError::FileNotFound;
    assert_eq!(ManifestError::JairUnzipFail(unzip).message(), "failed to unzip jar file");
}
