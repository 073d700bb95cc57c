use mrpack_downloader::loader::parse_manifest;
use mrpack_downloader::manifest::{ManifestError, Requirement};

fn valid_doc() -> String {
    String::from(
        r#"{
        "formatVersion": 1,
        "game": "minecraft",
        "versionId": "1.20.1-1.0.0",
        "name": "Example Pack",
        "files": [
            {
                "path": "mods/foo.jar",
                "hashes": {"sha1": "abc1", "sha512": "def5"},
                "env": {"client": "required", "server": "unsupported"},
                "downloads": ["https://mirror.one/foo.jar", "https://mirror.two/foo.jar"],
                "fileSize": 4096
            },
            {
                "path": "mods/bar.jar",
                "hashes": {"sha1": "9a", "sha512": "9b"},
                "env": {"client": "unsupported", "server": "required"},
                "downloads": ["https://mirror.one/bar.jar"],
                "fileSize": 17
            }
        ],
        "dependencies": {"forge": "47.2.0", "minecraft": "1.20.1"}
    }"#,
    )
}

#[test]
fn parse_valid_manifest() {
    let doc = valid_doc();
    let pack = parse_manifest(doc.as_bytes()).unwrap();
    assert_eq!(pack.format_version, 1);
    assert_eq!(pack.game, "minecraft");
    assert_eq!(pack.version_id, "1.20.1-1.0.0");
    assert_eq!(pack.name, "Example Pack");
    assert_eq!(pack.dependencies.forge, "47.2.0");
    assert_eq!(pack.dependencies.minecraft, "1.20.1");
    assert_eq!(pack.files.len(), 2);
    let first = &pack.files[0];
    assert_eq!(first.path, "mods/foo.jar");
    assert_eq!(first.hashes.sha1, "abc1");
    assert_eq!(first.hashes.sha512, "def5");
    assert_eq!(first.env.client, Requirement::Required);
    assert_eq!(first.env.server, Requirement::Unsupported);
    assert_eq!(
        first.downloads,
        vec![
            String::from("https://mirror.one/foo.jar"),
            String::from("https://mirror.two/foo.jar")
        ]
    );
    assert_eq!(first.file_size, 4096);
    let second = &pack.files[1];
    assert_eq!(second.path, "mods/bar.jar");
    assert_eq!(second.env.client, Requirement::Unsupported);
    assert_eq!(second.env.server, Requirement::Required);
    assert_eq!(second.downloads.len(), 1);
    assert_eq!(second.file_size, 17);
}

#[test]
fn parse_zero_entries() {
    let doc = r#"{
        "formatVersion": 1,
        "game": "minecraft",
        "versionId": "v",
        "name": "Empty Pack",
        "files": [],
        "dependencies": {"forge": "47.2.0", "minecraft": "1.20.1"}
    }"#;
    let pack = parse_manifest(doc.as_bytes()).unwrap();
    assert_eq!(pack.files.len(), 0);
}

#[test]
fn parse_malformed_document() {
    let r = parse_manifest(b"{ this is not json");
    assert_eq!(r.unwrap_err(), ManifestError::Parse);
}

#[test]
fn parse_missing_field() {
    let doc = r#"{
        "formatVersion": 1,
        "game": "minecraft",
        "versionId": "v",
        "files": [],
        "dependencies": {"forge": "f", "minecraft": "m"}
    }"#;
    assert_eq!(parse_manifest(doc.as_bytes()).unwrap_err(), ManifestError::Parse);
}

#[test]
fn parse_wrong_field_type() {
    let doc = r#"{
        "formatVersion": "one",
        "game": "minecraft",
        "versionId": "v",
        "name": "n",
        "files": [],
        "dependencies": {"forge": "f", "minecraft": "m"}
    }"#;
    assert_eq!(parse_manifest(doc.as_bytes()).unwrap_err(), ManifestError::Parse);
}

#[test]
fn parse_bad_requirement() {
    let doc = r#"{
        "formatVersion": 1,
        "game": "minecraft",
        "versionId": "v",
        "name": "n",
        "files": [
            {
                "path": "a.jar",
                "hashes": {"sha1": "x", "sha512": "y"},
                "env": {"client": "optional", "server": "required"},
                "downloads": ["https://m/a.jar"],
                "fileSize": 1
            }
        ],
        "dependencies": {"forge": "f", "minecraft": "m"}
    }"#;
    assert_eq!(parse_manifest(doc.as_bytes()).unwrap_err(), ManifestError::Parse);
}

#[test]
fn parse_empty_downloads() {
    let doc = r#"{
        "formatVersion": 1,
        "game": "minecraft",
        "versionId": "v",
        "name": "n",
        "files": [
            {
                "path": "a.jar",
                "hashes": {"sha1": "x", "sha512": "y"},
                "env": {"client": "required", "server": "required"},
                "downloads": [],
                "fileSize": 1
            }
        ],
        "dependencies": {"forge": "f", "minecraft": "m"}
    }"#;
    assert_eq!(parse_manifest(doc.as_bytes()).unwrap_err(), ManifestError::Parse);
}

#[test]
fn parse_file_size_too_large() {
    let doc = r#"{
        "formatVersion": 1,
        "game": "minecraft",
        "versionId": "v",
        "name": "n",
        "files": [
            {
                "path": "a.jar",
                "hashes": {"sha1": "x", "sha512": "y"},
                "env": {"client": "required", "server": "required"},
                "downloads": ["https://m/a.jar"],
                "fileSize": 4294967296
            }
        ],
        "dependencies": {"forge": "f", "minecraft": "m"}
    }"#;
    assert_eq!(parse_manifest(doc.as_bytes()).unwrap_err(), ManifestError::Parse);
}

#[test]
fn parse_largest_file_size() {
    let doc = r#"{
        "formatVersion": 1,
        "game": "minecraft",
        "versionId": "v",
        "name": "n",
        "files": [
            {
                "path": "a.jar",
                "hashes": {"sha1": "x", "sha512": "y"},
                "env": {"client": "required", "server": "required"},
                "downloads": ["https://m/a.jar"],
                "fileSize": 4294967295
            }
        ],
        "dependencies": {"forge": "f", "minecraft": "m"}
    }"#;
    let pack = parse_manifest(doc.as_bytes()).unwrap();
    assert_eq!(pack.files[0].file_size, u32::MAX);
}

#[test]
fn parse_format_version_out_of_range() {
    let doc = r#"{
        "formatVersion": 2147483648,
        "game": "minecraft",
        "versionId": "v",
        "name": "n",
        "files": [],
        "dependencies": {"forge": "f", "minecraft": "m"}
    }"#;
    assert_eq!(parse_manifest(doc.as_bytes()).unwrap_err(), ManifestError::Parse);
}

#[test]
fn requirement_parse_values() {
    assert_eq!(Requirement::parse("required"), Some(Requirement::Required));
    assert_eq!(Requirement::parse("unsupported"), Some(Requirement::Unsupported));
    assert_eq!(Requirement::parse("optional"), None);
    assert_eq!(Requirement::parse(""), None);
    assert_eq!(Requirement::parse("Required"), None);
}
