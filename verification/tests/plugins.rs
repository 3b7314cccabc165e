use functional_plugins::plugins::Candidate;
use functional_plugins::plugins::DirEntry;
use functional_plugins::plugins::EntryKind;
use functional_plugins::plugins::MetadataName;
use functional_plugins::plugins::PluginDescriptor;
use functional_plugins::plugins::PluginError;
use functional_plugins::plugins::RequiredField;
use functional_plugins::plugins::descriptor_from_pairs;
use functional_plugins::plugins::parse_plugin;
use functional_plugins::plugins::verify_plugin;

fn file(name: &str) -> DirEntry {
    DirEntry { name: name.to_string(), kind: EntryKind::File }
}

fn subdir(name: &str) -> DirEntry {
    DirEntry { name: name.to_string(), kind: EntryKind::Directory }
}

const FULL_METADATA: &str = "name: Foo\ndescription: Bar\nversion: 1.0.0\nauthor: Jane\n";

fn valid_candidate(path: &str) -> Candidate {
    Candidate {
        path: path.to_string(),
        listing: Some(vec![file("plugin.js"), file("plugin.yaml")]),
        metadata: Some(FULL_METADATA.to_string()),
    }
}

#[test]
fn round_trip_descriptor() {
    let c = valid_candidate("/plugins/demo");
    let d = parse_plugin(&c).expect("a complete plugin directory must parse");
    assert_eq!(d.path, "/plugins/demo");
    assert_eq!(d.name, "Foo");
    assert_eq!(d.description, "Bar");
    assert_eq!(d.version, "1.0.0");
    assert_eq!(d.author, "Jane");
}

#[test]
fn missing_author_field() {
    let mut c = valid_candidate("/plugins/anon");
    c.metadata = Some("name: Foo\ndescription: Bar\nversion: 1.0.0\n".to_string());
    assert_eq!(
        parse_plugin(&c),
        Err(PluginError::MissingField { field: RequiredField::Author })
    );
}

#[test]
fn missing_fields_report_first_in_order() {
    let mut c = valid_candidate("/plugins/sparse");
    c.metadata = Some("description: Bar\nversion: 1.0.0\n".to_string());
    assert_eq!(
        parse_plugin(&c),
        Err(PluginError::MissingField { field: RequiredField::Name })
    );
}

#[test]
fn missing_path_is_not_a_directory() {
    let c = Candidate { path: "/plugins/ghost".to_string(), listing: None, metadata: None };
    assert_eq!(parse_plugin(&c), Err(PluginError::NotADirectory));
}

#[test]
fn missing_entry_script() {
    let c = Candidate {
        path: "/plugins/scriptless".to_string(),
        listing: Some(vec![file("plugin.yaml")]),
        metadata: Some(FULL_METADATA.to_string()),
    };
    assert_eq!(parse_plugin(&c), Err(PluginError::MissingEntryScript));
}

#[test]
fn entry_script_must_be_a_file() {
    let c = Candidate {
        path: "/plugins/oddball".to_string(),
        listing: Some(vec![subdir("plugin.js"), file("plugin.yaml")]),
        metadata: Some(FULL_METADATA.to_string()),
    };
    assert_eq!(parse_plugin(&c), Err(PluginError::MissingEntryScript));
}

#[test]
fn missing_metadata_file() {
    let c = Candidate {
        path: "/plugins/b".to_string(),
        listing: Some(vec![file("plugin.js")]),
        metadata: None,
    };
    assert_eq!(parse_plugin(&c), Err(PluginError::MissingMetadataFile));
}

#[test]
fn metadata_must_be_a_string_mapping() {
    let mut c = valid_candidate("/plugins/list");
    c.metadata = Some("- one\n- two\n".to_string());
    assert_eq!(parse_plugin(&c), Err(PluginError::MetadataParseError));
}

#[test]
fn malformed_metadata_is_a_parse_error() {
    let mut c = valid_candidate("/plugins/broken");
    c.metadata = Some("name: [unclosed\n\tbad: indent\n".to_string());
    assert_eq!(parse_plugin(&c), Err(PluginError::MetadataParseError));
}

#[test]
fn yaml_name_preferred_over_yml() {
    let c = Candidate {
        path: "/plugins/both".to_string(),
        listing: Some(vec![file("plugin.yml"), file("plugin.js"), file("plugin.yaml")]),
        metadata: Some(FULL_METADATA.to_string()),
    };
    assert_eq!(verify_plugin(&c), Ok(MetadataName::Yaml));
    assert_eq!(MetadataName::Yaml.file_name(), "plugin.yaml");
    assert_eq!(MetadataName::Yml.file_name(), "plugin.yml");
}

#[test]
fn yml_accepted_when_alone() {
    let c = Candidate {
        path: "/plugins/a".to_string(),
        listing: Some(vec![file("plugin.js"), file("plugin.yml")]),
        metadata: Some(FULL_METADATA.to_string()),
    };
    assert_eq!(verify_plugin(&c), Ok(MetadataName::Yml));
    assert!(parse_plugin(&c).is_ok());
}

#[test]
fn unrecognized_keys_are_ignored() {
    let mut c = valid_candidate("/plugins/extra");
    c.metadata = Some(
        "name: Foo\ndescription: Bar\nversion: 1.0.0\nauthor: Jane\nhomepage: nowhere\n"
            .to_string(),
    );
    let d = parse_plugin(&c).expect("extra keys must not reject the plugin");
    assert_eq!(d.name, "Foo");
    assert_eq!(d.author, "Jane");
}

#[test]
fn descriptor_from_pairs_takes_first_match() {
    let pairs = vec![
        ("name".to_string(), "First".to_string()),
        ("name".to_string(), "Second".to_string()),
        ("description".to_string(), "Bar".to_string()),
        ("version".to_string(), "2.0".to_string()),
        ("author".to_string(), "Jane".to_string()),
    ];
    let d = descriptor_from_pairs("/plugins/dup".to_string(), &pairs).expect("all keys present");
    assert_eq!(d.name, "First");
}

#[test]
fn descriptor_from_pairs_names_missing_key() {
    let pairs = vec![
        ("name".to_string(), "Foo".to_string()),
        ("description".to_string(), "Bar".to_string()),
        ("author".to_string(), "Jane".to_string()),
    ];
    assert_eq!(
        descriptor_from_pairs("/plugins/noversion".to_string(), &pairs),
        Err(PluginError::MissingField { field: RequiredField::Version })
    );
}

#[test]
fn descriptor_new_keeps_fields() {
    let d = PluginDescriptor::new(
        "/p".to_string(),
        "n".to_string(),
        "d".to_string(),
        "v".to_string(),
        "a".to_string(),
    );
    assert_eq!(d.path, "/p");
    assert_eq!(d.name, "n");
    assert_eq!(d.description, "d");
    assert_eq!(d.version, "v");
    assert_eq!(d.author, "a");
}

#[test]
fn required_field_keys() {
    assert_eq!(RequiredField::Name.key(), "name");
    assert_eq!(RequiredField::Description.key(), "description");
    assert_eq!(RequiredField::Version.key(), "version");
    assert_eq!(RequiredField::Author.key(), "author");
}
