//! Plugin validation and metadata parsing.
//!
//! A plugin is a directory holding an entry script `plugin.js` and a metadata
//! file `plugin.yaml` (or `plugin.yml`) with the four required keys `name`,
//! `description`, `version` and `author`. The functions here decide, for one
//! candidate directory, whether it is a well-formed plugin, and either build
//! its descriptor or classify the failure.
//!
//! The filesystem itself is out of reach of the verifier: a host observes a
//! candidate directory once and hands the observation in as a [`Candidate`]
//! value (the entry listing, and the contents of the preferred metadata file).
//! Everything from that observation to the descriptor is verified.

use vstd::prelude::*;
use vstd::string::StringExecFns;

use crate::yaml::pairs_view;
use crate::yaml::parse_string_pairs;
use crate::yaml::yaml_string_pairs;

verus! {

/// What kind of filesystem object a directory entry is.
#[derive(Clone, Copy, Debug, PartialEq, Eq, Structural)]
pub enum EntryKind {
    File,
    Directory,
    Other,
}

/// One immediate entry of a candidate directory, as the host observed it.
#[derive(Debug)]
pub struct DirEntry {
    pub name: String,
    pub kind: EntryKind,
}

/// Ghost image of a [`DirEntry`].
pub struct DirEntryView {
    pub name: Seq<char>,
    pub kind: EntryKind,
}

impl View for DirEntry {
    type V = DirEntryView;

    open spec fn view(&self) -> DirEntryView {
        DirEntryView { name: self.name@, kind: self.kind }
    }
}

/// A snapshot of everything the validator may ask of one candidate path.
///
/// `listing` is `None` when the path is missing or not a directory, and
/// otherwise holds the immediate entries. `metadata` holds the full text of
/// the preferred metadata file (`plugin.yaml` over `plugin.yml`), when the
/// listing shows one and the host could read it.
#[derive(Debug)]
pub struct Candidate {
    pub path: String,
    pub listing: Option<Vec<DirEntry>>,
    pub metadata: Option<String>,
}

/// Ghost image of a [`Candidate`].
pub struct CandidateView {
    pub path: Seq<char>,
    pub listing: Option<Seq<DirEntryView>>,
    pub metadata: Option<Seq<char>>,
}

impl View for Candidate {
    type V = CandidateView;

    open spec fn view(&self) -> CandidateView {
        CandidateView {
            path: self.path@,
            listing: match self.listing {
                Some(entries) => Some(entries@.map_values(|e: DirEntry| e@)),
                None => None,
            },
            metadata: match self.metadata {
                Some(text) => Some(text@),
                None => None,
            },
        }
    }
}

/// The four metadata keys every plugin must define.
#[derive(Clone, Copy, Debug, PartialEq, Eq, Structural)]
pub enum RequiredField {
    Name,
    Description,
    Version,
    Author,
}

impl RequiredField {
    /// The key under which this field stands in the metadata file.
    pub fn key(self) -> (r: String)
        ensures
            r@ == self.key_spec(),
    {
        match self {
            RequiredField::Name => String::from_str("name"),
            RequiredField::Description => String::from_str("description"),
            RequiredField::Version => String::from_str("version"),
            RequiredField::Author => String::from_str("author"),
        }
    }

    pub open spec fn key_spec(self) -> Seq<char> {
        match self {
            RequiredField::Name => "name"@,
            RequiredField::Description => "description"@,
            RequiredField::Version => "version"@,
            RequiredField::Author => "author"@,
        }
    }
}

/// Why one candidate directory is not a plugin. The checks run in a fixed
/// order and the first failing one names the error.
#[derive(Clone, Copy, Debug, PartialEq, Eq, Structural)]
pub enum PluginError {
    /// The candidate path is missing, or is not a directory.
    NotADirectory,
    /// The directory holds no regular file `plugin.js`.
    MissingEntryScript,
    /// The directory holds neither `plugin.yaml` nor `plugin.yml`.
    MissingMetadataFile,
    /// The metadata file is not a well-formed key-to-string mapping.
    MetadataParseError,
    /// The metadata parsed, but the first required key in declaration order
    /// that it lacks is `field`.
    MissingField { field: RequiredField },
}

/// Which of the two recognized metadata file names the validator settled on.
/// `plugin.yaml` is preferred over `plugin.yml` unconditionally, so the
/// choice never depends on filesystem enumeration order.
#[derive(Clone, Copy, Debug, PartialEq, Eq, Structural)]
pub enum MetadataName {
    Yaml,
    Yml,
}

impl MetadataName {
    /// The file name this choice stands for.
    pub fn file_name(self) -> (r: String)
        ensures
            r@ == self.file_name_spec(),
    {
        match self {
            MetadataName::Yaml => String::from_str("plugin.yaml"),
            MetadataName::Yml => String::from_str("plugin.yml"),
        }
    }

    pub open spec fn file_name_spec(self) -> Seq<char> {
        match self {
            MetadataName::Yaml => "plugin.yaml"@,
            MetadataName::Yml => "plugin.yml"@,
        }
    }
}

/// The public result of successful discovery: the candidate's path and the
/// four metadata fields. Construction is all-or-nothing; a descriptor is
/// never partially populated.
#[derive(Debug, PartialEq)]
pub struct PluginDescriptor {
    pub path: String,
    pub name: String,
    pub description: String,
    pub version: String,
    pub author: String,
}

/// Ghost image of a [`PluginDescriptor`].
pub struct DescriptorView {
    pub path: Seq<char>,
    pub name: Seq<char>,
    pub description: Seq<char>,
    pub version: Seq<char>,
    pub author: Seq<char>,
}

impl View for PluginDescriptor {
    type V = DescriptorView;

    open spec fn view(&self) -> DescriptorView {
        DescriptorView {
            path: self.path@,
            name: self.name@,
            description: self.description@,
            version: self.version@,
            author: self.author@,
        }
    }
}

impl PluginDescriptor {
    pub fn new(
        path: String,
        name: String,
        description: String,
        version: String,
        author: String,
    ) -> (r: Self)
        ensures
            r@ == (DescriptorView {
                path: path@,
                name: name@,
                description: description@,
                version: version@,
                author: author@,
            }),
    {
        Self { path, name, description, version, author }
    }
}

/// Whether `listing` holds a regular file named `name`.
pub open spec fn has_file(listing: Seq<DirEntryView>, name: Seq<char>) -> bool {
    exists|i: int|
        0 <= i < listing.len() && listing[i].kind is File && listing[i].name == name
}

/// The structural checks on one candidate, in order: it must be a directory,
/// hold a `plugin.js` file, and hold a metadata file, `plugin.yaml` taking
/// precedence over `plugin.yml`.
pub open spec fn layout_spec(c: CandidateView) -> Result<MetadataName, PluginError> {
    match c.listing {
        None => Err(PluginError::NotADirectory),
        Some(entries) => if !has_file(entries, "plugin.js"@) {
            Err(PluginError::MissingEntryScript)
        } else if has_file(entries, "plugin.yaml"@) {
            Ok(MetadataName::Yaml)
        } else if has_file(entries, "plugin.yml"@) {
            Ok(MetadataName::Yml)
        } else {
            Err(PluginError::MissingMetadataFile)
        },
    }
}

/// Checks the on-disk layout of one candidate: directory, entry script,
/// metadata file. Returns which metadata file name the parse must read, or
/// the first failing check.
pub fn verify_plugin(c: &Candidate) -> (r: Result<MetadataName, PluginError>)
    ensures
        r == layout_spec(c@),
{
    let entries: &Vec<DirEntry> = match &c.listing {
        Some(entries) => entries,
        None => {
            return Err(PluginError::NotADirectory);
        },
    };
    let js_name = String::from_str("plugin.js");
    let yaml_name = String::from_str("plugin.yaml");
    let yml_name = String::from_str("plugin.yml");
    let mut has_js = false;
    let mut has_yaml = false;
    let mut has_yml = false;
    let ghost ev = entries@.map_values(|e: DirEntry| e@);
    let mut i: usize = 0;
    while i < entries.len()
        invariant
            0 <= i <= entries.len(),
            ev == entries@.map_values(|e: DirEntry| e@),
            ev.len() == entries@.len(),
            has_js == has_file(ev.take(i as int), "plugin.js"@),
            has_yaml == has_file(ev.take(i as int), "plugin.yaml"@),
            has_yml == has_file(ev.take(i as int), "plugin.yml"@),
            js_name@ == "plugin.js"@,
            yaml_name@ == "plugin.yaml"@,
            yml_name@ == "plugin.yml"@,
        decreases entries.len() - i,
    {
        let entry = &entries[i];
        let is_file = match entry.kind {
            EntryKind::File => true,
            _ => false,
        };
        if is_file {
            if entry.name == js_name {
                has_js = true;
            }
            if entry.name == yaml_name {
                has_yaml = true;
            }
            if entry.name == yml_name {
                has_yml = true;
            }
        }
        proof {
            assert(ev.take(i as int + 1).drop_last() =~= ev.take(i as int));
            assert(ev.take(i as int + 1).last() == ev[i as int]);
            lemma_has_file_push(ev.take(i as int), ev[i as int], "plugin.js"@);
            lemma_has_file_push(ev.take(i as int), ev[i as int], "plugin.yaml"@);
            lemma_has_file_push(ev.take(i as int), ev[i as int], "plugin.yml"@);
        }
        i = i + 1;
    }
    proof {
        assert(ev.take(entries@.len() as int) =~= ev);
    }
    if !has_js {
        Err(PluginError::MissingEntryScript)
    } else if has_yaml {
        Ok(MetadataName::Yaml)
    } else if has_yml {
        Ok(MetadataName::Yml)
    } else {
        Err(PluginError::MissingMetadataFile)
    }
}

/// The value under `key` in `pairs`, searching from position `from` on: the
/// value of the first pair whose key matches, or `None`.
pub open spec fn lookup_from(
    pairs: Seq<(Seq<char>, Seq<char>)>,
    key: Seq<char>,
    from: int,
) -> Option<Seq<char>>
    decreases pairs.len() - from,
{
    if from < 0 || from >= pairs.len() {
        None
    } else if pairs[from].0 == key {
        Some(pairs[from].1)
    } else {
        lookup_from(pairs, key, from + 1)
    }
}

/// The value under `key` in `pairs`: the value of the first pair whose key
/// matches, or `None` when no key does.
pub open spec fn lookup(pairs: Seq<(Seq<char>, Seq<char>)>, key: Seq<char>) -> Option<Seq<char>> {
    lookup_from(pairs, key, 0)
}

/// The first required field, in declaration order, whose key the parsed
/// metadata lacks; `None` when all four are present.
pub open spec fn first_missing_field(pairs: Seq<(Seq<char>, Seq<char>)>) -> Option<RequiredField> {
    if lookup(pairs, RequiredField::Name.key_spec()) is None {
        Some(RequiredField::Name)
    } else if lookup(pairs, RequiredField::Description.key_spec()) is None {
        Some(RequiredField::Description)
    } else if lookup(pairs, RequiredField::Version.key_spec()) is None {
        Some(RequiredField::Version)
    } else if lookup(pairs, RequiredField::Author.key_spec()) is None {
        Some(RequiredField::Author)
    } else {
        None
    }
}

/// First-match lookup of `key` in `pairs`.
fn lookup_value(pairs: &Vec<(String, String)>, key: &String) -> (r: Option<String>)
    ensures
        match r {
            Some(v) => lookup(pairs_view(pairs@), key@) == Some(v@),
            None => lookup(pairs_view(pairs@), key@) is None,
        },
{
    let ghost pv = pairs_view(pairs@);
    let mut i: usize = 0;
    while i < pairs.len()
        invariant
            0 <= i <= pairs.len(),
            pv == pairs_view(pairs@),
            pv.len() == pairs@.len(),
            lookup(pv, key@) == lookup_from(pv, key@, i as int),
        decreases pairs.len() - i,
    {
        if pairs[i].0 == *key {
            return Some(pairs[i].1.clone());
        }
        i = i + 1;
    }
    None
}

/// Builds the descriptor for `path` from parsed metadata pairs, or names the
/// first required field the metadata lacks. Exactly the pipeline stage after
/// a successful parse, public so that the classification can be exercised on
/// any pair list directly.
pub fn descriptor_from_pairs(path: String, pairs: &Vec<(String, String)>) -> (r: Result<
    PluginDescriptor,
    PluginError,
>)
    ensures
        match first_missing_field(pairs_view(pairs@)) {
            Some(f) => r matches Err(e) && e == (PluginError::MissingField { field: f }),
            None => r matches Ok(d) && d@ == (DescriptorView {
                path: path@,
                name: lookup(pairs_view(pairs@), "name"@)->0,
                description: lookup(pairs_view(pairs@), "description"@)->0,
                version: lookup(pairs_view(pairs@), "version"@)->0,
                author: lookup(pairs_view(pairs@), "author"@)->0,
            }),
        },
{
    let name = match lookup_value(pairs, &RequiredField::Name.key()) {
        Some(v) => v,
        None => {
            return Err(PluginError::MissingField { field: RequiredField::Name });
        },
    };
    let description = match lookup_value(pairs, &RequiredField::Description.key()) {
        Some(v) => v,
        None => {
            return Err(PluginError::MissingField { field: RequiredField::Description });
        },
    };
    let version = match lookup_value(pairs, &RequiredField::Version.key()) {
        Some(v) => v,
        None => {
            return Err(PluginError::MissingField { field: RequiredField::Version });
        },
    };
    let author = match lookup_value(pairs, &RequiredField::Author.key()) {
        Some(v) => v,
        None => {
            return Err(PluginError::MissingField { field: RequiredField::Author });
        },
    };
    Ok(PluginDescriptor::new(path, name, description, version, author))
}

/// A candidate snapshot is coherent when the metadata contents are present
/// whenever the layout checks locate a metadata file. A host that reads the
/// located file always hands in a coherent snapshot; the original runtime
/// aborted when that read failed.
pub open spec fn candidate_wf(c: CandidateView) -> bool {
    layout_spec(c) is Ok ==> c.metadata is Some
}

/// The full validation pipeline on one coherent candidate, at the ghost
/// level: layout checks, metadata parse, required fields, descriptor.
pub open spec fn parse_plugin_spec(c: CandidateView) -> Result<DescriptorView, PluginError> {
    match layout_spec(c) {
        Err(e) => Err(e),
        Ok(_) => match yaml_string_pairs(c.metadata->0) {
            None => Err(PluginError::MetadataParseError),
            Some(pairs) => match first_missing_field(pairs) {
                Some(f) => Err(PluginError::MissingField { field: f }),
                None => Ok(
                    DescriptorView {
                        path: c.path,
                        name: lookup(pairs, "name"@)->0,
                        description: lookup(pairs, "description"@)->0,
                        version: lookup(pairs, "version"@)->0,
                        author: lookup(pairs, "author"@)->0,
                    },
                ),
            },
        },
    }
}

/// Validates one candidate and parses its metadata: the descriptor for a
/// well-formed plugin, otherwise the first failing check. A failing
/// candidate yields an error value, never a fault.
pub fn parse_plugin(c: &Candidate) -> (r: Result<PluginDescriptor, PluginError>)
    requires
        candidate_wf(c@),
    ensures
        r matches Ok(d) ==> parse_plugin_spec(c@) == Ok::<DescriptorView, PluginError>(d@),
        r matches Err(e) ==> parse_plugin_spec(c@) == Err::<DescriptorView, PluginError>(e),
{
    if let Err(e) = verify_plugin(c) {
        return Err(e);
    }
    let text: &String = match &c.metadata {
        Some(text) => text,
        None => {
            return Err(PluginError::MetadataParseError);
        },
    };
    let pairs = match parse_string_pairs(text.as_str()) {
        Ok(pairs) => pairs,
        Err(_) => {
            return Err(PluginError::MetadataParseError);
        },
    };
    descriptor_from_pairs(c.path.clone(), &pairs)
}

/// Appending one entry to a listing finds `name` exactly when the old listing
/// already had it or the new entry is a file of that name.
proof fn lemma_has_file_push(listing: Seq<DirEntryView>, e: DirEntryView, name: Seq<char>)
    ensures
        has_file(listing.push(e), name) <==> (has_file(listing, name) || (e.kind is File
            && e.name == name)),
{
    if has_file(listing, name) {
        let i = choose|i: int|
            0 <= i < listing.len() && listing[i].kind is File && listing[i].name == name;
        assert(listing.push(e)[i].kind is File && listing.push(e)[i].name == name);
    }
    if e.kind is File && e.name == name {
        assert(listing.push(e)[listing.len() as int].kind is File);
    }
    if has_file(listing.push(e), name) {
        let i = choose|i: int|
            0 <= i < listing.push(e).len() && listing.push(e)[i].kind is File && listing.push(
                e,
            )[i].name == name;
        if i < listing.len() {
            assert(listing[i].kind is File && listing[i].name == name);
        }
    }
}

} // verus!
