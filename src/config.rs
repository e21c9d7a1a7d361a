use vstd::prelude::*;
use vstd::string::StringExecFns;
use crate::entry::JoshutoMimetypeEntry;
use crate::table::{programs_nonempty, EntryMap};

verus! {

/// Why a mimetype configuration could not be read. Only a parse error is fatal:
/// the others leave the application with an empty table.
#[derive(Debug)]
pub enum ConfigError {
    /// The per-user configuration directories could not be resolved.
    DirUnavailable(String),
    /// No configuration file exists; this is not reported.
    FileMissing,
    /// The file exists but could not be read.
    Read(String),
    /// The file's contents are not a valid mimetype configuration.
    Parse(String),
}

/// The text that precedes a parse error's message in its diagnostic.
pub open spec fn parse_error_prefix() -> Seq<char> {
    "Error parsing mimetype file: "@
}

impl ConfigError {
    /// Whether the error must stop the application.
    pub open spec fn spec_is_fatal(&self) -> bool {
        self is Parse
    }

    /// The line reported on the diagnostic stream, if the error is reported at all.
    pub open spec fn diagnostic_text(&self) -> Option<Seq<char>> {
        match self {
            ConfigError::DirUnavailable(m) => Some(m@),
            ConfigError::FileMissing => None,
            ConfigError::Read(m) => Some(m@),
            ConfigError::Parse(m) => Some(parse_error_prefix() + m@),
        }
    }

    /// Whether the error must stop the application.
    pub fn is_fatal(&self) -> (r: bool)
        ensures
            r == self.spec_is_fatal(),
    {
        match self {
            ConfigError::Parse(_) => true,
            _ => false,
        }
    }

    /// The line to report on the diagnostic stream, or `None` for an error that
    /// is absorbed silently.
    pub fn diagnostic(&self) -> (r: Option<String>)
        ensures
            match r {
                Some(s) => self.diagnostic_text() == Some(s@),
                None => self.diagnostic_text() is None,
            },
    {
        match self {
            ConfigError::DirUnavailable(m) => Some(m.clone()),
            ConfigError::FileMissing => None,
            ConfigError::Read(m) => Some(m.clone()),
            ConfigError::Parse(m) => {
                let mut s = String::from_str("Error parsing mimetype file: ");
                s.append(m.as_str());
                Some(s)
            },
        }
    }
}

/// The configuration as parsed, before defaulting: either table may be absent.
/// Its tables hold each key once; a key written twice in the configuration
/// file is rejected by the TOML parser, which makes loading fail fatally.
#[derive(Debug)]
pub struct JoshutoRawMimetype {
    /// Entries keyed by full MIME type.
    pub mimetype: Option<EntryMap>,
    /// Entries keyed by file extension, without a leading dot.
    pub extension: Option<EntryMap>,
}

/// The mapping that an optional table stands for: an absent one is empty.
pub open spec fn mapping_or_empty(m: Option<EntryMap>) -> Map<Seq<char>, Seq<JoshutoMimetypeEntry>> {
    match m {
        Some(t) => t@,
        None => Map::empty(),
    }
}

impl JoshutoRawMimetype {
    /// A raw configuration with neither table.
    pub fn new() -> (r: Self)
        ensures
            r.mimetype is None,
            r.extension is None,
    {
        JoshutoRawMimetype { mimetype: None, extension: None }
    }

    /// Replaces each absent table by an empty one.
    pub fn flatten(self) -> (r: JoshutoMimetype)
        ensures
            r.mimetype@ == mapping_or_empty(self.mimetype),
            r.extension@ == mapping_or_empty(self.extension),
    {
        let mimetype = match self.mimetype {
            Some(m) => m,
            None => EntryMap::new(),
        };
        let extension = match self.extension {
            Some(m) => m,
            None => EntryMap::new(),
        };
        JoshutoMimetype { mimetype, extension }
    }
}

/// The dispatch table: candidate entries by MIME type and by extension.
#[derive(Debug)]
pub struct JoshutoMimetype {
    /// Entries keyed by full MIME type.
    pub mimetype: EntryMap,
    /// Entries keyed by file extension, without a leading dot.
    pub extension: EntryMap,
}

impl JoshutoMimetype {
    /// Both mappings are empty.
    pub open spec fn is_empty_table(&self) -> bool {
        self.mimetype@ == Map::<Seq<char>, Seq<JoshutoMimetypeEntry>>::empty()
            && self.extension@ == Map::<Seq<char>, Seq<JoshutoMimetypeEntry>>::empty()
    }

    /// The table with no entries.
    pub fn new() -> (r: Self)
        ensures
            r.is_empty_table(),
    {
        JoshutoMimetype { mimetype: EntryMap::new(), extension: EntryMap::new() }
    }

    /// The table for the outcome of reading the configuration file: the parsed
    /// configuration with absent tables made empty; an empty table when the
    /// file could not be found or read; the error itself when it is fatal.
    /// A parsed configuration with an entry whose program is empty does not
    /// match the schema and gives a fatal `ConfigError::Parse`. A key repeated
    /// within one table never reaches this point: the TOML parser rejects it,
    /// so it arrives here as a parse error.
    pub fn get_config(loaded: Result<JoshutoRawMimetype, ConfigError>) -> (r: Result<Self, ConfigError>)
        ensures
            match loaded {
                Ok(raw) => if programs_nonempty(mapping_or_empty(raw.mimetype))
                    && programs_nonempty(mapping_or_empty(raw.extension)) {
                    r matches Ok(t) && t.mimetype@ == mapping_or_empty(raw.mimetype)
                        && t.extension@ == mapping_or_empty(raw.extension)
                } else {
                    r matches Err(ConfigError::Parse(_))
                },
                Err(e) => if e.spec_is_fatal() {
                    r == Err::<Self, ConfigError>(e)
                } else {
                    r matches Ok(t) && t.is_empty_table()
                },
            },
            r matches Ok(t) ==> programs_nonempty(t.mimetype@) && programs_nonempty(t.extension@),
    {
        match loaded {
            Ok(config) => {
                let table = config.flatten();
                if table.mimetype.all_programs_nonempty() && table.extension.all_programs_nonempty() {
                    Ok(table)
                } else {
                    Err(ConfigError::Parse(String::from_str("an entry has an empty program")))
                }
            },
            Err(e) => {
                if e.is_fatal() {
                    Err(e)
                } else {
                    Ok(Self::new())
                }
            },
        }
    }

    /// The candidates for an exact MIME type, first the default one; `None`
    /// when the MIME type has no binding.
    pub fn lookup_by_mimetype(&self, key: &str) -> (r: Option<&[JoshutoMimetypeEntry]>)
        ensures
            match r {
                Some(v) => self.mimetype@.contains_key(key@) && v@ == self.mimetype@[key@],
                None => !self.mimetype@.contains_key(key@),
            },
    {
        self.mimetype.get(key)
    }

    /// The candidates for an exact extension, first the default one; `None`
    /// when the extension has no binding.
    pub fn lookup_by_extension(&self, key: &str) -> (r: Option<&[JoshutoMimetypeEntry]>)
        ensures
            match r {
                Some(v) => self.extension@.contains_key(key@) && v@ == self.extension@[key@],
                None => !self.extension@.contains_key(key@),
            },
    {
        self.extension.get(key)
    }
}

} // verus!
