//! What the command line program keeps between its runs, and the formats in
//! which it prints a course.
use vstd::prelude::*;

verus! {

/// The formats in which a course can be printed.
#[derive(Clone, Copy, Debug, PartialEq, Eq, Structural)]
pub enum Format {
    Json,
    Toml,
    Rust,
}

impl Format {
    /// The format that is chosen where none is asked for.
    pub open spec fn spec_or_default(format: Option<Format>) -> Format {
        match format {
            Some(format) => format,
            None => Format::Json,
        }
    }

    /// The format that was asked for, and JSON where none was.
    pub fn or_default(format: Option<Format>) -> (chosen: Format)
        ensures
            chosen == Format::spec_or_default(format),
    {
        match format {
            Some(format) => format,
            None => Format::Json,
        }
    }
}

/// The configuration of the command line program. It has a value for every
/// field, so that a first run can write it to disk.
#[derive(Debug)]
pub struct Config {
    pub config_version: u8,
    pub default_language: String,
}

impl Default for Config {
    /// Version 1 of the configuration, with English as the language.
    fn default() -> (config: Config)
        ensures
            config.config_version == 1,
            config.default_language@ == "en"@,
    {
        Config { config_version: 1, default_language: "en".to_string() }
    }
}

} // verus!
