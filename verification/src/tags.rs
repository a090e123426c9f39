use vstd::prelude::*;

use crate::config::file_loader::{FileLoader, LoaderNames};
use crate::config::listing::{position_of, qualified, qualified_text};
use crate::config::names::spec_lookup;
use crate::config::parse::{string_base, FromConfig};
use crate::config::{ConfigError, ConfigParseError};

verus! {

/// Index of a flag in the configuration.
#[derive(Debug, Clone, Copy, PartialEq, Eq, Structural, Hash)]
pub struct FlagKey(pub usize);

/// Index of a tag in the configuration.
#[derive(Debug, Clone, Copy, PartialEq, Eq, Structural, Hash)]
pub struct TagKey(pub usize);

impl FromConfig for FlagKey {
    /// A flag by its name; an unknown name is `UnknownEnumMember`.
    open spec fn spec_from_conf(s: Seq<char>, names: LoaderNames) -> Result<(FlagKey, Seq<char>), ConfigError> {
        let (i, base, rest) = spec_lookup(names.flags, s);
        match i {
            Some(i) => Ok((FlagKey(i as usize), rest)),
            None => Err(ConfigError::UnknownEnumMember(qualified("Flag"@, base, None))),
        }
    }

    fn from_conf<'a>(s: &'a [char], loader: &FileLoader) -> (r: Result<(FlagKey, &'a [char]), ConfigParseError>) {
        let (base, rest) = string_base(s);
        match position_of(loader.flags_names(), base) {
            Some(i) => Ok((FlagKey(i), rest)),
            None => Err(ConfigParseError::UnknownEnumMember(qualified_text("Flag", base, None))),
        }
    }
}

impl FromConfig for TagKey {
    /// A tag by its name; an unknown name is `UnknownEnumMember`.
    open spec fn spec_from_conf(s: Seq<char>, names: LoaderNames) -> Result<(TagKey, Seq<char>), ConfigError> {
        let (i, base, rest) = spec_lookup(names.tags, s);
        match i {
            Some(i) => Ok((TagKey(i as usize), rest)),
            None => Err(ConfigError::UnknownEnumMember(qualified("Tag"@, base, None))),
        }
    }

    fn from_conf<'a>(s: &'a [char], loader: &FileLoader) -> (r: Result<(TagKey, &'a [char]), ConfigParseError>) {
        let (base, rest) = string_base(s);
        match position_of(loader.tags_names(), base) {
            Some(i) => Ok((TagKey(i), rest)),
            None => Err(ConfigParseError::UnknownEnumMember(qualified_text("Tag", base, None))),
        }
    }
}

} // verus!
