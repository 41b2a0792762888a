//! The names of the global configuration's modes, as the binding reads and
//! writes them: parsing ignores ASCII case.
use vstd::prelude::*;
use vstd::string::*;

use crate::text::{ascii_lowercase, lemma_lowercase_fixed, lemma_lowercase_idempotent, to_ascii_lowercase};

verus! {

/// Which Zarr version metadata is converted to when it is written.
#[derive(Clone, Copy, Debug, PartialEq, Eq, Structural)]
pub enum MetadataConvertVersion {
    Default,
    V3,
}

/// Which metadata versions are erased.
#[derive(Clone, Copy, Debug, PartialEq, Eq, Structural)]
pub enum MetadataEraseVersion {
    Default,
    All,
    V3,
    V2,
}

/// Whether consolidated metadata is used.
#[derive(Clone, Copy, Debug, PartialEq, Eq, Structural)]
pub enum UseConsolidatedMetadata {
    Auto,
    Must,
    Never,
}

/// A configuration value with an unknown name; holds the lowercased name.
#[derive(Clone, Debug)]
pub enum ConfigError {
    UnknownMetadataConvertVersion(String),
    UnknownMetadataEraseVersion(String),
    UnknownUseConsolidatedMetadata(String),
}

/// The name of a metadata convert version.
pub open spec fn spec_convert_version_name(v: MetadataConvertVersion) -> Seq<char> {
    match v {
        MetadataConvertVersion::Default => "default"@,
        MetadataConvertVersion::V3 => "v3"@,
    }
}

/// The name of a metadata erase version.
pub open spec fn spec_erase_version_name(v: MetadataEraseVersion) -> Seq<char> {
    match v {
        MetadataEraseVersion::Default => "default"@,
        MetadataEraseVersion::All => "all"@,
        MetadataEraseVersion::V3 => "v3"@,
        MetadataEraseVersion::V2 => "v2"@,
    }
}

/// The name of a consolidated-metadata mode.
pub open spec fn spec_consolidated_name(v: UseConsolidatedMetadata) -> Seq<char> {
    match v {
        UseConsolidatedMetadata::Auto => "auto"@,
        UseConsolidatedMetadata::Must => "must"@,
        UseConsolidatedMetadata::Never => "never"@,
    }
}

/// The metadata convert version that `s` names, ignoring ASCII case.
pub open spec fn spec_parse_convert_version(s: Seq<char>) -> Option<MetadataConvertVersion> {
    let l = ascii_lowercase(s);
    if l == "default"@ {
        Some(MetadataConvertVersion::Default)
    } else if l == "v3"@ {
        Some(MetadataConvertVersion::V3)
    } else {
        None
    }
}

/// The metadata erase version that `s` names, ignoring ASCII case.
pub open spec fn spec_parse_erase_version(s: Seq<char>) -> Option<MetadataEraseVersion> {
    let l = ascii_lowercase(s);
    if l == "default"@ {
        Some(MetadataEraseVersion::Default)
    } else if l == "all"@ {
        Some(MetadataEraseVersion::All)
    } else if l == "v3"@ {
        Some(MetadataEraseVersion::V3)
    } else if l == "v2"@ {
        Some(MetadataEraseVersion::V2)
    } else {
        None
    }
}

/// The consolidated-metadata mode that `s` names, ignoring ASCII case.
pub open spec fn spec_parse_consolidated(s: Seq<char>) -> Option<UseConsolidatedMetadata> {
    let l = ascii_lowercase(s);
    if l == "auto"@ {
        Some(UseConsolidatedMetadata::Auto)
    } else if l == "must"@ {
        Some(UseConsolidatedMetadata::Must)
    } else if l == "never"@ {
        Some(UseConsolidatedMetadata::Never)
    } else {
        None
    }
}

/// The name of a metadata convert version.
pub fn metadata_convert_version_to_str(version: MetadataConvertVersion) -> (res: &'static str)
    ensures
        res@ == spec_convert_version_name(version),
{
    match version {
        MetadataConvertVersion::Default => "default",
        MetadataConvertVersion::V3 => "v3",
    }
}

/// Parse a metadata convert version, ignoring ASCII case.
pub fn parse_metadata_convert_version(value: &str) -> (res: Result<MetadataConvertVersion, ConfigError>)
    ensures
        match res {
            Ok(v) => spec_parse_convert_version(value@) == Some(v),
            Err(ConfigError::UnknownMetadataConvertVersion(l)) => spec_parse_convert_version(value@)
                is None && l@ == ascii_lowercase(value@),
            Err(_) => false,
        },
{
    let lower = to_ascii_lowercase(value);
    if lower == String::from_str("default") {
        Ok(MetadataConvertVersion::Default)
    } else if lower == String::from_str("v3") {
        Ok(MetadataConvertVersion::V3)
    } else {
        Err(ConfigError::UnknownMetadataConvertVersion(lower))
    }
}

/// The name of a metadata erase version.
pub fn metadata_erase_version_to_str(version: MetadataEraseVersion) -> (res: &'static str)
    ensures
        res@ == spec_erase_version_name(version),
{
    match version {
        MetadataEraseVersion::Default => "default",
        MetadataEraseVersion::All => "all",
        MetadataEraseVersion::V3 => "v3",
        MetadataEraseVersion::V2 => "v2",
    }
}

/// Parse a metadata erase version, ignoring ASCII case.
pub fn parse_metadata_erase_version(value: &str) -> (res: Result<MetadataEraseVersion, ConfigError>)
    ensures
        match res {
            Ok(v) => spec_parse_erase_version(value@) == Some(v),
            Err(ConfigError::UnknownMetadataEraseVersion(l)) => spec_parse_erase_version(value@)
                is None && l@ == ascii_lowercase(value@),
            Err(_) => false,
        },
{
    let lower = to_ascii_lowercase(value);
    if lower == String::from_str("default") {
        Ok(MetadataEraseVersion::Default)
    } else if lower == String::from_str("all") {
        Ok(MetadataEraseVersion::All)
    } else if lower == String::from_str("v3") {
        Ok(MetadataEraseVersion::V3)
    } else if lower == String::from_str("v2") {
        Ok(MetadataEraseVersion::V2)
    } else {
        Err(ConfigError::UnknownMetadataEraseVersion(lower))
    }
}

/// The name of a consolidated-metadata mode.
pub fn use_consolidated_metadata_to_str(mode: UseConsolidatedMetadata) -> (res: &'static str)
    ensures
        res@ == spec_consolidated_name(mode),
{
    match mode {
        UseConsolidatedMetadata::Auto => "auto",
        UseConsolidatedMetadata::Must => "must",
        UseConsolidatedMetadata::Never => "never",
    }
}

/// Parse a consolidated-metadata mode, ignoring ASCII case.
pub fn parse_use_consolidated_metadata(value: &str) -> (res: Result<UseConsolidatedMetadata, ConfigError>)
    ensures
        match res {
            Ok(v) => spec_parse_consolidated(value@) == Some(v),
            Err(ConfigError::UnknownUseConsolidatedMetadata(l)) => spec_parse_consolidated(value@)
                is None && l@ == ascii_lowercase(value@),
            Err(_) => false,
        },
{
    let lower = to_ascii_lowercase(value);
    if lower == String::from_str("auto") {
        Ok(UseConsolidatedMetadata::Auto)
    } else if lower == String::from_str("must") {
        Ok(UseConsolidatedMetadata::Must)
    } else if lower == String::from_str("never") {
        Ok(UseConsolidatedMetadata::Never)
    } else {
        Err(ConfigError::UnknownUseConsolidatedMetadata(lower))
    }
}

/// Reading back the name of a metadata convert version gives the version.
pub proof fn lemma_convert_version_round_trip(v: MetadataConvertVersion)
    ensures
        spec_parse_convert_version(spec_convert_version_name(v)) == Some(v),
{
    reveal_strlit("default");
    reveal_strlit("v3");
    lemma_lowercase_fixed(spec_convert_version_name(v));
}

/// Reading back the name of a metadata erase version gives the version.
pub proof fn lemma_erase_version_round_trip(v: MetadataEraseVersion)
    ensures
        spec_parse_erase_version(spec_erase_version_name(v)) == Some(v),
{
    reveal_strlit("default");
    reveal_strlit("all");
    reveal_strlit("v3");
    reveal_strlit("v2");
    lemma_lowercase_fixed(spec_erase_version_name(v));
    assert("default"@.len() == 7 && "all"@.len() == 3 && "v3"@.len() == 2 && "v2"@.len() == 2);
    assert("v2"@[1] != "v3"@[1]);
    assert("v2"@ != "v3"@);
}

/// Reading back the name of a consolidated-metadata mode gives the mode.
pub proof fn lemma_consolidated_round_trip(v: UseConsolidatedMetadata)
    ensures
        spec_parse_consolidated(spec_consolidated_name(v)) == Some(v),
{
    reveal_strlit("auto");
    reveal_strlit("must");
    reveal_strlit("never");
    lemma_lowercase_fixed(spec_consolidated_name(v));
    assert("auto"@[0] != "must"@[0]);
    assert("auto"@ != "must"@);
    assert("auto"@.len() == 4 && "must"@.len() == 4 && "never"@.len() == 5);
}

/// The configuration values are read regardless of ASCII case.
pub proof fn lemma_config_values_ignore_case(s: Seq<char>)
    ensures
        spec_parse_convert_version(ascii_lowercase(s)) == spec_parse_convert_version(s),
        spec_parse_erase_version(ascii_lowercase(s)) == spec_parse_erase_version(s),
        spec_parse_consolidated(ascii_lowercase(s)) == spec_parse_consolidated(s),
{
    lemma_lowercase_idempotent(s);
}

} // verus!
