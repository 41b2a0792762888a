use zarrista::config::{
    metadata_convert_version_to_str, metadata_erase_version_to_str, parse_metadata_convert_version,
    parse_metadata_erase_version, parse_use_consolidated_metadata,
    use_consolidated_metadata_to_str, ConfigError, MetadataConvertVersion, MetadataEraseVersion,
    UseConsolidatedMetadata,
};

#[test]
fn convert_version_round_trips() {
    for v in [MetadataConvertVersion::Default, MetadataConvertVersion::V3] {
        assert_eq!(parse_metadata_convert_version(metadata_convert_version_to_str(v)).unwrap(), v);
    }
    assert_eq!(metadata_convert_version_to_str(MetadataConvertVersion::V3), "v3");
}

#[test]
fn erase_version_round_trips() {
    for v in [
        MetadataEraseVersion::Default,
        MetadataEraseVersion::All,
        MetadataEraseVersion::V3,
        MetadataEraseVersion::V2,
    ] {
        assert_eq!(parse_metadata_erase_version(metadata_erase_version_to_str(v)).unwrap(), v);
    }
    assert_eq!(metadata_erase_version_to_str(MetadataEraseVersion::All), "all");
}

#[test]
fn consolidated_mode_round_trips() {
    for v in [UseConsolidatedMetadata::Auto, UseConsolidatedMetadata::Must, UseConsolidatedMetadata::Never] {
        assert_eq!(parse_use_consolidated_metadata(use_consolidated_metadata_to_str(v)).unwrap(), v);
    }
    assert_eq!(use_consolidated_metadata_to_str(UseConsolidatedMetadata::Never), "never");
}

#[test]
fn parsing_ignores_ascii_case() {
    assert_eq!(parse_metadata_convert_version("V3").unwrap(), MetadataConvertVersion::V3);
    assert_eq!(parse_metadata_erase_version("DeFault").unwrap(), MetadataEraseVersion::Default);
    assert_eq!(parse_use_consolidated_metadata("MUST").unwrap(), UseConsolidatedMetadata::Must);
}

#[test]
fn unknown_names_are_refused_lowercased() {
    match parse_metadata_convert_version("V4") {
        Err(ConfigError::UnknownMetadataConvertVersion(name)) => assert_eq!(name, "v4"),
        _ => panic!("expected an unknown convert version"),
    }
    match parse_metadata_erase_version("None") {
        Err(ConfigError::UnknownMetadataEraseVersion(name)) => assert_eq!(name, "none"),
        _ => panic!("expected an unknown erase version"),
    }
    match parse_use_consolidated_metadata("Sometimes") {
        Err(ConfigError::UnknownUseConsolidatedMetadata(name)) => assert_eq!(name, "sometimes"),
        _ => panic!("expected an unknown mode"),
    }
}
