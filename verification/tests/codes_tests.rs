use cadutil::codes::{LcDetailLevel, LcDxfVersion, LcEntityType, LcError, LcFormat, LcSeverity};

#[test]
fn test_dxf_version_parsing() {
    assert_eq!("r12".parse::<LcDxfVersion>().unwrap(), LcDxfVersion::R12);
    assert_eq!("R12".parse::<LcDxfVersion>().unwrap(), LcDxfVersion::R12);
    assert_eq!("12".parse::<LcDxfVersion>().unwrap(), LcDxfVersion::R12);
    assert_eq!("r14".parse::<LcDxfVersion>().unwrap(), LcDxfVersion::R14);
    assert_eq!("2000".parse::<LcDxfVersion>().unwrap(), LcDxfVersion::V2000);
    assert_eq!("2004".parse::<LcDxfVersion>().unwrap(), LcDxfVersion::V2004);
    assert_eq!("2007".parse::<LcDxfVersion>().unwrap(), LcDxfVersion::V2007);
    assert_eq!("2010".parse::<LcDxfVersion>().unwrap(), LcDxfVersion::V2010);
    assert_eq!("2013".parse::<LcDxfVersion>().unwrap(), LcDxfVersion::V2013);
    assert_eq!("2018".parse::<LcDxfVersion>().unwrap(), LcDxfVersion::V2018);
}

#[test]
fn test_dxf_version_parsing_invalid() {
    assert!("invalid".parse::<LcDxfVersion>().is_err());
    assert!("2025".parse::<LcDxfVersion>().is_err());
    assert!("".parse::<LcDxfVersion>().is_err());
}

#[test]
fn test_detail_level_parsing() {
    assert_eq!("summary".parse::<LcDetailLevel>().unwrap(), LcDetailLevel::Summary);
    assert_eq!("s".parse::<LcDetailLevel>().unwrap(), LcDetailLevel::Summary);
    assert_eq!("0".parse::<LcDetailLevel>().unwrap(), LcDetailLevel::Summary);
    assert_eq!("normal".parse::<LcDetailLevel>().unwrap(), LcDetailLevel::Normal);
    assert_eq!("n".parse::<LcDetailLevel>().unwrap(), LcDetailLevel::Normal);
    assert_eq!("1".parse::<LcDetailLevel>().unwrap(), LcDetailLevel::Normal);
    assert_eq!("verbose".parse::<LcDetailLevel>().unwrap(), LcDetailLevel::Verbose);
    assert_eq!("v".parse::<LcDetailLevel>().unwrap(), LcDetailLevel::Verbose);
    assert_eq!("2".parse::<LcDetailLevel>().unwrap(), LcDetailLevel::Verbose);
    assert_eq!("full".parse::<LcDetailLevel>().unwrap(), LcDetailLevel::Full);
    assert_eq!("f".parse::<LcDetailLevel>().unwrap(), LcDetailLevel::Full);
    assert_eq!("3".parse::<LcDetailLevel>().unwrap(), LcDetailLevel::Full);
}

#[test]
fn test_detail_level_parsing_case_insensitive() {
    assert_eq!("SUMMARY".parse::<LcDetailLevel>().unwrap(), LcDetailLevel::Summary);
    assert_eq!("Normal".parse::<LcDetailLevel>().unwrap(), LcDetailLevel::Normal);
    assert_eq!("VERBOSE".parse::<LcDetailLevel>().unwrap(), LcDetailLevel::Verbose);
    assert_eq!("Full".parse::<LcDetailLevel>().unwrap(), LcDetailLevel::Full);
}

#[test]
fn test_detail_level_parsing_invalid() {
    assert!("invalid".parse::<LcDetailLevel>().is_err());
    assert!("4".parse::<LcDetailLevel>().is_err());
    assert!("".parse::<LcDetailLevel>().is_err());
}

#[test]
fn test_format_as_str() {
    assert_eq!(LcFormat::Unknown.as_str(), "Unknown");
    assert_eq!(LcFormat::Dxf.as_str(), "DXF");
    assert_eq!(LcFormat::Dwg.as_str(), "DWG");
    assert_eq!(LcFormat::Jww.as_str(), "JWW");
    assert_eq!(LcFormat::Jwc.as_str(), "JWC");
}

#[test]
fn test_entity_type_as_str() {
    assert_eq!(LcEntityType::Unknown.as_str(), "UNKNOWN");
    assert_eq!(LcEntityType::Point.as_str(), "POINT");
    assert_eq!(LcEntityType::Line.as_str(), "LINE");
    assert_eq!(LcEntityType::Circle.as_str(), "CIRCLE");
    assert_eq!(LcEntityType::Arc.as_str(), "ARC");
    assert_eq!(LcEntityType::Ellipse.as_str(), "ELLIPSE");
    assert_eq!(LcEntityType::Polyline.as_str(), "POLYLINE");
    assert_eq!(LcEntityType::LwPolyline.as_str(), "LWPOLYLINE");
    assert_eq!(LcEntityType::Spline.as_str(), "SPLINE");
    assert_eq!(LcEntityType::Text.as_str(), "TEXT");
    assert_eq!(LcEntityType::MText.as_str(), "MTEXT");
    assert_eq!(LcEntityType::Insert.as_str(), "INSERT");
    assert_eq!(LcEntityType::Hatch.as_str(), "HATCH");
    assert_eq!(LcEntityType::Dimension.as_str(), "DIMENSION");
    assert_eq!(LcEntityType::Leader.as_str(), "LEADER");
    assert_eq!(LcEntityType::Solid.as_str(), "SOLID");
    assert_eq!(LcEntityType::Trace.as_str(), "TRACE");
    assert_eq!(LcEntityType::Face3D.as_str(), "3DFACE");
    assert_eq!(LcEntityType::Image.as_str(), "IMAGE");
    assert_eq!(LcEntityType::Viewport.as_str(), "VIEWPORT");
}

#[test]
fn test_severity_as_str() {
    assert_eq!(LcSeverity::Info.as_str(), "info");
    assert_eq!(LcSeverity::Warning.as_str(), "warning");
    assert_eq!(LcSeverity::Error.as_str(), "error");
}

#[test]
fn test_error_enum_values() {
    assert_eq!(LcError::Success.code(), 0);
    assert_eq!(LcError::FileNotFound.code(), 1);
    assert_eq!(LcError::InvalidFormat.code(), 2);
    assert_eq!(LcError::ReadError.code(), 3);
    assert_eq!(LcError::WriteError.code(), 4);
    assert_eq!(LcError::UnsupportedVersion.code(), 5);
    assert_eq!(LcError::OutOfMemory.code(), 6);
    assert_eq!(LcError::InvalidArgument.code(), 7);
    assert_eq!(LcError::Unknown.code(), 99);
}

#[test]
fn test_format_enum_values() {
    assert_eq!(LcFormat::Unknown.code(), 0);
    assert_eq!(LcFormat::Dxf.code(), 1);
    assert_eq!(LcFormat::Dwg.code(), 2);
    assert_eq!(LcFormat::Jww.code(), 3);
    assert_eq!(LcFormat::Jwc.code(), 4);
}

#[test]
fn test_detail_level_enum_values() {
    assert_eq!(LcDetailLevel::Summary.code(), 0);
    assert_eq!(LcDetailLevel::Normal.code(), 1);
    assert_eq!(LcDetailLevel::Verbose.code(), 2);
    assert_eq!(LcDetailLevel::Full.code(), 3);
}

#[test]
fn test_severity_enum_values() {
    assert_eq!(LcSeverity::Info.code(), 0);
    assert_eq!(LcSeverity::Warning.code(), 1);
    assert_eq!(LcSeverity::Error.code(), 2);
}
