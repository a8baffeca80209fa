use cadutil::codes::{LcDetailLevel, LcDxfVersion, LcEntityType, LcError, LcFormat, LcSeverity};

#[test]
fn dxf_version_tokens_in_any_case() {
    let cases = [
        ("r12", LcDxfVersion::R12),
        ("R12", LcDxfVersion::R12),
        ("12", LcDxfVersion::R12),
        ("r14", LcDxfVersion::R14),
        ("R14", LcDxfVersion::R14),
        ("14", LcDxfVersion::R14),
        ("2000", LcDxfVersion::V2000),
        ("2004", LcDxfVersion::V2004),
        ("2007", LcDxfVersion::V2007),
        ("2010", LcDxfVersion::V2010),
        ("2013", LcDxfVersion::V2013),
        ("2018", LcDxfVersion::V2018),
    ];
    for (token, version) in cases {
        assert_eq!(LcDxfVersion::from_token(token), Ok(version), "{}", token);
    }
}

#[test]
fn dxf_version_rejects_everything_else() {
    for token in ["", "2025", "invalid", "r", "r1", "r120", " r12", "r12 ", "2007.0", "v2007", "R 12"] {
        assert_eq!(
            LcDxfVersion::from_token(token),
            Err(format!("Unknown DXF version: {}", token)),
            "{:?}",
            token
        );
    }
}

#[test]
fn dxf_version_rejection_names_the_token_as_typed() {
    assert_eq!(
        "ReLeAsE".parse::<LcDxfVersion>(),
        Err("Unknown DXF version: ReLeAsE".to_string())
    );
}

#[test]
fn detail_level_tokens_in_any_case() {
    let cases = [
        ("summary", LcDetailLevel::Summary),
        ("SuMmArY", LcDetailLevel::Summary),
        ("S", LcDetailLevel::Summary),
        ("0", LcDetailLevel::Summary),
        ("NORMAL", LcDetailLevel::Normal),
        ("N", LcDetailLevel::Normal),
        ("1", LcDetailLevel::Normal),
        ("Verbose", LcDetailLevel::Verbose),
        ("V", LcDetailLevel::Verbose),
        ("2", LcDetailLevel::Verbose),
        ("fULL", LcDetailLevel::Full),
        ("F", LcDetailLevel::Full),
        ("3", LcDetailLevel::Full),
    ];
    for (token, level) in cases {
        assert_eq!(LcDetailLevel::from_token(token), Ok(level), "{}", token);
    }
}

#[test]
fn detail_level_rejects_everything_else() {
    for token in ["", "4", "-1", "invalid", "su", "summar", "summaryy", "full ", "no", "00"] {
        assert_eq!(
            LcDetailLevel::from_token(token),
            Err(format!("Unknown detail level: {}", token)),
            "{:?}",
            token
        );
    }
}

#[test]
fn letters_outside_ascii_are_no_letters_of_a_token() {
    // Long s, fullwidth letters and the Kelvin sign look like ASCII
    // letters or fold to them elsewhere; no token holds them.
    for token in ["\u{17f}", "\u{ff33}", "\u{ff53}ummary", "\u{ff52}12", "\u{212a}"] {
        assert!(LcDetailLevel::from_token(token).is_err(), "{:?}", token);
        assert!(LcDxfVersion::from_token(token).is_err(), "{:?}", token);
    }
}

#[test]
fn parsing_agrees_with_lower_casing_of_the_token() {
    for token in ["SUMMARY", "Normal", "vErBoSe", "FULL", "s", "N", "R12", "R14", "x", "Sx"] {
        let lowered = token.to_lowercase();
        assert_eq!(
            LcDetailLevel::from_token(token).ok(),
            LcDetailLevel::from_token(&lowered).ok()
        );
        assert_eq!(
            LcDxfVersion::from_token(token).ok(),
            LcDxfVersion::from_token(&lowered).ok()
        );
    }
}

#[test]
fn dxf_version_codes() {
    assert_eq!(LcDxfVersion::R12.code(), 12);
    assert_eq!(LcDxfVersion::R14.code(), 14);
    assert_eq!(LcDxfVersion::V2000.code(), 2000);
    assert_eq!(LcDxfVersion::V2004.code(), 2004);
    assert_eq!(LcDxfVersion::V2007.code(), 2007);
    assert_eq!(LcDxfVersion::V2010.code(), 2010);
    assert_eq!(LcDxfVersion::V2013.code(), 2013);
    assert_eq!(LcDxfVersion::V2018.code(), 2018);
}

#[test]
fn codes_read_back() {
    for code in 0..20 {
        assert_eq!(LcEntityType::from_code(code).code(), code);
        assert_eq!(LcEntityType::from_code(code).index(), code as usize);
    }
    for code in 0..5 {
        assert_eq!(LcFormat::from_code(code).code(), code);
    }
    for code in 0..8 {
        assert_eq!(LcError::from_code(code).code(), code);
    }
    assert_eq!(LcError::from_code(99), LcError::Unknown);
    for code in 0..3 {
        assert_eq!(LcSeverity::from_code(code).unwrap().code(), code);
    }
}

#[test]
fn codes_outside_a_vocabulary_fold() {
    for code in [-1, 20, 21, 1000, i32::MIN, i32::MAX] {
        assert_eq!(LcEntityType::from_code(code), LcEntityType::Unknown);
        assert_eq!(LcFormat::from_code(code), LcFormat::Unknown);
        assert_eq!(LcError::from_code(code), LcError::Unknown);
        assert_eq!(LcSeverity::from_code(code), None);
    }
    assert_eq!(LcError::from_code(8), LcError::Unknown);
    assert_eq!(LcFormat::from_code(5), LcFormat::Unknown);
    assert_eq!(LcSeverity::from_code(3), None);
}

#[test]
fn only_success_is_ok() {
    assert!(LcError::Success.is_ok());
    for code in 1..8 {
        assert!(!LcError::from_code(code).is_ok());
    }
    assert!(!LcError::Unknown.is_ok());
}

#[test]
fn detail_levels_are_ordered() {
    let levels = [
        LcDetailLevel::Summary,
        LcDetailLevel::Normal,
        LcDetailLevel::Verbose,
        LcDetailLevel::Full,
    ];
    for (i, a) in levels.iter().enumerate() {
        for (j, b) in levels.iter().enumerate() {
            assert_eq!(a.at_least(*b), i >= j);
        }
    }
}
