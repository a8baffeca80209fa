//! The closed vocabularies of the engine contract: status codes, file
//! formats, DXF target versions, entity kinds, severities and detail
//! levels, each with its stable integer and text encoding.

use vstd::prelude::*;
use crate::text::{lowered, matches_ignoring_case};

verus! {

/// Status reported by an engine call.
#[derive(Debug, Clone, Copy, PartialEq, Eq, Structural)]
pub enum LcError {
    Success,
    FileNotFound,
    InvalidFormat,
    ReadError,
    WriteError,
    UnsupportedVersion,
    OutOfMemory,
    InvalidArgument,
    Unknown,
}

impl LcError {
    /// The integer the engine uses for this status.
    pub open spec fn spec_code(self) -> int {
        match self {
            LcError::Success => 0,
            LcError::FileNotFound => 1,
            LcError::InvalidFormat => 2,
            LcError::ReadError => 3,
            LcError::WriteError => 4,
            LcError::UnsupportedVersion => 5,
            LcError::OutOfMemory => 6,
            LcError::InvalidArgument => 7,
            LcError::Unknown => 99,
        }
    }

    /// The status an integer stands for; integers outside the
    /// vocabulary read as `Unknown`.
    pub open spec fn spec_from_code(code: int) -> LcError {
        if code == 0 {
            LcError::Success
        } else if code == 1 {
            LcError::FileNotFound
        } else if code == 2 {
            LcError::InvalidFormat
        } else if code == 3 {
            LcError::ReadError
        } else if code == 4 {
            LcError::WriteError
        } else if code == 5 {
            LcError::UnsupportedVersion
        } else if code == 6 {
            LcError::OutOfMemory
        } else if code == 7 {
            LcError::InvalidArgument
        } else {
            LcError::Unknown
        }
    }

    /// The integer of this value.
    pub fn code(&self) -> (r: i32)
        ensures
            r == self.spec_code(),
    {
        match self {
            LcError::Success => 0,
            LcError::FileNotFound => 1,
            LcError::InvalidFormat => 2,
            LcError::ReadError => 3,
            LcError::WriteError => 4,
            LcError::UnsupportedVersion => 5,
            LcError::OutOfMemory => 6,
            LcError::InvalidArgument => 7,
            LcError::Unknown => 99,
        }
    }

    /// The value an integer stands for.
    pub fn from_code(code: i32) -> (r: LcError)
        ensures
            r == Self::spec_from_code(code as int),
    {
        match code {
            0 => LcError::Success,
            1 => LcError::FileNotFound,
            2 => LcError::InvalidFormat,
            3 => LcError::ReadError,
            4 => LcError::WriteError,
            5 => LcError::UnsupportedVersion,
            6 => LcError::OutOfMemory,
            7 => LcError::InvalidArgument,
            _ => LcError::Unknown,
        }
    }

    /// Whether the call succeeded.
    pub fn is_ok(&self) -> (r: bool)
        ensures
            r == (*self == LcError::Success),
    {
        match self {
            LcError::Success => true,
            _ => false,
        }
    }
}

/// File format of a drawing, as detected by the engine.
#[derive(Debug, Clone, Copy, PartialEq, Eq, Structural)]
pub enum LcFormat {
    Unknown,
    Dxf,
    Dwg,
    Jww,
    Jwc,
}

impl LcFormat {
    /// The integer of this value.
    pub open spec fn spec_code(self) -> int {
        match self {
            LcFormat::Unknown => 0,
            LcFormat::Dxf => 1,
            LcFormat::Dwg => 2,
            LcFormat::Jww => 3,
            LcFormat::Jwc => 4,
        }
    }

    /// The format an integer stands for; an unrecognised integer reads
    /// as `Unknown`, so detection never fails.
    pub open spec fn spec_from_code(code: int) -> LcFormat {
        if code == 1 {
            LcFormat::Dxf
        } else if code == 2 {
            LcFormat::Dwg
        } else if code == 3 {
            LcFormat::Jww
        } else if code == 4 {
            LcFormat::Jwc
        } else {
            LcFormat::Unknown
        }
    }

    /// The name shown to people and written into reports.
    pub open spec fn name(self) -> Seq<char> {
        match self {
            LcFormat::Unknown => "Unknown"@,
            LcFormat::Dxf => "DXF"@,
            LcFormat::Dwg => "DWG"@,
            LcFormat::Jww => "JWW"@,
            LcFormat::Jwc => "JWC"@,
        }
    }

    /// The integer of this value.
    pub fn code(&self) -> (r: i32)
        ensures
            r == self.spec_code(),
    {
        match self {
            LcFormat::Unknown => 0,
            LcFormat::Dxf => 1,
            LcFormat::Dwg => 2,
            LcFormat::Jww => 3,
            LcFormat::Jwc => 4,
        }
    }

    /// The value an integer stands for.
    pub fn from_code(code: i32) -> (r: LcFormat)
        ensures
            r == Self::spec_from_code(code as int),
    {
        match code {
            1 => LcFormat::Dxf,
            2 => LcFormat::Dwg,
            3 => LcFormat::Jww,
            4 => LcFormat::Jwc,
            _ => LcFormat::Unknown,
        }
    }

    /// The name of this value.
    pub fn as_str(&self) -> (r: &'static str)
        ensures
            r@ == self.name(),
    {
        match self {
            LcFormat::Unknown => "Unknown",
            LcFormat::Dxf => "DXF",
            LcFormat::Dwg => "DWG",
            LcFormat::Jww => "JWW",
            LcFormat::Jwc => "JWC",
        }
    }
}

/// DXF version written on export.
#[derive(Debug, Clone, Copy, PartialEq, Eq, Structural)]
pub enum LcDxfVersion {
    R12,
    R14,
    V2000,
    V2004,
    V2007,
    V2010,
    V2013,
    V2018,
}

impl LcDxfVersion {
    /// The integer of this value.
    pub open spec fn spec_code(self) -> int {
        match self {
            LcDxfVersion::R12 => 12,
            LcDxfVersion::R14 => 14,
            LcDxfVersion::V2000 => 2000,
            LcDxfVersion::V2004 => 2004,
            LcDxfVersion::V2007 => 2007,
            LcDxfVersion::V2010 => 2010,
            LcDxfVersion::V2013 => 2013,
            LcDxfVersion::V2018 => 2018,
        }
    }

    /// The version a lower-case token names, if any.
    pub open spec fn of_token(t: Seq<char>) -> Option<LcDxfVersion> {
        if t == "r12"@ || t == "12"@ {
            Some(LcDxfVersion::R12)
        } else if t == "r14"@ || t == "14"@ {
            Some(LcDxfVersion::R14)
        } else if t == "2000"@ {
            Some(LcDxfVersion::V2000)
        } else if t == "2004"@ {
            Some(LcDxfVersion::V2004)
        } else if t == "2007"@ {
            Some(LcDxfVersion::V2007)
        } else if t == "2010"@ {
            Some(LcDxfVersion::V2010)
        } else if t == "2013"@ {
            Some(LcDxfVersion::V2013)
        } else if t == "2018"@ {
            Some(LcDxfVersion::V2018)
        } else {
            None
        }
    }

    /// What parsing makes of a token: letters count without regard to
    /// case, and nothing but the listed tokens is a version.
    pub open spec fn parsed(s: Seq<char>) -> Option<LcDxfVersion> {
        Self::of_token(lowered(s))
    }

    /// The message that rejects a token.
    pub open spec fn rejection(s: Seq<char>) -> Seq<char> {
        "Unknown DXF version: "@ + s
    }

    /// The integer of this value.
    pub fn code(&self) -> (r: i32)
        ensures
            r == self.spec_code(),
    {
        match self {
            LcDxfVersion::R12 => 12,
            LcDxfVersion::R14 => 14,
            LcDxfVersion::V2000 => 2000,
            LcDxfVersion::V2004 => 2004,
            LcDxfVersion::V2007 => 2007,
            LcDxfVersion::V2010 => 2010,
            LcDxfVersion::V2013 => 2013,
            LcDxfVersion::V2018 => 2018,
        }
    }

    /// Parses a version token. Succeeds exactly on the tokens of
    /// [`Self::of_token`], in any mix of upper and lower case, and
    /// otherwise returns the rejection message naming the token as given.
    pub fn from_token(s: &str) -> (r: Result<LcDxfVersion, String>)
        ensures
            match r {
                Ok(v) => Self::parsed(s@) == Some(v),
                Err(e) => Self::parsed(s@) is None && e@ == Self::rejection(s@),
            },
    {
        if matches_ignoring_case(s, "r12") || matches_ignoring_case(s, "12") {
            Ok(LcDxfVersion::R12)
        } else if matches_ignoring_case(s, "r14") || matches_ignoring_case(s, "14") {
            Ok(LcDxfVersion::R14)
        } else if matches_ignoring_case(s, "2000") {
            Ok(LcDxfVersion::V2000)
        } else if matches_ignoring_case(s, "2004") {
            Ok(LcDxfVersion::V2004)
        } else if matches_ignoring_case(s, "2007") {
            Ok(LcDxfVersion::V2007)
        } else if matches_ignoring_case(s, "2010") {
            Ok(LcDxfVersion::V2010)
        } else if matches_ignoring_case(s, "2013") {
            Ok(LcDxfVersion::V2013)
        } else if matches_ignoring_case(s, "2018") {
            Ok(LcDxfVersion::V2018)
        } else {
            let mut message = String::from_str("Unknown DXF version: ");
            message.append(s);
            Err(message)
        }
    }
}

impl std::str::FromStr for LcDxfVersion {
    type Err = String;

    fn from_str(s: &str) -> (r: Result<Self, Self::Err>)
        ensures
            match r {
                Ok(v) => LcDxfVersion::parsed(s@) == Some(v),
                Err(e) => LcDxfVersion::parsed(s@) is None && e@ == LcDxfVersion::rejection(s@),
            },
    {
        LcDxfVersion::from_token(s)
    }
}

/// Kind of a drawable primitive. Kinds this vocabulary does not know
/// fold into `Unknown`.
#[derive(Debug, Clone, Copy, PartialEq, Eq, Structural)]
pub enum LcEntityType {
    Unknown,
    Point,
    Line,
    Circle,
    Arc,
    Ellipse,
    Polyline,
    LwPolyline,
    Spline,
    Text,
    MText,
    Insert,
    Hatch,
    Dimension,
    Leader,
    Solid,
    Trace,
    Face3D,
    Image,
    Viewport,
}

impl LcEntityType {
    /// The integer of this kind, which is also its slot in a table of
    /// per-kind counts.
    pub open spec fn spec_code(self) -> int {
        match self {
            LcEntityType::Unknown => 0,
            LcEntityType::Point => 1,
            LcEntityType::Line => 2,
            LcEntityType::Circle => 3,
            LcEntityType::Arc => 4,
            LcEntityType::Ellipse => 5,
            LcEntityType::Polyline => 6,
            LcEntityType::LwPolyline => 7,
            LcEntityType::Spline => 8,
            LcEntityType::Text => 9,
            LcEntityType::MText => 10,
            LcEntityType::Insert => 11,
            LcEntityType::Hatch => 12,
            LcEntityType::Dimension => 13,
            LcEntityType::Leader => 14,
            LcEntityType::Solid => 15,
            LcEntityType::Trace => 16,
            LcEntityType::Face3D => 17,
            LcEntityType::Image => 18,
            LcEntityType::Viewport => 19,
        }
    }

    /// The kind an integer stands for; an integer outside the
    /// vocabulary reads as `Unknown`.
    pub open spec fn spec_from_code(code: int) -> LcEntityType {
        if code == 1 {
            LcEntityType::Point
        } else if code == 2 {
            LcEntityType::Line
        } else if code == 3 {
            LcEntityType::Circle
        } else if code == 4 {
            LcEntityType::Arc
        } else if code == 5 {
            LcEntityType::Ellipse
        } else if code == 6 {
            LcEntityType::Polyline
        } else if code == 7 {
            LcEntityType::LwPolyline
        } else if code == 8 {
            LcEntityType::Spline
        } else if code == 9 {
            LcEntityType::Text
        } else if code == 10 {
            LcEntityType::MText
        } else if code == 11 {
            LcEntityType::Insert
        } else if code == 12 {
            LcEntityType::Hatch
        } else if code == 13 {
            LcEntityType::Dimension
        } else if code == 14 {
            LcEntityType::Leader
        } else if code == 15 {
            LcEntityType::Solid
        } else if code == 16 {
            LcEntityType::Trace
        } else if code == 17 {
            LcEntityType::Face3D
        } else if code == 18 {
            LcEntityType::Image
        } else if code == 19 {
            LcEntityType::Viewport
        } else {
            LcEntityType::Unknown
        }
    }

    /// The name of the kind as DXF writes it.
    pub open spec fn name(self) -> Seq<char> {
        match self {
            LcEntityType::Unknown => "UNKNOWN"@,
            LcEntityType::Point => "POINT"@,
            LcEntityType::Line => "LINE"@,
            LcEntityType::Circle => "CIRCLE"@,
            LcEntityType::Arc => "ARC"@,
            LcEntityType::Ellipse => "ELLIPSE"@,
            LcEntityType::Polyline => "POLYLINE"@,
            LcEntityType::LwPolyline => "LWPOLYLINE"@,
            LcEntityType::Spline => "SPLINE"@,
            LcEntityType::Text => "TEXT"@,
            LcEntityType::MText => "MTEXT"@,
            LcEntityType::Insert => "INSERT"@,
            LcEntityType::Hatch => "HATCH"@,
            LcEntityType::Dimension => "DIMENSION"@,
            LcEntityType::Leader => "LEADER"@,
            LcEntityType::Solid => "SOLID"@,
            LcEntityType::Trace => "TRACE"@,
            LcEntityType::Face3D => "3DFACE"@,
            LcEntityType::Image => "IMAGE"@,
            LcEntityType::Viewport => "VIEWPORT"@,
        }
    }

    /// The integer of this value.
    pub fn code(&self) -> (r: i32)
        ensures
            r == self.spec_code(),
    {
        match self {
            LcEntityType::Unknown => 0,
            LcEntityType::Point => 1,
            LcEntityType::Line => 2,
            LcEntityType::Circle => 3,
            LcEntityType::Arc => 4,
            LcEntityType::Ellipse => 5,
            LcEntityType::Polyline => 6,
            LcEntityType::LwPolyline => 7,
            LcEntityType::Spline => 8,
            LcEntityType::Text => 9,
            LcEntityType::MText => 10,
            LcEntityType::Insert => 11,
            LcEntityType::Hatch => 12,
            LcEntityType::Dimension => 13,
            LcEntityType::Leader => 14,
            LcEntityType::Solid => 15,
            LcEntityType::Trace => 16,
            LcEntityType::Face3D => 17,
            LcEntityType::Image => 18,
            LcEntityType::Viewport => 19,
        }
    }

    /// The slot of this kind in a table of per-kind counts.
    pub fn index(&self) -> (r: usize)
        ensures
            r == self.spec_code(),
            r < 20,
    {
        match self {
            LcEntityType::Unknown => 0,
            LcEntityType::Point => 1,
            LcEntityType::Line => 2,
            LcEntityType::Circle => 3,
            LcEntityType::Arc => 4,
            LcEntityType::Ellipse => 5,
            LcEntityType::Polyline => 6,
            LcEntityType::LwPolyline => 7,
            LcEntityType::Spline => 8,
            LcEntityType::Text => 9,
            LcEntityType::MText => 10,
            LcEntityType::Insert => 11,
            LcEntityType::Hatch => 12,
            LcEntityType::Dimension => 13,
            LcEntityType::Leader => 14,
            LcEntityType::Solid => 15,
            LcEntityType::Trace => 16,
            LcEntityType::Face3D => 17,
            LcEntityType::Image => 18,
            LcEntityType::Viewport => 19,
        }
    }

    /// The value an integer stands for.
    pub fn from_code(code: i32) -> (r: LcEntityType)
        ensures
            r == Self::spec_from_code(code as int),
    {
        match code {
            1 => LcEntityType::Point,
            2 => LcEntityType::Line,
            3 => LcEntityType::Circle,
            4 => LcEntityType::Arc,
            5 => LcEntityType::Ellipse,
            6 => LcEntityType::Polyline,
            7 => LcEntityType::LwPolyline,
            8 => LcEntityType::Spline,
            9 => LcEntityType::Text,
            10 => LcEntityType::MText,
            11 => LcEntityType::Insert,
            12 => LcEntityType::Hatch,
            13 => LcEntityType::Dimension,
            14 => LcEntityType::Leader,
            15 => LcEntityType::Solid,
            16 => LcEntityType::Trace,
            17 => LcEntityType::Face3D,
            18 => LcEntityType::Image,
            19 => LcEntityType::Viewport,
            _ => LcEntityType::Unknown,
        }
    }

    /// The name of this value.
    pub fn as_str(&self) -> (r: &'static str)
        ensures
            r@ == self.name(),
    {
        match self {
            LcEntityType::Unknown => "UNKNOWN",
            LcEntityType::Point => "POINT",
            LcEntityType::Line => "LINE",
            LcEntityType::Circle => "CIRCLE",
            LcEntityType::Arc => "ARC",
            LcEntityType::Ellipse => "ELLIPSE",
            LcEntityType::Polyline => "POLYLINE",
            LcEntityType::LwPolyline => "LWPOLYLINE",
            LcEntityType::Spline => "SPLINE",
            LcEntityType::Text => "TEXT",
            LcEntityType::MText => "MTEXT",
            LcEntityType::Insert => "INSERT",
            LcEntityType::Hatch => "HATCH",
            LcEntityType::Dimension => "DIMENSION",
            LcEntityType::Leader => "LEADER",
            LcEntityType::Solid => "SOLID",
            LcEntityType::Trace => "TRACE",
            LcEntityType::Face3D => "3DFACE",
            LcEntityType::Image => "IMAGE",
            LcEntityType::Viewport => "VIEWPORT",
        }
    }
}

/// Severity of a validation issue, from least to most severe.
#[derive(Debug, Clone, Copy, PartialEq, Eq, Structural)]
pub enum LcSeverity {
    Info,
    Warning,
    Error,
}

impl LcSeverity {
    /// The integer of this severity; a greater integer is more severe.
    pub open spec fn spec_code(self) -> int {
        match self {
            LcSeverity::Info => 0,
            LcSeverity::Warning => 1,
            LcSeverity::Error => 2,
        }
    }

    /// The severity an integer stands for, if it stands for one.
    pub open spec fn spec_from_code(code: int) -> Option<LcSeverity> {
        if code == 0 {
            Some(LcSeverity::Info)
        } else if code == 1 {
            Some(LcSeverity::Warning)
        } else if code == 2 {
            Some(LcSeverity::Error)
        } else {
            None
        }
    }

    /// The name of this value.
    pub open spec fn name(self) -> Seq<char> {
        match self {
            LcSeverity::Info => "info"@,
            LcSeverity::Warning => "warning"@,
            LcSeverity::Error => "error"@,
        }
    }

    /// The integer of this value.
    pub fn code(&self) -> (r: i32)
        ensures
            r == self.spec_code(),
    {
        match self {
            LcSeverity::Info => 0,
            LcSeverity::Warning => 1,
            LcSeverity::Error => 2,
        }
    }

    /// The value an integer stands for.
    pub fn from_code(code: i32) -> (r: Option<LcSeverity>)
        ensures
            r == Self::spec_from_code(code as int),
    {
        match code {
            0 => Some(LcSeverity::Info),
            1 => Some(LcSeverity::Warning),
            2 => Some(LcSeverity::Error),
            _ => None,
        }
    }

    /// The name of this value.
    pub fn as_str(&self) -> (r: &'static str)
        ensures
            r@ == self.name(),
    {
        match self {
            LcSeverity::Info => "info",
            LcSeverity::Warning => "warning",
            LcSeverity::Error => "error",
        }
    }
}

/// How much of a drawing an extraction materialises and a report shows,
/// from least to most.
#[derive(Debug, Clone, Copy, PartialEq, Eq, Structural)]
pub enum LcDetailLevel {
    Summary,
    Normal,
    Verbose,
    Full,
}

impl LcDetailLevel {
    /// The integer of this level; a greater integer asks for more.
    pub open spec fn spec_code(self) -> int {
        match self {
            LcDetailLevel::Summary => 0,
            LcDetailLevel::Normal => 1,
            LcDetailLevel::Verbose => 2,
            LcDetailLevel::Full => 3,
        }
    }

    /// Whether this level asks for at least as much as `floor`.
    pub open spec fn reaches(self, floor: LcDetailLevel) -> bool {
        self.spec_code() >= floor.spec_code()
    }

    /// The level a lower-case token names, if any.
    pub open spec fn of_token(t: Seq<char>) -> Option<LcDetailLevel> {
        if t == "summary"@ || t == "s"@ || t == "0"@ {
            Some(LcDetailLevel::Summary)
        } else if t == "normal"@ || t == "n"@ || t == "1"@ {
            Some(LcDetailLevel::Normal)
        } else if t == "verbose"@ || t == "v"@ || t == "2"@ {
            Some(LcDetailLevel::Verbose)
        } else if t == "full"@ || t == "f"@ || t == "3"@ {
            Some(LcDetailLevel::Full)
        } else {
            None
        }
    }

    /// What parsing makes of a token: letters count without regard to
    /// case, and nothing but the listed tokens is a level.
    pub open spec fn parsed(s: Seq<char>) -> Option<LcDetailLevel> {
        Self::of_token(lowered(s))
    }

    /// The message that rejects a token.
    pub open spec fn rejection(s: Seq<char>) -> Seq<char> {
        "Unknown detail level: "@ + s
    }

    /// The integer of this value.
    pub fn code(&self) -> (r: i32)
        ensures
            r == self.spec_code(),
    {
        match self {
            LcDetailLevel::Summary => 0,
            LcDetailLevel::Normal => 1,
            LcDetailLevel::Verbose => 2,
            LcDetailLevel::Full => 3,
        }
    }

    /// Whether this level asks for at least as much as `floor`.
    pub fn at_least(&self, floor: LcDetailLevel) -> (r: bool)
        ensures
            r == self.reaches(floor),
    {
        self.code() >= floor.code()
    }

    /// Parses a detail-level token. Succeeds exactly on the tokens of
    /// [`Self::of_token`], in any mix of upper and lower case, and
    /// otherwise returns the rejection message naming the token as given.
    pub fn from_token(s: &str) -> (r: Result<LcDetailLevel, String>)
        ensures
            match r {
                Ok(v) => Self::parsed(s@) == Some(v),
                Err(e) => Self::parsed(s@) is None && e@ == Self::rejection(s@),
            },
    {
        if matches_ignoring_case(s, "summary") || matches_ignoring_case(s, "s")
            || matches_ignoring_case(s, "0") {
            Ok(LcDetailLevel::Summary)
        } else if matches_ignoring_case(s, "normal") || matches_ignoring_case(s, "n")
            || matches_ignoring_case(s, "1") {
            Ok(LcDetailLevel::Normal)
        } else if matches_ignoring_case(s, "verbose") || matches_ignoring_case(s, "v")
            || matches_ignoring_case(s, "2") {
            Ok(LcDetailLevel::Verbose)
        } else if matches_ignoring_case(s, "full") || matches_ignoring_case(s, "f")
            || matches_ignoring_case(s, "3") {
            Ok(LcDetailLevel::Full)
        } else {
            let mut message = String::from_str("Unknown detail level: ");
            message.append(s);
            Err(message)
        }
    }
}

impl std::str::FromStr for LcDetailLevel {
    type Err = String;

    fn from_str(s: &str) -> (r: Result<Self, Self::Err>)
        ensures
            match r {
                Ok(v) => LcDetailLevel::parsed(s@) == Some(v),
                Err(e) => LcDetailLevel::parsed(s@) is None && e@ == LcDetailLevel::rejection(s@),
            },
    {
        LcDetailLevel::from_token(s)
    }
}

/// Parsing a DXF version does not look at the case of letters: two
/// tokens that differ in case alone parse alike.
pub proof fn dxf_version_ignores_case(s: Seq<char>, t: Seq<char>)
    requires
        lowered(s) == lowered(t),
    ensures
        LcDxfVersion::parsed(s) == LcDxfVersion::parsed(t),
{
}

/// The tokens of the DXF versions are a closed set: each version is
/// what its own tokens parse to and nothing else does, and a token
/// outside the set parses to nothing.
pub proof fn dxf_version_tokens_are_exact(s: Seq<char>)
    ensures
        LcDxfVersion::parsed(s) == Some(LcDxfVersion::R12) <==> lowered(s) == "r12"@ || lowered(s)
            == "12"@,
        LcDxfVersion::parsed(s) == Some(LcDxfVersion::R14) <==> lowered(s) == "r14"@ || lowered(s)
            == "14"@,
        LcDxfVersion::parsed(s) == Some(LcDxfVersion::V2000) <==> lowered(s) == "2000"@,
        LcDxfVersion::parsed(s) == Some(LcDxfVersion::V2004) <==> lowered(s) == "2004"@,
        LcDxfVersion::parsed(s) == Some(LcDxfVersion::V2007) <==> lowered(s) == "2007"@,
        LcDxfVersion::parsed(s) == Some(LcDxfVersion::V2010) <==> lowered(s) == "2010"@,
        LcDxfVersion::parsed(s) == Some(LcDxfVersion::V2013) <==> lowered(s) == "2013"@,
        LcDxfVersion::parsed(s) == Some(LcDxfVersion::V2018) <==> lowered(s) == "2018"@,
        LcDxfVersion::parsed(s) is None <==> !(lowered(s) == "r12"@ || lowered(s) == "12"@
            || lowered(s) == "r14"@ || lowered(s) == "14"@ || lowered(s) == "2000"@ || lowered(s)
            == "2004"@ || lowered(s) == "2007"@ || lowered(s) == "2010"@ || lowered(s) == "2013"@
            || lowered(s) == "2018"@),
{
    reveal_strlit("r12");
    reveal_strlit("12");
    reveal_strlit("r14");
    reveal_strlit("14");
    reveal_strlit("2000");
    reveal_strlit("2004");
    reveal_strlit("2007");
    reveal_strlit("2010");
    reveal_strlit("2013");
    reveal_strlit("2018");
    let t = lowered(s);
    if t.len() == 4 {
        assert("2000"@[3] == '0' && "2004"@[3] == '4' && "2007"@[3] == '7');
        assert("2010"@[2] == '1' && "2013"@[3] == '3' && "2018"@[3] == '8');
    }
    if t.len() == 3 {
        assert("r12"@[2] == '2' && "r14"@[2] == '4');
    }
    if t.len() == 2 {
        assert("12"@[1] == '2' && "14"@[1] == '4');
    }
}

/// Parsing a detail level does not look at the case of letters: two
/// tokens that differ in case alone parse alike.
pub proof fn detail_level_ignores_case(s: Seq<char>, t: Seq<char>)
    requires
        lowered(s) == lowered(t),
    ensures
        LcDetailLevel::parsed(s) == LcDetailLevel::parsed(t),
{
}

/// The tokens of the detail levels are a closed set: each level is what
/// its own three tokens parse to and nothing else does, and a token
/// outside the set parses to nothing.
pub proof fn detail_level_tokens_are_exact(s: Seq<char>)
    ensures
        LcDetailLevel::parsed(s) == Some(LcDetailLevel::Summary) <==> lowered(s) == "summary"@
            || lowered(s) == "s"@ || lowered(s) == "0"@,
        LcDetailLevel::parsed(s) == Some(LcDetailLevel::Normal) <==> lowered(s) == "normal"@
            || lowered(s) == "n"@ || lowered(s) == "1"@,
        LcDetailLevel::parsed(s) == Some(LcDetailLevel::Verbose) <==> lowered(s) == "verbose"@
            || lowered(s) == "v"@ || lowered(s) == "2"@,
        LcDetailLevel::parsed(s) == Some(LcDetailLevel::Full) <==> lowered(s) == "full"@
            || lowered(s) == "f"@ || lowered(s) == "3"@,
        LcDetailLevel::parsed(s) is None <==> !(lowered(s) == "summary"@ || lowered(s) == "s"@
            || lowered(s) == "0"@ || lowered(s) == "normal"@ || lowered(s) == "n"@ || lowered(s)
            == "1"@ || lowered(s) == "verbose"@ || lowered(s) == "v"@ || lowered(s) == "2"@
            || lowered(s) == "full"@ || lowered(s) == "f"@ || lowered(s) == "3"@),
{
    reveal_strlit("summary");
    reveal_strlit("s");
    reveal_strlit("0");
    reveal_strlit("normal");
    reveal_strlit("n");
    reveal_strlit("1");
    reveal_strlit("verbose");
    reveal_strlit("v");
    reveal_strlit("2");
    reveal_strlit("full");
    reveal_strlit("f");
    reveal_strlit("3");
    let t = lowered(s);
    if t.len() == 1 {
        assert("s"@[0] == 's' && "0"@[0] == '0' && "n"@[0] == 'n' && "1"@[0] == '1');
        assert("v"@[0] == 'v' && "2"@[0] == '2' && "f"@[0] == 'f' && "3"@[0] == '3');
    }
    if t.len() == 7 {
        assert("summary"@[0] == 's' && "verbose"@[0] == 'v');
    }
}

/// The integer of a status reads back as that status.
pub proof fn error_code_round_trip(e: LcError)
    ensures
        LcError::spec_from_code(e.spec_code()) == e,
{
}

/// The integer of a format reads back as that format.
pub proof fn format_code_round_trip(f: LcFormat)
    ensures
        LcFormat::spec_from_code(f.spec_code()) == f,
{
}

/// The integer of an entity kind reads back as that kind, and it is a
/// slot of the twenty-slot table of counts.
pub proof fn entity_code_round_trip(k: LcEntityType)
    ensures
        LcEntityType::spec_from_code(k.spec_code()) == k,
        0 <= k.spec_code() < 20,
{
}

/// The integer of a severity reads back as that severity.
pub proof fn severity_code_round_trip(s: LcSeverity)
    ensures
        LcSeverity::spec_from_code(s.spec_code()) == Some(s),
{
}

} // verus!
