//! The transient records an engine hands over, and the rules that turn
//! them into owned snapshots: an absent text is an empty text, an
//! absent array is an empty sequence, an array is read up to its stated
//! length, and an integer outside a vocabulary folds into the
//! vocabulary's fallback.

use vstd::prelude::*;
use crate::codes::{LcEntityType, LcFormat, LcSeverity};
use crate::model::{
    Binary64, BlockInfo, BlockView, EntityInfo, EntityView, FileInfo, FileInfoView, Issue,
    IssueView, LayerInfo, LayerView, LcBoundingBox, LcPoint3D, ValidationResult, ValidationView,
    block_views, entity_views, issue_views, layer_views,
};

verus! {

/// A layer as the engine reports it. A text the engine left out is
/// `None`; a flag is set when its integer is not zero.
#[derive(Debug, Clone)]
pub struct LcLayerInfo {
    pub name: Option<String>,
    pub color: i32,
    pub line_type: Option<String>,
    pub line_weight: Binary64,
    pub is_off: i32,
    pub is_frozen: i32,
    pub is_locked: i32,
}

/// A block as the engine reports it.
#[derive(Debug, Clone)]
pub struct LcBlockInfo {
    pub name: Option<String>,
    pub base_point: LcPoint3D,
    pub entity_count: i32,
}

/// An entity as the engine reports it, its kind still an integer.
#[derive(Debug, Clone)]
pub struct LcEntityInfo {
    pub entity_type: i32,
    pub layer: Option<String>,
    pub color: i32,
    pub line_type: Option<String>,
    pub line_weight: Binary64,
    pub handle: i32,
}

/// A finding as the engine reports it, its severity still an integer.
#[derive(Debug, Clone)]
pub struct LcValidationIssue {
    pub severity: i32,
    pub code: Option<String>,
    pub message: Option<String>,
    pub location: Option<String>,
}

/// The result of one extraction as the engine reports it. Each array
/// comes with the length the engine states for it; an array the engine
/// left out is `None`.
#[derive(Debug, Clone)]
pub struct LcFileInfo {
    pub filename: Option<String>,
    pub format: i32,
    pub dxf_version: Option<String>,
    pub layer_count: i32,
    pub block_count: i32,
    pub entity_count: i32,
    pub bounds: LcBoundingBox,
    pub layers: Option<Vec<LcLayerInfo>>,
    pub layers_len: i32,
    pub blocks: Option<Vec<LcBlockInfo>>,
    pub blocks_len: i32,
    pub entities: Option<Vec<LcEntityInfo>>,
    pub entities_len: i32,
    pub entity_counts: [i32; 20],
}

/// The result of one validation as the engine reports it.
#[derive(Debug, Clone)]
pub struct LcValidationResult {
    pub is_valid: i32,
    pub issue_count: i32,
    pub issues: Option<Vec<LcValidationIssue>>,
}

/// An open drawing inside the engine. The library never looks into it.
pub struct LcDocument {
    _private: [u8; 0],
}

/// The text a possibly absent text stands for.
pub open spec fn text_of(s: Option<String>) -> Seq<char> {
    match s {
        Some(t) => t@,
        None => Seq::empty(),
    }
}

/// How many items are read from an array that holds `available` items
/// and is stated to hold `stated`: none when the stated length is not
/// positive, and never more than are there.
pub open spec fn read_len(available: int, stated: int) -> int {
    if stated <= 0 {
        0
    } else if stated < available {
        stated
    } else {
        available
    }
}

/// The severity an integer stands for. An integer outside the
/// vocabulary is taken for the most severe.
pub open spec fn severity_of(code: int) -> LcSeverity {
    match LcSeverity::spec_from_code(code) {
        Some(s) => s,
        None => LcSeverity::Error,
    }
}

/// The layer that a transient layer stands for.
pub open spec fn layer_of(raw: LcLayerInfo) -> LayerView {
    LayerView {
        name: text_of(raw.name),
        color: raw.color,
        line_type: text_of(raw.line_type),
        line_weight: raw.line_weight,
        is_off: raw.is_off != 0,
        is_frozen: raw.is_frozen != 0,
        is_locked: raw.is_locked != 0,
    }
}

/// The block that a transient block stands for.
pub open spec fn block_of(raw: LcBlockInfo) -> BlockView {
    BlockView {
        name: text_of(raw.name),
        base_point: raw.base_point,
        entity_count: raw.entity_count,
    }
}

/// The entity that a transient entity stands for.
pub open spec fn entity_of(raw: LcEntityInfo) -> EntityView {
    EntityView {
        entity_type: LcEntityType::spec_from_code(raw.entity_type as int),
        layer: text_of(raw.layer),
        color: raw.color,
        line_type: text_of(raw.line_type),
        line_weight: raw.line_weight,
        handle: raw.handle,
    }
}

/// The finding that a transient finding stands for.
pub open spec fn issue_of(raw: LcValidationIssue) -> IssueView {
    IssueView {
        severity: severity_of(raw.severity as int),
        code: text_of(raw.code),
        message: text_of(raw.message),
        location: text_of(raw.location),
    }
}

/// The layers read from a possibly absent array of stated length.
pub open spec fn layers_of(items: Option<Vec<LcLayerInfo>>, stated: int) -> Seq<LayerView> {
    match items {
        Some(v) => Seq::new(read_len(v@.len() as int, stated) as nat, |i: int| layer_of(v@[i])),
        None => Seq::empty(),
    }
}

/// The blocks read from a possibly absent array of stated length.
pub open spec fn blocks_of(items: Option<Vec<LcBlockInfo>>, stated: int) -> Seq<BlockView> {
    match items {
        Some(v) => Seq::new(read_len(v@.len() as int, stated) as nat, |i: int| block_of(v@[i])),
        None => Seq::empty(),
    }
}

/// The entities read from a possibly absent array of stated length.
pub open spec fn entities_of(items: Option<Vec<LcEntityInfo>>, stated: int) -> Seq<EntityView> {
    match items {
        Some(v) => Seq::new(
            read_len(v@.len() as int, stated) as nat,
            |i: int| entity_of(v@[i]),
        ),
        None => Seq::empty(),
    }
}

/// The findings read from a possibly absent array of stated length.
pub open spec fn issues_of(items: Option<Vec<LcValidationIssue>>, stated: int) -> Seq<
    IssueView,
> {
    match items {
        Some(v) => Seq::new(read_len(v@.len() as int, stated) as nat, |i: int| issue_of(v@[i])),
        None => Seq::empty(),
    }
}

/// The snapshot that a transient extraction result stands for.
pub open spec fn file_info_of(raw: LcFileInfo) -> FileInfoView {
    FileInfoView {
        filename: text_of(raw.filename),
        format: LcFormat::spec_from_code(raw.format as int),
        dxf_version: text_of(raw.dxf_version),
        layer_count: raw.layer_count,
        block_count: raw.block_count,
        entity_count: raw.entity_count,
        bounds: raw.bounds,
        layers: layers_of(raw.layers, raw.layers_len as int),
        blocks: blocks_of(raw.blocks, raw.blocks_len as int),
        entities: entities_of(raw.entities, raw.entities_len as int),
        entity_counts: raw.entity_counts@,
    }
}

/// The outcome that a transient validation result stands for.
pub open spec fn validation_of(raw: LcValidationResult) -> ValidationView {
    ValidationView {
        is_valid: raw.is_valid != 0,
        issues: issues_of(raw.issues, raw.issue_count as int),
    }
}

/// Copies a possibly absent text; an absent one gives the empty text.
pub fn text_or_empty(s: &Option<String>) -> (r: String)
    ensures
        r@ == text_of(*s),
{
    match s {
        Some(t) => t.clone(),
        None => String::new(),
    }
}

/// How many items to read from an array of `available` items stated to
/// hold `stated`.
pub fn items_to_read(available: usize, stated: i32) -> (r: usize)
    ensures
        r == read_len(available as int, stated as int),
        r <= available,
{
    if stated <= 0 {
        0
    } else if (stated as u64) < (available as u64) {
        stated as usize
    } else {
        available
    }
}

/// The severity an integer stands for; see [`severity_of`].
pub fn severity_from(code: i32) -> (r: LcSeverity)
    ensures
        r == severity_of(code as int),
{
    match LcSeverity::from_code(code) {
        Some(s) => s,
        None => LcSeverity::Error,
    }
}

impl LayerInfo {
    /// Snapshots one layer.
    pub fn from_raw(raw: &LcLayerInfo) -> (r: LayerInfo)
        ensures
            r@ == layer_of(*raw),
    {
        LayerInfo {
            name: text_or_empty(&raw.name),
            color: raw.color,
            line_type: text_or_empty(&raw.line_type),
            line_weight: raw.line_weight,
            is_off: raw.is_off != 0,
            is_frozen: raw.is_frozen != 0,
            is_locked: raw.is_locked != 0,
        }
    }
}

impl BlockInfo {
    /// Snapshots one block.
    pub fn from_raw(raw: &LcBlockInfo) -> (r: BlockInfo)
        ensures
            r@ == block_of(*raw),
    {
        BlockInfo {
            name: text_or_empty(&raw.name),
            base_point: raw.base_point,
            entity_count: raw.entity_count,
        }
    }
}

impl EntityInfo {
    /// Snapshots one entity.
    pub fn from_raw(raw: &LcEntityInfo) -> (r: EntityInfo)
        ensures
            r@ == entity_of(*raw),
    {
        EntityInfo {
            entity_type: LcEntityType::from_code(raw.entity_type),
            layer: text_or_empty(&raw.layer),
            color: raw.color,
            line_type: text_or_empty(&raw.line_type),
            line_weight: raw.line_weight,
            handle: raw.handle,
        }
    }
}

impl Issue {
    /// Snapshots one finding.
    pub fn from_raw(raw: &LcValidationIssue) -> (r: Issue)
        ensures
            r@ == issue_of(*raw),
    {
        Issue {
            severity: severity_from(raw.severity),
            code: text_or_empty(&raw.code),
            message: text_or_empty(&raw.message),
            location: text_or_empty(&raw.location),
        }
    }
}

fn snapshot_layers(items: &Option<Vec<LcLayerInfo>>, stated: i32) -> (r: Vec<LayerInfo>)
    ensures
        layer_views(r@) == layers_of(*items, stated as int),
{
    let mut out: Vec<LayerInfo> = Vec::new();
    match items {
        Some(v) => {
            let n: usize = items_to_read(v.len(), stated);
            let mut i: usize = 0;
            while i < n
                invariant
                    i <= n,
                    n <= v@.len(),
                    out@.len() == i,
                    forall|j: int| 0 <= j < i ==> (#[trigger] out@[j])@ == layer_of(v@[j]),
                decreases n - i,
            {
                out.push(LayerInfo::from_raw(&v[i]));
                i = i + 1;
            }
        },
        None => {},
    }
    out
}

fn snapshot_blocks(items: &Option<Vec<LcBlockInfo>>, stated: i32) -> (r: Vec<BlockInfo>)
    ensures
        block_views(r@) == blocks_of(*items, stated as int),
{
    let mut out: Vec<BlockInfo> = Vec::new();
    match items {
        Some(v) => {
            let n: usize = items_to_read(v.len(), stated);
            let mut i: usize = 0;
            while i < n
                invariant
                    i <= n,
                    n <= v@.len(),
                    out@.len() == i,
                    forall|j: int| 0 <= j < i ==> (#[trigger] out@[j])@ == block_of(v@[j]),
                decreases n - i,
            {
                out.push(BlockInfo::from_raw(&v[i]));
                i = i + 1;
            }
        },
        None => {},
    }
    out
}

fn snapshot_entities(items: &Option<Vec<LcEntityInfo>>, stated: i32) -> (r: Vec<EntityInfo>)
    ensures
        entity_views(r@) == entities_of(*items, stated as int),
{
    let mut out: Vec<EntityInfo> = Vec::new();
    match items {
        Some(v) => {
            let n: usize = items_to_read(v.len(), stated);
            let mut i: usize = 0;
            while i < n
                invariant
                    i <= n,
                    n <= v@.len(),
                    out@.len() == i,
                    forall|j: int| 0 <= j < i ==> (#[trigger] out@[j])@ == entity_of(v@[j]),
                decreases n - i,
            {
                out.push(EntityInfo::from_raw(&v[i]));
                i = i + 1;
            }
        },
        None => {},
    }
    out
}

fn snapshot_issues(items: &Option<Vec<LcValidationIssue>>, stated: i32) -> (r: Vec<Issue>)
    ensures
        issue_views(r@) == issues_of(*items, stated as int),
{
    let mut out: Vec<Issue> = Vec::new();
    match items {
        Some(v) => {
            let n: usize = items_to_read(v.len(), stated);
            let mut i: usize = 0;
            while i < n
                invariant
                    i <= n,
                    n <= v@.len(),
                    out@.len() == i,
                    forall|j: int| 0 <= j < i ==> (#[trigger] out@[j])@ == issue_of(v@[j]),
                decreases n - i,
            {
                out.push(Issue::from_raw(&v[i]));
                i = i + 1;
            }
        },
        None => {},
    }
    out
}

impl FileInfo {
    /// Snapshots a transient extraction result into an owned one. Never
    /// fails: whatever the engine left out comes out empty.
    pub fn from_raw(raw: &LcFileInfo) -> (r: FileInfo)
        ensures
            r@ == file_info_of(*raw),
    {
        FileInfo {
            filename: text_or_empty(&raw.filename),
            format: LcFormat::from_code(raw.format),
            dxf_version: text_or_empty(&raw.dxf_version),
            layer_count: raw.layer_count,
            block_count: raw.block_count,
            entity_count: raw.entity_count,
            bounds: raw.bounds,
            layers: snapshot_layers(&raw.layers, raw.layers_len),
            blocks: snapshot_blocks(&raw.blocks, raw.blocks_len),
            entities: snapshot_entities(&raw.entities, raw.entities_len),
            entity_counts: raw.entity_counts,
        }
    }
}

impl ValidationResult {
    /// Snapshots a transient validation result into an owned one. The
    /// findings keep the order in which the engine lists them.
    pub fn from_raw(raw: &LcValidationResult) -> (r: ValidationResult)
        ensures
            r@ == validation_of(*raw),
    {
        ValidationResult {
            is_valid: raw.is_valid != 0,
            issues: snapshot_issues(&raw.issues, raw.issue_count),
        }
    }
}

} // verus!
