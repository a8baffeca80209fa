//! The owned document model: what one extraction or one validation of
//! a drawing holds once it has been snapshot, and what is true of it.

use vstd::prelude::*;
use crate::codes::{LcEntityType, LcFormat, LcSeverity};

verus! {

/// A real number in IEEE 754 binary64 encoding, carried as its bit
/// pattern. The model stores coordinates and weights this way and
/// never does arithmetic on them; it only orders them.
#[derive(Debug, Clone, Copy, PartialEq, Eq, Structural)]
pub struct Binary64 {
    pub bits: u64,
}

impl Binary64 {
    /// The encoding without its sign bit.
    pub open spec fn magnitude(self) -> int {
        (self.bits & 0x7fff_ffff_ffff_ffff) as int
    }

    /// Whether the sign bit is set.
    pub open spec fn is_negative(self) -> bool {
        self.bits & 0x8000_0000_0000_0000 != 0
    }

    /// Whether the encoding is not a number: all exponent bits set and a
    /// fraction that is not zero.
    pub open spec fn is_nan(self) -> bool {
        self.magnitude() > 0x7ff0_0000_0000_0000
    }

    /// An integer that orders encodings as the numbers they stand for
    /// are ordered; both zeros map to 0.
    pub open spec fn key(self) -> int {
        if self.is_negative() {
            -self.magnitude()
        } else {
            self.magnitude()
        }
    }

    /// `self <= other` as binary64 defines it: false as soon as either
    /// side is not a number.
    pub open spec fn spec_le(self, other: Binary64) -> bool {
        !self.is_nan() && !other.is_nan() && self.key() <= other.key()
    }

    /// Whether `self <= other` holds of the numbers encoded.
    pub fn le(&self, other: &Binary64) -> (r: bool)
        ensures
            r == self.spec_le(*other),
    {
        let a: u64 = self.bits & 0x7fff_ffff_ffff_ffff;
        let b: u64 = other.bits & 0x7fff_ffff_ffff_ffff;
        if a > 0x7ff0_0000_0000_0000 || b > 0x7ff0_0000_0000_0000 {
            return false;
        }
        let a_negative: bool = self.bits & 0x8000_0000_0000_0000 != 0;
        let b_negative: bool = other.bits & 0x8000_0000_0000_0000 != 0;
        if a_negative {
            if b_negative {
                b <= a
            } else {
                true
            }
        } else {
            if b_negative {
                a == 0 && b == 0
            } else {
                a <= b
            }
        }
    }
}

impl Default for Binary64 {
    /// Zero.
    fn default() -> (r: Binary64)
        ensures
            r.bits == 0,
    {
        Binary64 { bits: 0 }
    }
}

/// A point in space.
#[derive(Debug, Clone, Copy, PartialEq, Eq, Structural)]
pub struct LcPoint3D {
    pub x: Binary64,
    pub y: Binary64,
    pub z: Binary64,
}

impl Default for LcPoint3D {
    /// The origin.
    fn default() -> (r: LcPoint3D)
        ensures
            r.x.bits == 0 && r.y.bits == 0 && r.z.bits == 0,
    {
        LcPoint3D { x: Binary64 { bits: 0 }, y: Binary64 { bits: 0 }, z: Binary64 { bits: 0 } }
    }
}

/// An axis-aligned box given by its least and its greatest corner.
#[derive(Debug, Clone, Copy, PartialEq, Eq, Structural)]
pub struct LcBoundingBox {
    pub min: LcPoint3D,
    pub max: LcPoint3D,
}

impl Default for LcBoundingBox {
    /// The box that holds the origin and nothing else.
    fn default() -> (r: LcBoundingBox)
        ensures
            r.min == r.max && r.min.x.bits == 0 && r.min.y.bits == 0 && r.min.z.bits == 0,
    {
        let origin = LcPoint3D {
            x: Binary64 { bits: 0 },
            y: Binary64 { bits: 0 },
            z: Binary64 { bits: 0 },
        };
        LcBoundingBox { min: origin, max: origin }
    }
}

impl LcBoundingBox {
    /// Whether the box is an extent. A box whose least x is not at most
    /// its greatest x stands for "no geometry" and is no extent.
    pub open spec fn is_defined(self) -> bool {
        self.min.x.spec_le(self.max.x)
    }

    /// Whether the box is an extent.
    pub fn defined(&self) -> (r: bool)
        ensures
            r == self.is_defined(),
    {
        self.min.x.le(&self.max.x)
    }
}

/// A layer of a drawing. The three flags are independent of one
/// another.
#[derive(Debug, Clone)]
pub struct LayerInfo {
    pub name: String,
    pub color: i32,
    pub line_type: String,
    pub line_weight: Binary64,
    pub is_off: bool,
    pub is_frozen: bool,
    pub is_locked: bool,
}

/// What a layer is, as mathematics sees it.
pub struct LayerView {
    pub name: Seq<char>,
    pub color: i32,
    pub line_type: Seq<char>,
    pub line_weight: Binary64,
    pub is_off: bool,
    pub is_frozen: bool,
    pub is_locked: bool,
}

impl View for LayerInfo {
    type V = LayerView;

    open spec fn view(&self) -> LayerView {
        LayerView {
            name: self.name@,
            color: self.color,
            line_type: self.line_type@,
            line_weight: self.line_weight,
            is_off: self.is_off,
            is_frozen: self.is_frozen,
            is_locked: self.is_locked,
        }
    }
}

/// A named, reusable group of entities.
#[derive(Debug, Clone)]
pub struct BlockInfo {
    pub name: String,
    pub base_point: LcPoint3D,
    pub entity_count: i32,
}

/// What a block is, as mathematics sees it.
pub struct BlockView {
    pub name: Seq<char>,
    pub base_point: LcPoint3D,
    pub entity_count: i32,
}

impl View for BlockInfo {
    type V = BlockView;

    open spec fn view(&self) -> BlockView {
        BlockView {
            name: self.name@,
            base_point: self.base_point,
            entity_count: self.entity_count,
        }
    }
}

/// One drawable primitive. It names its layer and never owns it.
#[derive(Debug, Clone)]
pub struct EntityInfo {
    pub entity_type: LcEntityType,
    pub layer: String,
    pub color: i32,
    pub line_type: String,
    pub line_weight: Binary64,
    pub handle: i32,
}

/// What an entity is, as mathematics sees it.
pub struct EntityView {
    pub entity_type: LcEntityType,
    pub layer: Seq<char>,
    pub color: i32,
    pub line_type: Seq<char>,
    pub line_weight: Binary64,
    pub handle: i32,
}

impl View for EntityInfo {
    type V = EntityView;

    open spec fn view(&self) -> EntityView {
        EntityView {
            entity_type: self.entity_type,
            layer: self.layer@,
            color: self.color,
            line_type: self.line_type@,
            line_weight: self.line_weight,
            handle: self.handle,
        }
    }
}

/// The snapshot of one drawing: counts, extent, and the layers, blocks
/// and entities that the extraction materialised.
#[derive(Debug, Clone)]
pub struct FileInfo {
    pub filename: String,
    pub format: LcFormat,
    pub dxf_version: String,
    pub layer_count: i32,
    pub block_count: i32,
    pub entity_count: i32,
    pub bounds: LcBoundingBox,
    pub layers: Vec<LayerInfo>,
    pub blocks: Vec<BlockInfo>,
    pub entities: Vec<EntityInfo>,
    pub entity_counts: [i32; 20],
}

/// What a snapshot of a drawing is, as mathematics sees it.
pub struct FileInfoView {
    pub filename: Seq<char>,
    pub format: LcFormat,
    pub dxf_version: Seq<char>,
    pub layer_count: i32,
    pub block_count: i32,
    pub entity_count: i32,
    pub bounds: LcBoundingBox,
    pub layers: Seq<LayerView>,
    pub blocks: Seq<BlockView>,
    pub entities: Seq<EntityView>,
    pub entity_counts: Seq<i32>,
}

/// The views of a run of layers, in order.
pub open spec fn layer_views(layers: Seq<LayerInfo>) -> Seq<LayerView> {
    Seq::new(layers.len(), |i: int| layers[i]@)
}

/// The views of a run of blocks, in order.
pub open spec fn block_views(blocks: Seq<BlockInfo>) -> Seq<BlockView> {
    Seq::new(blocks.len(), |i: int| blocks[i]@)
}

/// The views of a run of entities, in order.
pub open spec fn entity_views(entities: Seq<EntityInfo>) -> Seq<EntityView> {
    Seq::new(entities.len(), |i: int| entities[i]@)
}

impl View for FileInfo {
    type V = FileInfoView;

    open spec fn view(&self) -> FileInfoView {
        FileInfoView {
            filename: self.filename@,
            format: self.format,
            dxf_version: self.dxf_version@,
            layer_count: self.layer_count,
            block_count: self.block_count,
            entity_count: self.entity_count,
            bounds: self.bounds,
            layers: layer_views(self.layers@),
            blocks: block_views(self.blocks@),
            entities: entity_views(self.entities@),
            entity_counts: self.entity_counts@,
        }
    }
}

/// The sum of a table of counts.
pub open spec fn total(counts: Seq<i32>) -> int
    decreases counts.len(),
{
    if counts.len() == 0 {
        0
    } else {
        total(counts.drop_last()) + counts.last()
    }
}

impl FileInfoView {
    /// What holds of a snapshot that the engine built soundly: the
    /// per-kind counts add up to the entity count, and the entities, once
    /// materialised, are as many as the entity count.
    pub open spec fn is_consistent(self) -> bool {
        &&& self.entity_count == total(self.entity_counts)
        &&& self.entities.len() == 0 || self.entities.len() == self.entity_count
    }
}

impl FileInfo {
    /// How many entities of one kind the drawing holds.
    pub fn count_of(&self, kind: LcEntityType) -> (r: i32)
        ensures
            r == self@.entity_counts[kind.spec_code()],
    {
        self.entity_counts[kind.index()]
    }

    /// Checks the snapshot against [`FileInfoView::is_consistent`].
    pub fn is_consistent(&self) -> (r: bool)
        ensures
            r == self@.is_consistent(),
    {
        let mut sum: i64 = 0;
        let mut i: usize = 0;
        while i < 20
            invariant
                i <= 20,
                self.entity_counts@.len() == 20,
                sum == total(self.entity_counts@.take(i as int)),
                -2147483648 * i <= sum <= 2147483647 * i,
            decreases 20 - i,
        {
            assert(self.entity_counts@.take(i + 1).drop_last() =~= self.entity_counts@.take(
                i as int,
            ));
            sum = sum + self.entity_counts[i] as i64;
            i = i + 1;
        }
        assert(self.entity_counts@.take(20) =~= self.entity_counts@);
        let materialised: usize = self.entities.len();
        sum == self.entity_count as i64 && (materialised == 0 || (self.entity_count >= 0
            && materialised as u64 == self.entity_count as u64))
    }

    /// Resolves a layer reference: the position of the first layer
    /// called `name`, or `None` when the drawing holds no such layer.
    pub fn layer_index(&self, name: &str) -> (r: Option<usize>)
        ensures
            match r {
                Some(i) => {
                    &&& i < self@.layers.len()
                    &&& self@.layers[i as int].name == name@
                    &&& forall|j: int| 0 <= j < i ==> (#[trigger] self@.layers[j]).name != name@
                },
                None => forall|j: int|
                    0 <= j < self@.layers.len() ==> (#[trigger] self@.layers[j]).name != name@,
            },
    {
        let wanted = String::from_str(name);
        let n: usize = self.layers.len();
        let mut i: usize = 0;
        while i < n
            invariant
                i <= n,
                n == self.layers.len(),
                wanted@ == name@,
                forall|j: int| 0 <= j < i ==> (#[trigger] self@.layers[j]).name != name@,
            decreases n - i,
        {
            if self.layers[i].name == wanted {
                return Some(i);
            }
            i = i + 1;
        }
        None
    }
}

/// One finding of a validation. An empty location means the finding is
/// about the file as a whole.
#[derive(Debug, Clone)]
pub struct Issue {
    pub severity: LcSeverity,
    pub code: String,
    pub message: String,
    pub location: String,
}

/// What a finding is, as mathematics sees it.
pub struct IssueView {
    pub severity: LcSeverity,
    pub code: Seq<char>,
    pub message: Seq<char>,
    pub location: Seq<char>,
}

impl View for Issue {
    type V = IssueView;

    open spec fn view(&self) -> IssueView {
        IssueView {
            severity: self.severity,
            code: self.code@,
            message: self.message@,
            location: self.location@,
        }
    }
}

/// The outcome of validating one drawing: a verdict and the findings in
/// the order in which they were detected.
#[derive(Debug, Clone)]
pub struct ValidationResult {
    pub is_valid: bool,
    pub issues: Vec<Issue>,
}

/// What the outcome of a validation is, as mathematics sees it.
pub struct ValidationView {
    pub is_valid: bool,
    pub issues: Seq<IssueView>,
}

/// The views of a run of findings, in order.
pub open spec fn issue_views(issues: Seq<Issue>) -> Seq<IssueView> {
    Seq::new(issues.len(), |i: int| issues[i]@)
}

impl View for ValidationResult {
    type V = ValidationView;

    open spec fn view(&self) -> ValidationView {
        ValidationView { is_valid: self.is_valid, issues: issue_views(self.issues@) }
    }
}

impl ValidationView {
    /// Whether some finding is an error.
    pub open spec fn has_error(self) -> bool {
        exists|i: int|
            0 <= i < self.issues.len() && (#[trigger] self.issues[i]).severity
                == LcSeverity::Error
    }

    /// What holds of a sound outcome: a drawing judged valid has no
    /// finding of severity `Error`. Findings below that never force the
    /// verdict.
    pub open spec fn is_consistent(self) -> bool {
        self.is_valid ==> !self.has_error()
    }
}

impl ValidationResult {
    /// Whether some finding is an error.
    pub fn has_error(&self) -> (r: bool)
        ensures
            r == self@.has_error(),
    {
        let n: usize = self.issues.len();
        let mut i: usize = 0;
        while i < n
            invariant
                i <= n,
                n == self.issues.len(),
                forall|j: int|
                    0 <= j < i ==> (#[trigger] self@.issues[j]).severity != LcSeverity::Error,
            decreases n - i,
        {
            match self.issues[i].severity {
                LcSeverity::Error => {
                    assert(self@.issues[i as int].severity == LcSeverity::Error);
                    return true;
                },
                _ => {},
            }
            i = i + 1;
        }
        false
    }

    /// Checks the outcome against [`ValidationView::is_consistent`].
    pub fn is_consistent(&self) -> (r: bool)
        ensures
            r == self@.is_consistent(),
    {
        !self.is_valid || !self.has_error()
    }
}

} // verus!
