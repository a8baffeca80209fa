//! The textual report on one drawing: which sections it has at each
//! detail level and what every line of them reads.

use vstd::prelude::*;
use crate::codes::{LcDetailLevel, LcEntityType};
use crate::model::{
    BlockInfo, BlockView, EntityInfo, EntityView, FileInfo, FileInfoView, LayerInfo, LayerView,
    LcBoundingBox, LcPoint3D,
};
use crate::report::{
    Line, Span, SpanView, Style, blank, fixed_span, heading, line_views, plain, push_heading,
    push_line, push_lines, span_views, text_span,
};
use crate::text::{
    append_decimal, append_digits, append_padded_left, append_padded_right, decimal, decimal_text,
    padded_left, padded_right,
};

verus! {

/// How many entities a listing shows before it is cut short.
pub const LISTING_LIMIT: usize = 20;

/// How many kinds of entity the per-kind table lists.
pub const LISTED_KINDS: usize = 16;

/// The kinds that the per-kind table lists, in the order of the table.
pub open spec fn listed_kind(k: int) -> LcEntityType {
    if k == 0 {
        LcEntityType::Point
    } else if k == 1 {
        LcEntityType::Line
    } else if k == 2 {
        LcEntityType::Circle
    } else if k == 3 {
        LcEntityType::Arc
    } else if k == 4 {
        LcEntityType::Ellipse
    } else if k == 5 {
        LcEntityType::Polyline
    } else if k == 6 {
        LcEntityType::LwPolyline
    } else if k == 7 {
        LcEntityType::Spline
    } else if k == 8 {
        LcEntityType::Text
    } else if k == 9 {
        LcEntityType::MText
    } else if k == 10 {
        LcEntityType::Insert
    } else if k == 11 {
        LcEntityType::Hatch
    } else if k == 12 {
        LcEntityType::Dimension
    } else if k == 13 {
        LcEntityType::Leader
    } else if k == 14 {
        LcEntityType::Solid
    } else {
        LcEntityType::Image
    }
}

/// The name of a kind in the per-kind table.
pub open spec fn label(kind: LcEntityType) -> Seq<char> {
    match kind {
        LcEntityType::Unknown => "Unknown"@,
        LcEntityType::Point => "Point"@,
        LcEntityType::Line => "Line"@,
        LcEntityType::Circle => "Circle"@,
        LcEntityType::Arc => "Arc"@,
        LcEntityType::Ellipse => "Ellipse"@,
        LcEntityType::Polyline => "Polyline"@,
        LcEntityType::LwPolyline => "LWPolyline"@,
        LcEntityType::Spline => "Spline"@,
        LcEntityType::Text => "Text"@,
        LcEntityType::MText => "MText"@,
        LcEntityType::Insert => "Insert"@,
        LcEntityType::Hatch => "Hatch"@,
        LcEntityType::Dimension => "Dimension"@,
        LcEntityType::Leader => "Leader"@,
        LcEntityType::Solid => "Solid"@,
        LcEntityType::Trace => "Trace"@,
        LcEntityType::Face3D => "3DFace"@,
        LcEntityType::Image => "Image"@,
        LcEntityType::Viewport => "Viewport"@,
    }
}

/// The title block: file name, format and, when there is one, the DXF
/// version.
pub open spec fn header_section(info: FileInfoView) -> Seq<Seq<SpanView>> {
    heading("File Information"@, "================"@) + seq![
        plain("  File:        "@ + info.filename),
        plain("  Format:      "@ + info.format.name()),
    ] + (if info.dxf_version.len() > 0 {
        seq![plain("  DXF Version: "@ + info.dxf_version)]
    } else {
        Seq::empty()
    }) + seq![blank()]
}

/// The three counts.
pub open spec fn statistics_section(info: FileInfoView) -> Seq<Seq<SpanView>> {
    heading("Statistics"@, "----------"@) + seq![
        plain("  Layers:   "@ + decimal(info.layer_count as int)),
        plain("  Blocks:   "@ + decimal(info.block_count as int)),
        plain("  Entities: "@ + decimal(info.entity_count as int)),
        blank(),
    ]
}

/// A corner of the extent after its caption.
pub open spec fn corner_line(caption: Seq<char>, p: LcPoint3D) -> Seq<SpanView> {
    seq![
        text_span(caption),
        fixed_span(p.x, 4),
        text_span(", "@),
        fixed_span(p.y, 4),
        text_span(", "@),
        fixed_span(p.z, 4),
        text_span(")"@),
    ]
}

/// Width and height of the extent.
pub open spec fn size_line(b: LcBoundingBox) -> Seq<SpanView> {
    seq![
        text_span("  Size: "@),
        SpanView::FixedDifference { from: b.min.x, to: b.max.x, places: 4 },
        text_span(" x "@),
        SpanView::FixedDifference { from: b.min.y, to: b.max.y, places: 4 },
    ]
}

/// The extent; no lines at all when the drawing has none.
pub open spec fn bounds_section(info: FileInfoView) -> Seq<Seq<SpanView>> {
    if info.bounds.is_defined() {
        heading("Bounding Box"@, "------------"@) + seq![
            corner_line("  Min: ("@, info.bounds.min),
            corner_line("  Max: ("@, info.bounds.max),
            size_line(info.bounds),
            blank(),
        ]
    } else {
        Seq::empty()
    }
}

/// One row of the per-kind table.
pub open spec fn kind_row(kind: LcEntityType, count: i32) -> Seq<SpanView> {
    plain("  "@ + padded_right(label(kind), 12) + " "@ + padded_left(decimal(count as int), 6))
}

/// The rows of the per-kind table for the first `k` listed kinds: one
/// row for each kind that occurs, in the order of the table.
pub open spec fn kind_rows(counts: Seq<i32>, k: nat) -> Seq<Seq<SpanView>>
    decreases k,
{
    if k == 0 {
        Seq::empty()
    } else {
        let kind = listed_kind(k - 1);
        let count = counts[kind.spec_code()];
        if count > 0 {
            kind_rows(counts, (k - 1) as nat).push(kind_row(kind, count))
        } else {
            kind_rows(counts, (k - 1) as nat)
        }
    }
}

/// The per-kind table.
pub open spec fn kinds_section(info: FileInfoView) -> Seq<Seq<SpanView>> {
    heading("Entity Types"@, "------------"@) + kind_rows(info.entity_counts, 16) + seq![blank()]
}

/// The one badge a layer carries: frozen before off before locked.
pub open spec fn status(layer: LayerView) -> Seq<char> {
    if layer.is_frozen {
        " [frozen]"@
    } else if layer.is_off {
        " [off]"@
    } else if layer.is_locked {
        " [locked]"@
    } else {
        ""@
    }
}

/// One row of the layer listing.
pub open spec fn layer_row(layer: LayerView) -> Seq<SpanView> {
    plain(
        "  "@ + layer.name + " (color: "@ + decimal(layer.color as int) + ", type: "@
            + layer.line_type + ")"@ + status(layer),
    )
}

/// The layers that a report at `detail` lists.
pub open spec fn layers_shown(info: FileInfoView, detail: LcDetailLevel) -> Seq<LayerView> {
    if detail.reaches(LcDetailLevel::Normal) {
        info.layers
    } else {
        Seq::empty()
    }
}

/// The layer listing; no lines at all when no layer is listed.
pub open spec fn layers_section(info: FileInfoView, detail: LcDetailLevel) -> Seq<
    Seq<SpanView>,
> {
    let shown = layers_shown(info, detail);
    if shown.len() > 0 {
        heading("Layers"@, "------"@) + Seq::new(shown.len(), |i: int| layer_row(shown[i]))
            + seq![blank()]
    } else {
        Seq::empty()
    }
}

/// One row of the block listing.
pub open spec fn block_row(block: BlockView) -> Seq<SpanView> {
    seq![
        text_span(
            "  "@ + block.name + " ("@ + decimal(block.entity_count as int)
                + " entities, base: ("@,
        ),
        fixed_span(block.base_point.x, 2),
        text_span(", "@),
        fixed_span(block.base_point.y, 2),
        text_span("))"@),
    ]
}

/// The blocks that a report at `detail` lists.
pub open spec fn blocks_shown(info: FileInfoView, detail: LcDetailLevel) -> Seq<BlockView> {
    if detail.reaches(LcDetailLevel::Normal) {
        info.blocks
    } else {
        Seq::empty()
    }
}

/// The block listing; no lines at all when no block is listed.
pub open spec fn blocks_section(info: FileInfoView, detail: LcDetailLevel) -> Seq<
    Seq<SpanView>,
> {
    let shown = blocks_shown(info, detail);
    if shown.len() > 0 {
        heading("Blocks"@, "------"@) + Seq::new(shown.len(), |i: int| block_row(shown[i]))
            + seq![blank()]
    } else {
        Seq::empty()
    }
}

/// How many of `n` entities a report at `detail` lists: none below
/// `Verbose`, all of them at `Full`, and the first twenty at most in
/// between.
pub open spec fn rows_shown(detail: LcDetailLevel, n: int) -> int {
    if !detail.reaches(LcDetailLevel::Verbose) {
        0
    } else if detail == LcDetailLevel::Full || n <= 20 {
        n
    } else {
        20
    }
}

/// One row of the entity listing; `position` counts from zero.
pub open spec fn entity_row(position: int, entity: EntityView) -> Seq<SpanView> {
    plain(
        "  "@ + padded_left(decimal(position + 1), 4) + ". "@ + padded_right(
            entity.entity_type.name(),
            12,
        ) + " layer: "@ + padded_right(entity.layer, 16) + " color: "@ + padded_left(
            decimal(entity.color as int),
            3,
        ),
    )
}

/// The rows of the entity listing.
pub open spec fn entity_rows(info: FileInfoView, detail: LcDetailLevel) -> Seq<Seq<SpanView>> {
    Seq::new(
        rows_shown(detail, info.entities.len() as int) as nat,
        |i: int| entity_row(i, info.entities[i]),
    )
}

/// The line that closes a listing cut short by `hidden` entities.
pub open spec fn more_line(hidden: int) -> Seq<SpanView> {
    plain("  ... and "@ + decimal(hidden) + " more entities"@)
}

/// The entity listing: nothing below `Verbose` or without entities;
/// otherwise the rows, closed by the "more" line exactly when rows
/// were left out.
pub open spec fn entities_section(info: FileInfoView, detail: LcDetailLevel) -> Seq<
    Seq<SpanView>,
> {
    let n = info.entities.len() as int;
    let shown = rows_shown(detail, n);
    if n > 0 && detail.reaches(LcDetailLevel::Verbose) {
        heading("Entities"@, "--------"@) + entity_rows(info, detail) + (if n > shown {
            seq![more_line(n - shown)]
        } else {
            Seq::empty()
        })
    } else {
        Seq::empty()
    }
}

/// The whole report on a drawing at a detail level.
pub open spec fn file_info_report(info: FileInfoView, detail: LcDetailLevel) -> Seq<
    Seq<SpanView>,
> {
    header_section(info) + statistics_section(info) + bounds_section(info) + kinds_section(info)
        + layers_section(info, detail) + blocks_section(info, detail) + entities_section(
        info,
        detail,
    )
}

/// The kind in row `k` of the per-kind table.
pub fn listed_kind_at(k: usize) -> (r: LcEntityType)
    ensures
        r == listed_kind(k as int),
{
    match k {
        0 => LcEntityType::Point,
        1 => LcEntityType::Line,
        2 => LcEntityType::Circle,
        3 => LcEntityType::Arc,
        4 => LcEntityType::Ellipse,
        5 => LcEntityType::Polyline,
        6 => LcEntityType::LwPolyline,
        7 => LcEntityType::Spline,
        8 => LcEntityType::Text,
        9 => LcEntityType::MText,
        10 => LcEntityType::Insert,
        11 => LcEntityType::Hatch,
        12 => LcEntityType::Dimension,
        13 => LcEntityType::Leader,
        14 => LcEntityType::Solid,
        _ => LcEntityType::Image,
    }
}

/// The name of a kind in the per-kind table.
pub fn label_of(kind: LcEntityType) -> (r: &'static str)
    ensures
        r@ == label(kind),
{
    match kind {
        LcEntityType::Unknown => "Unknown",
        LcEntityType::Point => "Point",
        LcEntityType::Line => "Line",
        LcEntityType::Circle => "Circle",
        LcEntityType::Arc => "Arc",
        LcEntityType::Ellipse => "Ellipse",
        LcEntityType::Polyline => "Polyline",
        LcEntityType::LwPolyline => "LWPolyline",
        LcEntityType::Spline => "Spline",
        LcEntityType::Text => "Text",
        LcEntityType::MText => "MText",
        LcEntityType::Insert => "Insert",
        LcEntityType::Hatch => "Hatch",
        LcEntityType::Dimension => "Dimension",
        LcEntityType::Leader => "Leader",
        LcEntityType::Solid => "Solid",
        LcEntityType::Trace => "Trace",
        LcEntityType::Face3D => "3DFace",
        LcEntityType::Image => "Image",
        LcEntityType::Viewport => "Viewport",
    }
}

/// How many of `n` entities a report at `detail` lists.
pub fn rows_to_show(detail: LcDetailLevel, n: usize) -> (r: usize)
    ensures
        r == rows_shown(detail, n as int),
        r <= n,
{
    if !detail.at_least(LcDetailLevel::Verbose) {
        0
    } else {
        match detail {
            LcDetailLevel::Full => n,
            _ => if n <= LISTING_LIMIT {
                n
            } else {
                LISTING_LIMIT
            },
        }
    }
}

fn labelled(caption: &str, value: &str) -> (r: Line)
    ensures
        r@ == plain(caption@ + value@),
{
    let mut t = String::from_str(caption);
    t.append(value);
    Line::plain(t)
}

fn counted(caption: &str, count: i32) -> (r: Line)
    ensures
        r@ == plain(caption@ + decimal(count as int)),
{
    let mut t = String::from_str(caption);
    append_decimal(&mut t, count as i64);
    Line::plain(t)
}

/// Lays out the title block.
pub fn header_lines(info: &FileInfo) -> (r: Vec<Line>)
    ensures
        line_views(r@) == header_section(info@),
{
    let mut out: Vec<Line> = Vec::new();
    push_heading(&mut out, "File Information", "================");
    push_line(&mut out, labelled("  File:        ", info.filename.as_str()));
    push_line(&mut out, labelled("  Format:      ", info.format.as_str()));
    if !info.dxf_version.as_str().is_empty() {
        push_line(&mut out, labelled("  DXF Version: ", info.dxf_version.as_str()));
    }
    push_line(&mut out, Line::blank());
    out
}

/// Lays out the three counts.
pub fn statistics_lines(info: &FileInfo) -> (r: Vec<Line>)
    ensures
        line_views(r@) == statistics_section(info@),
{
    let mut out: Vec<Line> = Vec::new();
    push_heading(&mut out, "Statistics", "----------");
    push_line(&mut out, counted("  Layers:   ", info.layer_count));
    push_line(&mut out, counted("  Blocks:   ", info.block_count));
    push_line(&mut out, counted("  Entities: ", info.entity_count));
    push_line(&mut out, Line::blank());
    out
}

fn corner(caption: &str, p: LcPoint3D) -> (r: Line)
    ensures
        r@ == corner_line(caption@, p),
{
    let mut spans: Vec<Span> = Vec::new();
    spans.push(Span::plain(caption));
    spans.push(Span::Fixed { value: p.x, places: 4 });
    spans.push(Span::plain(", "));
    spans.push(Span::Fixed { value: p.y, places: 4 });
    spans.push(Span::plain(", "));
    spans.push(Span::Fixed { value: p.z, places: 4 });
    spans.push(Span::plain(")"));
    Line::of(spans)
}

fn size(b: LcBoundingBox) -> (r: Line)
    ensures
        r@ == size_line(b),
{
    let mut spans: Vec<Span> = Vec::new();
    spans.push(Span::plain("  Size: "));
    spans.push(Span::FixedDifference { from: b.min.x, to: b.max.x, places: 4 });
    spans.push(Span::plain(" x "));
    spans.push(Span::FixedDifference { from: b.min.y, to: b.max.y, places: 4 });
    Line::of(spans)
}

/// Lays out the extent.
pub fn bounds_lines(info: &FileInfo) -> (r: Vec<Line>)
    ensures
        line_views(r@) == bounds_section(info@),
{
    let mut out: Vec<Line> = Vec::new();
    if info.bounds.defined() {
        push_heading(&mut out, "Bounding Box", "------------");
        push_line(&mut out, corner("  Min: (", info.bounds.min));
        push_line(&mut out, corner("  Max: (", info.bounds.max));
        push_line(&mut out, size(info.bounds));
        push_line(&mut out, Line::blank());
    }
    out
}

fn kind_line(kind: LcEntityType, count: i32) -> (r: Line)
    ensures
        r@ == kind_row(kind, count),
{
    let mut t = String::from_str("  ");
    append_padded_right(&mut t, label_of(kind), 12);
    t.append(" ");
    let number = decimal_text(count as i64);
    append_padded_left(&mut t, number.as_str(), 6);
    Line::plain(t)
}

/// Lays out the per-kind table.
pub fn kinds_lines(info: &FileInfo) -> (r: Vec<Line>)
    ensures
        line_views(r@) == kinds_section(info@),
{
    let mut out: Vec<Line> = Vec::new();
    push_heading(&mut out, "Entity Types", "------------");
    let ghost head = line_views(out@);
    let mut k: usize = 0;
    while k < LISTED_KINDS
        invariant
            k <= LISTED_KINDS,
            line_views(out@) == head + kind_rows(info@.entity_counts, k as nat),
        decreases LISTED_KINDS - k,
    {
        let kind = listed_kind_at(k);
        let count: i32 = info.count_of(kind);
        if count > 0 {
            push_line(&mut out, kind_line(kind, count));
        }
        k = k + 1;
    }
    push_line(&mut out, Line::blank());
    out
}

fn status_of(layer: &LayerInfo) -> (r: &'static str)
    ensures
        r@ == status(layer@),
{
    if layer.is_frozen {
        " [frozen]"
    } else if layer.is_off {
        " [off]"
    } else if layer.is_locked {
        " [locked]"
    } else {
        ""
    }
}

fn layer_line(layer: &LayerInfo) -> (r: Line)
    ensures
        r@ == layer_row(layer@),
{
    let mut t = String::from_str("  ");
    t.append(layer.name.as_str());
    t.append(" (color: ");
    append_decimal(&mut t, layer.color as i64);
    t.append(", type: ");
    t.append(layer.line_type.as_str());
    t.append(")");
    t.append(status_of(layer));
    Line::plain(t)
}

/// Lays out the layer listing.
pub fn layers_lines(info: &FileInfo, detail: LcDetailLevel) -> (r: Vec<Line>)
    ensures
        line_views(r@) == layers_section(info@, detail),
{
    let mut out: Vec<Line> = Vec::new();
    let n: usize = info.layers.len();
    if n > 0 && detail.at_least(LcDetailLevel::Normal) {
        push_heading(&mut out, "Layers", "------");
        let ghost head = line_views(out@);
        let ghost shown = layers_shown(info@, detail);
        let mut i: usize = 0;
        while i < n
            invariant
                i <= n,
                n == info.layers.len(),
                shown == info@.layers,
                line_views(out@) == head + Seq::new(i as nat, |j: int| layer_row(shown[j])),
            decreases n - i,
        {
            push_line(&mut out, layer_line(&info.layers[i]));
            i = i + 1;
        }
        push_line(&mut out, Line::blank());
    }
    out
}

fn block_line(block: &BlockInfo) -> (r: Line)
    ensures
        r@ == block_row(block@),
{
    let mut t = String::from_str("  ");
    t.append(block.name.as_str());
    t.append(" (");
    append_decimal(&mut t, block.entity_count as i64);
    t.append(" entities, base: (");
    assert(t@ =~= "  "@ + block@.name + " ("@ + decimal(block@.entity_count as int)
        + " entities, base: ("@);
    let mut spans: Vec<Span> = Vec::new();
    spans.push(Span::Text { text: t, style: Style::Plain });
    spans.push(Span::Fixed { value: block.base_point.x, places: 2 });
    spans.push(Span::plain(", "));
    spans.push(Span::Fixed { value: block.base_point.y, places: 2 });
    spans.push(Span::plain("))"));
    Line::of(spans)
}

/// Lays out the block listing.
pub fn blocks_lines(info: &FileInfo, detail: LcDetailLevel) -> (r: Vec<Line>)
    ensures
        line_views(r@) == blocks_section(info@, detail),
{
    let mut out: Vec<Line> = Vec::new();
    let n: usize = info.blocks.len();
    if n > 0 && detail.at_least(LcDetailLevel::Normal) {
        push_heading(&mut out, "Blocks", "------");
        let ghost head = line_views(out@);
        let ghost shown = blocks_shown(info@, detail);
        let mut i: usize = 0;
        while i < n
            invariant
                i <= n,
                n == info.blocks.len(),
                shown == info@.blocks,
                line_views(out@) == head + Seq::new(i as nat, |j: int| block_row(shown[j])),
            decreases n - i,
        {
            push_line(&mut out, block_line(&info.blocks[i]));
            i = i + 1;
        }
        push_line(&mut out, Line::blank());
    }
    out
}

fn entity_line(position: usize, entity: &EntityInfo) -> (r: Line)
    requires
        position < usize::MAX,
    ensures
        r@ == entity_row(position as int, entity@),
{
    let mut t = String::from_str("  ");
    let mut ordinal = String::new();
    append_digits(&mut ordinal, (position + 1) as u64);
    append_padded_left(&mut t, ordinal.as_str(), 4);
    t.append(". ");
    append_padded_right(&mut t, entity.entity_type.as_str(), 12);
    t.append(" layer: ");
    append_padded_right(&mut t, entity.layer.as_str(), 16);
    t.append(" color: ");
    let number = decimal_text(entity.color as i64);
    append_padded_left(&mut t, number.as_str(), 3);
    Line::plain(t)
}

fn more_entities(hidden: usize) -> (r: Line)
    ensures
        r@ == more_line(hidden as int),
{
    let mut t = String::from_str("  ... and ");
    append_digits(&mut t, hidden as u64);
    t.append(" more entities");
    Line::plain(t)
}

/// Lays out the entity listing.
pub fn entities_lines(info: &FileInfo, detail: LcDetailLevel) -> (r: Vec<Line>)
    ensures
        line_views(r@) == entities_section(info@, detail),
{
    let mut out: Vec<Line> = Vec::new();
    let n: usize = info.entities.len();
    if n > 0 && detail.at_least(LcDetailLevel::Verbose) {
        push_heading(&mut out, "Entities", "--------");
        let ghost head = line_views(out@);
        let shown: usize = rows_to_show(detail, n);
        let mut i: usize = 0;
        while i < shown
            invariant
                i <= shown,
                shown <= n,
                n == info.entities.len(),
                line_views(out@) == head + Seq::new(
                    i as nat,
                    |j: int| entity_row(j, info@.entities[j]),
                ),
            decreases shown - i,
        {
            push_line(&mut out, entity_line(i, &info.entities[i]));
            i = i + 1;
        }
        if n > shown {
            push_line(&mut out, more_entities(n - shown));
        }
    }
    out
}

/// Lays out the whole report on a drawing at a detail level.
pub fn file_info_lines(info: &FileInfo, detail: LcDetailLevel) -> (r: Vec<Line>)
    ensures
        line_views(r@) == file_info_report(info@, detail),
{
    let mut out = header_lines(info);
    push_lines(&mut out, statistics_lines(info));
    push_lines(&mut out, bounds_lines(info));
    push_lines(&mut out, kinds_lines(info));
    push_lines(&mut out, layers_lines(info, detail));
    push_lines(&mut out, blocks_lines(info, detail));
    push_lines(&mut out, entities_lines(info, detail));
    out
}

/// Truncation of the entity listing. At `Verbose` the listing shows
/// the first twenty entities at most, each row reading the entity in
/// that position, and the "more" line closes it exactly when there are
/// more than twenty; the line then counts the entities left out. At
/// `Full` every entity has its row and there is no "more" line.
pub proof fn entity_listing_is_cut_at_twenty(info: FileInfoView)
    ensures
        entity_rows(info, LcDetailLevel::Verbose).len() == (if info.entities.len() <= 20 {
            info.entities.len()
        } else {
            20
        }),
        entity_rows(info, LcDetailLevel::Full).len() == info.entities.len(),
        forall|i: int|
            0 <= i < entity_rows(info, LcDetailLevel::Verbose).len() ==> (#[trigger] entity_rows(
                info,
                LcDetailLevel::Verbose,
            )[i]) == entity_row(i, info.entities[i]),
        forall|i: int|
            0 <= i < info.entities.len() ==> (#[trigger] entity_rows(info, LcDetailLevel::Full)[i])
                == entity_row(i, info.entities[i]),
        0 < info.entities.len() <= 20 ==> entities_section(info, LcDetailLevel::Verbose)
            == heading("Entities"@, "--------"@) + entity_rows(info, LcDetailLevel::Verbose),
        info.entities.len() > 20 ==> entities_section(info, LcDetailLevel::Verbose) == (heading(
            "Entities"@,
            "--------"@,
        ) + entity_rows(info, LcDetailLevel::Verbose)).push(
            more_line(info.entities.len() - 20),
        ),
        info.entities.len() > 0 ==> entities_section(info, LcDetailLevel::Full) == heading(
            "Entities"@,
            "--------"@,
        ) + entity_rows(info, LcDetailLevel::Full),
{
}

/// Detail levels only ever add. Of one snapshot, the layers, the blocks
/// and the entity rows that a report shows at a level are the first of
/// those that it shows at any level that asks for at least as much.
pub proof fn report_grows_with_detail(
    info: FileInfoView,
    lower: LcDetailLevel,
    higher: LcDetailLevel,
)
    requires
        higher.reaches(lower),
    ensures
        layers_shown(info, lower).is_prefix_of(layers_shown(info, higher)),
        blocks_shown(info, lower).is_prefix_of(blocks_shown(info, higher)),
        entity_rows(info, lower).is_prefix_of(entity_rows(info, higher)),
{
}

} // verus!
