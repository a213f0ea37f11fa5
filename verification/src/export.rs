//! Export of density trees in the datapack JSON format: the document is
//! built here as a plain JSON value, which the caller serialises.

use vstd::prelude::*;
use crate::protocol::same_text;
use crate::density::{
    density_view, lemma_points_view, lemma_prefix_step, point_view, points_view, spline_view,
    source_density, BinaryOp, DensityModel, DensitySource, DensityType, PointModel, SourceModel,
    SplineModel, SplineType, SplineValue, UnaryOp, ValueModel,
};

verus! {

/// A JSON value. Numbers are integers or the bit pattern of a 64-bit
/// floating-point value; object members keep their order.
pub enum JsonValue {
    Null,
    Bool(bool),
    Int(i64),
    Float(u64),
    Str(String),
    Array(Vec<JsonValue>),
    Object(Vec<JsonMember>),
}

/// A member of a JSON object.
pub struct JsonMember {
    pub key: String,
    pub value: JsonValue,
}

/// Model of a JSON value.
pub enum JsonModel {
    Null,
    Bool(bool),
    Int(i64),
    Float(u64),
    Str(Seq<char>),
    Array(Seq<JsonModel>),
    Object(Seq<(Seq<char>, JsonModel)>),
}

pub open spec fn json_view(j: JsonValue) -> JsonModel
    decreases j,
{
    match j {
        JsonValue::Null => JsonModel::Null,
        JsonValue::Bool(b) => JsonModel::Bool(b),
        JsonValue::Int(i) => JsonModel::Int(i),
        JsonValue::Float(f) => JsonModel::Float(f),
        JsonValue::Str(s) => JsonModel::Str(s@),
        JsonValue::Array(v) => JsonModel::Array(json_views(v@)),
        JsonValue::Object(ms) => JsonModel::Object(member_views(ms@)),
    }
}

pub open spec fn json_views(s: Seq<JsonValue>) -> Seq<JsonModel>
    decreases s,
{
    if s.len() == 0 {
        Seq::empty()
    } else {
        json_views(s.drop_last()).push(json_view(s.last()))
    }
}

pub open spec fn member_views(s: Seq<JsonMember>) -> Seq<(Seq<char>, JsonModel)>
    decreases s,
{
    if s.len() == 0 {
        Seq::empty()
    } else {
        member_views(s.drop_last()).push(member_view(s.last()))
    }
}

pub open spec fn member_view(m: JsonMember) -> (Seq<char>, JsonModel)
    decreases m,
{
    (m.key@, json_view(m.value))
}

impl View for JsonValue {
    type V = JsonModel;

    open spec fn view(&self) -> JsonModel {
        json_view(*self)
    }
}

proof fn lemma_json_views_push(s: Seq<JsonValue>, j: JsonValue)
    ensures
        json_views(s.push(j)) == json_views(s).push(json_view(j)),
{
    assert(s.push(j).drop_last() =~= s);
}

proof fn lemma_member_views_push(s: Seq<JsonMember>, m: JsonMember)
    ensures
        member_views(s.push(m)) == member_views(s).push(member_view(m)),
{
    assert(s.push(m).drop_last() =~= s);
}

// ── The datapack format ──────────────────────────────────────────────────────

/// The `type` name of a binary node.
pub open spec fn binary_type(op: BinaryOp) -> Seq<char> {
    match op {
        BinaryOp::Add => "minecraft:add"@,
        BinaryOp::Multiply => "minecraft:mul"@,
        BinaryOp::Min => "minecraft:min"@,
        BinaryOp::Max => "minecraft:max"@,
    }
}

/// The `type` name of a single-argument node.
pub open spec fn unary_type(op: UnaryOp) -> Seq<char> {
    match op {
        UnaryOp::Cache2d => "minecraft:cache_2d"@,
        UnaryOp::Squeeze => "minecraft:squeeze"@,
        UnaryOp::Interpolated => "minecraft:interpolated"@,
        UnaryOp::FlatCache => "minecraft:flat_cache"@,
        UnaryOp::CacheOnce => "minecraft:cache_once"@,
        UnaryOp::Abs => "minecraft:abs"@,
        UnaryOp::Square => "minecraft:square"@,
        UnaryOp::Cube => "minecraft:cube"@,
    }
}

/// The binary operator that a datapack type name denotes, if any (the
/// reading direction of `binary_type`).
pub open spec fn binary_op_named(name: Seq<char>) -> Option<BinaryOp> {
    if name == "minecraft:add"@ {
        Some(BinaryOp::Add)
    } else if name == "minecraft:mul"@ {
        Some(BinaryOp::Multiply)
    } else if name == "minecraft:min"@ {
        Some(BinaryOp::Min)
    } else if name == "minecraft:max"@ {
        Some(BinaryOp::Max)
    } else {
        None
    }
}

/// The single-argument operator that a datapack type name denotes, if any
/// (the reading direction of `unary_type`).
pub open spec fn unary_op_named(name: Seq<char>) -> Option<UnaryOp> {
    if name == "minecraft:cache_2d"@ {
        Some(UnaryOp::Cache2d)
    } else if name == "minecraft:squeeze"@ {
        Some(UnaryOp::Squeeze)
    } else if name == "minecraft:interpolated"@ {
        Some(UnaryOp::Interpolated)
    } else if name == "minecraft:flat_cache"@ {
        Some(UnaryOp::FlatCache)
    } else if name == "minecraft:cache_once"@ {
        Some(UnaryOp::CacheOnce)
    } else if name == "minecraft:abs"@ {
        Some(UnaryOp::Abs)
    } else if name == "minecraft:square"@ {
        Some(UnaryOp::Square)
    } else if name == "minecraft:cube"@ {
        Some(UnaryOp::Cube)
    } else {
        None
    }
}

/// Reads the binary operator that a datapack type name denotes.
pub fn binary_op_of_type(name: &str) -> (r: Option<BinaryOp>)
    ensures
        r == binary_op_named(name@),
{
    if same_text(name, "minecraft:add") {
        Some(BinaryOp::Add)
    } else if same_text(name, "minecraft:mul") {
        Some(BinaryOp::Multiply)
    } else if same_text(name, "minecraft:min") {
        Some(BinaryOp::Min)
    } else if same_text(name, "minecraft:max") {
        Some(BinaryOp::Max)
    } else {
        None
    }
}

/// Reads the single-argument operator that a datapack type name denotes.
pub fn unary_op_of_type(name: &str) -> (r: Option<UnaryOp>)
    ensures
        r == unary_op_named(name@),
{
    if same_text(name, "minecraft:cache_2d") {
        Some(UnaryOp::Cache2d)
    } else if same_text(name, "minecraft:squeeze") {
        Some(UnaryOp::Squeeze)
    } else if same_text(name, "minecraft:interpolated") {
        Some(UnaryOp::Interpolated)
    } else if same_text(name, "minecraft:flat_cache") {
        Some(UnaryOp::FlatCache)
    } else if same_text(name, "minecraft:cache_once") {
        Some(UnaryOp::CacheOnce)
    } else if same_text(name, "minecraft:abs") {
        Some(UnaryOp::Abs)
    } else if same_text(name, "minecraft:square") {
        Some(UnaryOp::Square)
    } else if same_text(name, "minecraft:cube") {
        Some(UnaryOp::Cube)
    } else {
        None
    }
}

/// Reading back the type name a binary node is exported under gives its
/// operator: no two operators share a name.
pub proof fn lemma_binary_type_read_back(op: BinaryOp, other: BinaryOp)
    ensures
        binary_op_named(binary_type(op)) == Some(op),
        binary_type(op) == binary_type(other) ==> op == other,
{
    reveal_strlit("minecraft:add");
    reveal_strlit("minecraft:mul");
    reveal_strlit("minecraft:min");
    reveal_strlit("minecraft:max");
    assert("minecraft:add"@[10] != "minecraft:mul"@[10]);
    assert("minecraft:add"@[10] != "minecraft:min"@[10]);
    assert("minecraft:add"@[10] != "minecraft:max"@[10]);
    assert("minecraft:mul"@[11] != "minecraft:min"@[11]);
    assert("minecraft:mul"@[11] != "minecraft:max"@[11]);
    assert("minecraft:min"@[11] != "minecraft:max"@[11]);
}

/// Reading back the type name a single-argument node is exported under
/// gives its operator: no two operators share a name.
pub proof fn lemma_unary_type_read_back(op: UnaryOp, other: UnaryOp)
    ensures
        unary_op_named(unary_type(op)) == Some(op),
        unary_type(op) == unary_type(other) ==> op == other,
{
    reveal_strlit("minecraft:cache_2d");
    reveal_strlit("minecraft:squeeze");
    reveal_strlit("minecraft:interpolated");
    reveal_strlit("minecraft:flat_cache");
    reveal_strlit("minecraft:cache_once");
    reveal_strlit("minecraft:abs");
    reveal_strlit("minecraft:square");
    reveal_strlit("minecraft:cube");
    assert("minecraft:cache_2d"@.len() == 18);
    assert("minecraft:squeeze"@.len() == 17);
    assert("minecraft:interpolated"@.len() == 22);
    assert("minecraft:flat_cache"@.len() == 20);
    assert("minecraft:cache_once"@.len() == 20);
    assert("minecraft:abs"@.len() == 13);
    assert("minecraft:square"@.len() == 16);
    assert("minecraft:cube"@.len() == 14);
    assert("minecraft:flat_cache"@[10] != "minecraft:cache_once"@[10]);
    assert(unary_op_named(unary_type(op)) == Some(op));
    assert(unary_op_named(unary_type(other)) == Some(other));
}

/// The bit pattern of the floating-point value `0.25`.
pub const QUARTER_BITS: u64 = 0x3FD0_0000_0000_0000u64;

/// The `type` name of an x-negative node: `quarter_negative` when its
/// multiplier is `0.25`, `half_negative` otherwise.
pub open spec fn x_negative_type(neg_x_multiplier: u64) -> Seq<char> {
    if neg_x_multiplier == QUARTER_BITS {
        "minecraft:quarter_negative"@
    } else {
        "minecraft:half_negative"@
    }
}

/// An x-negative node is exported as `quarter_negative` exactly when its
/// multiplier is `0.25`, whose bit pattern has sign 0, biased exponent
/// `1023 - 2` and a zero fraction; any other multiplier gives the distinct
/// name `half_negative`.
pub proof fn lemma_x_negative_type(m: u64)
    ensures
        (x_negative_type(m) == "minecraft:quarter_negative"@) <==> m == (1021u64 << 52u64),
        x_negative_type(m) == "minecraft:quarter_negative"@ || x_negative_type(m)
            == "minecraft:half_negative"@,
{
    reveal_strlit("minecraft:quarter_negative");
    reveal_strlit("minecraft:half_negative");
    assert("minecraft:quarter_negative"@.len() == 26);
    assert("minecraft:half_negative"@.len() == 23);
    assert(1021u64 << 52u64 == 0x3FD0_0000_0000_0000u64) by (bit_vector);
}

/// A `type` member.
pub open spec fn type_member(t: Seq<char>) -> (Seq<char>, JsonModel) {
    ("type"@, JsonModel::Str(t))
}

/// A density tree in the datapack format. A named reference is exported as
/// its plain name, and a noise by its name only.
pub open spec fn density_json(d: DensityModel) -> JsonModel
    decreases d,
{
    match d {
        DensityModel::Const(c) => JsonModel::Float(c),
        DensityModel::Noise { name, xz_scale, y_scale, .. } => JsonModel::Object(
            seq![type_member("minecraft:noise"@)]
                .push(("noise"@, JsonModel::Str(name)))
                .push(("xz_scale"@, JsonModel::Float(xz_scale)))
                .push(("y_scale"@, JsonModel::Float(y_scale))),
        ),
        DensityModel::Binary { op, left, right } => JsonModel::Object(
            seq![type_member(binary_type(op))]
                .push(("argument1"@, density_json(*left)))
                .push(("argument2"@, density_json(*right))),
        ),
        DensityModel::Unary { op, argument } => JsonModel::Object(
            seq![type_member(unary_type(op))].push(("argument"@, density_json(*argument))),
        ),
        DensityModel::EndIslands => JsonModel::Object(seq![type_member("minecraft:end_islands"@)]),
        DensityModel::YClampedGradient { from_y, to_y, from_value, to_value } => JsonModel::Object(
            seq![type_member("minecraft:y_clamped_gradient"@)]
                .push(("from_y"@, JsonModel::Int(from_y as i64)))
                .push(("to_y"@, JsonModel::Int(to_y as i64)))
                .push(("from_value"@, JsonModel::Float(from_value)))
                .push(("to_value"@, JsonModel::Float(to_value))),
        ),
        DensityModel::OldBlendedNoise {
            smear_scale_multiplier,
            xz_factor,
            xz_scale,
            y_factor,
            y_scale,
        } => JsonModel::Object(
            seq![type_member("minecraft:old_blended_noise"@)]
                .push(("smear_scale_multiplier"@, JsonModel::Float(smear_scale_multiplier)))
                .push(("xz_factor"@, JsonModel::Float(xz_factor)))
                .push(("xz_scale"@, JsonModel::Float(xz_scale)))
                .push(("y_factor"@, JsonModel::Float(y_factor)))
                .push(("y_scale"@, JsonModel::Float(y_scale))),
        ),
        DensityModel::ShiftedNoise { name, shift_x, shift_y, shift_z, xz_scale, y_scale, .. } =>
            JsonModel::Object(
            seq![type_member("minecraft:shifted_noise"@)]
                .push(("noise"@, JsonModel::Str(name)))
                .push(("shift_x"@, density_json(*shift_x)))
                .push(("shift_y"@, density_json(*shift_y)))
                .push(("shift_z"@, density_json(*shift_z)))
                .push(("xz_scale"@, JsonModel::Float(xz_scale)))
                .push(("y_scale"@, JsonModel::Float(y_scale))),
        ),
        DensityModel::ShiftA { name, .. } => JsonModel::Object(
            seq![type_member("minecraft:shift_a"@)].push(("argument"@, JsonModel::Str(name))),
        ),
        DensityModel::ShiftB { name, .. } => JsonModel::Object(
            seq![type_member("minecraft:shift_b"@)].push(("argument"@, JsonModel::Str(name))),
        ),
        DensityModel::Spline { spline } => JsonModel::Object(
            seq![type_member("minecraft:spline"@)].push(("spline"@, spline_json(*spline))),
        ),
        DensityModel::RangeChoice {
            input,
            min_inclusive,
            max_exclusive,
            when_in_range,
            when_out_of_range,
        } => JsonModel::Object(
            seq![type_member("minecraft:range_choice"@)]
                .push(("input"@, density_json(*input)))
                .push(("min_inclusive"@, JsonModel::Float(min_inclusive)))
                .push(("max_exclusive"@, JsonModel::Float(max_exclusive)))
                .push(("when_in_range"@, density_json(*when_in_range)))
                .push(("when_out_of_range"@, density_json(*when_out_of_range))),
        ),
        DensityModel::XNegative { argument, neg_x_multiplier } => JsonModel::Object(
            seq![type_member(x_negative_type(neg_x_multiplier))]
                .push(("argument"@, density_json(*argument))),
        ),
        DensityModel::Clamp { input, min, max } => JsonModel::Object(
            seq![type_member("minecraft:clamp"@)]
                .push(("input"@, density_json(*input)))
                .push(("min"@, JsonModel::Float(min)))
                .push(("max"@, JsonModel::Float(max))),
        ),
        DensityModel::WeirdScaledSampler { input, noise_name, rarity_value_mapper, .. } =>
            JsonModel::Object(
            seq![type_member("minecraft:weird_scaled_sampler"@)]
                .push(("input"@, density_json(*input)))
                .push(("noise"@, JsonModel::Str(noise_name)))
                .push(("rarity_value_mapper"@, JsonModel::Str(rarity_value_mapper))),
        ),
        DensityModel::NamedDensityReference { name, .. } => JsonModel::Str(name),
    }
}

/// A spline: its coordinate and its points, in order.
pub open spec fn spline_json(s: SplineModel) -> JsonModel
    decreases s,
{
    JsonModel::Object(
        Seq::empty()
            .push(("coordinate"@, density_json(*s.coordinate)))
            .push(("points"@, JsonModel::Array(points_json(s.points)))),
    )
}

pub open spec fn points_json(ps: Seq<PointModel>) -> Seq<JsonModel>
    decreases ps,
{
    if ps.len() == 0 {
        Seq::empty()
    } else {
        points_json(ps.drop_last()).push(point_json(ps.last()))
    }
}

/// A spline point: its location, its value (a number or a nested spline)
/// and its derivative.
pub open spec fn point_json(p: PointModel) -> JsonModel
    decreases p,
{
    JsonModel::Object(
        Seq::empty()
            .push(("location"@, JsonModel::Float(p.location)))
            .push(( "value"@, match p.value { ValueModel::Const(c) => JsonModel::Float(c), ValueModel::Spline(s) => spline_json(*s), }, ))
            .push(("derivative"@, JsonModel::Float(p.derivative))),
    )
}

/// The tree below the outermost name labels of a tree.
pub open spec fn unlabelled(d: DensityModel) -> DensityModel
    decreases d,
{
    match d {
        DensityModel::NamedDensityReference { argument, .. } => unlabelled(*argument),
        _ => d,
    }
}

/// A whole source in the datapack format: its tree with the outermost name
/// labels unwrapped, so that the tree is exported in full rather than as a
/// bare name.
pub open spec fn source_json(s: SourceModel) -> JsonModel {
    density_json(unlabelled(source_density(s)))
}

// ── Building the document ────────────────────────────────────────────────────

/// An object member with a literal key.
fn member(key: &str, value: JsonValue) -> (r: JsonMember)
    ensures
        member_view(r) == (key@, value@),
{
    JsonMember { key: key.to_string(), value }
}

/// Appends a member to an object under construction.
fn push_member(ms: &mut Vec<JsonMember>, key: &str, value: JsonValue)
    ensures
        member_views(final(ms)@) == member_views(old(ms)@).push((key@, value@)),
{
    let m = member(key, value);
    proof {
        lemma_member_views_push(ms@, m);
    }
    ms.push(m);
}

/// A string value.
fn text(s: &str) -> (r: JsonValue)
    ensures
        r@ == JsonModel::Str(s@),
{
    JsonValue::Str(s.to_string())
}

/// The object `{"type": t, ...}` begun.
fn typed(t: &str) -> (r: Vec<JsonMember>)
    ensures
        member_views(r@) == seq![type_member(t@)],
{
    let mut ms: Vec<JsonMember> = Vec::new();
    push_member(&mut ms, "type", text(t));
    assert(member_views(Seq::<JsonMember>::empty()) =~= Seq::<(Seq<char>, JsonModel)>::empty());
    ms
}

fn binary_type_name(op: BinaryOp) -> (r: &'static str)
    ensures
        r@ == binary_type(op),
{
    match op {
        BinaryOp::Add => "minecraft:add",
        BinaryOp::Multiply => "minecraft:mul",
        BinaryOp::Min => "minecraft:min",
        BinaryOp::Max => "minecraft:max",
    }
}

fn unary_type_name(op: UnaryOp) -> (r: &'static str)
    ensures
        r@ == unary_type(op),
{
    match op {
        UnaryOp::Cache2d => "minecraft:cache_2d",
        UnaryOp::Squeeze => "minecraft:squeeze",
        UnaryOp::Interpolated => "minecraft:interpolated",
        UnaryOp::FlatCache => "minecraft:flat_cache",
        UnaryOp::CacheOnce => "minecraft:cache_once",
        UnaryOp::Abs => "minecraft:abs",
        UnaryOp::Square => "minecraft:square",
        UnaryOp::Cube => "minecraft:cube",
    }
}

fn x_negative_type_name(neg_x_multiplier: u64) -> (r: &'static str)
    ensures
        r@ == x_negative_type(neg_x_multiplier),
{
    if neg_x_multiplier == QUARTER_BITS {
        "minecraft:quarter_negative"
    } else {
        "minecraft:half_negative"
    }
}

/// A density tree in the datapack format. A named reference is exported as
/// its plain name, and a noise by its name only.
pub fn density_to_json(d: &DensityType) -> (r: JsonValue)
    ensures
        r@ == density_json(d@),
    decreases d,
{
    match d {
        DensityType::Const(c) => JsonValue::Float(*c),
        DensityType::Noise { name, xz_scale, y_scale, .. } => {
            let mut ms = typed("minecraft:noise");
            push_member(&mut ms, "noise", JsonValue::Str(name.clone()));
            push_member(&mut ms, "xz_scale", JsonValue::Float(*xz_scale));
            push_member(&mut ms, "y_scale", JsonValue::Float(*y_scale));
            JsonValue::Object(ms)
        },
        DensityType::Binary { op, left, right } => {
            let mut ms = typed(binary_type_name(*op));
            push_member(&mut ms, "argument1", density_to_json(left));
            push_member(&mut ms, "argument2", density_to_json(right));
            JsonValue::Object(ms)
        },
        DensityType::Unary { op, argument } => {
            let mut ms = typed(unary_type_name(*op));
            push_member(&mut ms, "argument", density_to_json(argument));
            JsonValue::Object(ms)
        },
        DensityType::EndIslands => JsonValue::Object(typed("minecraft:end_islands")),
        DensityType::YClampedGradient { from_y, to_y, from_value, to_value } => {
            let mut ms = typed("minecraft:y_clamped_gradient");
            push_member(&mut ms, "from_y", JsonValue::Int(*from_y as i64));
            push_member(&mut ms, "to_y", JsonValue::Int(*to_y as i64));
            push_member(&mut ms, "from_value", JsonValue::Float(*from_value));
            push_member(&mut ms, "to_value", JsonValue::Float(*to_value));
            JsonValue::Object(ms)
        },
        DensityType::OldBlendedNoise {
            smear_scale_multiplier,
            xz_factor,
            xz_scale,
            y_factor,
            y_scale,
        } => {
            let mut ms = typed("minecraft:old_blended_noise");
            push_member(&mut ms, "smear_scale_multiplier", JsonValue::Float(*smear_scale_multiplier));
            push_member(&mut ms, "xz_factor", JsonValue::Float(*xz_factor));
            push_member(&mut ms, "xz_scale", JsonValue::Float(*xz_scale));
            push_member(&mut ms, "y_factor", JsonValue::Float(*y_factor));
            push_member(&mut ms, "y_scale", JsonValue::Float(*y_scale));
            JsonValue::Object(ms)
        },
        DensityType::ShiftedNoise { name, shift_x, shift_y, shift_z, xz_scale, y_scale, .. } => {
            let mut ms = typed("minecraft:shifted_noise");
            push_member(&mut ms, "noise", JsonValue::Str(name.clone()));
            push_member(&mut ms, "shift_x", density_to_json(shift_x));
            push_member(&mut ms, "shift_y", density_to_json(shift_y));
            push_member(&mut ms, "shift_z", density_to_json(shift_z));
            push_member(&mut ms, "xz_scale", JsonValue::Float(*xz_scale));
            push_member(&mut ms, "y_scale", JsonValue::Float(*y_scale));
            JsonValue::Object(ms)
        },
        DensityType::ShiftA { name, .. } => {
            let mut ms = typed("minecraft:shift_a");
            push_member(&mut ms, "argument", JsonValue::Str(name.clone()));
            JsonValue::Object(ms)
        },
        DensityType::ShiftB { name, .. } => {
            let mut ms = typed("minecraft:shift_b");
            push_member(&mut ms, "argument", JsonValue::Str(name.clone()));
            JsonValue::Object(ms)
        },
        DensityType::Spline { spline } => {
            let mut ms = typed("minecraft:spline");
            push_member(&mut ms, "spline", spline_to_json(spline));
            JsonValue::Object(ms)
        },
        DensityType::RangeChoice {
            input,
            min_inclusive,
            max_exclusive,
            when_in_range,
            when_out_of_range,
        } => {
            let mut ms = typed("minecraft:range_choice");
            push_member(&mut ms, "input", density_to_json(input));
            push_member(&mut ms, "min_inclusive", JsonValue::Float(*min_inclusive));
            push_member(&mut ms, "max_exclusive", JsonValue::Float(*max_exclusive));
            push_member(&mut ms, "when_in_range", density_to_json(when_in_range));
            push_member(&mut ms, "when_out_of_range", density_to_json(when_out_of_range));
            JsonValue::Object(ms)
        },
        DensityType::XNegative { argument, neg_x_multiplier } => {
            let mut ms = typed(x_negative_type_name(*neg_x_multiplier));
            push_member(&mut ms, "argument", density_to_json(argument));
            JsonValue::Object(ms)
        },
        DensityType::Clamp { input, min, max } => {
            let mut ms = typed("minecraft:clamp");
            push_member(&mut ms, "input", density_to_json(input));
            push_member(&mut ms, "min", JsonValue::Float(*min));
            push_member(&mut ms, "max", JsonValue::Float(*max));
            JsonValue::Object(ms)
        },
        DensityType::WeirdScaledSampler { input, noise_name, rarity_value_mapper, .. } => {
            let mut ms = typed("minecraft:weird_scaled_sampler");
            push_member(&mut ms, "input", density_to_json(input));
            push_member(&mut ms, "noise", JsonValue::Str(noise_name.clone()));
            push_member(&mut ms, "rarity_value_mapper", JsonValue::Str(rarity_value_mapper.clone()));
            JsonValue::Object(ms)
        },
        DensityType::NamedDensityReference { name, .. } => JsonValue::Str(name.clone()),
    }
}

/// A spline: its coordinate and its points, in order.
fn spline_to_json(s: &SplineType) -> (r: JsonValue)
    ensures
        r@ == spline_json(s@),
    decreases s,
{
    let ghost pts = points_view(s.spline_points@);
    let mut points: Vec<JsonValue> = Vec::new();
    let mut i: usize = 0;
    proof {
        lemma_points_view(s.spline_points@);
        assert(pts.subrange(0, 0) =~= Seq::<PointModel>::empty());
        assert(json_views(points@) =~= points_json(pts.subrange(0, 0)));
    }
    while i < s.spline_points.len()
        invariant
            i <= s.spline_points.len(),
            pts == points_view(s.spline_points@),
            pts.len() == s.spline_points.len(),
            json_views(points@) == points_json(pts.subrange(0, i as int)),
        decreases s.spline_points.len() - i,
    {
        proof {
            lemma_points_view(s.spline_points@);
            lemma_prefix_step(pts, i as int);
            assert(pts[i as int] == point_view(s.spline_points@[i as int]));
        }
        let p = &s.spline_points[i];
        let value = match &p.value {
            SplineValue::Const(c) => JsonValue::Float(*c),
            SplineValue::Spline(inner) => {
                proof {
                    assert(decreases_to!(s => s.spline_points));
                    assert(decreases_to!(s.spline_points => s.spline_points@));
                    assert(decreases_to!(s.spline_points@ => s.spline_points@[i as int]));
                }
                spline_to_json(inner)
            },
        };
        let mut ms: Vec<JsonMember> = Vec::new();
        push_member(&mut ms, "location", JsonValue::Float(p.location));
        assert(member_views(Seq::<JsonMember>::empty()) =~= Seq::<(Seq<char>, JsonModel)>::empty());
        push_member(&mut ms, "value", value);
        push_member(&mut ms, "derivative", JsonValue::Float(p.derivative));
        let point = JsonValue::Object(ms);
        assert(point@ == point_json(pts[i as int]));
        proof {
            lemma_json_views_push(points@, point);
        }
        points.push(point);
        i = i + 1;
    }
    assert(pts.subrange(0, pts.len() as int) =~= pts);
    let mut ms: Vec<JsonMember> = Vec::new();
    push_member(&mut ms, "coordinate", density_to_json(&s.coordinate));
    assert(member_views(Seq::<JsonMember>::empty()) =~= Seq::<(Seq<char>, JsonModel)>::empty());
    push_member(&mut ms, "points", JsonValue::Array(points));
    JsonValue::Object(ms)
}

/// A whole source in the datapack format, with its outermost name labels
/// unwrapped so that the tree is exported in full rather than as a bare
/// name.
pub fn density_source_to_json(source: &DensitySource) -> (r: JsonValue)
    ensures
        r@ == source_json(source@),
{
    let mut density = source.get_density();
    loop
        invariant
            unlabelled(density@) == unlabelled(source_density(source@)),
        ensures
            unlabelled(density@) == unlabelled(source_density(source@)),
            unlabelled(density@) == density@,
        decreases density@,
    {
        match density {
            DensityType::NamedDensityReference { argument, .. } => {
                density = argument;
            },
            _ => {
                break;
            },
        }
    }
    density_to_json(density)
}

} // verus!
