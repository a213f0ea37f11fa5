use vstd::prelude::*;

verus! {

/// Binary density operations.
#[derive(Clone, Copy, Debug, PartialEq, Eq, Structural)]
pub enum BinaryOp {
    Add,
    Multiply,
    Min,
    Max,
}

/// Single-argument density wrappers and operations.
#[derive(Clone, Copy, Debug, PartialEq, Eq, Structural)]
pub enum UnaryOp {
    Cache2d,
    Squeeze,
    Interpolated,
    FlatCache,
    CacheOnce,
    Abs,
    Square,
    Cube,
}

/// Grid dimensions of a multi-sampling density source.
#[derive(Clone, Copy, Debug, PartialEq, Eq, Structural)]
pub struct Dimensions {
    pub x: u32,
    pub y: u32,
    pub z: u32,
}

/// A normal noise: its first octave and the amplitude of each octave.
/// Floating-point values are held as their IEEE-754 bit patterns.
#[derive(Debug)]
pub struct NormalNoiseType {
    pub first_octave: i32,
    pub amplitudes: Vec<u64>,
}

#[allow(inconsistent_fields)]
/// A density function tree. Floating-point parameters are held as their
/// IEEE-754 bit patterns; the tree logic only moves them around.
#[derive(Debug)]
pub enum DensityType {
    Const(u64),
    Noise { name: String, noise: NormalNoiseType, xz_scale: u64, y_scale: u64 },
    Binary { op: BinaryOp, left: Box<DensityType>, right: Box<DensityType> },
    Unary { op: UnaryOp, argument: Box<DensityType> },
    EndIslands,
    YClampedGradient { from_y: i32, to_y: i32, from_value: u64, to_value: u64 },
    OldBlendedNoise {
        smear_scale_multiplier: u64,
        xz_factor: u64,
        xz_scale: u64,
        y_factor: u64,
        y_scale: u64,
    },
    ShiftedNoise {
        name: String,
        noise: NormalNoiseType,
        shift_x: Box<DensityType>,
        shift_y: Box<DensityType>,
        shift_z: Box<DensityType>,
        xz_scale: u64,
        y_scale: u64,
    },
    ShiftA { name: String, argument: NormalNoiseType },
    ShiftB { name: String, argument: NormalNoiseType },
    Spline { spline: Box<SplineType> },
    RangeChoice {
        input: Box<DensityType>,
        min_inclusive: u64,
        max_exclusive: u64,
        when_in_range: Box<DensityType>,
        when_out_of_range: Box<DensityType>,
    },
    XNegative { argument: Box<DensityType>, neg_x_multiplier: u64 },
    Clamp { input: Box<DensityType>, min: u64, max: u64 },
    WeirdScaledSampler {
        input: Box<DensityType>,
        noise_name: String,
        noise_to_sample: NormalNoiseType,
        rarity_value_mapper: String,
    },
    NamedDensityReference { name: String, argument: Box<DensityType> },
}

/// A cubic spline over a coordinate density.
#[derive(Debug)]
pub struct SplineType {
    pub coordinate: Box<DensityType>,
    pub spline_points: Vec<SplinePoint>,
}

/// One point of a spline.
#[derive(Debug)]
pub struct SplinePoint {
    pub derivative: u64,
    pub location: u64,
    pub value: SplineValue,
}

/// The value of a spline point: a constant or a nested spline.
#[derive(Debug)]
pub enum SplineValue {
    Const(u64),
    Spline(Box<SplineType>),
}

/// A density function source, with or without a sampling grid.
#[derive(Debug)]
pub enum DensitySource {
    MultiSamplingDensity { density: Box<DensityType>, dimensions: Dimensions },
    SingleSamplingDensity { density: Box<DensityType> },
}

// ── Mathematical model ───────────────────────────────────────────────────────

/// Model of a normal noise.
pub struct NoiseModel {
    pub first_octave: i32,
    pub amplitudes: Seq<u64>,
}

#[allow(inconsistent_fields)]
/// Model of a density function tree: names as character sequences,
/// amplitude lists and spline points as sequences.
pub enum DensityModel {
    Const(u64),
    Noise { name: Seq<char>, noise: NoiseModel, xz_scale: u64, y_scale: u64 },
    Binary { op: BinaryOp, left: Box<DensityModel>, right: Box<DensityModel> },
    Unary { op: UnaryOp, argument: Box<DensityModel> },
    EndIslands,
    YClampedGradient { from_y: i32, to_y: i32, from_value: u64, to_value: u64 },
    OldBlendedNoise {
        smear_scale_multiplier: u64,
        xz_factor: u64,
        xz_scale: u64,
        y_factor: u64,
        y_scale: u64,
    },
    ShiftedNoise {
        name: Seq<char>,
        noise: NoiseModel,
        shift_x: Box<DensityModel>,
        shift_y: Box<DensityModel>,
        shift_z: Box<DensityModel>,
        xz_scale: u64,
        y_scale: u64,
    },
    ShiftA { name: Seq<char>, argument: NoiseModel },
    ShiftB { name: Seq<char>, argument: NoiseModel },
    Spline { spline: Box<SplineModel> },
    RangeChoice {
        input: Box<DensityModel>,
        min_inclusive: u64,
        max_exclusive: u64,
        when_in_range: Box<DensityModel>,
        when_out_of_range: Box<DensityModel>,
    },
    XNegative { argument: Box<DensityModel>, neg_x_multiplier: u64 },
    Clamp { input: Box<DensityModel>, min: u64, max: u64 },
    WeirdScaledSampler {
        input: Box<DensityModel>,
        noise_name: Seq<char>,
        noise_to_sample: NoiseModel,
        rarity_value_mapper: Seq<char>,
    },
    NamedDensityReference { name: Seq<char>, argument: Box<DensityModel> },
}

/// Model of a spline.
pub struct SplineModel {
    pub coordinate: Box<DensityModel>,
    pub points: Seq<PointModel>,
}

/// Model of a spline point.
pub struct PointModel {
    pub derivative: u64,
    pub location: u64,
    pub value: ValueModel,
}

/// Model of a spline point's value.
pub enum ValueModel {
    Const(u64),
    Spline(Box<SplineModel>),
}

/// Model of a density source.
pub enum SourceModel {
    Multi { density: DensityModel, dimensions: Dimensions },
    Single { density: DensityModel },
}

impl View for NormalNoiseType {
    type V = NoiseModel;

    open spec fn view(&self) -> NoiseModel {
        NoiseModel { first_octave: self.first_octave, amplitudes: self.amplitudes@ }
    }
}

/// The model of a density tree.
pub open spec fn density_view(d: DensityType) -> DensityModel
    decreases d,
{
    match d {
        DensityType::Const(c) => DensityModel::Const(c),
        DensityType::Noise { name, noise, xz_scale, y_scale } => DensityModel::Noise {
            name: name@,
            noise: noise@,
            xz_scale,
            y_scale,
        },
        DensityType::Binary { op, left, right } => DensityModel::Binary {
            op,
            left: Box::new(density_view(*left)),
            right: Box::new(density_view(*right)),
        },
        DensityType::Unary { op, argument } => DensityModel::Unary {
            op,
            argument: Box::new(density_view(*argument)),
        },
        DensityType::EndIslands => DensityModel::EndIslands,
        DensityType::YClampedGradient { from_y, to_y, from_value, to_value } =>
            DensityModel::YClampedGradient { from_y, to_y, from_value, to_value },
        DensityType::OldBlendedNoise {
            smear_scale_multiplier,
            xz_factor,
            xz_scale,
            y_factor,
            y_scale,
        } => DensityModel::OldBlendedNoise {
            smear_scale_multiplier,
            xz_factor,
            xz_scale,
            y_factor,
            y_scale,
        },
        DensityType::ShiftedNoise { name, noise, shift_x, shift_y, shift_z, xz_scale, y_scale } =>
            DensityModel::ShiftedNoise {
            name: name@,
            noise: noise@,
            shift_x: Box::new(density_view(*shift_x)),
            shift_y: Box::new(density_view(*shift_y)),
            shift_z: Box::new(density_view(*shift_z)),
            xz_scale,
            y_scale,
        },
        DensityType::ShiftA { name, argument } => DensityModel::ShiftA {
            name: name@,
            argument: argument@,
        },
        DensityType::ShiftB { name, argument } => DensityModel::ShiftB {
            name: name@,
            argument: argument@,
        },
        DensityType::Spline { spline } => DensityModel::Spline {
            spline: Box::new(spline_view(*spline)),
        },
        DensityType::RangeChoice {
            input,
            min_inclusive,
            max_exclusive,
            when_in_range,
            when_out_of_range,
        } => DensityModel::RangeChoice {
            input: Box::new(density_view(*input)),
            min_inclusive,
            max_exclusive,
            when_in_range: Box::new(density_view(*when_in_range)),
            when_out_of_range: Box::new(density_view(*when_out_of_range)),
        },
        DensityType::XNegative { argument, neg_x_multiplier } => DensityModel::XNegative {
            argument: Box::new(density_view(*argument)),
            neg_x_multiplier,
        },
        DensityType::Clamp { input, min, max } => DensityModel::Clamp {
            input: Box::new(density_view(*input)),
            min,
            max,
        },
        DensityType::WeirdScaledSampler {
            input,
            noise_name,
            noise_to_sample,
            rarity_value_mapper,
        } => DensityModel::WeirdScaledSampler {
            input: Box::new(density_view(*input)),
            noise_name: noise_name@,
            noise_to_sample: noise_to_sample@,
            rarity_value_mapper: rarity_value_mapper@,
        },
        DensityType::NamedDensityReference { name, argument } =>
            DensityModel::NamedDensityReference {
            name: name@,
            argument: Box::new(density_view(*argument)),
        },
    }
}

/// The model of a spline.
pub open spec fn spline_view(s: SplineType) -> SplineModel
    decreases s,
{
    SplineModel {
        coordinate: Box::new(density_view(*s.coordinate)),
        points: points_view(s.spline_points@),
    }
}

/// The models of a sequence of spline points.
pub open spec fn points_view(ps: Seq<SplinePoint>) -> Seq<PointModel>
    decreases ps,
{
    if ps.len() == 0 {
        Seq::empty()
    } else {
        points_view(ps.drop_last()).push(point_view(ps.last()))
    }
}

/// The model of a spline point.
pub open spec fn point_view(p: SplinePoint) -> PointModel
    decreases p,
{
    PointModel {
        derivative: p.derivative,
        location: p.location,
        value: match p.value {
            SplineValue::Const(c) => ValueModel::Const(c),
            SplineValue::Spline(s) => ValueModel::Spline(Box::new(spline_view(*s))),
        },
    }
}

impl View for DensityType {
    type V = DensityModel;

    open spec fn view(&self) -> DensityModel {
        density_view(*self)
    }
}

impl View for SplineType {
    type V = SplineModel;

    open spec fn view(&self) -> SplineModel {
        spline_view(*self)
    }
}

impl View for DensitySource {
    type V = SourceModel;

    open spec fn view(&self) -> SourceModel {
        match self {
            DensitySource::MultiSamplingDensity { density, dimensions } => SourceModel::Multi {
                density: density_view(**density),
                dimensions: *dimensions,
            },
            DensitySource::SingleSamplingDensity { density } => SourceModel::Single {
                density: density_view(**density),
            },
        }
    }
}

/// The density of a source model.
pub open spec fn source_density(s: SourceModel) -> DensityModel {
    match s {
        SourceModel::Multi { density, .. } => density,
        SourceModel::Single { density } => density,
    }
}

/// A source model with its density replaced, keeping the sampling grid.
pub open spec fn with_density(s: SourceModel, d: DensityModel) -> SourceModel {
    match s {
        SourceModel::Multi { dimensions, .. } => SourceModel::Multi { density: d, dimensions },
        SourceModel::Single { .. } => SourceModel::Single { density: d },
    }
}

/// The number of density nodes in a tree, those inside splines included.
pub open spec fn density_size(d: DensityModel) -> nat
    decreases d,
{
    1 + match d {
        DensityModel::Binary { left, right, .. } => density_size(*left) + density_size(*right),
        DensityModel::Unary { argument, .. } => density_size(*argument),
        DensityModel::NamedDensityReference { argument, .. } => density_size(*argument),
        DensityModel::XNegative { argument, .. } => density_size(*argument),
        DensityModel::Clamp { input, .. } => density_size(*input),
        DensityModel::WeirdScaledSampler { input, .. } => density_size(*input),
        DensityModel::RangeChoice { input, when_in_range, when_out_of_range, .. } => density_size(
            *input,
        ) + density_size(*when_in_range) + density_size(*when_out_of_range),
        DensityModel::ShiftedNoise { shift_x, shift_y, shift_z, .. } => density_size(*shift_x)
            + density_size(*shift_y) + density_size(*shift_z),
        DensityModel::Spline { spline } => spline_size(*spline),
        _ => 0nat,
    }
}

/// The number of density nodes in a spline.
pub open spec fn spline_size(s: SplineModel) -> nat
    decreases s,
{
    density_size(*s.coordinate) + points_size(s.points)
}

/// The number of density nodes in a sequence of spline points.
pub open spec fn points_size(ps: Seq<PointModel>) -> nat
    decreases ps,
{
    if ps.len() == 0 {
        0
    } else {
        points_size(ps.drop_last()) + point_size(ps.last())
    }
}

/// The number of density nodes in a spline point.
pub open spec fn point_size(p: PointModel) -> nat
    decreases p,
{
    match p.value {
        ValueModel::Const(_) => 0,
        ValueModel::Spline(s) => spline_size(*s),
    }
}

impl NormalNoiseType {
    /// A copy of the noise parameters.
    pub fn deep_clone(&self) -> (r: NormalNoiseType)
        ensures
            r@ == self@,
    {
        let mut amplitudes: Vec<u64> = Vec::new();
        let mut i: usize = 0;
        while i < self.amplitudes.len()
            invariant
                i <= self.amplitudes.len(),
                amplitudes@ == self.amplitudes@.subrange(0, i as int),
            decreases self.amplitudes.len() - i,
        {
            amplitudes.push(self.amplitudes[i]);
            i = i + 1;
        }
        assert(self.amplitudes@.subrange(0, self.amplitudes.len() as int) == self.amplitudes@);
        NormalNoiseType { first_octave: self.first_octave, amplitudes }
    }
}

impl DensityType {
    /// A copy of the whole tree.
    pub fn deep_clone(&self) -> (r: DensityType)
        ensures
            r@ == self@,
        decreases self,
    {
        match self {
            DensityType::Const(c) => DensityType::Const(*c),
            DensityType::Noise { name, noise, xz_scale, y_scale } => DensityType::Noise {
                name: name.clone(),
                noise: noise.deep_clone(),
                xz_scale: *xz_scale,
                y_scale: *y_scale,
            },
            DensityType::Binary { op, left, right } => DensityType::Binary {
                op: *op,
                left: Box::new(left.deep_clone()),
                right: Box::new(right.deep_clone()),
            },
            DensityType::Unary { op, argument } => DensityType::Unary {
                op: *op,
                argument: Box::new(argument.deep_clone()),
            },
            DensityType::EndIslands => DensityType::EndIslands,
            DensityType::YClampedGradient { from_y, to_y, from_value, to_value } =>
                DensityType::YClampedGradient {
                from_y: *from_y,
                to_y: *to_y,
                from_value: *from_value,
                to_value: *to_value,
            },
            DensityType::OldBlendedNoise {
                smear_scale_multiplier,
                xz_factor,
                xz_scale,
                y_factor,
                y_scale,
            } => DensityType::OldBlendedNoise {
                smear_scale_multiplier: *smear_scale_multiplier,
                xz_factor: *xz_factor,
                xz_scale: *xz_scale,
                y_factor: *y_factor,
                y_scale: *y_scale,
            },
            DensityType::ShiftedNoise { name, noise, shift_x, shift_y, shift_z, xz_scale, y_scale } =>
                DensityType::ShiftedNoise {
                name: name.clone(),
                noise: noise.deep_clone(),
                shift_x: Box::new(shift_x.deep_clone()),
                shift_y: Box::new(shift_y.deep_clone()),
                shift_z: Box::new(shift_z.deep_clone()),
                xz_scale: *xz_scale,
                y_scale: *y_scale,
            },
            DensityType::ShiftA { name, argument } => DensityType::ShiftA {
                name: name.clone(),
                argument: argument.deep_clone(),
            },
            DensityType::ShiftB { name, argument } => DensityType::ShiftB {
                name: name.clone(),
                argument: argument.deep_clone(),
            },
            DensityType::Spline { spline } => DensityType::Spline {
                spline: Box::new(spline.deep_clone()),
            },
            DensityType::RangeChoice {
                input,
                min_inclusive,
                max_exclusive,
                when_in_range,
                when_out_of_range,
            } => DensityType::RangeChoice {
                input: Box::new(input.deep_clone()),
                min_inclusive: *min_inclusive,
                max_exclusive: *max_exclusive,
                when_in_range: Box::new(when_in_range.deep_clone()),
                when_out_of_range: Box::new(when_out_of_range.deep_clone()),
            },
            DensityType::XNegative { argument, neg_x_multiplier } => DensityType::XNegative {
                argument: Box::new(argument.deep_clone()),
                neg_x_multiplier: *neg_x_multiplier,
            },
            DensityType::Clamp { input, min, max } => DensityType::Clamp {
                input: Box::new(input.deep_clone()),
                min: *min,
                max: *max,
            },
            DensityType::WeirdScaledSampler {
                input,
                noise_name,
                noise_to_sample,
                rarity_value_mapper,
            } => DensityType::WeirdScaledSampler {
                input: Box::new(input.deep_clone()),
                noise_name: noise_name.clone(),
                noise_to_sample: noise_to_sample.deep_clone(),
                rarity_value_mapper: rarity_value_mapper.clone(),
            },
            DensityType::NamedDensityReference { name, argument } =>
                DensityType::NamedDensityReference {
                name: name.clone(),
                argument: Box::new(argument.deep_clone()),
            },
        }
    }
}

impl SplineType {
    /// A copy of the whole spline.
    pub fn deep_clone(&self) -> (r: SplineType)
        ensures
            r@ == self@,
        decreases self,
    {
        let coordinate = Box::new(self.coordinate.deep_clone());
        let mut points: Vec<SplinePoint> = Vec::new();
        let mut i: usize = 0;
        while i < self.spline_points.len()
            invariant
                i <= self.spline_points.len(),
                points_view(points@) == points_view(self.spline_points@.subrange(0, i as int)),
            decreases self.spline_points.len() - i,
        {
            let pt = &self.spline_points[i];
            let value = match &pt.value {
                SplineValue::Const(c) => SplineValue::Const(*c),
                SplineValue::Spline(inner) => {
                    proof {
                        assert(decreases_to!(self => self.spline_points));
                        assert(decreases_to!(self.spline_points => self.spline_points@));
                        assert(decreases_to!(self.spline_points@ => self.spline_points@[i as int]));
                    }
                    SplineValue::Spline(Box::new(inner.deep_clone()))
                },
            };
            let ghost old_points = points@;
            let new_point = SplinePoint { derivative: pt.derivative, location: pt.location, value };
            assert(point_view(new_point) == point_view(self.spline_points@[i as int]));
            points.push(new_point);
            assert(points@.drop_last() == old_points);
            assert(points_view(points@) == points_view(old_points).push(point_view(new_point)));
            assert(self.spline_points@.subrange(0, i + 1).drop_last() == self.spline_points@.subrange(
                0,
                i as int,
            ));
            assert(points_view(self.spline_points@.subrange(0, i + 1)) == points_view(
                self.spline_points@.subrange(0, i as int),
            ).push(point_view(self.spline_points@[i as int])));
            i = i + 1;
        }
        assert(self.spline_points@.subrange(0, self.spline_points.len() as int)
            == self.spline_points@);
        SplineType { coordinate, spline_points: points }
    }
}

impl DensitySource {
    /// The density of the source.
    pub fn get_density(&self) -> (r: &DensityType)
        ensures
            r@ == source_density(self@),
    {
        match self {
            DensitySource::MultiSamplingDensity { density, .. } => density,
            DensitySource::SingleSamplingDensity { density } => density,
        }
    }

    /// A copy of the source.
    pub fn deep_clone(&self) -> (r: DensitySource)
        ensures
            r@ == self@,
    {
        match self {
            DensitySource::MultiSamplingDensity { density, dimensions } =>
                DensitySource::MultiSamplingDensity {
                density: Box::new(density.deep_clone()),
                dimensions: *dimensions,
            },
            DensitySource::SingleSamplingDensity { density } =>
                DensitySource::SingleSamplingDensity { density: Box::new(density.deep_clone()) },
        }
    }
}

/// The model of a point sequence has one model per point, in order.
pub proof fn lemma_points_view(ps: Seq<SplinePoint>)
    ensures
        points_view(ps).len() == ps.len(),
        forall|k: int| 0 <= k < ps.len() ==> #[trigger] points_view(ps)[k] == point_view(ps[k]),
    decreases ps.len(),
{
    if ps.len() > 0 {
        lemma_points_view(ps.drop_last());
    }
}

/// Taking one more element of a prefix.
pub proof fn lemma_prefix_step<A>(s: Seq<A>, i: int)
    requires
        0 <= i < s.len(),
    ensures
        s.subrange(0, i + 1).drop_last() == s.subrange(0, i),
        s.subrange(0, i + 1).last() == s[i],
{
    assert(s.subrange(0, i + 1).drop_last() =~= s.subrange(0, i));
}

/// Whether two amplitude lists are equal.
fn amplitudes_eq(a: &Vec<u64>, b: &Vec<u64>) -> (r: bool)
    ensures
        r == (a@ == b@),
{
    if a.len() != b.len() {
        return false;
    }
    let mut i: usize = 0;
    while i < a.len()
        invariant
            i <= a.len() == b.len(),
            forall|k: int| 0 <= k < i ==> a@[k] == b@[k],
        decreases a.len() - i,
    {
        if a[i] != b[i] {
            return false;
        }
        i = i + 1;
    }
    assert(a@ =~= b@);
    true
}

impl NormalNoiseType {
    /// Whether two noises have the same parameters.
    pub fn same_as(&self, other: &NormalNoiseType) -> (r: bool)
        ensures
            r == (self@ == other@),
    {
        self.first_octave == other.first_octave && amplitudes_eq(&self.amplitudes, &other.amplitudes)
    }
}

impl DensityType {
    /// Whether two trees are equal node for node (floating-point parameters
    /// compared by bit pattern).
    pub fn same_as(&self, other: &DensityType) -> (r: bool)
        ensures
            r == (self@ == other@),
        decreases self,
    {
        match (self, other) {
            (DensityType::Const(x), DensityType::Const(y)) => *x == *y,
            (
                DensityType::Noise { name, noise, xz_scale, y_scale },
                DensityType::Noise { name: name2, noise: noise2, xz_scale: xz2, y_scale: y2 },
            ) => *name == *name2 && noise.same_as(noise2) && *xz_scale == *xz2 && *y_scale == *y2,
            (
                DensityType::Binary { op, left, right },
                DensityType::Binary { op: op2, left: left2, right: right2 },
            ) => *op == *op2 && left.same_as(left2) && right.same_as(right2),
            (
                DensityType::Unary { op, argument },
                DensityType::Unary { op: op2, argument: argument2 },
            ) => *op == *op2 && argument.same_as(argument2),
            (DensityType::EndIslands, DensityType::EndIslands) => true,
            (
                DensityType::YClampedGradient { from_y, to_y, from_value, to_value },
                DensityType::YClampedGradient {
                    from_y: from_y2,
                    to_y: to_y2,
                    from_value: from_value2,
                    to_value: to_value2,
                },
            ) => *from_y == *from_y2 && *to_y == *to_y2 && *from_value == *from_value2 && *to_value
                == *to_value2,
            (
                DensityType::OldBlendedNoise {
                    smear_scale_multiplier,
                    xz_factor,
                    xz_scale,
                    y_factor,
                    y_scale,
                },
                DensityType::OldBlendedNoise {
                    smear_scale_multiplier: s2,
                    xz_factor: xf2,
                    xz_scale: xs2,
                    y_factor: yf2,
                    y_scale: ys2,
                },
            ) => *smear_scale_multiplier == *s2 && *xz_factor == *xf2 && *xz_scale == *xs2
                && *y_factor == *yf2 && *y_scale == *ys2,
            (
                DensityType::ShiftedNoise { name, noise, shift_x, shift_y, shift_z, xz_scale, y_scale },
                DensityType::ShiftedNoise {
                    name: name2,
                    noise: noise2,
                    shift_x: sx2,
                    shift_y: sy2,
                    shift_z: sz2,
                    xz_scale: xz2,
                    y_scale: y2,
                },
            ) => *name == *name2 && noise.same_as(noise2) && shift_x.same_as(sx2) && shift_y.same_as(
                sy2,
            ) && shift_z.same_as(sz2) && *xz_scale == *xz2 && *y_scale == *y2,
            (
                DensityType::ShiftA { name, argument },
                DensityType::ShiftA { name: name2, argument: argument2 },
            ) => *name == *name2 && argument.same_as(argument2),
            (
                DensityType::ShiftB { name, argument },
                DensityType::ShiftB { name: name2, argument: argument2 },
            ) => *name == *name2 && argument.same_as(argument2),
            (DensityType::Spline { spline }, DensityType::Spline { spline: spline2 }) => spline.same_as(
                spline2,
            ),
            (
                DensityType::RangeChoice {
                    input,
                    min_inclusive,
                    max_exclusive,
                    when_in_range,
                    when_out_of_range,
                },
                DensityType::RangeChoice {
                    input: input2,
                    min_inclusive: min2,
                    max_exclusive: max2,
                    when_in_range: in2,
                    when_out_of_range: out2,
                },
            ) => input.same_as(input2) && *min_inclusive == *min2 && *max_exclusive == *max2
                && when_in_range.same_as(in2) && when_out_of_range.same_as(out2),
            (
                DensityType::XNegative { argument, neg_x_multiplier },
                DensityType::XNegative { argument: argument2, neg_x_multiplier: m2 },
            ) => argument.same_as(argument2) && *neg_x_multiplier == *m2,
            (
                DensityType::Clamp { input, min, max },
                DensityType::Clamp { input: input2, min: min2, max: max2 },
            ) => input.same_as(input2) && *min == *min2 && *max == *max2,
            (
                DensityType::WeirdScaledSampler {
                    input,
                    noise_name,
                    noise_to_sample,
                    rarity_value_mapper,
                },
                DensityType::WeirdScaledSampler {
                    input: input2,
                    noise_name: noise_name2,
                    noise_to_sample: noise2,
                    rarity_value_mapper: mapper2,
                },
            ) => input.same_as(input2) && *noise_name == *noise_name2 && noise_to_sample.same_as(noise2)
                && *rarity_value_mapper == *mapper2,
            (
                DensityType::NamedDensityReference { name, argument },
                DensityType::NamedDensityReference { name: name2, argument: argument2 },
            ) => *name == *name2 && argument.same_as(argument2),
            _ => false,
        }
    }
}

impl SplineType {
    /// Whether two splines are equal node for node.
    pub fn same_as(&self, other: &SplineType) -> (r: bool)
        ensures
            r == (self@ == other@),
        decreases self,
    {
        if !self.coordinate.same_as(&other.coordinate) {
            return false;
        }
        let n = self.spline_points.len();
        proof {
            lemma_points_view(self.spline_points@);
            lemma_points_view(other.spline_points@);
        }
        if n != other.spline_points.len() {
            return false;
        }
        let mut i: usize = 0;
        while i < n
            invariant
                i <= n == self.spline_points.len() == other.spline_points.len(),
                points_view(self.spline_points@).len() == n,
                points_view(other.spline_points@).len() == n,
                forall|k: int|
                    0 <= k < n ==> #[trigger] points_view(self.spline_points@)[k] == point_view(
                        self.spline_points@[k],
                    ),
                forall|k: int|
                    0 <= k < n ==> #[trigger] points_view(other.spline_points@)[k] == point_view(
                        other.spline_points@[k],
                    ),
                forall|k: int|
                    0 <= k < i ==> point_view(self.spline_points@[k]) == point_view(
                        other.spline_points@[k],
                    ),
            decreases n - i,
        {
            let p = &self.spline_points[i];
            let q = &other.spline_points[i];
            if p.derivative != q.derivative || p.location != q.location {
                assert(points_view(self.spline_points@)[i as int] != points_view(
                    other.spline_points@,
                )[i as int]);
                return false;
            }
            let same_value = match (&p.value, &q.value) {
                (SplineValue::Const(x), SplineValue::Const(y)) => *x == *y,
                (SplineValue::Spline(s1), SplineValue::Spline(s2)) => {
                    proof {
                        assert(decreases_to!(self => self.spline_points));
                        assert(decreases_to!(self.spline_points => self.spline_points@));
                        assert(decreases_to!(self.spline_points@ => self.spline_points@[i as int]));
                    }
                    s1.same_as(s2)
                },
                _ => false,
            };
            if !same_value {
                assert(points_view(self.spline_points@)[i as int] != points_view(
                    other.spline_points@,
                )[i as int]);
                return false;
            }
            i = i + 1;
        }
        assert(points_view(self.spline_points@) =~= points_view(other.spline_points@));
        true
    }
}

} // verus!
