use vstd::prelude::*;
use crate::density::{
    density_size, density_view, spline_size, spline_view, source_density, with_density, DensityModel, DensitySource, DensityType, UnaryOp,
};

verus! {

/// A wrapper that must survive when the tree below it is cut: caches and
/// named references.
pub enum VitalPreservation {
    Cache2d,
    FlatCache,
    NamedDensityReference(String),
}

/// Model of a preserved wrapper.
pub enum VitalModel {
    Cache2d,
    FlatCache,
    NamedDensityReference(Seq<char>),
}

impl View for VitalPreservation {
    type V = VitalModel;

    open spec fn view(&self) -> VitalModel {
        match self {
            VitalPreservation::Cache2d => VitalModel::Cache2d,
            VitalPreservation::FlatCache => VitalModel::FlatCache,
            VitalPreservation::NamedDensityReference(name) => VitalModel::NamedDensityReference(
                name@,
            ),
        }
    }
}

/// The models of a sequence of preserved wrappers.
pub open spec fn vitals_view(vs: Seq<VitalPreservation>) -> Seq<VitalModel> {
    vs.map_values(|v: VitalPreservation| v@)
}

/// The chain of vital wrappers at the top of a tree, outermost first.
pub open spec fn ts_vitals(d: DensityModel) -> Seq<VitalModel>
    decreases d,
{
    match d {
        DensityModel::Unary { op, argument } => {
            if op == UnaryOp::Cache2d {
                seq![VitalModel::Cache2d] + ts_vitals(*argument)
            } else if op == UnaryOp::FlatCache {
                seq![VitalModel::FlatCache] + ts_vitals(*argument)
            } else {
                Seq::empty()
            }
        },
        DensityModel::NamedDensityReference { name, argument } => seq![
            VitalModel::NamedDensityReference(name),
        ] + ts_vitals(*argument),
        _ => Seq::empty(),
    }
}

/// The tree below the chain of vital wrappers.
pub open spec fn ts_unwrap(d: DensityModel) -> DensityModel
    decreases d,
{
    match d {
        DensityModel::Unary { op, argument } => {
            if op == UnaryOp::Cache2d || op == UnaryOp::FlatCache {
                ts_unwrap(*argument)
            } else {
                d
            }
        },
        DensityModel::NamedDensityReference { argument, .. } => ts_unwrap(*argument),
        _ => d,
    }
}

/// One vital wrapper put around a tree.
pub open spec fn ts_wrap(v: VitalModel, d: DensityModel) -> DensityModel {
    match v {
        VitalModel::Cache2d => DensityModel::Unary { op: UnaryOp::Cache2d, argument: Box::new(d) },
        VitalModel::FlatCache => DensityModel::Unary {
            op: UnaryOp::FlatCache,
            argument: Box::new(d),
        },
        VitalModel::NamedDensityReference(name) => DensityModel::NamedDensityReference {
            name,
            argument: Box::new(d),
        },
    }
}

/// A chain of vital wrappers (outermost first) put around a tree.
pub open spec fn ts_rebuild(vs: Seq<VitalModel>, base: DensityModel) -> DensityModel
    decreases vs.len(),
{
    if vs.len() == 0 {
        base
    } else {
        ts_wrap(vs[0], ts_rebuild(vs.drop_first(), base))
    }
}

/// The immediate children of a node, in the order they are struck.
pub open spec fn ts_children(d: DensityModel) -> Seq<DensityModel> {
    match d {
        DensityModel::Binary { left, right, .. } => seq![*left, *right],
        DensityModel::Unary { argument, .. } => seq![*argument],
        DensityModel::XNegative { argument, .. } => seq![*argument],
        DensityModel::Clamp { input, .. } => seq![*input],
        DensityModel::WeirdScaledSampler { input, .. } => seq![*input],
        DensityModel::RangeChoice { input, when_in_range, when_out_of_range, .. } => seq![
            *input,
            *when_in_range,
            *when_out_of_range,
        ],
        DensityModel::ShiftedNoise { shift_x, shift_y, shift_z, .. } => seq![
            *shift_x,
            *shift_y,
            *shift_z,
        ],
        DensityModel::Spline { spline } => seq![*spline.coordinate],
        _ => Seq::empty(),
    }
}

/// The number of candidate subtrees: the children of the tree below the
/// vital wrappers.
pub open spec fn ts_count(d: DensityModel) -> nat {
    ts_children(ts_unwrap(d)).len()
}

/// The `k`-th candidate: the `k`-th child of the tree below the vital
/// wrappers, with those wrappers put back around it.
pub open spec fn ts_result(d: DensityModel, k: nat) -> DensityModel {
    ts_rebuild(ts_vitals(d), ts_children(ts_unwrap(d))[k as int])
}

/// Putting back the vital wrappers around the tree below them gives the
/// tree back: preserving and reconstructing undo each other.
pub proof fn lemma_ts_rebuild_unwrap(d: DensityModel)
    ensures
        ts_rebuild(ts_vitals(d), ts_unwrap(d)) == d,
    decreases d,
{
    match d {
        DensityModel::Unary { op, argument } => {
            if op == UnaryOp::Cache2d || op == UnaryOp::FlatCache {
                lemma_ts_rebuild_unwrap(*argument);
                let vs = ts_vitals(d);
                assert(vs.drop_first() =~= ts_vitals(*argument));
            }
        },
        DensityModel::NamedDensityReference { name, argument } => {
            lemma_ts_rebuild_unwrap(*argument);
            let vs = ts_vitals(d);
            assert(vs.drop_first() =~= ts_vitals(*argument));
        },
        _ => {},
    }
}

/// Wrapping the innermost position of a chain.
proof fn lemma_ts_rebuild_push(vs: Seq<VitalModel>, v: VitalModel, base: DensityModel)
    ensures
        ts_rebuild(vs.push(v), base) == ts_rebuild(vs, ts_wrap(v, base)),
    decreases vs.len(),
{
    if vs.len() > 0 {
        assert(vs.push(v).drop_first() =~= vs.drop_first().push(v));
        lemma_ts_rebuild_push(vs.drop_first(), v, base);
        assert(vs.push(v)[0] == vs[0]);
    } else {
        assert(vs.push(v).drop_first() =~= Seq::<VitalModel>::empty());
        assert(vs.push(v)[0] == v);
        assert(ts_rebuild(Seq::<VitalModel>::empty(), base) == base);
        assert(ts_rebuild(vs, ts_wrap(v, base)) == ts_wrap(v, base));
    }
}

/// The vital wrappers count one node each.
proof fn lemma_ts_unwrap_size(d: DensityModel)
    ensures
        density_size(d) == ts_vitals(d).len() + density_size(ts_unwrap(d)),
    decreases d,
{
    match d {
        DensityModel::Unary { op, argument } => {
            if op == UnaryOp::Cache2d || op == UnaryOp::FlatCache {
                lemma_ts_unwrap_size(*argument);
            }
        },
        DensityModel::NamedDensityReference { argument, .. } => {
            lemma_ts_unwrap_size(*argument);
        },
        _ => {},
    }
}

/// Putting back a chain of wrappers adds one node per wrapper.
proof fn lemma_ts_rebuild_size(vs: Seq<VitalModel>, base: DensityModel)
    ensures
        density_size(ts_rebuild(vs, base)) == vs.len() + density_size(base),
    decreases vs.len(),
{
    if vs.len() > 0 {
        lemma_ts_rebuild_size(vs.drop_first(), base);
    }
}

/// Every immediate child is smaller than its parent.
proof fn lemma_ts_children_smaller(d: DensityModel, k: int)
    requires
        0 <= k < ts_children(d).len(),
    ensures
        density_size(ts_children(d)[k]) < density_size(d),
{
    match d {
        DensityModel::Binary { left, right, .. } => {
            assert(ts_children(d)[0] == *left);
            assert(ts_children(d)[1] == *right);
        },
        DensityModel::RangeChoice { input, when_in_range, when_out_of_range, .. } => {
            assert(ts_children(d)[0] == *input);
            assert(ts_children(d)[1] == *when_in_range);
            assert(ts_children(d)[2] == *when_out_of_range);
        },
        DensityModel::ShiftedNoise { shift_x, shift_y, shift_z, .. } => {
            assert(ts_children(d)[0] == *shift_x);
            assert(ts_children(d)[1] == *shift_y);
            assert(ts_children(d)[2] == *shift_z);
        },
        DensityModel::Spline { spline } => {
            assert(ts_children(d)[0] == *spline.coordinate);
            assert(density_size(d) == 1 + spline_size(*spline));
        },
        _ => {
            assert(ts_children(d).len() <= 1);
        },
    }
}

/// Taking a subtree strictly shrinks the tree: the candidate has fewer
/// density nodes than the tree it was taken from.
pub proof fn lemma_take_subtree_shrinks(d: DensityModel, k: nat)
    requires
        k < ts_count(d),
    ensures
        density_size(ts_result(d, k)) < density_size(d),
{
    lemma_ts_unwrap_size(d);
    lemma_ts_rebuild_size(ts_vitals(d), ts_children(ts_unwrap(d))[k as int]);
    lemma_ts_children_smaller(ts_unwrap(d), k as int);
}

/// Takes an immediate subtree of the density function, keeping the cache
/// and named-reference wrappers above it.
#[derive(Clone, Copy, Debug, PartialEq, Eq, Structural)]
pub struct TakeSubtree {
    /// Set once the method has no candidate left at the current strike.
    pub exhausted: bool,
}

impl TakeSubtree {
    /// The tree below the vital wrappers.
    fn unwrap_vital(density: &DensityType) -> (r: &DensityType)
        ensures
            r@ == ts_unwrap(density@),
    {
        Self::preserve_vital(density).1
    }

    /// Splits the tree into its chain of vital wrappers (outermost first)
    /// and the tree below them.
    fn preserve_vital(density: &DensityType) -> (r: (Vec<VitalPreservation>, &DensityType))
        ensures
            vitals_view(r.0@) == ts_vitals(density@),
            r.1@ == ts_unwrap(density@),
        decreases density,
    {
        match density {
            DensityType::Unary { op, argument } => {
                if *op == UnaryOp::Cache2d || *op == UnaryOp::FlatCache {
                    let (mut vitals, base) = Self::preserve_vital(argument);
                    let ghost before = vitals@;
                    let v = if *op == UnaryOp::Cache2d {
                        VitalPreservation::Cache2d
                    } else {
                        VitalPreservation::FlatCache
                    };
                    vitals.insert(0, v);
                    assert(vitals_view(vitals@) =~= seq![v@] + vitals_view(before));
                    (vitals, base)
                } else {
                    (Vec::new(), density)
                }
            },
            DensityType::NamedDensityReference { name, argument } => {
                let (mut vitals, base) = Self::preserve_vital(argument);
                let ghost before = vitals@;
                let v = VitalPreservation::NamedDensityReference(name.clone());
                vitals.insert(0, v);
                assert(vitals_view(vitals@) =~= seq![v@] + vitals_view(before));
                (vitals, base)
            },
            _ => (Vec::new(), density),
        }
    }

    /// Puts the chain of vital wrappers back around `base`.
    fn reconstruct_vital(vitals: Vec<VitalPreservation>, base: DensityType) -> (r: DensityType)
        ensures
            r@ == ts_rebuild(vitals_view(vitals@), base@),
    {
        let ghost goal = ts_rebuild(vitals_view(vitals@), base@);
        let mut density = base;
        let mut rest = vitals;
        while rest.len() > 0
            invariant
                ts_rebuild(vitals_view(rest@), density@) == goal,
            decreases rest.len(),
        {
            let ghost before = rest@;
            let vital = rest.pop().unwrap();
            proof {
                assert(before == rest@.push(vital));
                assert(vitals_view(before) =~= vitals_view(rest@).push(vital@));
                lemma_ts_rebuild_push(vitals_view(rest@), vital@, density@);
            }
            density = match vital {
                VitalPreservation::Cache2d => DensityType::Unary {
                    op: UnaryOp::Cache2d,
                    argument: Box::new(density),
                },
                VitalPreservation::FlatCache => DensityType::Unary {
                    op: UnaryOp::FlatCache,
                    argument: Box::new(density),
                },
                VitalPreservation::NamedDensityReference(name) =>
                    DensityType::NamedDensityReference { name, argument: Box::new(density) },
            };
        }
        density
    }

    /// The immediate children of the root node.
    fn get_immediate_children(density: &DensityType) -> (r: Vec<&DensityType>)
        ensures
            r@.len() == ts_children(density@).len(),
            forall|i: int| 0 <= i < r@.len() ==> (#[trigger] r@[i])@ == ts_children(density@)[i],
    {
        let mut children: Vec<&DensityType> = Vec::new();
        match density {
            DensityType::Binary { left, right, .. } => {
                children.push(&**left);
                children.push(&**right);
                assert(children@[0]@ == ts_children(density@)[0]);
                assert(children@[1]@ == ts_children(density@)[1]);
            },
            DensityType::Unary { argument, .. } => {
                children.push(&**argument);
                assert(children@[0]@ == ts_children(density@)[0]);
            },
            DensityType::XNegative { argument, .. } => {
                children.push(&**argument);
                assert(children@[0]@ == ts_children(density@)[0]);
            },
            DensityType::Clamp { input, .. } => {
                children.push(&**input);
                assert(children@[0]@ == ts_children(density@)[0]);
            },
            DensityType::WeirdScaledSampler { input, .. } => {
                children.push(&**input);
                assert(children@[0]@ == ts_children(density@)[0]);
            },
            DensityType::RangeChoice { input, when_in_range, when_out_of_range, .. } => {
                children.push(&**input);
                children.push(&**when_in_range);
                children.push(&**when_out_of_range);
                assert(children@[0]@ == ts_children(density@)[0]);
                assert(children@[1]@ == ts_children(density@)[1]);
                assert(children@[2]@ == ts_children(density@)[2]);
            },
            DensityType::ShiftedNoise { shift_x, shift_y, shift_z, .. } => {
                children.push(&**shift_x);
                children.push(&**shift_y);
                children.push(&**shift_z);
                assert(children@[0]@ == ts_children(density@)[0]);
                assert(children@[1]@ == ts_children(density@)[1]);
                assert(children@[2]@ == ts_children(density@)[2]);
            },
            DensityType::Spline { spline } => {
                children.push(&*spline.coordinate);
                assert(*spline_view(**spline).coordinate == density_view(*spline.coordinate));
                assert(children@[0]@ == ts_children(density@)[0]);
            },
            _ => {},
        }
        children
    }

    pub fn name(&self) -> (r: &'static str)
        ensures
            r@ == "take_subtree"@,
    {
        "take_subtree"
    }

    /// Whether a shrink is available at strike `remaining_strikes`: yes when
    /// the strike indexes one of the children of the tree below the vital
    /// wrappers. Otherwise the method is exhausted and reports how many
    /// strikes it used up (the child count). An exhausted method answers
    /// `(false, 0)`.
    pub fn can_shrink(&mut self, remaining_strikes: u32, source: &DensitySource) -> (r: (bool, u32))
        ensures
            old(self).exhausted ==> r == (false, 0u32) && final(self).exhausted,
            !old(self).exhausted && remaining_strikes < ts_count(source_density(source@)) ==> r == (
                true,
                remaining_strikes,
            ) && !final(self).exhausted,
            !old(self).exhausted && remaining_strikes >= ts_count(source_density(source@)) ==> r == (
                false,
                ts_count(source_density(source@)) as u32,
            ) && final(self).exhausted,
    {
        if self.exhausted {
            return (false, 0);
        }
        let density = Self::unwrap_vital(source.get_density());
        let children = Self::get_immediate_children(density);
        assert(children@.len() <= 3);
        let child_count = children.len() as u32;
        if remaining_strikes < child_count {
            (true, remaining_strikes)
        } else {
            self.exhausted = true;
            (false, child_count)
        }
    }

    /// Replaces the tree below the vital wrappers by its child number
    /// `remaining_strikes`, keeping the wrappers and the sampling grid.
    pub fn perform_shrink(&mut self, remaining_strikes: u32, source: DensitySource) -> (r: DensitySource)
        requires
            remaining_strikes < ts_count(source_density(source@)),
        ensures
            r@ == with_density(
                source@,
                ts_result(source_density(source@), remaining_strikes as nat),
            ),
            final(self).exhausted == old(self).exhausted,
    {
        let (vitals, density) = Self::preserve_vital(source.get_density());
        let mut children = Self::get_immediate_children(density);
        let selected = children.remove(remaining_strikes as usize);
        let child = selected.deep_clone();
        let selected_child = Self::reconstruct_vital(vitals, child);
        match source {
            DensitySource::MultiSamplingDensity { dimensions, .. } => DensitySource::MultiSamplingDensity {
                density: Box::new(selected_child),
                dimensions,
            },
            DensitySource::SingleSamplingDensity { .. } => DensitySource::SingleSamplingDensity {
                density: Box::new(selected_child),
            },
        }
    }

    pub fn reenable(&mut self)
        ensures
            !final(self).exhausted,
    {
        self.exhausted = false;
    }
}

} // verus!
