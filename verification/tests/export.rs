use tungsten_mc::density::{
    BinaryOp, DensitySource, DensityType, NormalNoiseType, SplinePoint, SplineType, SplineValue,
    UnaryOp,
};
use tungsten_mc::export::{density_source_to_json, density_to_json, JsonMember, JsonValue};

fn c(v: f64) -> DensityType {
    DensityType::Const(v.to_bits())
}

fn named(n: &str, a: DensityType) -> DensityType {
    DensityType::NamedDensityReference { name: n.to_string(), argument: Box::new(a) }
}

fn members(j: &JsonValue) -> &Vec<JsonMember> {
    match j {
        JsonValue::Object(ms) => ms,
        _ => panic!("not an object"),
    }
}

fn get<'a>(j: &'a JsonValue, key: &str) -> &'a JsonValue {
    &members(j).iter().find(|m| m.key == key).expect("member present").value
}

fn text(j: &JsonValue) -> &str {
    match j {
        JsonValue::Str(s) => s,
        _ => panic!("not a string"),
    }
}

fn float(j: &JsonValue) -> f64 {
    match j {
        JsonValue::Float(b) => f64::from_bits(*b),
        _ => panic!("not a number"),
    }
}

#[test]
fn binary_and_unary_nodes_get_their_type_names() {
    let d = DensityType::Binary {
        op: BinaryOp::Multiply,
        left: Box::new(DensityType::Unary { op: UnaryOp::FlatCache, argument: Box::new(c(2.0)) }),
        right: Box::new(c(-1.5)),
    };
    let j = density_to_json(&d);
    assert_eq!(text(get(&j, "type")), "minecraft:mul");
    assert_eq!(text(get(get(&j, "argument1"), "type")), "minecraft:flat_cache");
    assert_eq!(float(get(get(&j, "argument1"), "argument")), 2.0);
    assert_eq!(float(get(&j, "argument2")), -1.5);
    assert_eq!(members(&j).len(), 3);
}

#[test]
fn x_negative_is_quarter_only_at_one_quarter() {
    let q = DensityType::XNegative { argument: Box::new(c(1.0)), neg_x_multiplier: 0.25f64.to_bits() };
    let h = DensityType::XNegative { argument: Box::new(c(1.0)), neg_x_multiplier: 0.5f64.to_bits() };
    assert_eq!(text(get(&density_to_json(&q), "type")), "minecraft:quarter_negative");
    assert_eq!(text(get(&density_to_json(&h), "type")), "minecraft:half_negative");
}

#[test]
fn named_references_and_noises_are_exported_by_name() {
    let inner = DensityType::Noise {
        name: "minecraft:ridge".to_string(),
        noise: NormalNoiseType { first_octave: -7, amplitudes: vec![1.0f64.to_bits(), 2.0f64.to_bits()] },
        xz_scale: 0.25f64.to_bits(),
        y_scale: 0.0f64.to_bits(),
    };
    let j = density_to_json(&named("minecraft:overworld/ridges", inner.deep_clone()));
    assert_eq!(text(&j), "minecraft:overworld/ridges");
    let n = density_to_json(&inner);
    assert_eq!(text(get(&n, "type")), "minecraft:noise");
    assert_eq!(text(get(&n, "noise")), "minecraft:ridge");
    assert_eq!(float(get(&n, "xz_scale")), 0.25);
    assert_eq!(members(&n).len(), 4);
}

#[test]
fn splines_list_their_points_in_order() {
    let d = DensityType::Spline {
        spline: Box::new(SplineType {
            coordinate: Box::new(named("minecraft:overworld/continents", c(0.0))),
            spline_points: vec![
                SplinePoint { derivative: 0.0f64.to_bits(), location: (-1.0f64).to_bits(), value: SplineValue::Const(3.0f64.to_bits()) },
                SplinePoint {
                    derivative: 0.5f64.to_bits(),
                    location: 1.0f64.to_bits(),
                    value: SplineValue::Spline(Box::new(SplineType { coordinate: Box::new(c(7.0)), spline_points: vec![] })),
                },
            ],
        }),
    };
    let j = density_to_json(&d);
    assert_eq!(text(get(&j, "type")), "minecraft:spline");
    let s = get(&j, "spline");
    assert_eq!(text(get(s, "coordinate")), "minecraft:overworld/continents");
    let points = match get(s, "points") {
        JsonValue::Array(v) => v,
        _ => panic!("points is not an array"),
    };
    assert_eq!(points.len(), 2);
    assert_eq!(float(get(&points[0], "location")), -1.0);
    assert_eq!(float(get(&points[0], "value")), 3.0);
    assert_eq!(float(get(&points[1], "derivative")), 0.5);
    assert_eq!(float(get(get(&points[1], "value"), "coordinate")), 7.0);
}

#[test]
fn sources_are_exported_below_their_labels() {
    let src = DensitySource::SingleSamplingDensity {
        density: Box::new(named("outer", named("inner", DensityType::Unary { op: UnaryOp::Abs, argument: Box::new(c(1.0)) }))),
    };
    let j = density_source_to_json(&src);
    assert_eq!(text(get(&j, "type")), "minecraft:abs");
    let y = DensityType::YClampedGradient { from_y: -64, to_y: 320, from_value: 1.0f64.to_bits(), to_value: (-1.0f64).to_bits() };
    let g = density_to_json(&y);
    assert!(matches!(get(&g, "from_y"), JsonValue::Int(-64)));
    assert!(matches!(get(&g, "to_y"), JsonValue::Int(320)));
}
