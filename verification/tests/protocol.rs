use tungsten_mc::protocol::{
    command_of, is_float_literal, is_whitespace, kinds_of, parse_i32, parse_i64, parse_request,
    parse_u64, respond, split_whitespace, ArgFault, ArgKind, ArgValue, Command, IntError, Reply,
    RequestError,
};

#[test]
fn words_of_a_line() {
    assert_eq!(split_whitespace("  ping\tx  y\n"), vec!["ping", "x", "y"]);
    assert_eq!(split_whitespace(""), Vec::<&str>::new());
    assert_eq!(split_whitespace(" \u{3000} "), Vec::<&str>::new());
    assert_eq!(split_whitespace("a\u{3000}b\u{a0}c"), vec!["a", "b", "c"]);
    assert!(is_whitespace('\u{2028}'));
    assert!(!is_whitespace('x'));
}

#[test]
fn signed_integers() {
    assert_eq!(parse_i64("42"), Ok(42));
    assert_eq!(parse_i64("+7"), Ok(7));
    assert_eq!(parse_i64("-9223372036854775808"), Ok(i64::MIN));
    assert_eq!(parse_i64("9223372036854775807"), Ok(i64::MAX));
    assert_eq!(parse_i64("9223372036854775808"), Err(IntError::PosOverflow));
    assert_eq!(parse_i64("-9223372036854775809"), Err(IntError::NegOverflow));
    assert_eq!(parse_i64(""), Err(IntError::Empty));
    assert_eq!(parse_i64("+"), Err(IntError::InvalidDigit));
    assert_eq!(parse_i64("-"), Err(IntError::InvalidDigit));
    assert_eq!(parse_i64("12a"), Err(IntError::InvalidDigit));
    assert_eq!(parse_i64("99999999999999999999x"), Err(IntError::PosOverflow));
    assert_eq!(parse_i32("2147483647"), Ok(i32::MAX));
    assert_eq!(parse_i32("2147483648"), Err(IntError::PosOverflow));
    assert_eq!(parse_i32("-2147483649"), Err(IntError::NegOverflow));
}

#[test]
fn unsigned_integers() {
    assert_eq!(parse_u64("18446744073709551615"), Ok(u64::MAX));
    assert_eq!(parse_u64("18446744073709551616"), Err(IntError::PosOverflow));
    assert_eq!(parse_u64("-1"), Err(IntError::InvalidDigit));
    assert_eq!(parse_u64("-"), Err(IntError::InvalidDigit));
    assert_eq!(parse_u64("+3"), Ok(3));
}

#[test]
fn integer_parsing_agrees_with_std() {
    for s in ["0", "-0", "+0", "007", "-12", "1_000", " 1", "1 ", "٣", "+-1", "9223372036854775807"] {
        assert_eq!(parse_i64(s).ok(), s.parse::<i64>().ok(), "{s}");
        assert_eq!(parse_u64(s).ok(), s.parse::<u64>().ok(), "{s}");
        assert_eq!(parse_i32(s).ok(), s.parse::<i32>().ok(), "{s}");
    }
}

#[test]
fn float_literals() {
    for s in ["1.5", ".5", "5.", "-3.14", "1e10", "1E+5", "2e-3", "inf", "-Infinity", "NaN", "+0"] {
        assert!(is_float_literal(s), "{s}");
    }
    for s in [".", "e5", "1e", "abc", "1.2.3", "--1", "1e5.0", "+", "", "0x10", "in", "1 "] {
        assert!(!is_float_literal(s), "{s}");
    }
}

#[test]
fn float_literals_agree_with_std() {
    for s in ["1.5", ".5", "5.", ".", "e5", "1e", "1e5.0", "INF", "iNfInItY", "nan", "-nan", "1e+", "+.e1", "3E-07"] {
        assert_eq!(is_float_literal(s), s.parse::<f64>().is_ok(), "{s}");
    }
}

#[test]
fn command_names() {
    assert_eq!(command_of("ping"), Some(Command::Ping));
    assert_eq!(command_of("xoroshiro_seed_str"), Some(Command::XoroshiroSeedStr));
    assert_eq!(command_of("hermite"), Some(Command::Hermite));
    assert_eq!(command_of("perlin"), Some(Command::Perlin));
    assert_eq!(command_of("double_perlin"), Some(Command::DoublePerlin));
    assert_eq!(command_of("perlin2"), None);
    assert_eq!(command_of("PING"), None);
    assert_eq!(kinds_of(Command::SeededPerlin), vec![ArgKind::I64, ArgKind::F64, ArgKind::F64, ArgKind::F64]);
    assert_eq!(kinds_of(Command::Hermite), vec![ArgKind::F64; 5]);
    assert_eq!(kinds_of(Command::Ping), Vec::<ArgKind>::new());
}

#[test]
fn ping() {
    let req = parse_request("ping").expect("ping is a command");
    assert_eq!(req.command, Command::Ping);
    assert!(matches!(respond(&req), Reply::Pong));
    let req = parse_request("ping 1 2").expect("ping ignores its arguments");
    assert!(req.args.is_empty());
}

#[test]
fn unknown_function() {
    assert!(matches!(parse_request("foobar 1 2 3"), Err(RequestError::UnknownFunction("foobar"))));
}

#[test]
fn wrong_arg_count() {
    assert!(matches!(
        parse_request("hermite 1 2"),
        Err(RequestError::ArgCount { command: Command::Hermite, got: 2 })
    ));
    assert!(matches!(
        parse_request("clamp 1 2"),
        Err(RequestError::ArgCount { command: Command::Clamp, got: 2 })
    ));
}

#[test]
fn bad_float() {
    assert!(matches!(
        parse_request("abs notanumber"),
        Err(RequestError::BadArg { command: Command::Abs, index: 0, fault: ArgFault::Float })
    ));
}

#[test]
fn empty_request() {
    assert!(matches!(parse_request(""), Err(RequestError::Empty)));
    assert!(matches!(parse_request("  \t "), Err(RequestError::Empty)));
}

#[test]
fn argument_errors_come_in_order() {
    assert!(matches!(
        parse_request("seeded_perlin x 0 0 0"),
        Err(RequestError::BadArg {
            command: Command::SeededPerlin,
            index: 0,
            fault: ArgFault::Int(IntError::InvalidDigit)
        })
    ));
    assert!(matches!(
        parse_request("density_single_point 0 x 0 0 1 y 3 barrier"),
        Err(RequestError::BadArg { command: Command::DensitySinglePoint, index: 1, fault: ArgFault::Float })
    ));
    assert!(matches!(
        parse_request("density_single_point 0 0 0 0 1 y 3 barrier"),
        Err(RequestError::BadArg {
            command: Command::DensitySinglePoint,
            index: 5,
            fault: ArgFault::Int(IntError::InvalidDigit)
        })
    ));
    assert!(matches!(
        parse_request("xoroshiro_next 1 99999999999999999999"),
        Err(RequestError::BadArg {
            command: Command::XoroshiroNext,
            index: 1,
            fault: ArgFault::Int(IntError::PosOverflow)
        })
    ));
}

#[test]
fn accepted_arguments() {
    let req = parse_request("abs -3.14").expect("valid request");
    assert_eq!(req.command, Command::Abs);
    assert!(matches!(req.args[..], [ArgValue::F64("-3.14")]));
    let req = parse_request("make_permutation_table 5 a -2 b").expect("valid request");
    assert!(matches!(
        req.args[..],
        [ArgValue::I64(5), ArgValue::Word("a"), ArgValue::I64(-2), ArgValue::Word("b")]
    ));
    assert!(matches!(respond(&req), Reply::PermutationTable(_)));
    let req = parse_request("seeded_perlin -1 0 1.5 2.5").expect("a signed seed is accepted");
    assert!(matches!(req.args[..], [ArgValue::I64(-1), ArgValue::F64("0"), ArgValue::F64("1.5"), ArgValue::F64("2.5")]));
    let req = parse_request("hermite 0.5 0 1 0 0").expect("valid request");
    assert!(matches!(respond(&req), Reply::FloatCommand));
}

fn numbers(line: &str) -> Vec<i64> {
    let req = parse_request(line).expect("valid request");
    match respond(&req) {
        Reply::Numbers(v) => v,
        _ => panic!("expected numbers for {line}"),
    }
}

#[test]
fn xoroshiro_commands() {
    assert_eq!(numbers("xoroshiro_next 1 2"), vec![393217]);
    assert_eq!(numbers("xoroshiro_next_n 1 2 3"), vec![393217, 669327710093319, 1732421326133921491]);
    assert_eq!(numbers("xoroshiro_next_n 1 2 -5"), Vec::<i64>::new());
    assert_eq!(numbers("xoroshiro_seed_long 0"), vec![3847398142028685078, 7192185014346937746]);
    assert_eq!(
        numbers("xoroshiro_seed_str minecraft:terrain"),
        vec![2226279196109926164, -2108001439914377933]
    );
}

#[test]
fn make_permutation_table_returns_origin_and_perm() {
    let req = parse_request("make_permutation_table 0 minecraft:ore_gap 0 minecraft:ore_gap").expect("valid");
    match respond(&req) {
        Reply::PermutationTable(t) => {
            assert_eq!(t.origin_x_bits, 1223931868127310);
            assert_eq!(t.permutation[0] as i8, 89);
            assert_eq!(t.permutation[255] as i8, -125);
            assert_eq!(t.permutation.len(), 256);
        }
        _ => panic!("expected a permutation table"),
    }
}

#[test]
fn make_permutation_table_deterministic() {
    let line = "make_permutation_table 42 minecraft:ore_gap 0 minecraft:ore_gap";
    let a = respond(&parse_request(line).expect("valid"));
    let b = respond(&parse_request(line).expect("valid"));
    match (a, b) {
        (Reply::PermutationTable(x), Reply::PermutationTable(y)) => {
            assert_eq!(x.permutation, y.permutation);
            assert_eq!(x.origin_z_bits, y.origin_z_bits);
        }
        _ => panic!("expected permutation tables"),
    }
}

#[test]
fn double_perlin_wrong_args() {
    assert!(matches!(
        parse_request("double_perlin 0 1 2"),
        Err(RequestError::ArgCount { command: Command::DoublePerlin, got: 3 })
    ));
}

fn sampler_of(line: &str) -> tungsten_mc::perlin::PerlinNoiseSampler {
    match respond(&parse_request(line).expect("valid")) {
        Reply::Sampler(s) => *s,
        _ => panic!("expected a sampler for {line}"),
    }
}

#[test]
fn seeded_perlin_is_finite_and_deterministic() {
    let a = sampler_of("seeded_perlin 42 0 1.5 2.5");
    let b = sampler_of("seeded_perlin 42 0 1.5 2.5");
    assert_eq!(a.permutation, b.permutation);
    assert_eq!((a.origin_x_bits, a.origin_y_bits, a.origin_z_bits), (b.origin_x_bits, b.origin_y_bits, b.origin_z_bits));
    assert!(a.origin_x_bits < 1 << 53 && a.origin_y_bits < 1 << 53 && a.origin_z_bits < 1 << 53);
}

#[test]
fn seeded_perlin_different_seeds_differ() {
    let a = sampler_of("seeded_perlin 0 0 1.5 2.5");
    let b = sampler_of("seeded_perlin 1 0 1.5 2.5");
    assert_ne!(a.permutation, b.permutation);
    let neg = sampler_of("seeded_perlin -1 0 1.5 2.5");
    assert_ne!(neg.permutation, a.permutation);
}

fn table_pair(line: &str) -> (tungsten_mc::perlin::PerlinNoiseSampler, tungsten_mc::perlin::PerlinNoiseSampler) {
    match respond(&parse_request(line).expect("valid")) {
        Reply::TablePair(a, b) => (*a, *b),
        _ => panic!("expected two tables for {line}"),
    }
}

#[test]
fn double_perlin_basic() {
    let (first, second) = table_pair("double_perlin 0 minecraft:ore_gap minecraft:ore_gap 1.5 2.5 3.5");
    let t0 = match respond(&parse_request("make_permutation_table 0 minecraft:ore_gap 0 minecraft:ore_gap").unwrap()) {
        Reply::PermutationTable(t) => *t,
        _ => panic!("expected a table"),
    };
    let t1 = match respond(&parse_request("make_permutation_table 0 minecraft:ore_gap 1 minecraft:ore_gap").unwrap()) {
        Reply::PermutationTable(t) => *t,
        _ => panic!("expected a table"),
    };
    assert_eq!(first.permutation, t0.permutation);
    assert_eq!(second.permutation, t1.permutation);
    assert_ne!(first.permutation, second.permutation);
}

#[test]
fn double_perlin_deterministic() {
    let line = "double_perlin 0 minecraft:ore_gap minecraft:ore_gap 1.5 2.5 3.5";
    let (a0, a1) = table_pair(line);
    let (b0, b1) = table_pair(line);
    assert_eq!(a0.permutation, b0.permutation);
    assert_eq!(a1.origin_x_bits, b1.origin_x_bits);
}

#[test]
fn float_commands_are_left_to_the_caller() {
    let req = parse_request("fade 1 2 3").expect("valid");
    assert!(matches!(respond(&req), Reply::FloatCommand));
    let req = parse_request("density_chunk 0 0 0 0").expect("valid");
    assert!(matches!(respond(&req), Reply::FloatCommand));
}
