use tungsten_mc::protocol::{parse_request, respond, Reply};
use tungsten_mc::reply::{integer_reply_text, table_tail_text};

fn text(line: &str) -> Option<String> {
    integer_reply_text(&respond(&parse_request(line).expect("valid request")))
}

#[test]
fn pong_text() {
    assert_eq!(text("ping").as_deref(), Some("OK pong"));
}

#[test]
fn number_lists_in_decimal() {
    assert_eq!(text("xoroshiro_next_n 1 2 3").as_deref(), Some("OK 393217 669327710093319 1732421326133921491"));
    assert_eq!(text("xoroshiro_seed_str minecraft:terrain").as_deref(), Some("OK 2226279196109926164 -2108001439914377933"));
    assert_eq!(text("xoroshiro_next_n 1 2 0").as_deref(), Some("OK "));
    assert_eq!(integer_reply_text(&Reply::Numbers(vec![i64::MIN, 0, i64::MAX, -7, 10])).as_deref(),
        Some("OK -9223372036854775808 0 9223372036854775807 -7 10"));
    assert_eq!(text("fade 1 2 3"), None);
}

#[test]
fn permutation_table_text_has_every_byte() {
    let req = parse_request("make_permutation_table 0 minecraft:ore_gap 0 minecraft:ore_gap").expect("valid");
    let t = match respond(&req) {
        Reply::PermutationTable(t) => t,
        _ => panic!("expected a table"),
    };
    let tail = table_tail_text(&t);
    let parts: Vec<&str> = tail.split(' ').collect();
    assert_eq!(parts.len(), 258);
    assert_eq!(parts[0], "p0=89");
    assert_eq!(parts[1], "p255=-125");
    for (k, b) in parts[2..].iter().enumerate() {
        assert_eq!(b.parse::<u8>().expect("a byte"), t.permutation[k]);
    }
    assert_eq!(parts[2], t.permutation[0].to_string());
}

use tungsten_mc::reply::{error_reply_text, output_index_reply};

fn refusal(line: &str) -> String {
    match parse_request(line) {
        Err(e) => error_reply_text(&e),
        Ok(_) => panic!("expected {line} to be refused"),
    }
}

#[test]
fn unknown_function_text() {
    assert_eq!(refusal("foobar 1 2 3"), "ERR unknown function: foobar");
    assert_eq!(refusal("   "), "ERR empty command");
}

#[test]
fn wrong_arg_count_text() {
    assert_eq!(refusal("hermite 1 2"), "ERR expected 5 args, got 2");
    assert_eq!(refusal("double_perlin 0 1 2"), "ERR expected 6 args (seed seed1_name seed2_name x y z), got 3");
    assert_eq!(refusal("xoroshiro_seed_str"), "ERR expected 1 arg (name), got 0");
    assert_eq!(refusal("seeded_perlin 1"), "ERR expected 4 args (seed x y z), got 1");
}

#[test]
fn bad_argument_text() {
    assert_eq!(refusal("abs notanumber"), "ERR arg 0 parse error: invalid float literal");
    assert_eq!(refusal("seeded_perlin x 0 0 0"), "ERR arg 0 parse error: invalid digit found in string");
    assert_eq!(
        refusal("make_permutation_table 0 a 99999999999999999999 b"),
        "ERR arg 2 (iter_count) parse error: number too large to fit in target type"
    );
    assert_eq!(
        refusal("density_single_point 0 0 0 0 1 y 3 barrier"),
        "ERR arg 5 (py) parse error: invalid digit found in string"
    );
    assert_eq!(refusal("xoroshiro_next 1 -"), "ERR arg 1 parse error: invalid digit found in string");
}

#[test]
fn output_index_is_checked() {
    assert_eq!(output_index_reply(0), None);
    assert_eq!(output_index_reply(16), None);
    assert_eq!(output_index_reply(17).as_deref(), Some("ERR output_idx must be 0-16, got 17"));
    assert_eq!(output_index_reply(20).as_deref(), Some("ERR output_idx must be 0-16, got 20"));
}

#[test]
fn unsettled_table_text() {
    assert_eq!(
        integer_reply_text(&Reply::TableUnavailable).as_deref(),
        Some("ERR permutation table draws did not settle")
    );
}
