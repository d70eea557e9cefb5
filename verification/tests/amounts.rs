use kube_tui::amounts::{format_cpu, format_memory, parse_i32, parse_i64, signed_decimal_text, CpuShown, MemoryShown};

const NUMBERS: [&str; 40] = [
    "",
    "0",
    "7",
    "-7",
    "+7",
    "007",
    "-0",
    "+0",
    "+",
    "-",
    "--1",
    "+-1",
    "1-",
    " 1",
    "1 ",
    "1.5",
    "1e3",
    "0x10",
    "１２",
    "12a",
    "a12",
    "2147483647",
    "2147483648",
    "-2147483648",
    "-2147483649",
    "9223372036854775807",
    "9223372036854775808",
    "-9223372036854775808",
    "-9223372036854775809",
    "+9223372036854775807",
    "00000000000000000000000000000009223372036854775807",
    "18446744073709551616",
    "340282366920938463463374607431768211456",
    "99999999999999999999999999999999999999999999999999",
    "-99999999999999999999999999999999999999999999999999",
    "1000",
    "999",
    "1_000",
    "٣",
    "1\n",
];

#[test]
fn integers_are_read_as_the_standard_library_reads_them() {
    for text in NUMBERS {
        assert_eq!(parse_i64(text), text.parse::<i64>().ok(), "{:?}", text);
        assert_eq!(parse_i32(text), text.parse::<i32>().ok(), "{:?}", text);
    }
}

#[test]
fn signed_decimal_agrees_with_the_standard_library() {
    for n in [0i64, 1, -1, 9, 10, -10, 999, 1000, i64::MAX, i64::MIN, i64::MIN + 1, -4294967296] {
        assert_eq!(signed_decimal_text(n), n.to_string());
    }
}

fn cpu(text: &str) -> String {
    match format_cpu(text) {
        CpuShown::Text(t) => t,
        CpuShown::Cores { millicores } => format!("cores:{}", millicores),
    }
}

#[test]
fn processor_time_is_shown_in_thousandths_or_cores() {
    assert_eq!(cpu(""), "N/A");
    assert_eq!(cpu("250m"), "250m");
    assert_eq!(cpu("250"), "250m");
    assert_eq!(cpu("0m"), "0m");
    assert_eq!(cpu("007m"), "7m");
    assert_eq!(cpu("999m"), "999m");
    assert_eq!(cpu("1000m"), "cores:1000");
    assert_eq!(cpu("2500m"), "cores:2500");
    assert_eq!(cpu("2147483647m"), "cores:2147483647");
    assert_eq!(cpu("2147483648m"), "2147483648m");
    assert_eq!(cpu("-5m"), "-5m");
    assert_eq!(cpu("m"), "m");
    assert_eq!(cpu("1m2m"), "12m");
    assert_eq!(cpu("1.5"), "1.5");
    assert_eq!(cpu("n/a"), "n/a");
}

fn memory(text: &str) -> String {
    match format_memory(text) {
        MemoryShown::Text(t) => t,
        MemoryShown::Mebibytes { kibibytes } => format!("Mi:{}", kibibytes),
        MemoryShown::Gibibytes { kibibytes } => format!("Gi:{}", kibibytes),
    }
}

#[test]
fn memory_is_shown_in_the_largest_fitting_unit() {
    assert_eq!(memory(""), "N/A");
    assert_eq!(memory("512Ki"), "512Ki");
    assert_eq!(memory("1023Ki"), "1023Ki");
    assert_eq!(memory("1024Ki"), "Mi:1024");
    assert_eq!(memory("1048575Ki"), "Mi:1048575");
    assert_eq!(memory("1048576Ki"), "Gi:1048576");
    assert_eq!(memory("9223372036854775807Ki"), "Gi:9223372036854775807");
    assert_eq!(memory("9223372036854775808Ki"), "9223372036854775808Ki");
    assert_eq!(memory("-2048Ki"), "-2048Ki");
    assert_eq!(memory("34Mi"), "34Mi");
    assert_eq!(memory("2048"), "2048");
    assert_eq!(memory("Ki"), "Ki");
    assert_eq!(memory("20Ki48Ki"), "Mi:2048");
    assert_eq!(memory("2048KiB"), "2048KiB");
    assert_eq!(memory("2048ki"), "2048ki");
}
