use syscall_fuzz::telemetry::{
    push_decimal, record_for, telemetry_header, telemetry_line, Measurement, Outcome,
};

#[test]
fn header_is_the_six_field_schema() {
    assert_eq!(
        telemetry_header(),
        "Syscalls|SyscallsInput|ArbitraryInput|CPU|MEM|Duration"
    );
}

#[test]
fn record_line_has_the_exact_layout() {
    let m = Measurement { cpu_cost: 1200, memory_cost: 0, duration_nanos: 987654321 };
    let line = telemetry_line(
        "syscalls::buf::bytes_len",
        "Buf(BytesLen(b))",
        "Buf(BytesLen(p))",
        m,
    );
    assert_eq!(
        String::from_utf8(line).unwrap(),
        "syscalls::buf::bytes_len|\"Buf(BytesLen(b))\"|\"Buf(BytesLen(p))\"|1200|0|987654321\n"
    );
}

#[test]
fn completed_run_appends_one_line_of_six_fields() {
    let m = Measurement { cpu_cost: 7, memory_cost: 8, duration_nanos: 9 };
    let line = record_for(Outcome::Completed, "n", "a", "d", m).unwrap();
    let text = String::from_utf8(line).unwrap();
    assert_eq!(text.matches('\n').count(), 1);
    assert!(text.ends_with('\n'));
    let fields: Vec<&str> = text.trim_end().split('|').collect();
    assert_eq!(fields, vec!["n", "\"a\"", "\"d\"", "7", "8", "9"]);
}

#[test]
fn aborted_run_appends_nothing() {
    let m = Measurement { cpu_cost: 7, memory_cost: 8, duration_nanos: 9 };
    assert!(record_for(Outcome::Aborted, "n", "a", "d", m).is_none());
}

#[test]
fn decimal_digits_of_extremes() {
    let mut out = Vec::new();
    push_decimal(&mut out, 0);
    assert_eq!(out, b"0".to_vec());
    let mut out = b"x".to_vec();
    push_decimal(&mut out, u128::MAX);
    assert_eq!(
        String::from_utf8(out).unwrap(),
        format!("x{}", u128::MAX)
    );
}

#[test]
fn host_panic_is_contained_and_logs_nothing() {
    let env = soroban_sdk::Env::default();
    // A symbol may not hold '-': the host conversion panics.
    let caught = soroban_sdk::testutils::arbitrary::fuzz_catch_panic(|| {
        soroban_sdk::Symbol::new(&env, "not-a-symbol");
    });
    let outcome = if caught.is_ok() { Outcome::Completed } else { Outcome::Aborted };
    assert_eq!(outcome, Outcome::Aborted);
    let m = Measurement { cpu_cost: 1, memory_cost: 1, duration_nanos: 1 };
    assert!(record_for(outcome, "n", "a", "d", m).is_none());
    // The environment is still usable after the contained panic.
    assert_eq!(soroban_sdk::Symbol::new(&env, "ok"), soroban_sdk::Symbol::new(&env, "ok"));
}
