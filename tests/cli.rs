use udp_throughput::cli::{parse_command, parse_mode, parse_total_size, Command, Mode, SizeError};

fn args(v: &[&str]) -> Vec<String> {
    v.iter().map(|s| s.to_string()).collect()
}

#[test]
fn wrong_argument_count_gives_usage() {
    assert_eq!(parse_command(&args(&["prog"])), Command::Usage);
    assert_eq!(parse_command(&args(&[])), Command::Usage);
    assert_eq!(parse_command(&args(&["prog", "send", "127.0.0.1:9000"])), Command::Usage);
    assert_eq!(
        parse_command(&args(&["prog", "send", "127.0.0.1:9000", "10", "x"])),
        Command::Usage
    );
}

#[test]
fn unknown_mode_is_refused() {
    assert_eq!(
        parse_command(&args(&["prog", "foo", "127.0.0.1:9000", "10000"])),
        Command::InvalidMode
    );
}

#[test]
fn send_and_recv_dispatch() {
    assert_eq!(
        parse_command(&args(&["prog", "send", "127.0.0.1:9000", "10000"])),
        Command::Run { mode: Mode::Send, address: "127.0.0.1:9000".to_string(), total_size: 10000 }
    );
    assert_eq!(
        parse_command(&args(&["prog", "recv", "0.0.0.0:9000", "0"])),
        Command::Run { mode: Mode::Recv, address: "0.0.0.0:9000".to_string(), total_size: 0 }
    );
}

#[test]
fn bad_size_is_reported_before_mode() {
    assert_eq!(
        parse_command(&args(&["prog", "foo", "127.0.0.1:9000", "abc"])),
        Command::BadSize(SizeError::InvalidDigit)
    );
    assert_eq!(
        parse_command(&args(&["prog", "send", "127.0.0.1:9000", ""])),
        Command::BadSize(SizeError::Empty)
    );
}

#[test]
fn modes_are_exact_words() {
    assert_eq!(parse_mode("send"), Some(Mode::Send));
    assert_eq!(parse_mode("recv"), Some(Mode::Recv));
    assert_eq!(parse_mode("foo"), None);
    assert_eq!(parse_mode("SEND"), None);
    assert_eq!(parse_mode("sendx"), None);
    assert_eq!(parse_mode(""), None);
}

#[test]
fn total_size_accepts_decimal() {
    assert_eq!(parse_total_size("10000"), Ok(10000));
    assert_eq!(parse_total_size("0"), Ok(0));
    assert_eq!(parse_total_size("+5"), Ok(5));
    assert_eq!(parse_total_size("007"), Ok(7));
    assert_eq!(parse_total_size(&usize::MAX.to_string()), Ok(usize::MAX));
}

#[test]
fn total_size_errors() {
    assert_eq!(parse_total_size(""), Err(SizeError::Empty));
    assert_eq!(parse_total_size("+"), Err(SizeError::InvalidDigit));
    assert_eq!(parse_total_size("-5"), Err(SizeError::InvalidDigit));
    assert_eq!(parse_total_size("12a"), Err(SizeError::InvalidDigit));
    assert_eq!(parse_total_size("1 0"), Err(SizeError::InvalidDigit));
    assert_eq!(parse_total_size("++1"), Err(SizeError::InvalidDigit));
    let too_big = format!("{}0", usize::MAX);
    assert_eq!(parse_total_size(&too_big), Err(SizeError::Overflow));
    assert_eq!(parse_total_size("99999999999999999999999x"), Err(SizeError::InvalidDigit));
}
