use devoter::pem::format_pem;
use devoter::pem::PEM_LINE_LEN;

#[test]
fn empty_body_gives_only_the_two_armor_lines() {
    assert_eq!(
        format_pem(""),
        "-----BEGIN PUBLIC KEY-----\n-----END PUBLIC KEY-----\n"
    );
}

#[test]
fn short_body_is_one_line() {
    assert_eq!(
        format_pem("abc"),
        "-----BEGIN PUBLIC KEY-----\nabc\n-----END PUBLIC KEY-----\n"
    );
}

#[test]
fn body_of_one_full_line_gets_no_empty_line() {
    let body = "A".repeat(PEM_LINE_LEN);
    let expected = format!(
        "-----BEGIN PUBLIC KEY-----\n{}\n-----END PUBLIC KEY-----\n",
        body
    );
    assert_eq!(format_pem(&body), expected);
}

#[test]
fn body_one_over_a_full_line_wraps() {
    let body = format!("{}B", "A".repeat(64));
    let expected = format!(
        "-----BEGIN PUBLIC KEY-----\n{}\nB\n-----END PUBLIC KEY-----\n",
        "A".repeat(64)
    );
    assert_eq!(format_pem(&body), expected);
}

#[test]
fn body_of_two_full_lines() {
    let body = format!("{}{}", "A".repeat(64), "B".repeat(64));
    let expected = format!(
        "-----BEGIN PUBLIC KEY-----\n{}\n{}\n-----END PUBLIC KEY-----\n",
        "A".repeat(64),
        "B".repeat(64)
    );
    assert_eq!(format_pem(&body), expected);
}

#[test]
fn key_body_is_armored_as_the_backend_prints_it() {
    let key = openssl::rsa::Rsa::generate(2048).unwrap();
    let pem = String::from_utf8(key.public_key_to_pem().unwrap()).unwrap();
    let body: String = pem
        .lines()
        .filter(|line| !line.starts_with("-----"))
        .collect();
    assert_eq!(format_pem(&body), pem);
}

#[test]
fn every_body_line_but_the_last_is_full() {
    let body = "0123456789".repeat(20);
    let pem = format_pem(&body);
    let lines: Vec<&str> = pem.lines().collect();
    assert_eq!(lines.len(), 2 + 4);
    assert_eq!(lines[0], "-----BEGIN PUBLIC KEY-----");
    assert_eq!(lines[1].len(), 64);
    assert_eq!(lines[2].len(), 64);
    assert_eq!(lines[3].len(), 64);
    assert_eq!(lines[4].len(), 8);
    assert_eq!(lines[5], "-----END PUBLIC KEY-----");
    assert_eq!(lines[1..5].concat(), body);
}
