use goobie_mysql::config::{
    global_table_name, heartbeat_interval_secs, index_of_dot, init_statement, major_version,
    underscore_dots, version_tag,
};
use goobie_mysql::text::{str_contains, str_eq, u64_to_dec};

#[test]
fn str_eq_decides_equality() {
    assert!(str_eq("", ""));
    assert!(str_eq("abc", "abc"));
    assert!(!str_eq("abc", "abd"));
    assert!(!str_eq("abc", "ab"));
    assert!(!str_eq("", "x"));
}

#[test]
fn str_contains_finds_substrings() {
    assert!(str_contains("handshake failed early", "handshake failed"));
    assert!(str_contains("abc", ""));
    assert!(str_contains("abc", "abc"));
    assert!(str_contains("xxabcxx", "abc"));
    assert!(!str_contains("abc", "abcd"));
    assert!(!str_contains("abdc", "abc"));
    assert!(!str_contains("", "a"));
}

#[test]
fn decimal_rendering() {
    assert_eq!(u64_to_dec(0), "0");
    assert_eq!(u64_to_dec(7), "7");
    assert_eq!(u64_to_dec(10), "10");
    assert_eq!(u64_to_dec(7200), "7200");
    assert_eq!(u64_to_dec(u64::MAX), "18446744073709551615");
}

#[test]
fn index_of_dot_finds_first_dot() {
    assert_eq!(index_of_dot("1.2.3"), 1);
    assert_eq!(index_of_dot(".x"), 0);
    assert_eq!(index_of_dot("nodot"), 5);
    assert_eq!(index_of_dot(""), 0);
}

#[test]
fn version_tag_strips_two_chars() {
    assert_eq!(version_tag("1.2.3"), "1.2");
    assert_eq!(version_tag("10.4.50"), "10.4.");
}

#[test]
fn major_version_is_dot_free_prefix() {
    assert_eq!(major_version("1.2.3"), "1");
    assert_eq!(major_version("12.0"), "12");
    assert_eq!(major_version("7"), "7");
}

#[test]
fn underscore_dots_replaces_every_dot() {
    assert_eq!(underscore_dots("1.2.3"), "1_2_3");
    assert_eq!(underscore_dots("nodot"), "nodot");
    assert_eq!(underscore_dots(""), "");
}

#[test]
fn global_table_name_has_prefix_and_underscores() {
    assert_eq!(global_table_name("1.2"), "goobie_mysql_1_2");
    assert_eq!(global_table_name("1"), "goobie_mysql_1");
}

#[test]
fn heartbeat_is_half_the_idle_timeout() {
    assert_eq!(goobie_mysql::WAIT_TIMEOUT, 7200);
    assert_eq!(heartbeat_interval_secs(), 3600);
}

#[test]
fn init_statement_sets_the_idle_timeout() {
    assert_eq!(init_statement(), "SET SESSION wait_timeout = 7200");
}

#[test]
fn notices_carry_the_version_and_host() {
    assert_eq!(
        goobie_mysql::config::notice_prefix("1.2"),
        "(Goobie MySQL v1.2) "
    );
    assert_eq!(
        goobie_mysql::config::notice_with_host("1.2", "db.example", "Reconnected!"),
        "(Goobie MySQL v1.2) |db.example| Reconnected!"
    );
}
