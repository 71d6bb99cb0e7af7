use onebot::error::{BotError, Error};
use onebot::funs::{log_line, tagged_line, time_to_string, Level};
use onebot::modules::log::{add_log, create_group_table, Log, MsgLog};
use onebot::modules::modules_options;
use onebot::text::{i64_text, trimmed, u64_text};

struct Entry;

impl Log for Entry {
    fn to_log(&self) -> MsgLog {
        MsgLog { id: 30, time: "t".to_string(), sender_id: 7, msg: "m".to_string() }
    }
}

#[test]
fn beijing_time_of_the_epoch() {
    assert_eq!(time_to_string(0), "1970-01-01 08:00:00");
    assert_eq!(time_to_string(1700000000), "2023-11-15 06:13:20");
    assert_eq!(time_to_string(-28801), "1969-12-31 23:59:59");
    assert_eq!(time_to_string(253402300799), "+10000-01-01 07:59:59");
    assert_eq!(time_to_string(-62167219200), "0000-01-01 08:00:00");
    assert_eq!(time_to_string(-62167219200 - 86400), "-0001-12-31 08:00:00");
    assert_eq!(time_to_string(951782400), "2000-02-29 08:00:00");
}

#[test]
fn log_lines_carry_time_tag_and_words() {
    let l = log_line("T", Level::Info, "hello");
    assert!(l == "T [Inf]hello" || l == "T [\u{1b}[32mInf\u{1b}[0m]hello");
    let e = log_line("T", Level::Error, "x");
    assert!(e == "T [Err]x" || e == "T [\u{1b}[31mErr\u{1b}[0m]x");
    let w = log_line("T", Level::Warn, "y");
    assert!(w == "T [Wrm]y" || w == "T [\u{1b}[33mWrm\u{1b}[0m]y");
}

#[test]
fn log_table_sql() {
    let c = create_group_table(-5);
    assert_eq!(c.sql, "CREATE TABLE '-5' (time TEXT PRIMARY KEY NOT NULL, sender_id NUMERIC NOT NULL, message TEXT NOT NULL);");
    assert_eq!(c.on_error, "写入日志失败：");
}

#[test]
fn logging_a_message_creates_the_table_only_when_missing() {
    let plan = add_log(&Entry);
    assert_eq!(plan.probe, "SELECT * FROM '30'");
    assert_eq!(plan.insert.sql, "INSERT INTO '30' (time, sender_id, message) VALUES ('t', '7', 'm')");
    let steps = plan.steps(false);
    assert_eq!(steps.len(), 2);
    assert!(steps[0].sql.starts_with("CREATE TABLE '30'"));
    let plan = add_log(&Entry);
    assert_eq!(plan.steps(true).len(), 1);
}

#[test]
fn bot_error_keeps_its_words() {
    let e = BotError::from("bad".to_string());
    assert_eq!(Error::to_string(&e), "bad");
}

#[test]
fn numerals() {
    assert_eq!(i64_text(i64::MIN), "-9223372036854775808");
    assert_eq!(i64_text(0), "0");
    assert_eq!(u64_text(u64::MAX), "18446744073709551615");
}

#[test]
fn trimming_uses_unicode_white_space() {
    assert_eq!(trimmed("\u{3000} a b \u{2028}"), "a b");
    assert_eq!(trimmed("   "), "");
}

#[test]
fn options_compare_by_field() {
    assert_eq!(modules_options { log: true }, modules_options { log: true });
}

#[test]
fn tagged_line_puts_the_tag_in_brackets() {
    assert_eq!(tagged_line("2024-01-01 08:00:00", "Inf", "hi"), "2024-01-01 08:00:00 [Inf]hi");
}

#[test]
fn time_at_the_ends_of_the_calendar() {
    assert_eq!(time_to_string(8_210_266_876_799), "+262143-01-01 07:59:59");
    assert_eq!(time_to_string(-8_334_601_228_800), "-262143-01-01 08:00:00");
}

struct Quoted;

impl Log for Quoted {
    fn to_log(&self) -> MsgLog {
        MsgLog { id: 1, time: "t'".to_string(), sender_id: -2, msg: "it's'); DROP TABLE x; --".to_string() }
    }
}

#[test]
fn log_insert_escapes_quotes() {
    let plan = add_log(&Quoted);
    assert_eq!(
        plan.insert.sql,
        "INSERT INTO '1' (time, sender_id, message) VALUES ('t''', '-2', 'it''s''); DROP TABLE x; --')"
    );
}
