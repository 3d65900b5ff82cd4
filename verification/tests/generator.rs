use std::collections::HashMap;

use selenium_loop::json::Row;
use selenium_loop::selenium::{cmd, generate_loop_script, wrap_in_loop, Command, Script};

fn rows(text: &str) -> Vec<Row> {
    serde_json::from_str(text).unwrap()
}

fn script(name: &str, commands: Vec<Command>) -> Script {
    Script { name: String::from(name), creation_date: String::from("2020-01-02"), commands }
}

fn one(script: Script) -> HashMap<String, Script> {
    let mut scripts = HashMap::new();
    scripts.insert(String::from("new"), script);
    scripts
}

fn assert_plain(c: &Command, command: &str, target: &str, value: &str) {
    assert_eq!(c.command, command);
    assert_eq!(c.target, target);
    assert!(c.targets.is_empty());
    assert_eq!(c.value, value);
    assert_eq!(c.description, "");
}

fn assert_same(a: &Command, b: &Command) {
    assert_eq!(a.command, b.command);
    assert_eq!(a.target, b.target);
    assert_eq!(a.targets, b.targets);
    assert_eq!(a.value, b.value);
    assert_eq!(a.description, b.description);
}

fn recorded_step() -> Command {
    Command {
        command: String::from("type"),
        target: String::from("id=name"),
        targets: vec![String::from("id=name"), String::from("css=#name")],
        value: String::from("${user}"),
        description: String::from("fills in the name"),
    }
}

#[test]
fn login_script_is_looped_over_two_rows() {
    let scripts = one(script("Login", vec![cmd("click", "#btn", "")]));
    let looped = generate_loop_script(scripts, rows(r#"[{"user":"a"},{"user":"b"}]"#)).unwrap();
    assert_eq!(looped.name, "looped Login");
    assert_eq!(looped.commands.len(), 3 + 2 * 1 + 1 + 1);
    let c = &looped.commands;
    assert_plain(&c[0], "ExecuteScript", r#"return [{"user":"a"},{"user":"b"}];"#, "data");
    assert_plain(&c[1], "forEach", "data", "row");
    assert_plain(&c[2], "ExecuteScript", "console.log(`processing row ${row}`);", "");
    assert_plain(&c[3], "ExecuteScript", "return row['user'];", "user");
    assert_plain(&c[4], "echo", "processing row.user ${user}", "");
    assert_plain(&c[5], "click", "#btn", "");
    assert_plain(&c[6], "end", "", "");
}

#[test]
fn empty_script_is_looped_over_one_row() {
    let looped = generate_loop_script(one(script("", vec![])), rows(r#"[{"x":1}]"#)).unwrap();
    assert_eq!(looped.commands.len(), 3 + 2 + 0 + 1);
    assert_plain(&looped.commands[5], "end", "", "");
    assert_plain(&looped.commands[0], "ExecuteScript", r#"return [{"x":1}];"#, "data");
    assert_eq!(looped.name, "looped ");
}

#[test]
fn no_script_is_refused() {
    let e = generate_loop_script(HashMap::new(), rows(r#"[{"x":1}]"#)).unwrap_err();
    assert_eq!(e.message(), "only one script supported");
    assert!(!e.is_invalid_input());
}

#[test]
fn two_scripts_are_refused() {
    let mut scripts = one(script("a", vec![]));
    scripts.insert(String::from("other"), script("b", vec![]));
    let e = generate_loop_script(scripts, rows(r#"[{"x":1}]"#)).unwrap_err();
    assert_eq!(e.message(), "only one script supported");
}

#[test]
fn the_number_of_scripts_is_tested_before_the_rows() {
    let e = generate_loop_script(HashMap::new(), Vec::new()).unwrap_err();
    assert_eq!(e.message(), "only one script supported");
}

#[test]
fn empty_rows_are_refused() {
    let scripts = one(script("Login", vec![cmd("click", "#btn", "")]));
    let e = generate_loop_script(scripts, Vec::new()).unwrap_err();
    assert_eq!(e.message(), "empty input data");
    assert!(!e.is_invalid_input());
}

#[test]
fn command_count_follows_fields_and_body() {
    let body = vec![cmd("open", "/", ""), recorded_step(), cmd("click", "#go", "")];
    let data = rows(r#"[{"a":1,"b":2,"c":3,"d":4},{"a":5}]"#);
    let looped = generate_loop_script(one(script("s", body)), data).unwrap();
    assert_eq!(looped.commands.len(), 3 + 2 * 4 + 3 + 1);
}

#[test]
fn a_row_without_fields_gets_no_exports() {
    let looped =
        generate_loop_script(one(script("s", vec![cmd("open", "/", "")])), rows("[{}]")).unwrap();
    assert_eq!(looped.commands.len(), 3 + 0 + 1 + 1);
    assert_plain(&looped.commands[0], "ExecuteScript", "return [{}];", "data");
    assert_plain(&looped.commands[3], "open", "/", "");
    assert_plain(&looped.commands[4], "end", "", "");
}

#[test]
fn name_keeps_special_characters() {
    let name = "Log in: \"é\" ${x} \\ '<&>\n\t";
    let looped = generate_loop_script(one(script(name, vec![])), rows(r#"[{"x":1}]"#)).unwrap();
    assert_eq!(looped.name, format!("looped {}", name));
}

#[test]
fn fields_come_from_the_first_row_alone() {
    let data = rows(r#"[{"a":1},{"a":2,"b":3}]"#);
    let looped = generate_loop_script(one(script("s", vec![])), data).unwrap();
    assert_eq!(looped.commands.len(), 3 + 2 * 1 + 0 + 1);
    assert_plain(&looped.commands[3], "ExecuteScript", "return row['a'];", "a");
    assert_plain(&looped.commands[4], "echo", "processing row.a ${a}", "");
    for c in &looped.commands {
        assert_ne!(c.value, "b");
        assert_ne!(c.target, "return row['b'];");
        assert_ne!(c.target, "processing row.b ${b}");
    }
    assert_eq!(looped.commands[0].target, r#"return [{"a":1},{"a":2,"b":3}];"#);
    assert!(looped.commands[0].target.contains(r#""b":3"#));
}

#[test]
fn fields_missing_from_later_rows_are_still_exported() {
    let data = rows(r#"[{"a":1,"b":2},{"a":3}]"#);
    let looped = generate_loop_script(one(script("s", vec![])), data).unwrap();
    assert_eq!(looped.commands.len(), 3 + 2 * 2 + 0 + 1);
    assert_plain(&looped.commands[3], "ExecuteScript", "return row['a'];", "a");
    assert_plain(&looped.commands[4], "ExecuteScript", "return row['b'];", "b");
    assert_plain(&looped.commands[5], "echo", "processing row.a ${a}", "");
    assert_plain(&looped.commands[6], "echo", "processing row.b ${b}", "");
}

#[test]
fn exports_come_before_echoes_in_the_order_of_the_row() {
    let data = rows(r#"[{"zeta":1,"alpha":2,"mid":3}]"#);
    let first: Vec<String> = data[0].keys().cloned().collect();
    let looped = generate_loop_script(one(script("s", vec![])), data).unwrap();
    assert_eq!(first.len(), 3);
    for (i, k) in first.iter().enumerate() {
        let export = &looped.commands[3 + i];
        assert_plain(export, "ExecuteScript", &format!("return row['{}'];", k), k);
        let echoed = &looped.commands[3 + 3 + i];
        assert_plain(echoed, "echo", &format!("processing row.{} ${{{}}}", k, k), "");
    }
}

#[test]
fn body_is_kept_as_it_is_before_the_end() {
    let body = vec![cmd("open", "/login", ""), recorded_step(), cmd("end", "", "")];
    let kept = vec![cmd("open", "/login", ""), recorded_step(), cmd("end", "", "")];
    let data = rows(r#"[{"user":"a","pass":"b"}]"#);
    let looped = generate_loop_script(one(script("s", body)), data).unwrap();
    let n = looped.commands.len();
    assert_eq!(n, 3 + 2 * 2 + 3 + 1);
    for (i, c) in kept.iter().enumerate() {
        assert_same(&looped.commands[n - 1 - kept.len() + i], c);
    }
    assert_plain(&looped.commands[n - 1], "end", "", "");
}

#[test]
fn creation_date_is_today_as_year_day_month() {
    let before = chrono::Utc::now().format("%Y-%d-%m").to_string();
    let looped = generate_loop_script(one(script("s", vec![])), rows(r#"[{"x":1}]"#)).unwrap();
    let after = chrono::Utc::now().format("%Y-%d-%m").to_string();
    let date = looped.creation_date;
    assert!(date == before || date == after);
    let parts: Vec<&str> = date.split('-').collect();
    assert_eq!(parts.len(), 3);
    assert_eq!(parts[0].len(), 4);
    assert_eq!(parts[1].len(), 2);
    assert_eq!(parts[2].len(), 2);
    let day: u32 = parts[1].parse().unwrap();
    let month: u32 = parts[2].parse().unwrap();
    assert!(1 <= day && day <= 31);
    assert!(1 <= month && month <= 12);
    assert_ne!(date, "2020-01-02");
}

#[test]
fn wrap_in_loop_puts_the_body_between_prologue_and_end() {
    let source = script("Login", vec![recorded_step()]);
    let fields = vec![String::from("user"), String::from("pass")];
    let array = cmd("ExecuteScript", "return [];", "data");
    let looped = wrap_in_loop(source, &fields, array, String::from("1999-31-12"));
    assert_eq!(looped.name, "looped Login");
    assert_eq!(looped.creation_date, "1999-31-12");
    let c = &looped.commands;
    assert_eq!(c.len(), 3 + 2 * 2 + 1 + 1);
    assert_plain(&c[0], "ExecuteScript", "return [];", "data");
    assert_plain(&c[1], "forEach", "data", "row");
    assert_plain(&c[2], "ExecuteScript", "console.log(`processing row ${row}`);", "");
    assert_plain(&c[3], "ExecuteScript", "return row['user'];", "user");
    assert_plain(&c[4], "ExecuteScript", "return row['pass'];", "pass");
    assert_plain(&c[5], "echo", "processing row.user ${user}", "");
    assert_plain(&c[6], "echo", "processing row.pass ${pass}", "");
    assert_same(&c[7], &recorded_step());
    assert_plain(&c[8], "end", "", "");
}

#[test]
fn wrap_in_loop_without_fields_or_body() {
    let array = cmd("ExecuteScript", "return [{}];", "data");
    let looped = wrap_in_loop(script("x", vec![]), &Vec::new(), array, String::new());
    assert_eq!(looped.commands.len(), 4);
    assert_plain(&looped.commands[3], "end", "", "");
    assert_eq!(looped.creation_date, "");
}
