use server_mgmt::{
    bindings_of, decide, file_checked, row_outcome, open_store, parse_command, perform, plan, reply_for, resolve_path,
    Action, Command, ConfigEntry, StoreError, StoreOp,
};

fn args(items: &[&str]) -> Vec<String> {
    let mut v = vec!["server-mgmt".to_string()];
    for i in items {
        v.push(i.to_string());
    }
    v
}

fn printed(a: Action) -> Vec<String> {
    match a {
        Action::Print(lines) => lines,
        other => panic!("expected lines to print, got {:?}", other),
    }
}

fn step_error() -> StoreError {
    StoreError::Step(sqlite::Error { code: Some(1), message: Some("boom".to_string()) })
}

fn lines_of(op: &StoreOp, conn: &sqlite::Connection) -> (Vec<String>, Option<String>) {
    let reply = perform(conn, op).unwrap();
    (reply.lines, reply.launch)
}

fn insert(name: &str, server: &str) -> StoreOp {
    StoreOp::Insert { name: name.to_string(), server: server.to_string() }
}

fn lookup(name: &str) -> StoreOp {
    StoreOp::Lookup { name: name.to_string() }
}

fn delete(name: &str) -> StoreOp {
    StoreOp::Delete { name: name.to_string() }
}

#[test]
fn no_arguments_asks_for_an_option() {
    assert_eq!(printed(plan(&args(&[]))), vec!["Please provide an option".to_string()]);
}

#[test]
fn unknown_selector_is_invalid() {
    assert_eq!(printed(plan(&args(&["-x", "a"]))), vec!["Invalid option".to_string()]);
    assert_eq!(printed(plan(&args(&["f"]))), vec!["Invalid option".to_string()]);
}

#[test]
fn help_prints_three_usage_lines() {
    let lines = printed(plan(&args(&["-h"])));
    assert_eq!(
        lines,
        vec![
            "Usage:".to_string(),
            "  server-mgmt -f <file> <name>".to_string(),
            "  server-mgmt -s <name>".to_string(),
            "  server-mgmt -h".to_string(),
        ]
    );
}

#[test]
fn add_with_missing_operands_prompts() {
    let prompt = vec!["Please provide a directory and a name".to_string()];
    assert_eq!(printed(plan(&args(&["-f"]))), prompt);
    assert_eq!(printed(plan(&args(&["-f", "./hello"]))), prompt);
}

#[test]
fn other_modes_with_missing_operands_prompt() {
    assert_eq!(
        printed(plan(&args(&["-u", "greeter"]))),
        vec!["Please provide a name to update and a new server path".to_string()]
    );
    assert_eq!(
        printed(plan(&args(&["-u"]))),
        vec!["Please provide a name to update and a new server path".to_string()]
    );
    assert_eq!(
        printed(plan(&args(&["-s"]))),
        vec!["Please provide a name to search".to_string()]
    );
    assert_eq!(
        printed(plan(&args(&["-d"]))),
        vec!["Please provide a name to delete".to_string()]
    );
}

#[test]
fn parse_reads_operands_in_place() {
    match parse_command(&args(&["-f", "./hello", "greeter", "extra"])) {
        Command::Add { file, name } => {
            assert_eq!(file, "./hello");
            assert_eq!(name, "greeter");
        }
        other => panic!("unexpected {:?}", other),
    }
    match parse_command(&args(&["-u", "greeter", "./goodbye"])) {
        Command::Update { name, server } => {
            assert_eq!(name, "greeter");
            assert_eq!(server, "./goodbye");
        }
        other => panic!("unexpected {:?}", other),
    }
    assert!(matches!(parse_command(&args(&["-s", "greeter"])), Command::Search { name } if name == "greeter"));
    assert!(matches!(parse_command(&args(&["-d", "-x"])), Command::Delete { name } if name == "-x"));
    assert!(matches!(parse_command(&args(&["-h", "more"])), Command::Help));
}

#[test]
fn add_asks_for_a_file_check() {
    match plan(&args(&["-f", "./hello", "greeter"])) {
        Action::CheckFile { file, name } => {
            assert_eq!(file, "./hello");
            assert_eq!(name, "greeter");
        }
        other => panic!("unexpected {:?}", other),
    }
}

#[test]
fn add_of_a_directory_is_not_a_file() {
    let a = file_checked("./some-dir".to_string(), "cfg".to_string(), false);
    assert_eq!(printed(a), vec!["./some-dir is not a file".to_string()]);
}

#[test]
fn add_of_a_file_inserts_it() {
    match file_checked("./hello".to_string(), "greeter".to_string(), true) {
        Action::Store(StoreOp::Insert { name, server }) => {
            assert_eq!(name, "greeter");
            assert_eq!(server, "./hello");
        }
        other => panic!("unexpected {:?}", other),
    }
}

#[test]
fn update_search_delete_become_store_operations() {
    assert!(matches!(
        decide(Command::Search { name: "greeter".to_string() }),
        Action::Store(StoreOp::Lookup { name }) if name == "greeter"
    ));
    assert!(matches!(
        decide(Command::Delete { name: "greeter".to_string() }),
        Action::Store(StoreOp::Delete { name }) if name == "greeter"
    ));
    assert!(matches!(
        decide(Command::Update { name: "greeter".to_string(), server: "./goodbye".to_string() }),
        Action::Store(StoreOp::Update { name, server }) if name == "greeter" && server == "./goodbye"
    ));
}

#[test]
fn failed_update_and_delete_steps_are_reported() {
    let up = StoreOp::Update { name: "greeter".to_string(), server: "./x".to_string() };
    let r = reply_for(&up, Err(step_error())).unwrap();
    assert_eq!(
        r.lines,
        vec!["Failed to update configuration or no configuration found with name: greeter".to_string()]
    );
    let r = reply_for(&delete("greeter"), Err(step_error())).unwrap();
    assert_eq!(
        r.lines,
        vec!["Failed to delete configuration or no configuration found with name: greeter".to_string()]
    );
    assert!(r.launch.is_none());
}

#[test]
fn other_store_failures_are_handed_back() {
    assert!(matches!(reply_for(&insert("a", "b"), Err(step_error())), Err(StoreError::Step(_))));
    assert!(matches!(reply_for(&lookup("a"), Err(step_error())), Err(StoreError::Step(_))));
    let bind = StoreError::Bind(sqlite::Error { code: Some(25), message: None });
    assert!(matches!(reply_for(&delete("a"), Err(bind)), Err(StoreError::Bind(_))));
}

#[test]
fn found_entry_starts_its_server() {
    let entry = ConfigEntry { name: "greeter".to_string(), server: "./hello".to_string() };
    let r = reply_for(&lookup("greeter"), Ok(Some(entry))).unwrap();
    assert_eq!(r.lines, vec!["Starting Server greeter".to_string()]);
    assert_eq!(r.launch, Some("./hello".to_string()));
}

#[test]
fn search_on_fresh_database_finds_nothing() {
    let conn = open_store(":memory:").unwrap();
    let (lines, launch) = lines_of(&lookup("unknown"), &conn);
    assert_eq!(lines, vec!["No configuration found with name: unknown".to_string()]);
    assert_eq!(launch, None);
}

#[test]
fn add_then_search_launches_the_file() {
    let conn = open_store(":memory:").unwrap();
    let (lines, _) = lines_of(&insert("greeter", "./hello"), &conn);
    assert_eq!(lines, vec!["Configuration saved".to_string()]);
    let (lines, launch) = lines_of(&lookup("greeter"), &conn);
    assert_eq!(lines, vec!["Starting Server greeter".to_string()]);
    assert_eq!(launch, Some("./hello".to_string()));
}

#[test]
fn update_after_add_launches_the_new_path() {
    let conn = open_store(":memory:").unwrap();
    lines_of(&insert("greeter", "./hello"), &conn);
    let up = StoreOp::Update { name: "greeter".to_string(), server: "./goodbye".to_string() };
    let (lines, _) = lines_of(&up, &conn);
    assert_eq!(lines, vec!["Configuration updated for name: greeter".to_string()]);
    let (_, launch) = lines_of(&lookup("greeter"), &conn);
    assert_eq!(launch, Some("./goodbye".to_string()));
}

#[test]
fn update_of_an_absent_name_still_reports_success() {
    let conn = open_store(":memory:").unwrap();
    let up = StoreOp::Update { name: "nobody".to_string(), server: "./x".to_string() };
    let (lines, _) = lines_of(&up, &conn);
    assert_eq!(lines, vec!["Configuration updated for name: nobody".to_string()]);
}

#[test]
fn delete_then_search_finds_nothing() {
    let conn = open_store(":memory:").unwrap();
    lines_of(&insert("greeter", "./hello"), &conn);
    let (lines, _) = lines_of(&delete("greeter"), &conn);
    assert_eq!(lines, vec!["Configuration deleted for name: greeter".to_string()]);
    let (lines, launch) = lines_of(&lookup("greeter"), &conn);
    assert_eq!(lines, vec!["No configuration found with name: greeter".to_string()]);
    assert_eq!(launch, None);
}

#[test]
fn repeated_add_keeps_the_earliest_and_delete_removes_all() {
    let conn = open_store(":memory:").unwrap();
    lines_of(&insert("greeter", "./first"), &conn);
    lines_of(&insert("other", "./other"), &conn);
    lines_of(&insert("greeter", "./second"), &conn);
    let (_, launch) = lines_of(&lookup("greeter"), &conn);
    assert_eq!(launch, Some("./first".to_string()));
    lines_of(&delete("greeter"), &conn);
    let (_, launch) = lines_of(&lookup("greeter"), &conn);
    assert_eq!(launch, None);
    let (_, launch) = lines_of(&lookup("other"), &conn);
    assert_eq!(launch, Some("./other".to_string()));
}

#[test]
fn values_with_quotes_are_stored_verbatim() {
    let conn = open_store(":memory:").unwrap();
    lines_of(&insert("it's; \"x\"", "./a b'c"), &conn);
    let (lines, launch) = lines_of(&lookup("it's; \"x\""), &conn);
    assert_eq!(lines, vec!["Starting Server it's; \"x\"".to_string()]);
    assert_eq!(launch, Some("./a b'c".to_string()));
}

#[test]
fn relative_server_follows_the_working_directory() {
    assert_eq!(resolve_path(&"/home/u".to_string(), &"./hello".to_string()), "/home/u/./hello");
    assert_eq!(resolve_path(&"/".to_string(), &"bin/x".to_string()), "/bin/x");
    assert_eq!(resolve_path(&"/home/u/".to_string(), &"x".to_string()), "/home/u/x");
}

#[test]
fn absolute_server_stands_as_it_is() {
    assert_eq!(resolve_path(&"/home/u".to_string(), &"/usr/bin/env".to_string()), "/usr/bin/env");
}

#[test]
fn bindings_number_values_in_statement_order() {
    let ins = insert("greeter", "./hello");
    assert_eq!(bindings_of(&ins), vec![(1, "greeter"), (2, "./hello")]);
    let up = StoreOp::Update { name: "greeter".to_string(), server: "./goodbye".to_string() };
    assert_eq!(bindings_of(&up), vec![(1, "./goodbye"), (2, "greeter")]);
    assert_eq!(bindings_of(&lookup("a")), vec![(1, "a")]);
    assert_eq!(bindings_of(&delete("b")), vec![(1, "b")]);
}

#[test]
fn only_a_lookup_at_a_row_finds_an_entry() {
    let row = || Some(("greeter".to_string(), "./hello".to_string()));
    let found = row_outcome(&lookup("greeter"), true, row()).unwrap();
    assert_eq!(found.name, "greeter");
    assert_eq!(found.server, "./hello");
    assert!(row_outcome(&lookup("greeter"), false, None).is_none());
    assert!(row_outcome(&lookup("greeter"), true, None).is_none());
    assert!(row_outcome(&delete("greeter"), true, row()).is_none());
    assert!(row_outcome(&insert("greeter", "./hello"), false, None).is_none());
}
