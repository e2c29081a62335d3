use repo_inventory::tasks::{build_todo_entry, dec_string, find_sub, join_names, update_tasks_md};

#[test]
fn decimal_rendering() {
    assert_eq!(dec_string(0), "0");
    assert_eq!(dec_string(7), "7");
    assert_eq!(dec_string(10), "10");
    assert_eq!(dec_string(905), "905");
    assert_eq!(dec_string(123456), "123456");
}

#[test]
fn joining_names() {
    assert_eq!(join_names(&vec![]), "");
    assert_eq!(join_names(&vec!["solo".to_string()]), "solo");
    assert_eq!(
        join_names(&vec!["a".to_string(), "b".to_string(), "c".to_string()]),
        "a, b, c"
    );
}

#[test]
fn finding_substrings() {
    assert_eq!(find_sub("hello world", "world"), Some(6));
    assert_eq!(find_sub("hello world", "worlds"), None);
    assert_eq!(find_sub("aaa", "aa"), Some(0));
    assert_eq!(find_sub("abc", ""), Some(0));
    assert_eq!(find_sub("short", "much longer pattern"), None);
}

#[test]
fn todo_entry_text() {
    let entry = build_todo_entry(&vec!["one".to_string(), "two".to_string()]);
    assert_eq!(
        entry,
        "\n## Repository Inventory Issues\n- [ ] **REPO INVENTORY**: Fix parsing errors in 2 repositories - see /tmp/repo_inventory.json\n  Failed repos: one, two\n"
    );
}

fn expected_block(names: &[&str]) -> String {
    format!(
        "\n## Repository Inventory Issues\n- [ ] **REPO INVENTORY**: Fix parsing errors in {} repositories - see /tmp/repo_inventory.json\n  Failed repos: {}\n",
        names.len(),
        names.join(", ")
    )
}

#[test]
fn todo_inserted_before_new_tasks() {
    let content = "# Tasks\n\n## New Tasks\n- old item\n";
    let names = vec!["a".to_string(), "b".to_string()];
    let updated = update_tasks_md(content, &names);
    let pos = content.find("## New Tasks").unwrap();
    let mut expected = content.to_string();
    expected.insert_str(pos, &expected_block(&["a", "b"]));
    assert_eq!(updated, expected);
}

#[test]
fn todo_inserted_before_undocumented_components() {
    let content = "# Tasks\n\n## Undocumented Components\n- thing\n";
    let names = vec!["solo".to_string()];
    let updated = update_tasks_md(content, &names);
    let pos = content.find("## Undocumented Components").unwrap();
    let mut expected = content.to_string();
    expected.insert_str(pos, &expected_block(&["solo"]));
    assert_eq!(updated, expected);
}

#[test]
fn todo_prefers_new_tasks_heading() {
    let content = "## Undocumented Components\n\n## New Tasks\n";
    let names = vec!["x".to_string()];
    let updated = update_tasks_md(content, &names);
    let pos = content.find("## New Tasks").unwrap();
    let mut expected = content.to_string();
    expected.insert_str(pos, &expected_block(&["x"]));
    assert_eq!(updated, expected);
}

#[test]
fn todo_appended_without_known_heading() {
    let content = "# Tasks\n\nNothing else here.\n";
    let names = vec!["x".to_string(), "y".to_string(), "z".to_string()];
    let updated = update_tasks_md(content, &names);
    let mut expected = content.to_string();
    expected.push_str(&expected_block(&["x", "y", "z"]));
    assert_eq!(updated, expected);
}

#[test]
fn todo_insertion_handles_wide_characters() {
    let content = "# T\u{e1}sks \u{1f680}\n\n## New Tasks\n- old\n";
    let names = vec!["w".to_string()];
    let updated = update_tasks_md(content, &names);
    let pos = content.find("## New Tasks").unwrap();
    let mut expected = content.to_string();
    expected.insert_str(pos, &expected_block(&["w"]));
    assert_eq!(updated, expected);
}

#[test]
fn todo_inserted_exactly_once() {
    let content = "## New Tasks\nearly\n## New Tasks\nlate\n";
    let names = vec!["n".to_string()];
    let updated = update_tasks_md(content, &names);
    let block = expected_block(&["n"]);
    assert_eq!(updated.matches("## Repository Inventory Issues").count(), 1);
    assert!(updated.starts_with(&block));
}
