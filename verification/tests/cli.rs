use clickup::cli::{
    binary_name_for, find_release_asset, looks_like_custom_task_id, release_asset_name_for,
    resolve_task_reference, summarize, task_report_lines, temporary_download_name, ReleaseAsset,
};
use clickup::cli::{choose_install_dir, InstallDir, HOME_INSTALL_SUBDIR};
use clickup::{Task, TaskPriority, TaskReference, TaskStatus, TrackedTask};

const TEST_WORKSPACE_ID: u64 = 42;
const TEST_CUSTOM_TASK_ID: &str = "TASK-123";

#[test]
fn hyphenated_task_ids_are_treated_as_custom_ids() {
    let reference =
        resolve_task_reference(TEST_WORKSPACE_ID, TEST_CUSTOM_TASK_ID.to_owned(), false);

    assert_eq!(
        reference,
        TaskReference::custom_id(TEST_WORKSPACE_ID, TEST_CUSTOM_TASK_ID)
    );
}

#[test]
fn numeric_task_ids_stay_as_regular_task_ids() {
    let reference = resolve_task_reference(TEST_WORKSPACE_ID, "8675309".to_owned(), false);

    assert_eq!(reference, TaskReference::id("8675309"));
}

#[test]
fn custom_flag_forces_custom_ids() {
    let reference = resolve_task_reference(1, "8675309".to_owned(), true);
    assert_eq!(reference, TaskReference::custom_id(1, "8675309"));
}

#[test]
fn mac_arm_asset_names_match_release_workflow() {
    let asset_name = release_asset_name_for("macos", "aarch64").unwrap();

    assert_eq!(asset_name, "clickup-cli-aarch64-apple-darwin");
}

#[test]
fn mac_intel_asset_name() {
    assert_eq!(
        release_asset_name_for("macos", "x86_64").unwrap(),
        "clickup-cli-x86_64-apple-darwin"
    );
}

#[test]
fn non_macos_release_assets_are_rejected() {
    let error = release_asset_name_for("linux", "x86_64").unwrap_err();

    assert!(error.message().contains("macOS only"));
}

#[test]
fn custom_task_id_shapes() {
    assert!(looks_like_custom_task_id("TASK-123"));
    assert!(looks_like_custom_task_id("a1-0"));
    assert!(!looks_like_custom_task_id("8675309"));
    assert!(!looks_like_custom_task_id("-123"));
    assert!(!looks_like_custom_task_id("TASK-"));
    assert!(!looks_like_custom_task_id("TASK-12a"));
    assert!(!looks_like_custom_task_id("TA_SK-12"));
    assert!(!looks_like_custom_task_id("A-1-2"));
    assert!(!looks_like_custom_task_id("É-12"));
    assert!(!looks_like_custom_task_id(""));
}

#[test]
fn long_descriptions_are_shortened() {
    let short = "x".repeat(280);
    assert_eq!(summarize(&short), short);
    let long = "é".repeat(281);
    let summary = summarize(&long);
    assert_eq!(summary.chars().count(), 283);
    assert!(summary.ends_with("..."));
    assert_eq!(summary, format!("{}...", "é".repeat(280)));
}

#[test]
fn file_names_of_downloads() {
    assert_eq!(binary_name_for(true), "clickup-cli.exe");
    assert_eq!(binary_name_for(false), "clickup-cli");
    assert_eq!(temporary_download_name(Some("tool")), "tool.download");
    assert_eq!(temporary_download_name(None), "clickup-cli.download");
}

#[test]
fn release_assets_are_found_by_name() {
    let assets = vec![
        ReleaseAsset { name: "a".to_owned(), browser_download_url: "u1".to_owned() },
        ReleaseAsset { name: "b".to_owned(), browser_download_url: "u2".to_owned() },
        ReleaseAsset { name: "b".to_owned(), browser_download_url: "u3".to_owned() },
    ];
    assert_eq!(find_release_asset(&assets, "b"), Some(1));
    assert_eq!(find_release_asset(&assets, "c"), None);
}

fn bare_task(id: &str) -> Task {
    Task {
        id: id.to_owned(),
        custom_id: None,
        name: None,
        text_content: None,
        description: None,
        markdown_description: None,
        status: None,
        parent: None,
        priority: None,
        due_date: None,
        start_date: None,
        date_created: None,
        date_updated: None,
        date_closed: None,
        date_done: None,
        url: None,
        creator: None,
        list: None,
        folder: None,
        space: None,
        extra: Vec::new(),
    }
}

fn status(label: &str) -> TaskStatus {
    TaskStatus {
        id: None,
        status: Some(label.to_owned()),
        color: None,
        orderindex: None,
        status_type: None,
    }
}

#[test]
fn report_of_a_full_task() {
    let mut task = bare_task("abc");
    task.name = Some("Ship it".to_owned());
    task.custom_id = Some("TASK-7".to_owned());
    task.status = Some(status("in progress"));
    task.priority = Some(TaskPriority {
        color: None,
        id: None,
        orderindex: None,
        priority: Some("high".to_owned()),
    });
    task.due_date = Some("1700000000000".to_owned());
    task.url = Some("https://app.clickup.com/t/abc".to_owned());
    task.description = Some("  plain  ".to_owned());
    task.markdown_description = Some("  **bold**  ".to_owned());
    let mut done = bare_task("s1");
    done.name = Some("First".to_owned());
    done.status = Some(status("done"));
    let open = bare_task("s2");
    let fetched = TrackedTask { task, subtasks: vec![done, open] };

    assert_eq!(
        task_report_lines(&fetched),
        vec![
            "Task: Ship it",
            "ID: abc",
            "Custom ID: TASK-7",
            "Status: in progress",
            "Priority: high",
            "Due: 1700000000000",
            "URL: https://app.clickup.com/t/abc",
            "",
            "Description:",
            "**bold**",
            "",
            "Subtasks: 2",
            "- First [done]",
            "- s2 [unknown]",
        ]
    );
}

#[test]
fn report_of_a_bare_task() {
    let mut task = bare_task("abc");
    task.text_content = Some("   ".to_owned());
    let fetched = TrackedTask { task, subtasks: Vec::new() };

    assert_eq!(
        task_report_lines(&fetched),
        vec!["Task: abc", "ID: abc", "", "Subtasks: 0"]
    );
}

#[test]
fn report_shortens_long_descriptions() {
    let mut task = bare_task("abc");
    task.description = Some("y".repeat(300));
    let fetched = TrackedTask { task, subtasks: Vec::new() };
    let lines = task_report_lines(&fetched);

    assert_eq!(lines[4], format!("{}...", "y".repeat(280)));
}

#[test]
fn install_dir_prefers_the_configured_one() {
    assert_eq!(choose_install_dir(Some("/opt/bin"), Some("/home/u")), InstallDir::Configured("/opt/bin"));
    assert_eq!(choose_install_dir(None, Some("/home/u")), InstallDir::UnderHome("/home/u"));
    assert_eq!(choose_install_dir::<&str>(None, None), InstallDir::NoHome);
    assert_eq!(HOME_INSTALL_SUBDIR, ".local/bin");
}
