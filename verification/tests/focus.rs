use clickup::cli::looks_like_custom_task_id;
use clickup::focus::{
    assignee_names, custom_field, custom_field_value, display_value, key_fields, option_label,
    resolve_custom_field_option, task_focus_response, task_path, task_summary,
};
use clickup::json::JsonValue;
use clickup::{Task, TaskLocationRef, TaskPriority, TaskStatus, TrackedTask};

fn object(members: Vec<(&str, JsonValue)>) -> JsonValue {
    JsonValue::Object(
        members
            .into_iter()
            .map(|(k, v)| (k.to_owned(), v))
            .collect(),
    )
}

fn string(s: &str) -> JsonValue {
    JsonValue::String(s.to_owned())
}

fn number(s: &str) -> JsonValue {
    JsonValue::Number(s.to_owned())
}

fn task(id: &str) -> Task {
    Task {
        id: id.to_owned(),
        custom_id: None,
        name: None,
        text_content: None,
        description: None,
        markdown_description: None,
        status: None,
        parent: None,
        priority: None,
        due_date: None,
        start_date: None,
        date_created: None,
        date_updated: None,
        date_closed: None,
        date_done: None,
        url: None,
        creator: None,
        list: None,
        folder: None,
        space: None,
        extra: Vec::new(),
    }
}

#[test]
fn detects_custom_task_ids() {
    assert!(looks_like_custom_task_id("TASK-123"));
    assert!(!looks_like_custom_task_id("8675309"));
}

#[test]
fn custom_fields_resolve_option_labels() {
    let field = object(vec![
        ("name", string("需求优先级")),
        ("required", JsonValue::Bool(true)),
        ("value", string("1")),
        (
            "type_config",
            object(vec![(
                "options",
                JsonValue::Array(vec![
                    object(vec![("orderindex", string("0")), ("name", string("P0"))]),
                    object(vec![("orderindex", string("1")), ("name", string("P1"))]),
                ]),
            )]),
        ),
    ]);

    let parsed = custom_field(&field).expect("custom field should parse");

    assert_eq!(parsed.name, "需求优先级");
    assert_eq!(parsed.value, "P1");
    assert!(parsed.required);
}

#[test]
fn display_values_of_each_kind() {
    assert_eq!(display_value(&JsonValue::Null), None);
    assert_eq!(display_value(&JsonValue::Bool(true)).as_deref(), Some("Yes"));
    assert_eq!(display_value(&JsonValue::Bool(false)).as_deref(), Some("No"));
    assert_eq!(display_value(&number("-2.5")).as_deref(), Some("-2.5"));
    assert_eq!(display_value(&string("  hi \n")).as_deref(), Some("hi"));
    assert_eq!(display_value(&string("   ")), None);
    let array = JsonValue::Array(vec![string("a"), JsonValue::Null, string(" "), number("3")]);
    assert_eq!(display_value(&array).as_deref(), Some("a, 3"));
    assert_eq!(display_value(&JsonValue::Array(vec![JsonValue::Null])), None);
    let nested = JsonValue::Array(vec![JsonValue::Array(vec![string("x"), string("y")]), string("z")]);
    assert_eq!(display_value(&nested).as_deref(), Some("x, y, z"));
}

#[test]
fn display_values_of_objects() {
    let user = object(vec![("email", string("a@b.c")), ("username", string("ann"))]);
    assert_eq!(display_value(&user).as_deref(), Some("ann"));
    let blank_label = object(vec![("label", string(" ")), ("name", string("Named"))]);
    assert_eq!(display_value(&blank_label).as_deref(), Some("Named"));
    let progress = object(vec![("current", number("3")), ("total", number("8"))]);
    assert_eq!(display_value(&progress).as_deref(), Some("3 / 8"));
    let partial = object(vec![("current", number("3"))]);
    assert_eq!(display_value(&partial), None);
    let nested = object(vec![("label", object(vec![("name", string("deep"))]))]);
    assert_eq!(display_value(&nested).as_deref(), Some("deep"));
}

#[test]
fn option_labels_match_by_id_index_name_or_label() {
    let options = vec![
        object(vec![("id", string("a1")), ("name", string(" ")), ("label", string("L"))]),
        object(vec![("id", string("a1")), ("label", string(" Second "))]),
        object(vec![("orderindex", string("2")), ("name", string("Two"))]),
    ];
    assert_eq!(option_label(&string("a1"), &options).as_deref(), Some("Second"));
    assert_eq!(option_label(&number("2"), &options).as_deref(), Some("Two"));
    assert_eq!(option_label(&string("Two"), &options).as_deref(), Some("Two"));
    assert_eq!(option_label(&string("zz"), &options), None);
    assert_eq!(option_label(&JsonValue::Bool(true), &options), None);
    let config = object(vec![("options", JsonValue::Array(options))]);
    let values = JsonValue::Array(vec![number("2"), string("zz"), string("a1")]);
    assert_eq!(
        resolve_custom_field_option(&values, Some(&config)).as_deref(),
        Some("Two, Second")
    );
    assert_eq!(resolve_custom_field_option(&values, None), None);
}

#[test]
fn field_values_fall_back_to_display() {
    let field = object(vec![
        ("name", string("Estimate")),
        ("value", number("5")),
        ("type_config", object(vec![])),
    ]);
    assert_eq!(custom_field_value(&field).as_deref(), Some("5"));
    let field = object(vec![("name", string("  ")), ("value", number("5"))]);
    assert!(custom_field(&field).is_none());
    let field = object(vec![("name", string("Empty")), ("value", JsonValue::Null)]);
    assert!(custom_field(&field).is_none());
    let field = object(vec![("name", string(" N ")), ("value", string("v")), ("required", string("yes"))]);
    let parsed = custom_field(&field).unwrap();
    assert_eq!(parsed.name, "N");
    assert!(!parsed.required);
}

fn with_extra(mut t: Task, extra: Vec<(&str, JsonValue)>) -> Task {
    t.extra = extra.into_iter().map(|(k, v)| (k.to_owned(), v)).collect();
    t
}

#[test]
fn key_fields_list_at_most_eight() {
    let fields: Vec<JsonValue> = (0..11)
        .map(|i| {
            object(vec![
                ("name", string(&format!("f{i}"))),
                ("value", if i == 2 { JsonValue::Null } else { number(&i.to_string()) }),
            ])
        })
        .collect();
    let t = with_extra(task("t"), vec![("custom_fields", JsonValue::Array(fields))]);
    let listed = key_fields(&t);
    assert_eq!(listed.len(), 8);
    assert_eq!(listed[1].name, "f1");
    assert_eq!(listed[2].name, "f3");
    assert_eq!(listed[7].value, "8");
    assert!(key_fields(&task("t")).is_empty());
}

#[test]
fn assignees_use_username_then_email() {
    let t = with_extra(
        task("t"),
        vec![(
            "assignees",
            JsonValue::Array(vec![
                object(vec![("username", string(" Ann "))]),
                object(vec![("email", string("bob@x.y"))]),
                object(vec![("username", string("  ")), ("email", string("c@x.y"))]),
                object(vec![("id", number("1"))]),
            ]),
        )],
    );
    assert_eq!(assignee_names(&t), vec!["Ann".to_owned(), "bob@x.y".to_owned()]);
    let t = with_extra(task("t"), vec![("assignees", string("nobody"))]);
    assert!(assignee_names(&t).is_empty());
}

#[test]
fn summaries_and_paths() {
    let mut t = task("t");
    assert_eq!(task_summary(&t), None);
    t.text_content = Some("text".to_owned());
    assert_eq!(task_summary(&t).as_deref(), Some("text"));
    t.description = Some("  ".to_owned());
    assert_eq!(task_summary(&t), None);
    t.markdown_description = Some(" **md** ".to_owned());
    assert_eq!(task_summary(&t).as_deref(), Some("**md**"));

    assert_eq!(task_path(&t), None);
    t.list = Some(TaskLocationRef { id: "l".to_owned(), name: Some("List".to_owned()) });
    t.folder = Some(TaskLocationRef { id: "f".to_owned(), name: None });
    t.space = Some(TaskLocationRef { id: "s".to_owned(), name: Some("Space".to_owned()) });
    assert_eq!(task_path(&t).as_deref(), Some("Space / List"));
}

fn status(label: Option<&str>, kind: Option<&str>) -> Option<TaskStatus> {
    Some(TaskStatus {
        id: None,
        status: label.map(str::to_owned),
        color: None,
        orderindex: None,
        status_type: kind.map(str::to_owned),
    })
}

#[test]
fn focus_response_counts_closed_subtasks() {
    let mut main = task("m1");
    main.name = Some("Main".to_owned());
    main.custom_id = Some("PROJ-1".to_owned());
    main.status = status(Some("in progress"), Some("custom"));
    main.priority = Some(TaskPriority {
        color: None,
        id: None,
        orderindex: None,
        priority: Some("high".to_owned()),
    });
    main.due_date = Some("1700000000000".to_owned());
    let mut done = task("s1");
    done.status = status(Some("done"), Some("closed"));
    let mut open = task("s2");
    open.name = Some("Open one".to_owned());
    open.status = status(None, Some("open"));
    let plain = task("s3");
    let focus = task_focus_response(&TrackedTask { task: main, subtasks: vec![done, open, plain] });
    assert_eq!(focus.id, "m1");
    assert_eq!(focus.title, "Main");
    assert_eq!(focus.custom_id.as_deref(), Some("PROJ-1"));
    assert_eq!(focus.status.as_deref(), Some("in progress"));
    assert_eq!(focus.priority.as_deref(), Some("high"));
    assert_eq!(focus.due_date.as_deref(), Some("1700000000000"));
    assert_eq!(focus.total_subtasks, 3);
    assert_eq!(focus.completed_subtasks, 1);
    assert_eq!(focus.subtasks[0].status, "done");
    assert!(focus.subtasks[0].is_closed);
    assert_eq!(focus.subtasks[1].title, "Open one");
    assert_eq!(focus.subtasks[1].status, "Unknown");
    assert!(!focus.subtasks[1].is_closed);
    assert_eq!(focus.subtasks[2].title, "s3");
}
