//! The "task focus" view of the desktop app: a task, its subtasks, and the
//! values of its custom fields rendered as text.

use vstd::prelude::*;

use crate::json::{array_of, bool_of, field, get_str, lookup, lookup_entry, str_field, JsonValue};
use crate::tasks::{Task, TaskLocationRef, TrackedTask};
use crate::text::{join, join_strings, lemma_trim_idempotent, str_eq, trim, trim_str, views};

verus! {

/// `Some(t)` when `t` is not empty.
pub open spec fn non_empty(t: Seq<char>) -> Option<Seq<char>> {
    if t.len() > 0 {
        Some(t)
    } else {
        None
    }
}

/// The index of the first member of `es` named `key`.
pub open spec fn member_index(es: Seq<(String, JsonValue)>, key: Seq<char>) -> Option<int>
    decreases es.len(),
{
    if es.len() == 0 {
        None
    } else if es[0].0@ == key {
        Some(0)
    } else {
        match member_index(es.drop_first(), key) {
            Some(i) => Some(i + 1),
            None => None,
        }
    }
}

/// `ts` joined by `sep`; nothing when `ts` is empty.
pub open spec fn joined_or_none(ts: Seq<Seq<char>>, sep: Seq<char>) -> Option<Seq<char>> {
    if ts.len() == 0 {
        None
    } else {
        Some(join(ts, sep))
    }
}

/// The shown texts of the first `n` elements of `items`, in order, leaving
/// out the elements that are not shown.
pub open spec fn display_texts(items: Seq<JsonValue>, n: int) -> Seq<Seq<char>>
    decreases items, n,
{
    if n <= 0 || n > items.len() {
        Seq::empty()
    } else {
        display_texts(items, n - 1) + match display_text(items[n - 1]) {
            Some(t) => seq![t],
            None => Seq::empty(),
        }
    }
}

/// How a JSON value is shown as a field value: booleans as `Yes`/`No`,
/// numbers as their text, strings trimmed (nothing when empty), arrays as
/// the shown elements joined by `, ` (nothing when none is shown), objects
/// by their `label`, `name`, `username` or `email` member (the first that
/// shows), else as `current / total`; `null` is not shown.
pub open spec fn display_text(v: JsonValue) -> Option<Seq<char>>
    decreases v, 0int,
{
    match v {
        JsonValue::Null => None,
        JsonValue::Bool(b) => Some(
            if b {
                "Yes"@
            } else {
                "No"@
            },
        ),
        JsonValue::Number(n) => Some(n@),
        JsonValue::String(s) => non_empty(trim(s@)),
        JsonValue::Array(items) => joined_or_none(display_texts(items@, items@.len() as int), ", "@),
        JsonValue::Object(entries) => {
            let es = entries@;
            let shown = |key: Seq<char>|
                match member_index(es, key) {
                    Some(i) => if 0 <= i < es.len() {
                        display_text(es[i].1)
                    } else {
                        None
                    },
                    None => None,
                };
            match shown("label"@) {
                Some(t) => Some(t),
                None => match shown("name"@) {
                    Some(t) => Some(t),
                    None => match shown("username"@) {
                        Some(t) => Some(t),
                        None => match shown("email"@) {
                            Some(t) => Some(t),
                            None => match (shown("current"@), shown("total"@)) {
                                (Some(c), Some(t)) => Some(c + " / "@ + t),
                                _ => None,
                            },
                        },
                    },
                },
            }
        },
    }
}


/// How the member `key` of an object with members `es` is shown, when it is.
pub open spec fn shown_member(es: Seq<(String, JsonValue)>, key: Seq<char>) -> Option<Seq<char>> {
    match member_index(es, key) {
        Some(i) => if 0 <= i < es.len() {
            display_text(es[i].1)
        } else {
            None
        },
        None => None,
    }
}

/// `member_index` finds the first member with the key.
pub proof fn lemma_member_index(es: Seq<(String, JsonValue)>, key: Seq<char>)
    ensures
        member_index(es, key) matches Some(i) ==> 0 <= i < es.len() && es[i].0@ == key && forall|
            j: int,
        |
            0 <= j < i ==> es[j].0@ != key,
        member_index(es, key) is None ==> forall|j: int| 0 <= j < es.len() ==> es[j].0@ != key,
        lookup(es, key) == match member_index(es, key) {
            Some(i) => Some(es[i].1),
            None => None,
        },
    decreases es.len(),
{
    if es.len() > 0 && es[0].0@ != key {
        lemma_member_index(es.drop_first(), key);
        if let Some(i) = member_index(es.drop_first(), key) {
            assert forall|j: int| 0 <= j < i + 1 implies es[j].0@ != key by {
                if j > 0 {
                    assert(es[j] == es.drop_first()[j - 1]);
                }
            }
        } else {
            assert forall|j: int| 0 <= j < es.len() implies es[j].0@ != key by {
                if j > 0 {
                    assert(es[j] == es.drop_first()[j - 1]);
                }
            }
        }
    }
}

/// The position of the first member named `key`.
fn member_position(entries: &Vec<(String, JsonValue)>, key: &str) -> (r: Option<usize>)
    ensures
        r matches Some(i) ==> member_index(entries@, key@) == Some(i as int),
        r is None ==> member_index(entries@, key@) is None,
{
    proof {
        lemma_member_index(entries@, key@);
    }
    let mut i: usize = 0;
    while i < entries.len()
        invariant
            i <= entries.len(),
            forall|j: int| 0 <= j < i ==> entries@[j].0@ != key@,
            member_index(entries@, key@) matches Some(m) ==> i <= m && m < entries@.len()
                && entries@[m].0@ == key@ && forall|j: int| 0 <= j < m ==> entries@[j].0@ != key@,
            member_index(entries@, key@) is None ==> forall|j: int|
                0 <= j < entries@.len() ==> entries@[j].0@ != key@,
        decreases entries.len() - i,
    {
        if crate::text::str_eq(entries[i].0.as_str(), key) {
            return Some(i);
        }
        i = i + 1;
    }
    None
}

fn member_display(entries: &Vec<(String, JsonValue)>, key: &str) -> (r: Option<String>)
    ensures
        r matches Some(s) ==> shown_member(entries@, key@) == Some(s@),
        r is None ==> shown_member(entries@, key@) is None,
    decreases entries,
{
    proof {
        lemma_member_index(entries@, key@);
    }
    match member_position(entries, key) {
        Some(i) => {
            proof {
                assert(decreases_to!(*entries => entries@[i as int]));
                assert(decreases_to!(entries@[i as int] => entries@[i as int].1));
            }
            display_value(&entries[i].1)
        },
        None => None,
    }
}

/// Shows a JSON value as a field value (see [`display_text`]).
pub fn display_value(value: &JsonValue) -> (r: Option<String>)
    ensures
        r matches Some(s) ==> display_text(*value) == Some(s@),
        r is None ==> display_text(*value) is None,
    decreases value,
{
    match value {
        JsonValue::Null => None,
        JsonValue::Bool(b) => Some(
            if *b {
                "Yes".to_owned()
            } else {
                "No".to_owned()
            },
        ),
        JsonValue::Number(n) => Some(n.clone()),
        JsonValue::String(s) => {
            let trimmed = trim_str(s.as_str());
            if trimmed.as_str().is_empty() {
                None
            } else {
                Some(trimmed)
            }
        },
        JsonValue::Array(items) => {
            let mut shown: Vec<String> = Vec::new();
            let mut i: usize = 0;
            while i < items.len()
                invariant
                    *value == JsonValue::Array(*items),
                    i <= items.len(),
                    views(shown@) == display_texts(items@, i as int),
                decreases items.len() - i,
            {
                proof {
                    assert(value->Array_0 == *items);
                    assert(decreases_to!(*value => *items));
                }
                let item = display_value(&items[i]);
                match item {
                    Some(t) => {
                        shown.push(t);
                        assert(views(shown@) =~= display_texts(items@, i + 1));
                    },
                    None => {
                        assert(views(shown@) =~= display_texts(items@, i + 1));
                    },
                }
                i = i + 1;
            }
            if shown.len() == 0 {
                None
            } else {
                Some(join_strings(&shown, ", "))
            }
        },
        JsonValue::Object(entries) => {
            assert(display_text(*value) == match shown_member(entries@, "label"@) {
                Some(t) => Some(t),
                None => match shown_member(entries@, "name"@) {
                    Some(t) => Some(t),
                    None => match shown_member(entries@, "username"@) {
                        Some(t) => Some(t),
                        None => match shown_member(entries@, "email"@) {
                            Some(t) => Some(t),
                            None => match (shown_member(entries@, "current"@), shown_member(entries@, "total"@)) {
                                (Some(c), Some(t)) => Some(c + " / "@ + t),
                                _ => None,
                            },
                        },
                    },
                },
            });
            let label = member_display(entries, "label");
            if label.is_some() {
                return label;
            }
            let name = member_display(entries, "name");
            if name.is_some() {
                return name;
            }
            let username = member_display(entries, "username");
            if username.is_some() {
                return username;
            }
            let email = member_display(entries, "email");
            if email.is_some() {
                return email;
            }
            let current = member_display(entries, "current");
            let total = member_display(entries, "total");
            match (current, total) {
                (Some(c), Some(t)) => Some(c.concat(" / ").concat(t.as_str())),
                _ => None,
            }
        },
    }
}


/// The present results of `f` on the first `n` elements of `items`, in
/// order (`filter_map`).
pub open spec fn filter_map_json<A>(
    items: Seq<JsonValue>,
    n: int,
    f: spec_fn(JsonValue) -> Option<A>,
) -> Seq<A>
    decreases n,
{
    if n <= 0 || n > items.len() {
        Seq::empty()
    } else {
        filter_map_json(items, n - 1, f) + match f(items[n - 1]) {
            Some(a) => seq![a],
            None => Seq::empty(),
        }
    }
}

/// The text that an option is looked up by: a string's text or a number's text.
pub open spec fn needle_of(v: JsonValue) -> Option<Seq<char>> {
    match v {
        JsonValue::String(s) => Some(s@),
        JsonValue::Number(n) => Some(n@),
        _ => None,
    }
}

/// The option's `id`, `orderindex`, `name` or `label` string is `needle`.
pub open spec fn option_matches(option: JsonValue, needle: Seq<char>) -> bool {
    ||| str_field(option, "id"@) == Some(needle)
    ||| str_field(option, "orderindex"@) == Some(needle)
    ||| str_field(option, "name"@) == Some(needle)
    ||| str_field(option, "label"@) == Some(needle)
}

/// The option's `name` string, else its `label` string, trimmed; nothing
/// when that is empty.
pub open spec fn option_name(option: JsonValue) -> Option<Seq<char>> {
    let raw = match str_field(option, "name"@) {
        Some(n) => Some(n),
        None => str_field(option, "label"@),
    };
    match raw {
        Some(t) => non_empty(trim(t)),
        None => None,
    }
}

/// The name of the first option that matches `needle` and has a name.
pub open spec fn first_option_name(options: Seq<JsonValue>, needle: Seq<char>) -> Option<Seq<char>>
    decreases options.len(),
{
    if options.len() == 0 {
        None
    } else {
        let here = if option_matches(options[0], needle) {
            option_name(options[0])
        } else {
            None
        };
        match here {
            Some(t) => Some(t),
            None => first_option_name(options.drop_first(), needle),
        }
    }
}

/// The label of the option that a field value selects.
pub open spec fn option_label_text(value: JsonValue, options: Seq<JsonValue>) -> Option<Seq<char>> {
    match needle_of(value) {
        Some(n) => first_option_name(options, n),
        None => None,
    }
}

/// Returns the label of the option that `value` selects among `options`:
/// the first option whose `id`, `orderindex`, `name` or `label` equals the
/// value's text and whose name (or label) is not blank.
pub fn option_label(value: &JsonValue, options: &[JsonValue]) -> (r: Option<String>)
    ensures
        r matches Some(s) ==> option_label_text(*value, options@) == Some(s@),
        r is None ==> option_label_text(*value, options@) is None,
{
    let needle: &str = match value {
        JsonValue::String(inner) => inner.as_str(),
        JsonValue::Number(inner) => inner.as_str(),
        _ => return None,
    };
    let mut i: usize = 0;
    assert(options@.skip(0) =~= options@);
    while i < options.len()
        invariant
            i <= options@.len(),
            needle_of(*value) == Some(needle@),
            first_option_name(options@, needle@) == first_option_name(options@.skip(i as int), needle@),
        decreases options.len() - i,
    {
        let option = &options[i];
        let ghost rest = options@.skip(i as int);
        assert(rest[0] == options@[i as int]);
        assert(rest.drop_first() =~= options@.skip(i + 1));
        let mut matches = false;
        if let Some(candidate) = get_str(option, "id") {
            matches = str_eq(candidate, needle);
        }
        if !matches {
            if let Some(candidate) = get_str(option, "orderindex") {
                matches = str_eq(candidate, needle);
            }
        }
        if !matches {
            if let Some(candidate) = get_str(option, "name") {
                matches = str_eq(candidate, needle);
            }
        }
        if !matches {
            if let Some(candidate) = get_str(option, "label") {
                matches = str_eq(candidate, needle);
            }
        }
        assert(matches == option_matches(*option, needle@));
        if matches {
            let raw = match get_str(option, "name") {
                Some(n) => Some(n),
                None => get_str(option, "label"),
            };
            if let Some(raw) = raw {
                let trimmed = trim_str(raw);
                if !trimmed.as_str().is_empty() {
                    return Some(trimmed);
                }
            }
        }
        i = i + 1;
    }
    None
}

/// The labels that the elements of an array value select, in order.
pub open spec fn option_labels(values: Seq<JsonValue>, options: Seq<JsonValue>) -> Seq<Seq<char>> {
    filter_map_json(values, values.len() as int, |v: JsonValue| option_label_text(v, options))
}

/// How a field value reads through the field's options: for an array, the
/// labels of its elements joined by `, ` (nothing when none has one); for
/// another value, its label. Nothing when the field has no `options` array.
pub open spec fn resolved_option_text(value: JsonValue, type_config: Option<JsonValue>) -> Option<Seq<char>> {
    match type_config {
        None => None,
        Some(tc) => match array_of(field(tc, "options"@)) {
            None => None,
            Some(options) => match value {
                JsonValue::Array(values) => joined_or_none(option_labels(values@, options), ", "@),
                _ => option_label_text(value, options),
            },
        },
    }
}

/// Resolves a field value through the options of the field's `type_config`.
pub fn resolve_custom_field_option(value: &JsonValue, type_config: Option<&JsonValue>) -> (r: Option<String>)
    ensures
        r matches Some(s) ==> resolved_option_text(*value, match type_config {
            Some(tc) => Some(*tc),
            None => None,
        }) == Some(s@),
        r is None ==> resolved_option_text(*value, match type_config {
            Some(tc) => Some(*tc),
            None => None,
        }) is None,
{
    let tc = match type_config {
        Some(tc) => tc,
        None => return None,
    };
    let options = match tc.get("options") {
        Some(o) => match o.as_array() {
            Some(a) => a,
            None => return None,
        },
        None => return None,
    };
    match value {
        JsonValue::Array(values) => {
            let mut labels: Vec<String> = Vec::new();
            let mut i: usize = 0;
            while i < values.len()
                invariant
                    i <= values.len(),
                    views(labels@) == filter_map_json(
                        values@,
                        i as int,
                        |v: JsonValue| option_label_text(v, options@),
                    ),
                decreases values.len() - i,
            {
                match option_label(&values[i], options.as_slice()) {
                    Some(label) => {
                        labels.push(label);
                        assert(views(labels@) =~= filter_map_json(
                            values@,
                            i + 1,
                            |v: JsonValue| option_label_text(v, options@),
                        ));
                    },
                    None => {},
                }
                i = i + 1;
            }
            if labels.len() == 0 {
                None
            } else {
                Some(join_strings(&labels, ", "))
            }
        },
        _ => option_label(value, options.as_slice()),
    }
}

/// How a custom field's value is shown: through its options when one is
/// selected, else as [`display_text`] shows it; trimmed, nothing when blank
/// or when the field has no `value`.
pub open spec fn field_value_text(f: JsonValue) -> Option<Seq<char>> {
    match field(f, "value"@) {
        None => None,
        Some(v) => {
            let raw = match resolved_option_text(v, field(f, "type_config"@)) {
                Some(t) => Some(t),
                None => display_text(v),
            };
            match raw {
                Some(t) => non_empty(trim(t)),
                None => None,
            }
        },
    }
}

/// Shows the value of a custom field (see [`field_value_text`]).
pub fn custom_field_value(f: &JsonValue) -> (r: Option<String>)
    ensures
        r matches Some(s) ==> field_value_text(*f) == Some(s@),
        r is None ==> field_value_text(*f) is None,
{
    let value = match f.get("value") {
        Some(v) => v,
        None => return None,
    };
    let raw = match resolve_custom_field_option(value, f.get("type_config")) {
        Some(t) => Some(t),
        None => display_value(value),
    };
    match raw {
        Some(t) => {
            let trimmed = trim_str(t.as_str());
            if trimmed.as_str().is_empty() {
                None
            } else {
                Some(trimmed)
            }
        },
        None => None,
    }
}

/// A custom field as the task focus view lists it.
#[derive(Debug)]
pub struct TaskFocusField {
    /// The field's name, trimmed.
    pub name: String,
    /// The field's value as text.
    pub value: String,
    /// Whether the field is required.
    pub required: bool,
}

/// The `(name, value, required)` of a listed field.
pub open spec fn field_model(ff: TaskFocusField) -> (Seq<char>, Seq<char>, bool) {
    (ff.name@, ff.value@, ff.required)
}

/// How a custom field is listed: its trimmed `name` (when not blank), its
/// shown value (when there is one) and whether `required` is `true`.
pub open spec fn focus_field_model(f: JsonValue) -> Option<(Seq<char>, Seq<char>, bool)> {
    match str_field(f, "name"@) {
        None => None,
        Some(n) => if trim(n).len() == 0 {
            None
        } else {
            match field_value_text(f) {
                None => None,
                Some(v) => Some((trim(n), v, bool_of(field(f, "required"@)) == Some(true))),
            }
        },
    }
}

/// Reads a custom field of a task for the focus view (see [`focus_field_model`]).
pub fn custom_field(f: &JsonValue) -> (r: Option<TaskFocusField>)
    ensures
        r matches Some(ff) ==> focus_field_model(*f) == Some(field_model(ff)),
        r is None ==> focus_field_model(*f) is None,
{
    let raw_name = match get_str(f, "name") {
        Some(n) => n,
        None => return None,
    };
    let name = trim_str(raw_name);
    if name.as_str().is_empty() {
        return None;
    }
    let value = match custom_field_value(f) {
        Some(v) => v,
        None => return None,
    };
    let required = match f.get("required") {
        Some(x) => match x.as_bool() {
            Some(b) => b,
            None => false,
        },
        None => false,
    };
    Some(TaskFocusField { name, value, required })
}

/// The listed custom fields of a task: the first eight of its
/// `custom_fields` array that [`focus_field_model`] lists.
pub open spec fn key_field_models(task: Task) -> Seq<(Seq<char>, Seq<char>, bool)> {
    match lookup(task.extra@, "custom_fields"@) {
        Some(JsonValue::Array(items)) => {
            let all = filter_map_json(items@, items@.len() as int, |f: JsonValue| focus_field_model(f));
            all.take(if all.len() < 8 { all.len() as int } else { 8 })
        },
        _ => Seq::empty(),
    }
}

/// The models of a sequence of listed fields.
pub open spec fn field_models(fs: Seq<TaskFocusField>) -> Seq<(Seq<char>, Seq<char>, bool)> {
    fs.map_values(|ff: TaskFocusField| field_model(ff))
}

/// Lists up to eight custom fields of a task (see [`key_field_models`]).
pub fn key_fields(task: &Task) -> (r: Vec<TaskFocusField>)
    ensures
        field_models(r@) == key_field_models(*task),
        r@.len() <= 8,
{
    let items = match lookup_entry(&task.extra, "custom_fields") {
        Some(JsonValue::Array(items)) => items,
        _ => {
            let r: Vec<TaskFocusField> = Vec::new();
            assert(field_models(r@) =~= key_field_models(*task));
            return r;
        },
    };
    let ghost f = |f: JsonValue| focus_field_model(f);
    let mut out: Vec<TaskFocusField> = Vec::new();
    let mut i: usize = 0;
    while i < items.len()
        invariant
            i <= items.len(),
            out@.len() <= 8,
            f == (|f: JsonValue| focus_field_model(f)),
            field_models(out@) == filter_map_json(items@, i as int, f).take(
                if filter_map_json(items@, i as int, f).len() < 8 {
                    filter_map_json(items@, i as int, f).len() as int
                } else {
                    8
                },
            ),
        decreases items.len() - i,
    {
        let ghost before = filter_map_json(items@, i as int, f);
        let ghost old_out = out@;
        let field = custom_field(&items[i]);
        let ghost after = filter_map_json(items@, i + 1, f);
        match field {
            Some(ff) => {
                assert(after =~= before.push(field_model(ff)));
                if out.len() < 8 {
                    assert(field_models(out@).len() == out@.len());
                    assert(before.len() < 8);
                    assert(field_models(out@) =~= before);
                    let ghost m = field_model(ff);
                    out.push(ff);
                    assert(field_models(out@) =~= field_models(out@.drop_last()).push(m));
                    assert(out@.drop_last() =~= old_out);
                    assert(field_models(out@) =~= after.take(
                        if after.len() < 8 {
                            after.len() as int
                        } else {
                            8
                        },
                    ));
                } else {
                    assert(field_models(out@) =~= after.take(8));
                }
            },
            None => {
                assert(after =~= before);
            },
        }
        i = i + 1;
    }
    out
}

/// How an assignee is listed: their `username` string, else their `email`
/// string, trimmed; nothing when that is blank.
pub open spec fn assignee_text(a: JsonValue) -> Option<Seq<char>> {
    let raw = match str_field(a, "username"@) {
        Some(u) => Some(u),
        None => str_field(a, "email"@),
    };
    match raw {
        Some(t) => non_empty(trim(t)),
        None => None,
    }
}

/// The listed assignees of a task, from its `assignees` array.
pub open spec fn assignee_texts(task: Task) -> Seq<Seq<char>> {
    match lookup(task.extra@, "assignees"@) {
        Some(JsonValue::Array(items)) => filter_map_json(
            items@,
            items@.len() as int,
            |a: JsonValue| assignee_text(a),
        ),
        _ => Seq::empty(),
    }
}

/// Lists the names of a task's assignees (see [`assignee_text`]).
pub fn assignee_names(task: &Task) -> (r: Vec<String>)
    ensures
        views(r@) == assignee_texts(*task),
{
    let items = match lookup_entry(&task.extra, "assignees") {
        Some(JsonValue::Array(items)) => items,
        _ => {
            let r: Vec<String> = Vec::new();
            assert(views(r@) =~= assignee_texts(*task));
            return r;
        },
    };
    let mut out: Vec<String> = Vec::new();
    let mut i: usize = 0;
    while i < items.len()
        invariant
            i <= items.len(),
            views(out@) == filter_map_json(items@, i as int, |a: JsonValue| assignee_text(a)),
        decreases items.len() - i,
    {
        let a = &items[i];
        let raw = match get_str(a, "username") {
            Some(u) => Some(u),
            None => get_str(a, "email"),
        };
        if let Some(raw) = raw {
            let trimmed = trim_str(raw);
            if !trimmed.as_str().is_empty() {
                out.push(trimmed);
            }
        }
        assert(views(out@) =~= filter_map_json(items@, i + 1, |a: JsonValue| assignee_text(a)));
        i = i + 1;
    }
    out
}


/// The text of an optional string.
pub open spec fn opt_view(o: Option<String>) -> Option<Seq<char>> {
    match o {
        Some(s) => Some(s@),
        None => None,
    }
}

/// Copies an optional string.
pub fn copy_opt(o: &Option<String>) -> (r: Option<String>)
    ensures
        opt_view(r) == opt_view(*o),
{
    match o {
        Some(s) => Some(s.clone()),
        None => None,
    }
}

/// A task's description for the focus view: its markdown description, else
/// its description, else its text content, trimmed; nothing when blank.
pub open spec fn summary_text(task: Task) -> Option<Seq<char>> {
    let raw = match task.markdown_description {
        Some(t) => Some(t@),
        None => match task.description {
            Some(t) => Some(t@),
            None => opt_view(task.text_content),
        },
    };
    match raw {
        Some(t) => non_empty(trim(t)),
        None => None,
    }
}

/// Returns a task's description for the focus view (see [`summary_text`]).
pub fn task_summary(task: &Task) -> (r: Option<String>)
    ensures
        opt_view(r) == summary_text(*task),
{
    let raw = match &task.markdown_description {
        Some(t) => Some(t),
        None => match &task.description {
            Some(t) => Some(t),
            None => match &task.text_content {
                Some(t) => Some(t),
                None => None,
            },
        },
    };
    match raw {
        Some(t) => {
            let trimmed = trim_str(t.as_str());
            if trimmed.as_str().is_empty() {
                None
            } else {
                Some(trimmed)
            }
        },
        None => None,
    }
}

/// The name of a location, as a sequence of zero or one segment.
pub open spec fn location_segment(l: Option<TaskLocationRef>) -> Seq<Seq<char>> {
    match l {
        Some(loc) => match loc.name {
            Some(n) => seq![n@],
            None => Seq::empty(),
        },
        None => Seq::empty(),
    }
}

/// Where a task lives: the names of its space, folder and list that are
/// known, joined by ` / `; nothing when none is.
pub open spec fn path_text(task: Task) -> Option<Seq<char>> {
    joined_or_none(
        location_segment(task.space) + location_segment(task.folder) + location_segment(task.list),
        " / "@,
    )
}

fn push_location_name(segments: &mut Vec<String>, l: &Option<TaskLocationRef>)
    ensures
        views(final(segments)@) == views(old(segments)@) + location_segment(*l),
{
    if let Some(loc) = l {
        if let Some(name) = &loc.name {
            segments.push(name.clone());
        }
    }
    assert(views(segments@) =~= views(old(segments)@) + location_segment(*l));
}

/// Returns where a task lives (see [`path_text`]).
pub fn task_path(task: &Task) -> (r: Option<String>)
    ensures
        opt_view(r) == path_text(*task),
{
    let mut segments: Vec<String> = Vec::new();
    push_location_name(&mut segments, &task.space);
    push_location_name(&mut segments, &task.folder);
    push_location_name(&mut segments, &task.list);
    assert(views(segments@) =~= location_segment(task.space) + location_segment(task.folder)
        + location_segment(task.list));
    if segments.len() == 0 {
        None
    } else {
        Some(join_strings(&segments, " / "))
    }
}

/// The name of a location reference is `name`.
pub open spec fn location_named(l: Option<TaskLocationRef>, name: Seq<char>) -> bool {
    match l {
        Some(loc) => match loc.name {
            Some(n) => n@ == name,
            None => false,
        },
        None => false,
    }
}

/// A task's location path goes from the outermost container inward: with its
/// space, folder and list all named, it is the space's name, ` / `, the
/// folder's name, ` / `, the list's name.
pub proof fn lemma_task_path_outermost_first(
    task: Task,
    space: Seq<char>,
    folder: Seq<char>,
    list: Seq<char>,
)
    requires
        location_named(task.space, space),
        location_named(task.folder, folder),
        location_named(task.list, list),
    ensures
        path_text(task) == Some(space + " / "@ + folder + " / "@ + list),
{
    let parts = location_segment(task.space) + location_segment(task.folder) + location_segment(
        task.list,
    );
    assert(parts =~= seq![space, folder, list]);
    assert(parts.drop_last() =~= seq![space, folder]);
    assert(parts.drop_last().drop_last() =~= seq![space]);
    assert(join(parts.drop_last().drop_last(), " / "@) == space);
    assert(join(parts.drop_last(), " / "@) == space + " / "@ + folder);
    assert(join(parts, " / "@) == space + " / "@ + folder + " / "@ + list);
}

/// Without a named space, the path is the folder's name, ` / `, the list's
/// name: the folder still comes before the list that it holds.
pub proof fn lemma_task_path_folder_before_list(task: Task, folder: Seq<char>, list: Seq<char>)
    requires
        location_segment(task.space).len() == 0,
        location_named(task.folder, folder),
        location_named(task.list, list),
    ensures
        path_text(task) == Some(folder + " / "@ + list),
{
    let parts = location_segment(task.space) + location_segment(task.folder) + location_segment(
        task.list,
    );
    assert(location_segment(task.space) =~= Seq::<Seq<char>>::empty());
    assert(parts =~= seq![folder, list]);
    assert(parts.drop_last() =~= seq![folder]);
    assert(join(parts.drop_last(), " / "@) == folder);
    assert(join(parts, " / "@) == folder + " / "@ + list);
}

/// A subtask as the task focus view lists it.
#[derive(Debug)]
pub struct TaskFocusSubtask {
    /// The subtask's ID.
    pub id: String,
    /// The subtask's display name.
    pub title: String,
    /// The subtask's status label, `"Unknown"` when it has none.
    pub status: String,
    /// Whether the subtask's status is of type `closed`.
    pub is_closed: bool,
}

/// The status label of a task, if it has one.
pub open spec fn status_label(task: Task) -> Option<Seq<char>> {
    match task.status {
        Some(st) => opt_view(st.status),
        None => None,
    }
}

/// The task's status is of type `closed`.
pub open spec fn is_closed_task(task: Task) -> bool {
    match task.status {
        Some(st) => opt_view(st.status_type) == Some("closed"@),
        None => false,
    }
}

/// How a subtask is listed: `(id, title, status, is_closed)`.
pub open spec fn subtask_model(task: Task) -> (Seq<char>, Seq<char>, Seq<char>, bool) {
    (
        task.id@,
        task.display_text(),
        match status_label(task) {
            Some(s) => s,
            None => "Unknown"@,
        },
        is_closed_task(task),
    )
}

/// The `(id, title, status, is_closed)` of a listed subtask.
pub open spec fn subtask_view(s: TaskFocusSubtask) -> (Seq<char>, Seq<char>, Seq<char>, bool) {
    (s.id@, s.title@, s.status@, s.is_closed)
}

/// The number of closed subtasks among `s`.
pub open spec fn count_closed(s: Seq<TaskFocusSubtask>) -> nat
    decreases s.len(),
{
    if s.len() == 0 {
        0
    } else {
        count_closed(s.drop_last()) + if s.last().is_closed {
            1nat
        } else {
            0nat
        }
    }
}

/// Lists a subtask for the focus view (see [`subtask_model`]).
pub fn focus_subtask(task: &Task) -> (r: TaskFocusSubtask)
    ensures
        subtask_view(r) == subtask_model(*task),
{
    let status = match &task.status {
        Some(st) => match &st.status {
            Some(s) => s.clone(),
            None => "Unknown".to_owned(),
        },
        None => "Unknown".to_owned(),
    };
    let is_closed = match &task.status {
        Some(st) => match &st.status_type {
            Some(t) => str_eq(t.as_str(), "closed"),
            None => false,
        },
        None => false,
    };
    TaskFocusSubtask {
        id: task.id.clone(),
        title: task.display_name().to_owned(),
        status,
        is_closed,
    }
}

/// The task focus view of a task and its subtasks.
#[derive(Debug)]
pub struct TaskFocusResponse {
    /// The task's ID.
    pub id: String,
    /// The task's custom ID.
    pub custom_id: Option<String>,
    /// The task's display name.
    pub title: String,
    /// The task's status label.
    pub status: Option<String>,
    /// The task's priority label.
    pub priority: Option<String>,
    /// The task's description (see [`summary_text`]).
    pub description: Option<String>,
    /// Where the task lives (see [`path_text`]).
    pub path_label: Option<String>,
    /// Due date.
    pub due_date: Option<String>,
    /// Start date.
    pub start_date: Option<String>,
    /// Creation date.
    pub created_at: Option<String>,
    /// Last-updated date.
    pub updated_at: Option<String>,
    /// The names of the assignees.
    pub assignees: Vec<String>,
    /// Up to eight custom fields.
    pub key_fields: Vec<TaskFocusField>,
    /// The subtasks.
    pub subtasks: Vec<TaskFocusSubtask>,
    /// How many subtasks are closed.
    pub completed_subtasks: usize,
    /// How many subtasks there are.
    pub total_subtasks: usize,
}

/// The priority label of a task, if it has one.
pub open spec fn priority_label(task: Task) -> Option<Seq<char>> {
    match task.priority {
        Some(p) => opt_view(p.priority),
        None => None,
    }
}

/// Builds the task focus view of a task and its subtasks: the task's fields, its
/// subtasks in order, and how many of them are closed.
pub fn task_focus_response(fetched: &TrackedTask) -> (r: TaskFocusResponse)
    ensures
        r.id@ == fetched.task.id@,
        opt_view(r.custom_id) == opt_view(fetched.task.custom_id),
        r.title@ == fetched.task.display_text(),
        opt_view(r.status) == status_label(fetched.task),
        opt_view(r.priority) == priority_label(fetched.task),
        opt_view(r.description) == summary_text(fetched.task),
        opt_view(r.path_label) == path_text(fetched.task),
        opt_view(r.due_date) == opt_view(fetched.task.due_date),
        opt_view(r.start_date) == opt_view(fetched.task.start_date),
        opt_view(r.created_at) == opt_view(fetched.task.date_created),
        opt_view(r.updated_at) == opt_view(fetched.task.date_updated),
        views(r.assignees@) == assignee_texts(fetched.task),
        field_models(r.key_fields@) == key_field_models(fetched.task),
        r.subtasks@.len() == fetched.subtasks@.len(),
        forall|k: int|
            0 <= k < r.subtasks@.len() ==> subtask_view(#[trigger] r.subtasks@[k]) == subtask_model(
                fetched.subtasks@[k],
            ),
        r.total_subtasks == r.subtasks@.len(),
        r.completed_subtasks == count_closed(r.subtasks@),
        r.completed_subtasks <= r.total_subtasks,
{
    let task = &fetched.task;
    let mut subtasks: Vec<TaskFocusSubtask> = Vec::new();
    let mut completed: usize = 0;
    let mut i: usize = 0;
    while i < fetched.subtasks.len()
        invariant
            i <= fetched.subtasks@.len(),
            subtasks@.len() == i,
            forall|k: int|
                0 <= k < i ==> subtask_view(#[trigger] subtasks@[k]) == subtask_model(
                    fetched.subtasks@[k],
                ),
            completed == count_closed(subtasks@),
            completed <= i,
        decreases fetched.subtasks.len() - i,
    {
        let s = focus_subtask(&fetched.subtasks[i]);
        let closed = s.is_closed;
        let ghost before = subtasks@;
        subtasks.push(s);
        assert(subtasks@.drop_last() =~= before);
        if closed {
            completed = completed + 1;
        }
        i = i + 1;
    }
    let status = match &task.status {
        Some(st) => copy_opt(&st.status),
        None => None,
    };
    let priority = match &task.priority {
        Some(p) => copy_opt(&p.priority),
        None => None,
    };
    let total = subtasks.len();
    TaskFocusResponse {
        id: task.id.clone(),
        custom_id: copy_opt(&task.custom_id),
        title: task.display_name().to_owned(),
        status,
        priority,
        description: task_summary(task),
        path_label: task_path(task),
        due_date: copy_opt(&task.due_date),
        start_date: copy_opt(&task.start_date),
        created_at: copy_opt(&task.date_created),
        updated_at: copy_opt(&task.date_updated),
        assignees: assignee_names(task),
        key_fields: key_fields(task),
        subtasks,
        completed_subtasks: completed,
        total_subtasks: total,
    }
}


/// A listed custom field has a non-empty, trimmed name and value.
pub proof fn lemma_focus_field_trimmed(f: JsonValue)
    ensures
        focus_field_model(f) matches Some(m) ==> m.0.len() > 0 && trim(m.0) == m.0 && m.1.len() > 0
            && trim(m.1) == m.1,
{
    if let Some(n) = str_field(f, "name"@) {
        lemma_trim_idempotent(n);
    }
    if let Some(v) = field(f, "value"@) {
        let raw = match resolved_option_text(v, field(f, "type_config"@)) {
            Some(t) => Some(t),
            None => display_text(v),
        };
        if let Some(t) = raw {
            lemma_trim_idempotent(t);
        }
    }
}

} // verus!
