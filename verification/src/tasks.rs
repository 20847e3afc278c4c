//! ClickUp tasks: references, request parameters, the task data model and
//! the steps of tracking a task with its subtasks.

use vstd::prelude::*;

use crate::client::query_view;
use crate::json::JsonValue;
use crate::text::{
    decimal, lemma_decimal_digits, lemma_replace_absent, lemma_replace_after_prefix,
    lemma_replace_no_match, replace, replace_str, u64_to_string,
};

verus! {

/// The path template of the get-task request.
pub const GET_TASK_PATH: &'static str = "/api/v2/task/{task_id}";

/// The path template of the list-team-tasks request.
pub const LIST_TEAM_TASKS_PATH: &'static str = "/api/v2/team/{team_id}/task";

/// The path template of the move-task request.
pub const MOVE_TASK_V3_PATH: &'static str = "/api/v3/workspaces/{workspace_id}/tasks/{task_id}/home_list/{list_id}";

/// A `(name, value)` query pair whose texts are `name` and `value`.
pub open spec fn pair(name: &str, value: Seq<char>) -> (Seq<char>, Seq<char>) {
    (name@, value)
}

/// `s` holds a string whose text is `text`.
pub open spec fn text_is(s: Option<String>, text: Seq<char>) -> bool {
    match s {
        Some(t) => t@ == text,
        None => false,
    }
}

/// `seq![p]` when `b`, else the empty sequence.
pub open spec fn pair_if(b: bool, p: (Seq<char>, Seq<char>)) -> Seq<(Seq<char>, Seq<char>)> {
    if b {
        seq![p]
    } else {
        Seq::empty()
    }
}

/// Identifies a ClickUp task by its internal ID or by a custom task ID.
#[derive(Clone, Debug, Eq, PartialEq)]
pub enum TaskReference {
    /// A ClickUp-internal task ID (e.g. `"86abc123"`).
    Id(String),
    /// A custom task ID scoped to a workspace.
    CustomId {
        /// The ClickUp workspace (team) ID required to resolve the custom task ID.
        workspace_id: u64,
        /// The custom task ID (e.g. `"PROJ-42"`).
        custom_task_id: String,
    },
}

impl TaskReference {
    /// The ID that goes into the request path.
    pub open spec fn path_text(self) -> Seq<char> {
        match self {
            TaskReference::Id(t) => t@,
            TaskReference::CustomId { custom_task_id, .. } => custom_task_id@,
        }
    }

    /// The query pairs that identify the reference: none for an internal ID;
    /// `custom_task_ids=true` and `team_id=<workspace>` for a custom ID.
    pub open spec fn query_pairs(self) -> Seq<(Seq<char>, Seq<char>)> {
        match self {
            TaskReference::Id(_) => Seq::empty(),
            TaskReference::CustomId { workspace_id, .. } => seq![
                pair("custom_task_ids", "true"@),
                pair("team_id", decimal(workspace_id as nat)),
            ],
        }
    }

    /// Creates a reference by internal ClickUp task ID.
    pub fn id(task_id: &str) -> (r: Self)
        ensures
            r matches TaskReference::Id(t) && t@ == task_id@,
    {
        TaskReference::Id(task_id.to_owned())
    }

    /// Creates a reference by custom task ID within a workspace.
    pub fn custom_id(workspace_id: u64, custom_task_id: &str) -> (r: Self)
        ensures
            r matches TaskReference::CustomId { workspace_id: w, custom_task_id: t } && w
                == workspace_id && t@ == custom_task_id@,
    {
        TaskReference::CustomId { workspace_id, custom_task_id: custom_task_id.to_owned() }
    }

    /// Returns the workspace ID of a custom-ID reference.
    pub fn workspace_id(&self) -> (r: Option<u64>)
        ensures
            r == match *self {
                TaskReference::Id(_) => None,
                TaskReference::CustomId { workspace_id, .. } => Some(workspace_id),
            },
    {
        match self {
            TaskReference::Id(_) => None,
            TaskReference::CustomId { workspace_id, .. } => Some(*workspace_id),
        }
    }

    /// The ID that goes into the request path.
    pub fn path_value(&self) -> (r: &str)
        ensures
            r@ == self.path_text(),
    {
        match self {
            TaskReference::Id(task_id) => task_id.as_str(),
            TaskReference::CustomId { custom_task_id, .. } => custom_task_id.as_str(),
        }
    }

    /// Appends the query pairs that identify the reference.
    pub fn append_query(&self, query: &mut Vec<(String, String)>)
        ensures
            query_view(final(query)@) == query_view(old(query)@) + self.query_pairs(),
    {
        if let TaskReference::CustomId { workspace_id, .. } = self {
            query.push(("custom_task_ids".to_owned(), "true".to_owned()));
            query.push(("team_id".to_owned(), u64_to_string(*workspace_id)));
            assert(query_view(query@) =~= query_view(old(query)@) + self.query_pairs());
        } else {
            assert(query_view(query@) =~= query_view(old(query)@) + self.query_pairs());
        }
    }
}

/// Options for fetching a task.
#[derive(Clone, Copy, Debug, Default)]
pub struct GetTaskOptions {
    /// Include the task's subtasks in the response.
    pub include_subtasks: bool,
    /// Request the `markdown_description` field in addition to plain-text descriptions.
    pub include_markdown_description: bool,
}

/// Request parameters for listing the tasks of a workspace.
#[derive(Clone, Debug, Default)]
pub struct ListTeamTasksRequest {
    /// The ClickUp workspace (team) ID.
    pub workspace_id: u64,
    /// Filter to subtasks of this parent task ID.
    pub parent: Option<String>,
    /// Include tasks in closed statuses.
    pub include_closed: bool,
    /// Include subtasks in the listing.
    pub include_subtasks: bool,
    /// Request markdown descriptions.
    pub include_markdown_description: bool,
    /// Zero-based page number for paginated results.
    pub page: Option<u32>,
}

impl ListTeamTasksRequest {
    /// The query pairs of the request, in order: `parent`, `include_closed`,
    /// `subtasks`, `include_markdown_description`, `page`, each present only
    /// when set.
    pub open spec fn query_pairs(self) -> Seq<(Seq<char>, Seq<char>)> {
        (match self.parent {
            Some(p) => seq![pair("parent", p@)],
            None => Seq::empty(),
        }) + pair_if(self.include_closed, pair("include_closed", "true"@)) + pair_if(
            self.include_subtasks,
            pair("subtasks", "true"@),
        ) + pair_if(
            self.include_markdown_description,
            pair("include_markdown_description", "true"@),
        ) + (match self.page {
            Some(n) => seq![pair("page", decimal(n as nat))],
            None => Seq::empty(),
        })
    }

    /// Whether `r` asks for all subtasks of `parent` in `workspace_id`.
    pub open spec fn is_subtasks_request(r: Self, workspace_id: u64, parent: Seq<char>) -> bool {
        &&& r.workspace_id == workspace_id
        &&& text_is(r.parent, parent)
        &&& r.include_closed
        &&& r.include_subtasks
        &&& !r.include_markdown_description
        &&& r.page is None
    }

    /// Creates a request for all subtasks (closed ones included) of a parent task.
    pub fn for_subtasks(workspace_id: u64, parent: &str) -> (r: Self)
        ensures
            Self::is_subtasks_request(r, workspace_id, parent@),
    {
        ListTeamTasksRequest {
            workspace_id,
            parent: Some(parent.to_owned()),
            include_closed: true,
            include_subtasks: true,
            include_markdown_description: false,
            page: None,
        }
    }

    /// The query pairs of the request.
    pub fn to_query(&self) -> (r: Vec<(String, String)>)
        ensures
            query_view(r@) == self.query_pairs(),
    {
        let mut query: Vec<(String, String)> = Vec::new();
        if let Some(parent) = &self.parent {
            query.push(("parent".to_owned(), parent.clone()));
        }
        let ghost q1 = query_view(query@);
        if self.include_closed {
            query.push(("include_closed".to_owned(), "true".to_owned()));
        }
        let ghost q2 = query_view(query@);
        if self.include_subtasks {
            query.push(("subtasks".to_owned(), "true".to_owned()));
        }
        let ghost q3 = query_view(query@);
        if self.include_markdown_description {
            query.push(("include_markdown_description".to_owned(), "true".to_owned()));
        }
        let ghost q4 = query_view(query@);
        if let Some(page) = self.page {
            query.push(("page".to_owned(), u64_to_string(page as u64)));
        }
        proof {
            let p0 = match &self.parent {
                Some(p) => seq![pair("parent", p@)],
                None => Seq::<(Seq<char>, Seq<char>)>::empty(),
            };
            assert(q1 =~= p0);
            assert(q2 =~= q1 + pair_if(self.include_closed, pair("include_closed", "true"@)));
            assert(q3 =~= q2 + pair_if(self.include_subtasks, pair("subtasks", "true"@)));
            assert(q4 =~= q3 + pair_if(
                self.include_markdown_description,
                pair("include_markdown_description", "true"@),
            ));
            assert(query_view(query@) =~= self.query_pairs());
        }
        query
    }
}

/// Options for tracking a task with its subtasks.
#[derive(Clone, Copy, Debug, Default)]
pub struct TrackTaskOptions {
    /// Request markdown descriptions for the task and its subtasks.
    pub include_markdown_description: bool,
}

/// The status of a ClickUp task (e.g. `"in progress"`, `"done"`).
#[derive(Clone, Debug, Default)]
pub struct TaskStatus {
    /// Internal status ID.
    pub id: Option<String>,
    /// Human-readable status label.
    pub status: Option<String>,
    /// Hex colour associated with the status.
    pub color: Option<String>,
    /// Ordering index within the status list.
    pub orderindex: Option<JsonValue>,
    /// Status category (the API's `type`, e.g. `"open"`, `"closed"`).
    pub status_type: Option<String>,
}

/// The priority level of a ClickUp task.
#[derive(Clone, Debug, Default)]
pub struct TaskPriority {
    /// Hex colour for the priority level.
    pub color: Option<String>,
    /// Internal priority ID.
    pub id: Option<String>,
    /// Ordering index within the priority list.
    pub orderindex: Option<String>,
    /// Human-readable priority label (e.g. `"urgent"`, `"high"`).
    pub priority: Option<String>,
}

/// A minimal summary of a ClickUp user as embedded in task responses.
#[derive(Clone, Debug, Default)]
pub struct TaskUserSummary {
    /// The user's ClickUp ID; `-1` for system and automation users.
    pub id: Option<i64>,
    /// The user's display name.
    pub username: Option<String>,
    /// The user's profile colour.
    pub color: Option<String>,
    /// URL of the user's profile picture.
    pub profile_picture: Option<String>,
}

/// A reference to a ClickUp list, folder, or space embedded in a task.
#[derive(Clone, Debug, Default)]
pub struct TaskLocationRef {
    /// The ID of the referenced container.
    pub id: String,
    /// The display name of the referenced container.
    pub name: Option<String>,
}

/// A ClickUp task as returned by the v2 API. Members of the response that
/// are not modelled as fields are kept in `extra`, in key order.
#[derive(Clone, Debug)]
pub struct Task {
    /// The ClickUp-internal task ID.
    pub id: String,
    /// The custom task ID if one is configured for the workspace.
    pub custom_id: Option<String>,
    /// The task name.
    pub name: Option<String>,
    /// Plain-text content of the task description.
    pub text_content: Option<String>,
    /// Plain-text description.
    pub description: Option<String>,
    /// Markdown description, present when it was requested.
    pub markdown_description: Option<String>,
    /// Current task status.
    pub status: Option<TaskStatus>,
    /// Parent task ID if this is a subtask.
    pub parent: Option<String>,
    /// Task priority.
    pub priority: Option<TaskPriority>,
    /// Due date as a Unix timestamp string (milliseconds).
    pub due_date: Option<String>,
    /// Start date as a Unix timestamp string (milliseconds).
    pub start_date: Option<String>,
    /// Creation date as a Unix timestamp string (milliseconds).
    pub date_created: Option<String>,
    /// Last-updated date as a Unix timestamp string (milliseconds).
    pub date_updated: Option<String>,
    /// Date the task was closed, if applicable.
    pub date_closed: Option<String>,
    /// Date the task was marked done, if applicable.
    pub date_done: Option<String>,
    /// The ClickUp web URL of the task.
    pub url: Option<String>,
    /// The user who created the task.
    pub creator: Option<TaskUserSummary>,
    /// The list that holds the task.
    pub list: Option<TaskLocationRef>,
    /// The folder that holds the task.
    pub folder: Option<TaskLocationRef>,
    /// The space that holds the task.
    pub space: Option<TaskLocationRef>,
    /// Additional members of the response, in key order.
    pub extra: Vec<(String, JsonValue)>,
}

impl Task {
    /// The task name if there is one, else its ID.
    pub open spec fn display_text(self) -> Seq<char> {
        match self.name {
            Some(n) => n@,
            None => self.id@,
        }
    }

    /// Returns the task name if available, falling back to the task ID.
    pub fn display_name(&self) -> (r: &str)
        ensures
            r@ == self.display_text(),
    {
        match &self.name {
            Some(name) => name.as_str(),
            None => self.id.as_str(),
        }
    }
}

/// A page of tasks from a workspace listing.
#[derive(Clone, Debug, Default)]
pub struct TaskPage {
    /// The tasks in this page.
    pub tasks: Vec<Task>,
    /// `true` if there are no more pages after this one.
    pub last_page: bool,
}

/// A task together with its subtasks.
#[derive(Clone, Debug)]
pub struct TrackedTask {
    /// The primary task.
    pub task: Task,
    /// The subtasks of the primary task.
    pub subtasks: Vec<Task>,
}

/// Request body for moving a task to another list.
#[derive(Clone, Debug, Default)]
pub struct MoveTaskRequest {
    /// Whether to move custom field values along with the task.
    pub move_custom_fields: Option<bool>,
    /// Specific custom field IDs to move (only used when `move_custom_fields` is `false`).
    pub custom_fields_to_move: Vec<String>,
    /// Status mappings to apply when moving between lists with different statuses.
    pub status_mappings: Vec<StatusMapping>,
}

/// Maps a source status to a destination status when moving a task.
#[derive(Clone, Debug)]
pub struct StatusMapping {
    /// Status ID in the source list.
    pub source_status_id: String,
    /// Corresponding status ID in the destination list.
    pub destination_status_id: String,
}

/// The answer of the move-task endpoint.
#[derive(Clone, Debug)]
pub struct MoveTaskResponse {
    /// The outcome of the move operation.
    pub data: MoveTaskResult,
}

/// The outcome of moving a task.
#[derive(Clone, Debug)]
pub struct MoveTaskResult {
    /// The ID of the task that was moved.
    pub task_id: String,
    /// The ID of the list the task now belongs to.
    pub new_list_id: String,
}

/// The path and query of an API request.
#[derive(Clone, Debug)]
pub struct Endpoint {
    /// The path, relative to the API base URL.
    pub path: String,
    /// The query pairs, in order.
    pub query: Vec<(String, String)>,
}

/// The query of a get-task request: the reference's pairs, then
/// `include_subtasks=true` and `include_markdown_description=true` when asked for.
pub open spec fn get_task_query(reference: TaskReference, options: GetTaskOptions) -> Seq<
    (Seq<char>, Seq<char>),
> {
    reference.query_pairs() + pair_if(
        options.include_subtasks,
        pair("include_subtasks", "true"@),
    ) + pair_if(
        options.include_markdown_description,
        pair("include_markdown_description", "true"@),
    )
}

/// The request that fetches a single task: `GET /api/v2/task/{task_id}`.
pub fn get_task_endpoint(reference: &TaskReference, options: &GetTaskOptions) -> (r: Endpoint)
    ensures
        r.path@ == "/api/v2/task/"@ + reference.path_text(),
        query_view(r.query@) == get_task_query(*reference, *options),
{
    proof {
        reveal_strlit("{task_id}");
        lemma_get_task_path(reference.path_text());
    }
    let path = replace_str(GET_TASK_PATH, "{task_id}", reference.path_value());
    let mut query: Vec<(String, String)> = Vec::new();
    reference.append_query(&mut query);
    let ghost q1 = query_view(query@);
    if options.include_subtasks {
        query.push(("include_subtasks".to_owned(), "true".to_owned()));
    }
    let ghost q2 = query_view(query@);
    if options.include_markdown_description {
        query.push(("include_markdown_description".to_owned(), "true".to_owned()));
    }
    proof {
        assert(q1 =~= reference.query_pairs());
        assert(q2 =~= q1 + pair_if(options.include_subtasks, pair("include_subtasks", "true"@)));
        assert(query_view(query@) =~= get_task_query(*reference, *options));
    }
    Endpoint { path, query }
}

/// The request that lists workspace tasks: `GET /api/v2/team/{team_id}/task`.
pub fn list_team_tasks_endpoint(request: &ListTeamTasksRequest) -> (r: Endpoint)
    ensures
        r.path@ == "/api/v2/team/"@ + decimal(request.workspace_id as nat) + "/task"@,
        query_view(r.query@) == request.query_pairs(),
{
    proof {
        reveal_strlit("{team_id}");
        lemma_list_team_tasks_path(decimal(request.workspace_id as nat));
    }
    let team = u64_to_string(request.workspace_id);
    let path = replace_str(LIST_TEAM_TASKS_PATH, "{team_id}", team.as_str());
    Endpoint { path, query: request.to_query() }
}

/// The path of the v3 request that moves a task to another home list:
/// `POST /api/v3/workspaces/{workspace_id}/tasks/{task_id}/home_list/{list_id}`,
/// the placeholders replaced in that order.
pub fn move_task_v3_path(workspace_id: u64, task_id: &str, list_id: &str) -> (r: String)
    ensures
        r@ == replace(
            replace(
                replace(MOVE_TASK_V3_PATH@, "{workspace_id}"@, decimal(workspace_id as nat)),
                "{task_id}"@,
                task_id@,
            ),
            "{list_id}"@,
            list_id@,
        ),
{
    proof {
        reveal_strlit("{workspace_id}");
        reveal_strlit("{task_id}");
        reveal_strlit("{list_id}");
    }
    let workspace = u64_to_string(workspace_id);
    let step1 = replace_str(MOVE_TASK_V3_PATH, "{workspace_id}", workspace.as_str());
    let step2 = replace_str(step1.as_str(), "{task_id}", task_id);
    replace_str(step2.as_str(), "{list_id}", list_id)
}

/// The options of the get-task request that tracking a task makes: subtasks
/// included, markdown as the tracking options say.
pub fn track_task_get_options(options: &TrackTaskOptions) -> (r: GetTaskOptions)
    ensures
        r.include_subtasks,
        r.include_markdown_description == options.include_markdown_description,
{
    GetTaskOptions {
        include_subtasks: true,
        include_markdown_description: options.include_markdown_description,
    }
}

/// What tracking a task does once the task has been fetched.
#[derive(Debug)]
pub enum TrackTaskStep {
    /// The task came with its subtasks inline: tracking is done.
    Done(TrackedTask),
    /// The subtasks must be listed with `request`; they then complete `task`.
    FetchSubtasks {
        /// The fetched task.
        task: Task,
        /// The listing that yields its subtasks.
        request: ListTeamTasksRequest,
    },
}

/// Decides how tracking continues after the task was fetched: the inline
/// subtasks (those of the response's `subtasks` member) are used when there
/// are any; otherwise all subtasks of the task are listed, with markdown as
/// the tracking options say.
pub fn track_task_after_get(
    workspace_id: u64,
    task: Task,
    inline_subtasks: Vec<Task>,
    options: &TrackTaskOptions,
) -> (r: TrackTaskStep)
    ensures
        inline_subtasks.len() > 0 ==> r == TrackTaskStep::Done(
            (TrackedTask { task, subtasks: inline_subtasks }),
        ),
        inline_subtasks.len() == 0 ==> (r matches TrackTaskStep::FetchSubtasks { task: t, request }
            && t == task && request.workspace_id == workspace_id && text_is(request.parent, task.id@)
            && request.include_closed && request.include_subtasks
            && request.include_markdown_description == options.include_markdown_description
            && request.page is None),
{
    if inline_subtasks.len() > 0 {
        TrackTaskStep::Done(TrackedTask { task, subtasks: inline_subtasks })
    } else {
        let mut request = ListTeamTasksRequest::for_subtasks(workspace_id, task.id.as_str());
        request.include_markdown_description = options.include_markdown_description;
        TrackTaskStep::FetchSubtasks { task, request }
    }
}


/// The get-task path is `/api/v2/task/` followed by the task ID, whatever
/// the ID holds.
pub proof fn lemma_get_task_path(id: Seq<char>)
    ensures
        replace(GET_TASK_PATH@, "{task_id}"@, id) == "/api/v2/task/"@ + id,
{
    reveal_strlit("/api/v2/task/{task_id}");
    reveal_strlit("/api/v2/task/");
    reveal_strlit("{task_id}");
    let p = "/api/v2/task/"@;
    assert(GET_TASK_PATH@ =~= p + "{task_id}"@ + Seq::<char>::empty());
    lemma_replace_after_prefix(p, "{task_id}"@, Seq::empty(), id);
    assert(p + id + Seq::<char>::empty() =~= p + id);
}

/// The list-team-tasks path is `/api/v2/team/<workspace>/task`.
pub proof fn lemma_list_team_tasks_path(team: Seq<char>)
    ensures
        replace(LIST_TEAM_TASKS_PATH@, "{team_id}"@, team) == "/api/v2/team/"@ + team + "/task"@,
{
    reveal_strlit("/api/v2/team/{team_id}/task");
    reveal_strlit("/api/v2/team/");
    reveal_strlit("{team_id}");
    reveal_strlit("/task");
    let p = "/api/v2/team/"@;
    assert(LIST_TEAM_TASKS_PATH@ =~= p + "{team_id}"@ + "/task"@);
    lemma_replace_after_prefix(p, "{team_id}"@, "/task"@, team);
    lemma_replace_absent("/task"@, "{team_id}"@, team);
}


/// A subtasks request asks for the parent, closed tasks and subtasks, and
/// nothing else.
pub proof fn lemma_subtasks_request_query(r: ListTeamTasksRequest, workspace_id: u64, parent: Seq<char>)
    requires
        ListTeamTasksRequest::is_subtasks_request(r, workspace_id, parent),
    ensures
        r.query_pairs() == seq![
            pair("parent", parent),
            pair("include_closed", "true"@),
            pair("subtasks", "true"@),
        ],
{
    assert(r.query_pairs() =~= seq![
        pair("parent", parent),
        pair("include_closed", "true"@),
        pair("subtasks", "true"@),
    ]);
}


/// The get-task query asks for markdown descriptions exactly when the options
/// do, and for subtasks exactly when the options do, each independently of
/// the other and of the reference.
pub proof fn lemma_get_task_query_flags(reference: TaskReference, options: GetTaskOptions)
    ensures
        get_task_query(reference, options).contains(("include_markdown_description"@, "true"@))
            == options.include_markdown_description,
        get_task_query(reference, options).contains(("include_subtasks"@, "true"@))
            == options.include_subtasks,
{
    reveal_strlit("include_markdown_description");
    reveal_strlit("include_subtasks");
    reveal_strlit("custom_task_ids");
    reveal_strlit("team_id");
    let md = ("include_markdown_description"@, "true"@);
    let sub = ("include_subtasks"@, "true"@);
    let refs = reference.query_pairs();
    let flags = pair_if(options.include_subtasks, pair("include_subtasks", "true"@)) + pair_if(
        options.include_markdown_description,
        pair("include_markdown_description", "true"@),
    );
    let q = get_task_query(reference, options);
    assert(q =~= refs + flags);
    assert(md.0.len() == 28 && sub.0.len() == 16);
    assert(md != sub);
    assert(forall|i: int| 0 <= i < refs.len() ==> #[trigger] refs[i].0.len() == 15 || refs[i].0.len()
        == 7);
    assert forall|i: int| 0 <= i < q.len() && (q[i] == md || q[i] == sub) implies i >= refs.len()
        && (q[i] == md ==> options.include_markdown_description) && (q[i] == sub
        ==> options.include_subtasks) by {
        if i < refs.len() {
            assert(q[i] == refs[i]);
            assert(refs[i].0.len() == 15 || refs[i].0.len() == 7);
            assert(md.0.len() == 28 && sub.0.len() == 16);
        } else {
            assert(q[i] == flags[i - refs.len()]);
            if options.include_subtasks {
                if options.include_markdown_description {
                    assert(flags =~= seq![sub, md]);
                } else {
                    assert(flags =~= seq![sub]);
                }
            } else if options.include_markdown_description {
                assert(flags =~= seq![md]);
            } else {
                assert(flags =~= Seq::<(Seq<char>, Seq<char>)>::empty());
            }
        }
    }
    if options.include_markdown_description {
        assert(q[q.len() - 1] == md);
    }
    if options.include_subtasks {
        assert(q[refs.len() as int] == sub);
    }
}

/// The move-task path is
/// `/api/v3/workspaces/<workspace>/tasks/<task>/home_list/<list>` when the
/// task ID holds no `{` (otherwise a `{list_id}` inside it is replaced too).
pub proof fn lemma_move_task_path(workspace_id: u64, task_id: Seq<char>, list_id: Seq<char>)
    requires
        forall|i: int| 0 <= i < task_id.len() ==> task_id[i] != '{',
    ensures
        replace(
            replace(
                replace(MOVE_TASK_V3_PATH@, "{workspace_id}"@, decimal(workspace_id as nat)),
                "{task_id}"@,
                task_id,
            ),
            "{list_id}"@,
            list_id,
        ) == "/api/v3/workspaces/"@ + decimal(workspace_id as nat) + "/tasks/"@ + task_id
            + "/home_list/"@ + list_id,
{
    reveal_strlit("/api/v3/workspaces/{workspace_id}/tasks/{task_id}/home_list/{list_id}");
    reveal_strlit("/api/v3/workspaces/");
    reveal_strlit("{workspace_id}");
    reveal_strlit("/tasks/");
    reveal_strlit("{task_id}");
    reveal_strlit("/home_list/");
    reveal_strlit("{list_id}");
    let d = decimal(workspace_id as nat);
    lemma_decimal_digits(workspace_id as nat);
    let p1 = "/api/v3/workspaces/"@;
    let r1 = "/tasks/"@ + "{task_id}"@ + "/home_list/"@ + "{list_id}"@;
    assert(MOVE_TASK_V3_PATH@ =~= p1 + "{workspace_id}"@ + r1);
    lemma_replace_after_prefix(p1, "{workspace_id}"@, r1, d);
    lemma_replace_no_match(r1, "{workspace_id}"@, d);
    let s1 = p1 + d + r1;
    let p2 = p1 + d + "/tasks/"@;
    let r2 = "/home_list/"@ + "{list_id}"@;
    assert(s1 =~= p2 + "{task_id}"@ + r2);
    lemma_replace_after_prefix(p2, "{task_id}"@, r2, task_id);
    lemma_replace_no_match(r2, "{task_id}"@, task_id);
    let s2 = p2 + task_id + r2;
    let p3 = p2 + task_id + "/home_list/"@;
    assert(s2 =~= p3 + "{list_id}"@ + Seq::<char>::empty());
    assert forall|i: int| 0 <= i < p3.len() implies p3[i] != "{list_id}"@[0] by {
        if i >= p1.len() + d.len() + 7 && i < p1.len() + d.len() + 7 + task_id.len() {
            assert(p3[i] == task_id[i - p1.len() - d.len() - 7]);
        } else if i >= p1.len() && i < p1.len() + d.len() {
            assert(p3[i] == d[i - p1.len()]);
        }
    }
    lemma_replace_after_prefix(p3, "{list_id}"@, Seq::empty(), list_id);
    assert(p3 + list_id + Seq::<char>::empty() =~= p1 + d + "/tasks/"@ + task_id + "/home_list/"@
        + list_id);
}

} // verus!
