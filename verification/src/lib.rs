//! A ClickUp API client: authentication, task references, request
//! construction, response checking, and the task views shown by the command
//! line tool and the desktop app.
//!
//! Sending HTTP requests is the caller's part: the library builds each
//! request's URL and checks each response's status and body.

pub mod text;
pub mod json;
pub mod error;
pub mod api_url;
pub mod auth;
pub mod http;
pub mod client;
pub mod tasks;
pub mod focus;
pub mod cli;
pub mod docs;

pub use auth::{ClickUpAuth, ClickUpConfig, EnvVars};
pub use client::{ClickUpClient, ClickUpClientBuilder};
pub use error::{ClickUpError, Result};
pub use tasks::{
    GetTaskOptions, ListTeamTasksRequest, MoveTaskRequest, MoveTaskResponse, MoveTaskResult,
    StatusMapping, Task, TaskLocationRef, TaskPage, TaskPriority, TaskReference, TaskStatus,
    TaskUserSummary, TrackTaskOptions, TrackedTask,
};
