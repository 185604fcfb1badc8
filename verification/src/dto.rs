//! Wire types between client and server. The protocol is internal and
//! unversioned; the stable contracts are the CLI's arguments, its JSON
//! output, and its exit codes.
use vstd::prelude::*;
use vstd::string::*;

use crate::detail::TaskDetail;
use crate::status::{TaskOrigin, TaskStatus};
use crate::task::{Task, TaskId};

verus! {

/// `POST /tasks`: a root task (`human add`) or a child (`agent add`).
#[derive(Debug, Clone, PartialEq, Eq)]
pub struct CreateTaskRequest {
    pub title: String,
    pub description: Option<String>,
    pub parent_id: Option<TaskId>,
    /// `human add` sets this; `agent add` always sends `Agent`.
    pub origin: TaskOrigin,
    /// `human add --self` clears this to keep the task out of the agent queue.
    pub agent_eligible: bool,
    pub sources: Vec<String>,
}

/// The value `agent_eligible` takes when a request leaves it out.
pub fn default_true() -> (b: bool)
    ensures
        b,
{
    true
}

/// `GET /tasks/{id}`: the task, its payload (never absent), and its children.
#[derive(Debug, Clone, PartialEq, Eq)]
pub struct TaskView {
    pub task: Task,
    pub detail: TaskDetail,
    pub children: Vec<Task>,
}

/// `GET /tasks` filters.
#[derive(Debug, Clone, Copy, PartialEq, Eq, Structural)]
pub struct ListQuery {
    /// `agent` selects the agent queue.
    pub queue: Option<Queue>,
    pub status: Option<TaskStatus>,
    /// Include `done` and `cancelled`, and bypass the queue filter.
    pub all: bool,
}

impl Default for ListQuery {
    fn default() -> (q: ListQuery)
        ensures
            q.queue is None,
            q.status is None,
            !q.all,
    {
        ListQuery { queue: None, status: None, all: false }
    }
}

#[derive(Debug, Clone, Copy, PartialEq, Eq, Structural)]
pub enum Queue {
    Agent,
    Human,
}

#[derive(Debug, Clone, PartialEq, Eq)]
pub struct TaskListResponse {
    pub tasks: Vec<Task>,
}

/// `POST /tasks` response. The CLI prints just the id.
#[derive(Debug, Clone, Copy, PartialEq, Eq, Structural)]
pub struct CreatedTask {
    pub id: TaskId,
}

/// `DELETE /tasks/{id}` query.
#[derive(Debug, Clone, Copy, PartialEq, Eq, Structural)]
pub struct DeleteQuery {
    /// Required when the task has children, which cascade.
    pub force: bool,
}

impl Default for DeleteQuery {
    fn default() -> (q: DeleteQuery)
        ensures
            !q.force,
    {
        DeleteQuery { force: false }
    }
}

#[derive(Debug, Clone, PartialEq, Eq)]
pub struct DeletedTask {
    pub id: TaskId,
    /// Child ids removed by the cascade.
    pub cascaded: Vec<TaskId>,
}

/// `GET /health`: the server and each store.
#[derive(Debug, Clone, PartialEq, Eq)]
pub struct HealthResponse {
    pub server: ComponentHealth,
    pub postgres: ComponentHealth,
    pub mongo: ComponentHealth,
}

impl HealthResponse {
    /// Whether the server and both stores are up.
    pub fn all_ok(&self) -> (b: bool)
        ensures
            b == (self.server.ok && self.postgres.ok && self.mongo.ok),
    {
        self.server.ok && self.postgres.ok && self.mongo.ok
    }
}

/// One component's health. `message` is present only on failure, and names
/// what broke.
#[derive(Debug, Clone, PartialEq, Eq)]
pub struct ComponentHealth {
    pub ok: bool,
    pub version: Option<String>,
    pub message: Option<String>,
}

impl ComponentHealth {
    pub fn ok() -> (h: ComponentHealth)
        ensures
            h.ok,
            h.version is None,
            h.message is None,
    {
        ComponentHealth { ok: true, version: None, message: None }
    }

    pub fn ok_with_version(version: &str) -> (h: ComponentHealth)
        ensures
            h.ok,
            h.version matches Some(v) && v@ == version@,
            h.message is None,
    {
        ComponentHealth { ok: true, version: Some(String::from_str(version)), message: None }
    }

    pub fn failed(message: &str) -> (h: ComponentHealth)
        ensures
            !h.ok,
            h.version is None,
            h.message matches Some(m) && m@ == message@,
    {
        ComponentHealth { ok: false, version: None, message: Some(String::from_str(message)) }
    }
}

} // verus!
