//! The binding of a task to a repository worktree and branch.
use crate::ids::{ProjectId, TaskId};
use vstd::prelude::*;

verus! {

/// Lifecycle of a task-to-worktree mapping.
#[derive(Debug, Clone, Copy, PartialEq, Eq, Hash, Structural)]
pub enum MappingState {
    Pending,
    Active,
    Released,
}

/// A task bound to one repository worktree and branch.
#[derive(Debug, Clone)]
pub struct TaskWorkspaceMapping {
    pub project_id: ProjectId,
    pub task_id: TaskId,
    pub repository_id: String,
    pub worktree_id: String,
    pub branch: String,
    pub state: MappingState,
}

impl TaskWorkspaceMapping {
    pub fn new(
        project_id: ProjectId,
        task_id: TaskId,
        repository_id: String,
        worktree_id: String,
        branch: String,
        state: MappingState,
    ) -> (r: Self)
        ensures
            r == (TaskWorkspaceMapping {
                project_id,
                task_id,
                repository_id,
                worktree_id,
                branch,
                state,
            }),
    {
        TaskWorkspaceMapping { project_id, task_id, repository_id, worktree_id, branch, state }
    }

    pub fn state(&self) -> (r: MappingState)
        ensures
            r == self.state,
    {
        self.state
    }

    pub fn project_id(&self) -> (r: ProjectId)
        ensures
            r == self.project_id,
    {
        self.project_id
    }

    pub fn task_id(&self) -> (r: TaskId)
        ensures
            r == self.task_id,
    {
        self.task_id
    }

    pub fn repository_id(&self) -> (r: &str)
        ensures
            r@ == self.repository_id@,
    {
        self.repository_id.as_str()
    }

    pub fn worktree_id(&self) -> (r: &str)
        ensures
            r@ == self.worktree_id@,
    {
        self.worktree_id.as_str()
    }

    pub fn branch(&self) -> (r: &str)
        ensures
            r@ == self.branch@,
    {
        self.branch.as_str()
    }
}

} // verus!
