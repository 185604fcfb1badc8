//! The detail document: a task's free-form-shaped payload.
use vstd::prelude::*;
use vstd::string::*;

use crate::error::CrewError;
use crate::task::{TaskId, Timestamp};
use crate::text::{decimal, i64_decimal};

verus! {

/// Schema version written by this build. Readers reject anything else rather
/// than guessing at the shape.
pub const SCHEMA_VERSION: i32 = 1;

/// A task's payload. A task without details has no document at all; read
/// paths render that as [`TaskDetail::empty_for`], never as nothing.
#[derive(Debug, Clone, PartialEq, Eq)]
pub struct TaskDetail {
    pub task_id: TaskId,
    pub schema_version: i32,
    pub description: String,
    pub notes: Vec<Note>,
    pub sources: Vec<Source>,
    pub contacts: Vec<Contact>,
    pub summary: Option<String>,
    pub created_at: Timestamp,
    pub updated_at: Timestamp,
}

#[derive(Debug, Clone, PartialEq, Eq)]
pub struct Note {
    pub author: String,
    pub body: String,
    pub at: Timestamp,
}

#[derive(Debug, Clone, PartialEq, Eq)]
pub struct Source {
    pub url: String,
    pub title: Option<String>,
    pub retrieved_at: Timestamp,
}

/// Reserved: no command fills it yet.
#[derive(Debug, Clone, PartialEq, Eq)]
pub struct Contact {
    pub name: String,
    pub phone: Option<String>,
    pub email: Option<String>,
    pub url: Option<String>,
}

impl TaskDetail {
    /// The fully-defaulted document for a task that has none.
    pub open spec fn is_empty_for(self, task_id: TaskId, now: Timestamp) -> bool {
        &&& self.task_id == task_id
        &&& self.schema_version == SCHEMA_VERSION
        &&& self.description@ == Seq::<char>::empty()
        &&& self.notes@ == Seq::<Note>::empty()
        &&& self.sources@ == Seq::<Source>::empty()
        &&& self.contacts@ == Seq::<Contact>::empty()
        &&& self.summary is None
        &&& self.created_at == now
        &&& self.updated_at == now
    }

    /// The value a read path yields when no document exists.
    pub fn empty_for(task_id: TaskId, now: Timestamp) -> (d: TaskDetail)
        ensures
            d.is_empty_for(task_id, now),
    {
        TaskDetail {
            task_id,
            schema_version: SCHEMA_VERSION,
            description: String::new(),
            notes: Vec::new(),
            sources: Vec::new(),
            contacts: Vec::new(),
            summary: None,
            created_at: now,
            updated_at: now,
        }
    }

    /// Accepts a document read from the store only if it has the schema
    /// version this build writes.
    pub fn check_version(self) -> (r: Result<TaskDetail, CrewError>)
        ensures
            r is Ok <==> self.schema_version == SCHEMA_VERSION,
            r matches Ok(d) ==> d == self,
            r matches Err(e) ==> e is Validation && e.display_text()
                == "unsupported detail schema_version "@ + decimal(self.schema_version as int),
    {
        if self.schema_version == SCHEMA_VERSION {
            Ok(self)
        } else {
            let mut m = String::from_str("unsupported detail schema_version ");
            let digits = i64_decimal(self.schema_version as i64);
            m.append(digits.as_str());
            Err(CrewError::Validation(m))
        }
    }
}

} // verus!
