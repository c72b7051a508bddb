use vstd::prelude::*;

verus! {

/// What an assistant should be: its name and the model behind it.
#[derive(Debug, Clone, PartialEq, Eq)]
pub struct CreateConfig {
    pub name: String,
    pub model: String,
}

/// Identity of an assistant, as the service assigned it.
#[derive(Debug, Clone, PartialEq, Eq)]
pub struct AsstId(pub String);

/// Identity of a conversation (a thread) on the service.
#[derive(Debug, Clone, PartialEq, Eq)]
pub struct ThreadId(pub String);

/// Identity of a file uploaded to the service.
#[derive(Debug, Clone, PartialEq, Eq)]
pub struct FileId(pub String);

/// Identity of one run of an assistant over a thread.
#[derive(Debug, Clone, PartialEq, Eq)]
pub struct RunId(pub String);

/// The record kept on disk for the conversation in use.
#[derive(Debug, Clone, PartialEq, Eq)]
pub struct Conv {
    pub thread_id: ThreadId,
}

impl CreateConfig {
    pub fn duplicate(&self) -> (r: CreateConfig)
        ensures
            r == *self,
    {
        CreateConfig { name: self.name.clone(), model: self.model.clone() }
    }
}

impl AsstId {
    pub fn duplicate(&self) -> (r: AsstId)
        ensures
            r == *self,
    {
        AsstId(self.0.clone())
    }
}

impl ThreadId {
    pub fn duplicate(&self) -> (r: ThreadId)
        ensures
            r == *self,
    {
        ThreadId(self.0.clone())
    }
}

impl RunId {
    pub fn duplicate(&self) -> (r: RunId)
        ensures
            r == *self,
    {
        RunId(self.0.clone())
    }
}

impl Conv {
    pub fn duplicate(&self) -> (r: Conv)
        ensures
            r == *self,
    {
        Conv { thread_id: self.thread_id.duplicate() }
    }
}

impl From<ThreadId> for Conv {
    fn from(thread_id: ThreadId) -> (r: Conv) {
        Conv { thread_id }
    }
}

impl vstd::std_specs::convert::FromSpecImpl<ThreadId> for Conv {
    open spec fn obeys_from_spec() -> bool {
        true
    }

    open spec fn from_spec(thread_id: ThreadId) -> Conv {
        Conv { thread_id }
    }
}

} // verus!
