//! Threads: an authored post with a store-assigned surrogate id and a
//! creation instant.

use vstd::prelude::*;
use crate::clock::now_millis;
use crate::errors::AccountError;
use crate::store::{id_taken, AccountConfig};

verus! {

/// A thread row. The surrogate `id` is zero until the store assigns
/// one; `created_on` is milliseconds since the Unix epoch.
#[derive(Debug)]
pub struct Thread {
    pub id: u64,
    pub title: String,
    pub body: String,
    pub created_by: String,
    pub created_on: u64,
}

/// Holds a thread that is ready to be persisted.
#[derive(Debug)]
pub struct ThreadManager {
    pub thread: Thread,
}

impl ThreadManager {
    /// Persists the held thread in the store, which assigns its
    /// surrogate id: the title and body must be non-empty and the
    /// author must reference an existing account.
    pub fn save(&self, cfg: &mut AccountConfig) -> (r: Result<u64, AccountError>)
        requires
            old(cfg).wf(),
        ensures
            final(cfg).wf(),
            final(cfg).accounts@ == old(cfg).accounts@,
            final(cfg).sessions@ == old(cfg).sessions@,
            final(cfg).kdf_rounds == old(cfg).kdf_rounds,
            r is Ok <==> {
                &&& self.thread.title@.len() > 0
                &&& self.thread.body@.len() > 0
                &&& id_taken(old(cfg).accounts@, self.thread.created_by@)
                &&& old(cfg).next_thread_id < u64::MAX
            },
            r is Err ==> final(cfg).threads@ == old(cfg).threads@ && final(cfg).next_thread_id
                == old(cfg).next_thread_id,
            r matches Ok(id) ==> {
                &&& id == old(cfg).next_thread_id
                &&& final(cfg).next_thread_id == old(cfg).next_thread_id + 1
                &&& final(cfg).threads@.len() == old(cfg).threads@.len() + 1
                &&& forall|k: int|
                    0 <= k < old(cfg).threads@.len() ==> final(cfg).threads@[k] == old(
                        cfg,
                    ).threads@[k]
                &&& final(cfg).threads@.last().id == old(cfg).next_thread_id
                &&& final(cfg).threads@.last().title@ == self.thread.title@
                &&& final(cfg).threads@.last().body@ == self.thread.body@
                &&& final(cfg).threads@.last().created_by@ == self.thread.created_by@
                &&& final(cfg).threads@.last().created_on == self.thread.created_on
            },
    {
        cfg.create_thread(
            self.thread.title.as_str(),
            self.thread.body.as_str(),
            self.thread.created_by.as_str(),
            self.thread.created_on,
        )
    }
}

impl Thread {
    /// Assembles a thread authored by the given account at the current
    /// instant, ready to be persisted; the store assigns its id.
    pub fn new(title: &str, body: &str, created_by: &str) -> (m: ThreadManager)
        ensures
            m.thread.title@ == title@,
            m.thread.body@ == body@,
            m.thread.created_by@ == created_by@,
            m.thread.id == 0,
    {
        Thread::with_timestamp(title, body, created_by, now_millis())
    }

    /// As [`Thread::new`], with the creation instant chosen by the
    /// caller.
    pub fn with_timestamp(title: &str, body: &str, created_by: &str, now_ms: u64) -> (m:
        ThreadManager)
        ensures
            m.thread.title@ == title@,
            m.thread.body@ == body@,
            m.thread.created_by@ == created_by@,
            m.thread.created_on == now_ms,
            m.thread.id == 0,
    {
        ThreadManager {
            thread: Thread {
                id: 0,
                title: title.to_owned(),
                body: body.to_owned(),
                created_by: created_by.to_owned(),
                created_on: now_ms,
            },
        }
    }

    /// Returns the title of the thread.
    pub fn title(&self) -> (r: &String)
        ensures
            r == &self.title,
    {
        &self.title
    }

    /// Returns the body of the thread.
    pub fn body(&self) -> (r: &String)
        ensures
            r == &self.body,
    {
        &self.body
    }

    /// Returns the creation instant of the thread.
    pub fn created_on(&self) -> (r: u64)
        ensures
            r == self.created_on,
    {
        self.created_on
    }

    /// Returns the author's account id.
    pub fn created_by(&self) -> (r: &String)
        ensures
            r == &self.created_by,
    {
        &self.created_by
    }

    /// An owned copy of this thread, equal to it field by field.
    pub fn duplicate(&self) -> (r: Thread)
        ensures
            r == *self,
    {
        Thread {
            id: self.id,
            title: self.title.clone(),
            body: self.body.clone(),
            created_by: self.created_by.clone(),
            created_on: self.created_on,
        }
    }
}

} // verus!
