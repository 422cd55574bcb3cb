//! Runtime configuration, as plain values. The process's argument parser
//! fills this in; the library only reads it.

use vstd::prelude::*;

verus! {

/// Service configuration.
pub struct Config {
    pub bot_token: String,
    pub db_name: String,
    /// Output channel for published posts.
    pub target_chat_id: i64,
    /// Senders outside this allow-list are rejected before any state change.
    pub allowed_sender_chats: Vec<i64>,
    /// Publish interval in milliseconds (absolute-deadline schedule).
    pub interval_ms: u64,
    /// Backlog size above which the scheduler switches to batched delivery;
    /// zero disables batching.
    pub group_threshold: i64,
    pub with_api: bool,
    pub api_port: Option<u16>,
    /// Relay chat for staged uploads.
    pub upload_chat_id: Option<i64>,
}

impl Clone for Config {
    fn clone(&self) -> (res: Self)
        ensures
            res.bot_token@ == self.bot_token@,
            res.db_name@ == self.db_name@,
            res.target_chat_id == self.target_chat_id,
            res.allowed_sender_chats@ == self.allowed_sender_chats@,
            res.interval_ms == self.interval_ms,
            res.group_threshold == self.group_threshold,
            res.with_api == self.with_api,
            res.api_port == self.api_port,
            res.upload_chat_id == self.upload_chat_id,
    {
        let mut chats: Vec<i64> = Vec::new();
        let mut i: usize = 0;
        while i < self.allowed_sender_chats.len()
            invariant
                i <= self.allowed_sender_chats@.len(),
                chats@ == self.allowed_sender_chats@.take(i as int),
            decreases self.allowed_sender_chats@.len() - i,
        {
            chats.push(self.allowed_sender_chats[i]);
            proof {
                assert(chats@ =~= self.allowed_sender_chats@.take(i + 1));
            }
            i = i + 1;
        }
        proof {
            assert(chats@ =~= self.allowed_sender_chats@);
        }
        Config {
            bot_token: self.bot_token.clone(),
            db_name: self.db_name.clone(),
            target_chat_id: self.target_chat_id,
            allowed_sender_chats: chats,
            interval_ms: self.interval_ms,
            group_threshold: self.group_threshold,
            with_api: self.with_api,
            api_port: self.api_port,
            upload_chat_id: self.upload_chat_id,
        }
    }
}

impl Config {
    /// Whether a sender chat is on the allow-list.
    pub fn sender_allowed(&self, chat_id: i64) -> (r: bool)
        ensures
            r == self.allowed_sender_chats@.contains(chat_id),
    {
        let mut i: usize = 0;
        while i < self.allowed_sender_chats.len()
            invariant
                i <= self.allowed_sender_chats@.len(),
                forall|j: int| 0 <= j < i ==> self.allowed_sender_chats@[j] != chat_id,
            decreases self.allowed_sender_chats@.len() - i,
        {
            if self.allowed_sender_chats[i] == chat_id {
                return true;
            }
            i = i + 1;
        }
        false
    }
}

} // verus!
