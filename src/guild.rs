use vstd::prelude::*;

verus! {

/// A guild's event settings: its events channel and the role to mention on new posts.
pub struct LfgGuildRow {
    pub id: i64,
    pub channel_id: i64,
    pub role_id: Option<i64>,
}

impl LfgGuildRow {
    pub fn channel_id(&self) -> (r: i64)
        ensures
            r == self.channel_id,
    {
        self.channel_id
    }

    pub fn role_id(&self) -> (r: Option<i64>)
        ensures
            r == self.role_id,
    {
        self.role_id
    }
}

/// A message elsewhere that mirrors a post.
pub struct LfgMessageRow {
    pub id: i64,
    pub channel_id: i64,
    pub post_id: i64,
}

impl LfgMessageRow {
    pub fn new(id: i64, channel_id: i64, post_id: i64) -> (r: Self)
        ensures
            r.id == id,
            r.channel_id == channel_id,
            r.post_id == post_id,
    {
        LfgMessageRow { id, channel_id, post_id }
    }

    pub fn message_id(&self) -> (r: i64)
        ensures
            r == self.id,
    {
        self.id
    }

    pub fn channel_id(&self) -> (r: i64)
        ensures
            r == self.channel_id,
    {
        self.channel_id
    }

    pub fn post_id(&self) -> (r: i64)
        ensures
            r == self.post_id,
    {
        self.post_id
    }
}

} // verus!
