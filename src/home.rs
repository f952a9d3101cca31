//! A record binding a direct-message channel to the human on its other end.
use vstd::prelude::*;

verus! {

/// A channel, and the user that was attached to it, if any.
#[derive(Clone, Copy, Debug, PartialEq, Eq, Structural)]
pub struct HumanHomeChannel {
    channel_id: u64,
    user_id: Option<u64>,
}

impl HumanHomeChannel {
    /// The channel this record is about.
    pub closed spec fn channel(&self) -> u64 {
        self.channel_id
    }

    /// The user attached to the channel, if one was.
    pub closed spec fn user(&self) -> Option<u64> {
        self.user_id
    }

    /// A record for `channel_id` with no user attached yet.
    pub fn new(channel_id: u64) -> (r: HumanHomeChannel)
        ensures
            r.channel() == channel_id,
            r.user() == None::<u64>,
    {
        HumanHomeChannel { channel_id, user_id: None }
    }

    /// Attaches `user_id` to the channel, replacing any earlier user.
    pub fn set_user_id(&mut self, user_id: u64)
        ensures
            final(self).channel() == old(self).channel(),
            final(self).user() == Some(user_id),
    {
        self.user_id = Some(user_id);
    }

    pub fn get_user_id(&self) -> (r: Option<u64>)
        ensures
            r == self.user(),
    {
        self.user_id
    }

    pub fn get_channel_id(&self) -> (r: u64)
        ensures
            r == self.channel(),
    {
        self.channel_id
    }
}

} // verus!
