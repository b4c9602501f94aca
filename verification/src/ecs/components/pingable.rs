use vstd::prelude::*;

verus! {

/// The last ping a player sent, as the client's own timestamp.
pub struct Pingable {
    pub name: String,
    pub timestamp: i64,
}

impl Pingable {
    /// Records the timestamp of the player's latest ping.
    pub fn ping(&mut self, timestamp: i64)
        ensures
            final(self).name == old(self).name,
            final(self).timestamp == timestamp,
    {
        self.timestamp = timestamp;
    }
}

} // verus!
