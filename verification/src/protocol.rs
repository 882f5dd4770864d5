//! Wire-level data carried between the relay client, the registry server
//! and the playback pipeline.

use vstd::prelude::*;

verus! {

/// Authentication material for a streaming session: a username together
/// with an opaque secret blob.  Immutable once captured; ownership moves
/// with the bundle and the secret is never copied out of it.
#[derive(Clone, Debug, PartialEq, Eq)]
pub struct Credentials {
    pub username: String,
    pub auth_type: i32,
    pub auth_data: Vec<u8>,
}

/// A pending credential bundle as posted to the registry endpoint: the
/// human-readable device label, the operator-facing relay key chosen by
/// the client, and the credentials themselves.
#[derive(Clone, Debug, PartialEq, Eq)]
pub struct ForwardCreds {
    pub device_name: String,
    pub key: String,
    pub creds: Credentials,
}

/// The debug rendering of a bundle: the device name, the key and the
/// username — never the secret blob.
pub open spec fn spec_forward_creds_summary(
    device_name: Seq<char>,
    key: Seq<char>,
    username: Seq<char>,
) -> Seq<char> {
    "ForwardCreds { device_name: "@ + device_name + ", key: "@ + key + ", creds: "@ + username
        + " }"@
}

/// What the relay server logs for a forwarded bundle: the device name
/// and the key, nothing else.
pub open spec fn spec_forward_creds_log_line(device_name: Seq<char>, key: Seq<char>) -> Seq<char> {
    "forwarded creds { device_name: "@ + device_name + ", key: "@ + key + " }"@
}

impl ForwardCreds {
    /// Debug rendering of the bundle.  The contract pins the result to a
    /// function of the device name, key and username alone, so the secret
    /// material cannot appear in it.
    pub fn summary(&self) -> (r: String)
        ensures
            r@ == spec_forward_creds_summary(self.device_name@, self.key@, self.creds.username@),
    {
        let mut s = String::from_str("ForwardCreds { device_name: ");
        s.append(self.device_name.as_str());
        s.append(", key: ");
        s.append(self.key.as_str());
        s.append(", creds: ");
        s.append(self.creds.username.as_str());
        s.append(" }");
        s
    }

    /// The relay server's log line for this bundle.  The contract pins the
    /// result to a function of the device name and the key alone: neither
    /// the username nor the secret material can appear in the server log.
    pub fn log_line(&self) -> (r: String)
        ensures
            r@ == spec_forward_creds_log_line(self.device_name@, self.key@),
    {
        let mut s = String::from_str("forwarded creds { device_name: ");
        s.append(self.device_name.as_str());
        s.append(", key: ");
        s.append(self.key.as_str());
        s.append(" }");
        s
    }
}

/// Title, artist list and album of the track a status event refers to.
#[derive(Clone, Debug, PartialEq, Eq)]
pub struct TrackInfo {
    pub name: String,
    pub artists: Vec<String>,
    pub album: String,
}

/// A playback status event: a closed tagged union with one case per
/// lifecycle state of the player.
#[derive(Clone, Debug, PartialEq, Eq)]
pub enum PlayerEvent {
    Playing(TrackInfo),
    Paused(TrackInfo),
    Stopped,
}

impl PlayerEvent {
    /// The explicit discriminant the wire codec tags each event with.
    pub fn kind_name(&self) -> (r: &'static str)
        ensures
            self is Playing ==> r@ == "Playing"@,
            self is Paused ==> r@ == "Paused"@,
            self is Stopped ==> r@ == "Stopped"@,
    {
        match self {
            PlayerEvent::Playing(_) => "Playing",
            PlayerEvent::Paused(_) => "Paused",
            PlayerEvent::Stopped => "Stopped",
        }
    }
}

} // verus!
