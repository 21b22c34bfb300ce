//! The local socket: how it is set up and which peers it lets in.

use crate::text::{decimal, decimal_string};
use vstd::prelude::*;
use vstd::string::*;

verus! {

/// The mode of the socket's file: read and write for owner and group.
pub const SOCKET_MODE: u32 = 0o660;

/// The user id of root.
pub const ROOT_UID: u32 = 0;

/// A connection whose peer was let in.
#[derive(Clone, Copy, Debug, PartialEq, Eq, Structural)]
pub struct AuthenticatedConnection {
    pub peer_uid: u32,
    pub peer_gid: u32,
    /// Seconds since the epoch at which the connection was accepted.
    pub accepted_at: u64,
}

/// One step of bringing the socket up.
#[derive(Clone, Copy, Debug, PartialEq, Eq, Structural)]
pub enum StartupStep {
    CreateSocketDir,
    UnlinkStaleSocket,
    Bind,
    SetMode(u32),
    Chown(u32, u32),
    Accept,
}

/// A peer is let in where it is the expected user or root.
pub open spec fn is_trusted_peer(peer_uid: u32, expected_uid: u32) -> bool {
    peer_uid == expected_uid || peer_uid == 0
}

/// The steps that bring the socket up, in order: the directory is made where
/// it is missing, a stale socket is unlinked where there is one, and then the
/// socket is bound, set to `0o660`, given to the peer and listened on.
pub open spec fn startup_sequence(dir_exists: bool, stale_socket: bool, uid: u32, gid: u32) -> Seq<
    StartupStep,
> {
    (if dir_exists {
        Seq::<StartupStep>::empty()
    } else {
        seq![StartupStep::CreateSocketDir]
    }) + (if stale_socket {
        seq![StartupStep::UnlinkStaleSocket]
    } else {
        Seq::<StartupStep>::empty()
    }) + seq![
        StartupStep::Bind,
        StartupStep::SetMode(0o660),
        StartupStep::Chown(uid, gid),
        StartupStep::Accept,
    ]
}

/// Whatever is found at startup, the socket is bound exactly once, after the
/// directory is there and a stale socket is gone, and before its mode and
/// owner are set; accepting comes last.
pub proof fn lemma_startup_order(dir_exists: bool, stale_socket: bool, uid: u32, gid: u32)
    ensures
        ({
            let steps = startup_sequence(dir_exists, stale_socket, uid, gid);
            let bind = (if dir_exists {
                0int
            } else {
                1int
            }) + (if stale_socket {
                1int
            } else {
                0int
            });
            &&& steps.len() == bind + 4
            &&& steps[bind] == StartupStep::Bind
            &&& steps[bind + 1] == StartupStep::SetMode(0o660)
            &&& steps[bind + 2] == StartupStep::Chown(uid, gid)
            &&& steps[bind + 3] == StartupStep::Accept
            &&& (!dir_exists ==> steps[0] == StartupStep::CreateSocketDir)
            &&& (stale_socket ==> steps[bind - 1] == StartupStep::UnlinkStaleSocket)
            &&& forall|i: int| 0 <= i < steps.len() && i != bind ==> steps[i] != StartupStep::Bind
        }),
{
}

/// The warning that a refused peer leaves in the log.
pub open spec fn rejection_text(peer_uid: u32, peer_gid: u32) -> Seq<char> {
    "SECURITY ALERT: Unauthorized connection from UID "@ + decimal(peer_uid as int) + " (GID "@
        + decimal(peer_gid as int) + ")"@
}

/// Tells whether a peer is let in.
pub fn peer_allowed(peer_uid: u32, expected_uid: u32) -> (b: bool)
    ensures
        b == is_trusted_peer(peer_uid, expected_uid),
{
    peer_uid == expected_uid || peer_uid == ROOT_UID
}

/// Lets a connection in by its peer's credentials, or refuses it. Every
/// connection that comes out has the expected user or root as its peer.
pub fn authenticate(peer_uid: u32, peer_gid: u32, now: u64, expected_uid: u32) -> (r: Option<
    AuthenticatedConnection,
>)
    ensures
        is_trusted_peer(peer_uid, expected_uid) ==> r == Some(
            (AuthenticatedConnection { peer_uid, peer_gid, accepted_at: now }),
        ),
        !is_trusted_peer(peer_uid, expected_uid) ==> r is None,
        r is Some ==> r.unwrap().peer_uid == expected_uid || r.unwrap().peer_uid == 0,
{
    if peer_allowed(peer_uid, expected_uid) {
        Some(AuthenticatedConnection { peer_uid, peer_gid, accepted_at: now })
    } else {
        None
    }
}

/// Words the warning for a refused peer, with its user and group ids.
pub fn rejection_warning(peer_uid: u32, peer_gid: u32) -> (r: String)
    ensures
        r@ == rejection_text(peer_uid, peer_gid),
{
    let mut r = String::from_str("SECURITY ALERT: Unauthorized connection from UID ");
    let uid = decimal_string(peer_uid as i64);
    let gid = decimal_string(peer_gid as i64);
    r.append(uid.as_str());
    r.append(" (GID ");
    r.append(gid.as_str());
    r.append(")");
    r
}

/// Lists the steps that bring the socket up.
pub fn startup_steps(dir_exists: bool, stale_socket: bool, uid: u32, gid: u32) -> (r: Vec<
    StartupStep,
>)
    ensures
        r@ == startup_sequence(dir_exists, stale_socket, uid, gid),
{
    let mut steps: Vec<StartupStep> = Vec::new();
    if !dir_exists {
        steps.push(StartupStep::CreateSocketDir);
    }
    if stale_socket {
        steps.push(StartupStep::UnlinkStaleSocket);
    }
    steps.push(StartupStep::Bind);
    steps.push(StartupStep::SetMode(SOCKET_MODE));
    steps.push(StartupStep::Chown(uid, gid));
    steps.push(StartupStep::Accept);
    assert(steps@ =~= startup_sequence(dir_exists, stale_socket, uid, gid));
    steps
}

} // verus!
