//! Redeeming an invite.

use crate::grpc::client::error_viewed;
use crate::grpc::error::{GrpcError, GrpcErrorView};
use crate::invite::Invite;
use vstd::prelude::*;

verus! {

/// The user behind a redeemed invite.
pub struct AcceptedInvite {
    pub user_id: String,
}

/// An invite as the server takes it.
#[derive(Debug, Clone)]
pub struct InviteToken {
    pub v: i32,
    pub jti: String,
    pub uuid: String,
    pub device_id: Option<String>,
    pub server: String,
    pub ts: i64,
    pub eph_pub: String,
    pub sig: String,
    pub un: Option<String>,
    pub ttl: Option<u32>,
}

/// The token for an invite: the same fields.
pub fn invite_token(invite: &Invite) -> (r: InviteToken)
    ensures
        r.v == invite.v,
        r.jti == invite.jti,
        r.uuid == invite.uuid,
        r.device_id == Some(invite.device_id),
        r.server == invite.server,
        r.ts == invite.ts,
        r.eph_pub == invite.eph_key,
        r.sig == invite.sig,
        r.un == invite.un,
        r.ttl == invite.ttl,
{
    let un = match &invite.un {
        Some(un) => Some(un.clone()),
        None => None,
    };
    InviteToken {
        v: invite.v as i32,
        jti: invite.jti.clone(),
        uuid: invite.uuid.clone(),
        device_id: Some(invite.device_id.clone()),
        server: invite.server.clone(),
        ts: invite.ts,
        eph_pub: invite.eph_key.clone(),
        sig: invite.sig.clone(),
        un,
        ttl: invite.ttl,
    }
}

/// The user in the reply. A reply without one is an error.
pub fn accept_invite(user_id: String) -> (r: Result<AcceptedInvite, GrpcError>)
    ensures
        error_viewed(r) == (if user_id@.len() == 0 {
            Err::<AcceptedInvite, GrpcErrorView>(
                GrpcErrorView::Transport("AcceptInvite empty user_id"@),
            )
        } else {
            Ok::<AcceptedInvite, GrpcErrorView>(AcceptedInvite { user_id })
        }),
{
    if user_id.as_str().is_empty() {
        return Err(GrpcError::transport("AcceptInvite empty user_id"));
    }
    Ok(AcceptedInvite { user_id })
}

} // verus!
