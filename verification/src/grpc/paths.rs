//! gRPC service paths. One place to update when packages move.

use vstd::prelude::*;

verus! {

pub const AUTH_POW_CHALLENGE: &'static str = "/shared.proto.services.v1.AuthService/GetPowChallenge";

pub const AUTH_REGISTER: &'static str = "/shared.proto.services.v1.AuthService/RegisterDevice";

pub const AUTH_AUTHENTICATE: &'static str = "/shared.proto.services.v1.AuthService/AuthenticateDevice";

pub const AUTH_REFRESH: &'static str = "/shared.proto.services.v1.AuthService/RefreshToken";

pub const AUTH_LOGOUT: &'static str = "/shared.proto.services.v1.AuthService/Logout";

pub const DEVICE_CONFIRM_LINK: &'static str = "/shared.proto.services.v1.DeviceLinkService/ConfirmDeviceLink";

pub const INVITE_ACCEPT: &'static str = "/shared.proto.services.v1.InviteService/AcceptInvite";

pub const KEY_GET_BUNDLE: &'static str = "/shared.proto.services.v1.KeyService/GetPreKeyBundle";

pub const KEY_UPLOAD: &'static str = "/shared.proto.services.v1.KeyService/UploadPreKeys";

pub const KEY_COUNT: &'static str = "/shared.proto.services.v1.KeyService/GetPreKeyCount";

pub const MESSAGING_STREAM: &'static str = "/shared.proto.services.v1.MessagingService/MessageStream";

pub const USER_FIND: &'static str = "/shared.proto.services.v1.UserService/FindUser";

} // verus!
