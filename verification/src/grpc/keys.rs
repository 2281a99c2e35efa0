//! Pre-key bundles.

use crate::grpc::client::error_viewed;
use crate::grpc::error::{GrpcError, GrpcErrorView};
use vstd::prelude::*;

verus! {

/// The suite that a bundle was made for.
#[derive(Debug, Clone, Copy, PartialEq, Eq, Structural)]
pub enum CryptoSuite {
    HybridKyber1024X25519,
    HybridKyber768X25519,
    Other,
}

/// The suite that a session is set up with.
#[derive(Debug, Clone, Copy, PartialEq, Eq, Structural)]
pub enum SuiteId {
    Classic,
    PqHybrid,
}

/// A bundle as the server sends it.
#[derive(Debug, Clone)]
pub struct PreKeyBundle {
    pub crypto_suite: CryptoSuite,
    pub identity_key: Vec<u8>,
    pub signed_pre_key: Vec<u8>,
    pub signed_pre_key_signature: Vec<u8>,
    pub one_time_pre_key: Option<Vec<u8>>,
    pub one_time_pre_key_id: Option<u32>,
    pub spk_uploaded_at: i64,
    pub spk_rotation_epoch: u32,
    pub kyber_spk_uploaded_at: Option<i64>,
    pub kyber_spk_rotation_epoch: Option<u32>,
}

/// A bundle as the key agreement takes it.
#[derive(Debug, Clone)]
pub struct X3DHPublicKeyBundle {
    pub identity_public: Vec<u8>,
    pub signed_prekey_public: Vec<u8>,
    pub signature: Vec<u8>,
    pub verifying_key: Vec<u8>,
    pub suite_id: SuiteId,
    pub one_time_prekey_public: Option<Vec<u8>>,
    pub one_time_prekey_id: Option<u32>,
    pub spk_uploaded_at: u64,
    pub spk_rotation_epoch: u32,
    pub kyber_spk_uploaded_at: u64,
    pub kyber_spk_rotation_epoch: u32,
    pub supports_pq_ratchet: bool,
}

/// The unsigned number with the bits of `n`.
pub open spec fn unsigned_bits(n: i64) -> u64 {
    if n < 0 {
        (n + 0x1_0000_0000_0000_0000) as u64
    } else {
        n as u64
    }
}

pub open spec fn suite_for(suite: CryptoSuite) -> SuiteId {
    match suite {
        CryptoSuite::HybridKyber1024X25519 => SuiteId::PqHybrid,
        CryptoSuite::HybridKyber768X25519 => SuiteId::PqHybrid,
        CryptoSuite::Other => SuiteId::Classic,
    }
}

/// The bundle that the key agreement takes, from the server's and the user's verifying key.
pub open spec fn x3dh_bundle(b: PreKeyBundle, verifying_key: Vec<u8>) -> X3DHPublicKeyBundle {
    X3DHPublicKeyBundle {
        identity_public: b.identity_key,
        signed_prekey_public: b.signed_pre_key,
        signature: b.signed_pre_key_signature,
        verifying_key,
        suite_id: suite_for(b.crypto_suite),
        one_time_prekey_public: b.one_time_pre_key,
        one_time_prekey_id: b.one_time_pre_key_id,
        spk_uploaded_at: unsigned_bits(b.spk_uploaded_at),
        spk_rotation_epoch: b.spk_rotation_epoch,
        kyber_spk_uploaded_at: match b.kyber_spk_uploaded_at {
            Some(n) => unsigned_bits(n),
            None => 0,
        },
        kyber_spk_rotation_epoch: match b.kyber_spk_rotation_epoch {
            Some(n) => n,
            None => 0,
        },
        supports_pq_ratchet: false,
    }
}

fn to_unsigned(n: i64) -> (r: u64)
    ensures
        r == unsigned_bits(n),
{
    if n < 0 {
        u64::MAX - ((-(n + 1)) as u64)
    } else {
        n as u64
    }
}

/// The bundle in a reply. A reply without one is an error.
pub fn bundle_to_x3dh(bundle: Option<PreKeyBundle>, verifying_key: Vec<u8>) -> (r: Result<
    X3DHPublicKeyBundle,
    GrpcError,
>)
    ensures
        error_viewed(r) == (match bundle {
            Some(b) => Ok::<X3DHPublicKeyBundle, GrpcErrorView>(x3dh_bundle(b, verifying_key)),
            None => Err::<X3DHPublicKeyBundle, GrpcErrorView>(
                GrpcErrorView::Transport("no bundle in response"@),
            ),
        }),
{
    let b = match bundle {
        Some(b) => b,
        None => return Err(GrpcError::transport("no bundle in response")),
    };
    let suite_id = match b.crypto_suite {
        CryptoSuite::HybridKyber1024X25519 => SuiteId::PqHybrid,
        CryptoSuite::HybridKyber768X25519 => SuiteId::PqHybrid,
        CryptoSuite::Other => SuiteId::Classic,
    };
    let kyber_spk_uploaded_at: u64 = match b.kyber_spk_uploaded_at {
        Some(n) => to_unsigned(n),
        None => 0,
    };
    let kyber_spk_rotation_epoch: u32 = match b.kyber_spk_rotation_epoch {
        Some(n) => n,
        None => 0,
    };
    Ok(
        X3DHPublicKeyBundle {
            identity_public: b.identity_key,
            signed_prekey_public: b.signed_pre_key,
            signature: b.signed_pre_key_signature,
            verifying_key,
            suite_id,
            one_time_prekey_public: b.one_time_pre_key,
            one_time_prekey_id: b.one_time_pre_key_id,
            spk_uploaded_at: to_unsigned(b.spk_uploaded_at),
            spk_rotation_epoch: b.spk_rotation_epoch,
            kyber_spk_uploaded_at,
            kyber_spk_rotation_epoch,
            supports_pq_ratchet: false,
        },
    )
}

} // verus!
