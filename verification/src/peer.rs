//! The per-peer discriminator used by the nonce-less dedup fallback.

use std::collections::hash_map::DefaultHasher;
use std::hash::{Hash, Hasher};

use vstd::prelude::*;
use vstd::std_specs::hash::DefaultHasherAdditionalSpecFns;

verus! {

/// The identity of the peer on the other end of an IPC connection.
#[derive(Debug, Clone)]
pub enum PeerIdentity {
    /// A Unix peer: its user id and process id.
    Unix { uid: u32, pid: u32 },
    /// A Windows peer: its security identifier and process id.
    Windows { sid: String, pid: u32 },
    /// A peer whose identity could not be established.
    Unknown { pid: u32 },
}

/// What `Hash::hash` for `u32` writes into a `DefaultHasher`. The bytes are
/// the value's native-order bytes, so this is a function of `v` on each
/// target, not across targets.
pub uninterp spec fn u32_hash_writes(v: u32) -> Seq<Seq<u8>>;

/// What `Hash::hash` for `String` writes into a `DefaultHasher`, for a
/// string with these characters. Like all hash input, it is not portable
/// across targets.
pub uninterp spec fn string_hash_writes(s: Seq<char>) -> Seq<Seq<u8>>;

/// Feeds a `u8` into the hasher with `Hash::hash`. Trusted: `u8` hashes by
/// `Hasher::write_u8`, which writes the single byte, so the hasher's writes
/// grow by one write of `[v]`.
#[verifier::external_body]
fn hash_u8(v: u8, h: &mut DefaultHasher)
    ensures
        final(h)@ == old(h)@.push(seq![v]),
{
    v.hash(h)
}

/// Feeds a `u32` into the hasher with `Hash::hash`. Trusted: the hasher's
/// writes grow by what [`u32_hash_writes`] names for the value.
#[verifier::external_body]
fn hash_u32(v: u32, h: &mut DefaultHasher)
    ensures
        final(h)@ == old(h)@ + u32_hash_writes(v),
{
    v.hash(h)
}

/// Feeds a `String` into the hasher with `Hash::hash`. Trusted: the
/// hasher's writes grow by what [`string_hash_writes`] names for its
/// characters.
#[verifier::external_body]
fn hash_string(v: &String, h: &mut DefaultHasher)
    ensures
        final(h)@ == old(h)@ + string_hash_writes(v@),
{
    v.hash(h)
}

/// The writes the discriminator feeds the hasher for a peer: a variant tag,
/// then the peer's stable identity (uid or sid). The pid is never fed.
pub open spec fn identity_writes(peer: PeerIdentity) -> Seq<Seq<u8>> {
    match peer {
        PeerIdentity::Unix { uid, .. } => seq![seq![0u8]] + u32_hash_writes(uid),
        PeerIdentity::Windows { sid, .. } => seq![seq![1u8]] + string_hash_writes(sid@),
        PeerIdentity::Unknown { .. } => seq![seq![2u8]],
    }
}

/// The discriminator of a peer: the `DefaultHasher` digest of its tagged
/// stable identity.
pub open spec fn discriminator_of(peer: PeerIdentity) -> u64 {
    DefaultHasher::spec_finish(identity_writes(peer))
}

/// A stable per-peer discriminator: the `DefaultHasher` digest of the
/// peer's stable identity (uid for Unix, sid for Windows). The pid is left
/// out so that two connections from the same principal still dedup a
/// retry; every unknown peer shares one bucket.
pub fn peer_discriminator(peer: &PeerIdentity) -> (r: u64)
    ensures
        r == discriminator_of(*peer),
{
    let mut h = DefaultHasher::new();
    match peer {
        PeerIdentity::Unix { uid, .. } => {
            hash_u8(0, &mut h);
            hash_u32(*uid, &mut h);
        },
        PeerIdentity::Windows { sid, .. } => {
            hash_u8(1, &mut h);
            hash_string(sid, &mut h);
        },
        PeerIdentity::Unknown { .. } => {
            hash_u8(2, &mut h);
        },
    }
    assert(h@ == identity_writes(*peer));
    h.finish()
}

/// The first write fed for a peer is its variant's tag (0 for Unix, 1 for
/// Windows, 2 for unknown), and an unknown peer feeds that tag alone. So the
/// hash input of an unknown peer is never that of a Unix or Windows peer:
/// unknown peers share a bucket only with each other.
pub proof fn law_unknown_peers_are_kept_apart(uid: u32, sid: String, pid_a: u32, pid_b: u32)
    ensures
        identity_writes(PeerIdentity::Unknown { pid: pid_a }) == seq![seq![2u8]],
        identity_writes(PeerIdentity::Unix { uid, pid: pid_b })[0] == seq![0u8],
        identity_writes(PeerIdentity::Windows { sid, pid: pid_b })[0] == seq![1u8],
        identity_writes(PeerIdentity::Unknown { pid: pid_a }) != identity_writes(
            PeerIdentity::Unix { uid, pid: pid_b },
        ),
        identity_writes(PeerIdentity::Unknown { pid: pid_a }) != identity_writes(
            PeerIdentity::Windows { sid, pid: pid_b },
        ),
        identity_writes(PeerIdentity::Unix { uid, pid: pid_a }) != identity_writes(
            PeerIdentity::Windows { sid, pid: pid_b },
        ),
{
    let u = identity_writes(PeerIdentity::Unknown { pid: pid_a });
    let x = identity_writes(PeerIdentity::Unix { uid, pid: pid_b });
    let w = identity_writes(PeerIdentity::Windows { sid, pid: pid_b });
    assert(x[0] == seq![0u8]);
    assert(w[0] == seq![1u8]);
    assert(u[0] == seq![2u8]);
    assert(seq![0u8][0] != seq![2u8][0]);
    assert(seq![1u8][0] != seq![2u8][0]);
    assert(seq![0u8][0] != seq![1u8][0]);
}

/// The discriminator ignores the pid: connections from the same user (Unix)
/// or the same security identifier (Windows) get the same discriminator
/// whatever their process, and all unknown peers share one.
pub proof fn law_peer_discriminator_ignores_the_pid(uid: u32, sid: String, pid_a: u32, pid_b: u32)
    ensures
        discriminator_of(PeerIdentity::Unix { uid, pid: pid_a })
            == discriminator_of(PeerIdentity::Unix { uid, pid: pid_b }),
        discriminator_of(PeerIdentity::Windows { sid, pid: pid_a })
            == discriminator_of(PeerIdentity::Windows { sid, pid: pid_b }),
        discriminator_of(PeerIdentity::Unknown { pid: pid_a })
            == discriminator_of(PeerIdentity::Unknown { pid: pid_b }),
{
}

} // verus!
