//! Viewing keys, and the keys that a sender and a recipient agree on.

use vstd::prelude::*;

use crate::address::{Address, AddressView};
use crate::bytes;
use crate::bytes::{append, append_bits, bytes_eq, take_array};
use crate::primitives::hash;
use crate::primitives::hash::blake2b_hash;
use crate::primitives::pallas;
use crate::primitives::pallas::{
    base_is_canonical, hash_to_curve, point_is_valid, point_mul, scalar_is_canonical,
};
use crate::primitives::prf;
use crate::primitives::prf::{prf_expand, to_scalar};
use crate::primitives::redpallas;
use crate::primitives::redpallas::randomize;
use crate::primitives::sinsemilla_commit;
use crate::primitives::sinsemilla_commit::short_commit;

verus! {

/// The personalization of the key derivation function: `Zcash_OrchardKDF`.
pub const KDF_ORCHARD_PERSONALIZATION: [u8; 16] = [
    0x5a, 0x63, 0x61, 0x73, 0x68, 0x5f, 0x4f, 0x72, 0x63, 0x68, 0x61, 0x72, 0x64, 0x4b, 0x44, 0x46,
];

/// The point that a diversifier stands for. A diversifier that hashes to the identity stands for
/// the hash of the empty string.
pub open spec fn diversify_hash(d: Seq<u8>) -> Seq<u8> {
    let g_d = pallas::pallas_hash_to_curve("z.cash:Orchard-gd"@, d);
    if g_d == pallas::identity() {
        pallas::pallas_hash_to_curve("z.cash:Orchard-gd"@, Seq::<u8>::empty())
    } else {
        g_d
    }
}

/// The symmetric key that a shared secret and an ephemeral key give.
pub open spec fn kdf_orchard_spec(secret: Seq<u8>, ephemeral_key: Seq<u8>) -> Seq<u8> {
    hash::blake2b(KDF_ORCHARD_PERSONALIZATION@, secret + ephemeral_key, 32)
}

/// A diversifier: it selects one of the addresses of a viewing key.
#[derive(Clone, Copy, Eq, Debug)]
pub struct Diversifier {
    bytes: [u8; 11],
}

impl View for Diversifier {
    type V = Seq<u8>;

    closed spec fn view(&self) -> Seq<u8> {
        self.bytes@
    }
}

impl PartialEq for Diversifier {
    fn eq(&self, other: &Self) -> (r: bool) {
        bytes_eq(&self.bytes, &other.bytes)
    }
}

impl vstd::std_specs::cmp::PartialEqSpecImpl for Diversifier {
    open spec fn obeys_eq_spec() -> bool {
        true
    }

    open spec fn eq_spec(&self, other: &Self) -> bool {
        self@ == other@
    }
}

impl Diversifier {
    /// A diversifier has eleven bytes.
    pub proof fn lengths(&self)
        ensures
            self@.len() == 11,
    {
    }

    /// The diversifier with the given bytes.
    pub fn from_bytes(bytes: [u8; 11]) -> (r: Self)
        ensures
            r@ == bytes@,
    {
        Diversifier { bytes }
    }

    /// The bytes of this diversifier.
    pub fn as_array(&self) -> (r: &[u8; 11])
        ensures
            r@ == self@,
    {
        &self.bytes
    }

    /// The point that this diversifier stands for.
    pub fn g_d(&self) -> (r: [u8; 32])
        ensures
            r@ == diversify_hash(self@),
            pallas::pallas_is_point(r@),
    {
        proof {
            reveal_strlit("z.cash:Orchard-gd");
        }
        let g_d = hash_to_curve("z.cash:Orchard-gd", &self.bytes);
        let zero: [u8; 32] = [0u8; 32];
        assert(zero@ =~= pallas::identity());
        if bytes_eq(&g_d, &zero) {
            let empty: Vec<u8> = Vec::new();
            assert(empty@ =~= Seq::<u8>::empty());
            hash_to_curve("z.cash:Orchard-gd", empty.as_slice())
        } else {
            g_d
        }
    }
}

/// A key with which the sender of an output recovers it.
#[derive(Clone, Copy, Eq, Debug)]
pub struct OutgoingViewingKey {
    bytes: [u8; 32],
}

impl View for OutgoingViewingKey {
    type V = Seq<u8>;

    closed spec fn view(&self) -> Seq<u8> {
        self.bytes@
    }
}

impl PartialEq for OutgoingViewingKey {
    fn eq(&self, other: &Self) -> (r: bool) {
        bytes_eq(&self.bytes, &other.bytes)
    }
}

impl vstd::std_specs::cmp::PartialEqSpecImpl for OutgoingViewingKey {
    open spec fn obeys_eq_spec() -> bool {
        true
    }

    open spec fn eq_spec(&self, other: &Self) -> bool {
        self@ == other@
    }
}

impl OutgoingViewingKey {
    /// The key with the given bytes.
    pub fn from_bytes(bytes: [u8; 32]) -> (r: Self)
        ensures
            r@ == bytes@,
    {
        OutgoingViewingKey { bytes }
    }

    /// The bytes of this key.
    pub fn as_bytes(&self) -> (r: &[u8; 32])
        ensures
            r@ == self@,
    {
        &self.bytes
    }
}

/// The transmission key of an address: a point other than the identity, held by its encoding.
#[derive(Clone, Copy, Eq, Debug)]
pub struct DiversifiedTransmissionKey {
    bytes: [u8; 32],
}

impl View for DiversifiedTransmissionKey {
    type V = Seq<u8>;

    closed spec fn view(&self) -> Seq<u8> {
        self.bytes@
    }
}

impl PartialEq for DiversifiedTransmissionKey {
    fn eq(&self, other: &Self) -> (r: bool) {
        bytes_eq(&self.bytes, &other.bytes)
    }
}

impl vstd::std_specs::cmp::PartialEqSpecImpl for DiversifiedTransmissionKey {
    open spec fn obeys_eq_spec() -> bool {
        true
    }

    open spec fn eq_spec(&self, other: &Self) -> bool {
        self@ == other@
    }
}

impl DiversifiedTransmissionKey {
    #[verifier::type_invariant]
    spec fn is_valid(self) -> bool {
        pallas::pallas_is_point(self.bytes@) && self.bytes@ != pallas::identity()
    }

    /// The encoding of a transmission key has 32 bytes.
    pub proof fn lengths(&self)
        ensures
            self@.len() == 32,
    {
    }

    /// Parses the encoding of a point other than the identity.
    pub fn from_bytes(bytes: &[u8; 32]) -> (r: Option<Self>)
        ensures
            r is Some <==> pallas::pallas_is_point(bytes@) && bytes@ != pallas::identity(),
            r is Some ==> r->0@ == bytes@,
    {
        if point_is_valid(bytes) && !is_identity(bytes) {
            Some(DiversifiedTransmissionKey { bytes: *bytes })
        } else {
            None
        }
    }

    /// The transmission key of the address that `ivk` has at the diversifier `d`. It is missing
    /// only where the diversifier stands for the identity, of which no instance is known.
    pub fn derive(ivk: &PreparedIncomingViewingKey, d: &Diversifier) -> (r: Option<Self>)
        ensures
            r is Some <==> diversify_hash(d@) != pallas::identity(),
            r is Some <==> pallas::pallas_mul(ivk@, diversify_hash(d@)) != pallas::identity(),
            r is Some ==> r->0@ == pallas::pallas_mul(ivk@, diversify_hash(d@)),
    {
        let scalar = ivk.raw_scalar();
        let g_d = d.g_d();
        let bytes = point_mul(&scalar, &g_d);
        if is_identity(&bytes) {
            None
        } else {
            Some(DiversifiedTransmissionKey { bytes })
        }
    }

    /// The encoding of this key.
    pub fn to_bytes(&self) -> (r: [u8; 32])
        ensures
            r@ == self@,
            pallas::pallas_is_point(r@),
            r@ != pallas::identity(),
    {
        proof {
            use_type_invariant(self);
        }
        self.bytes
    }
}

/// Whether `bytes` encodes the identity, or zero.
fn is_identity(bytes: &[u8; 32]) -> (r: bool)
    ensures
        r == (bytes@ == pallas::identity()),
{
    let zero: [u8; 32] = [0u8; 32];
    assert(zero@ =~= pallas::identity());
    bytes_eq(bytes, &zero)
}

/// The secret half of an ephemeral key pair: a scalar other than zero.
#[derive(Clone, Copy, Debug)]
pub struct EphemeralSecretKey {
    bytes: [u8; 32],
}

impl View for EphemeralSecretKey {
    type V = Seq<u8>;

    closed spec fn view(&self) -> Seq<u8> {
        self.bytes@
    }
}

/// Whether `b` encodes a scalar other than zero.
pub open spec fn is_nonzero_scalar(b: Seq<u8>) -> bool {
    pallas::is_scalar(b) && b != pallas::identity()
}

impl EphemeralSecretKey {
    #[verifier::type_invariant]
    spec fn is_valid(self) -> bool {
        is_nonzero_scalar(self.bytes@)
    }

    /// Parses the encoding of a scalar other than zero.
    pub fn from_bytes(bytes: &[u8; 32]) -> (r: Option<Self>)
        ensures
            r is Some <==> is_nonzero_scalar(bytes@),
            r is Some ==> r->0@ == bytes@,
    {
        if scalar_is_canonical(bytes) && !is_identity(bytes) {
            Some(EphemeralSecretKey { bytes: *bytes })
        } else {
            None
        }
    }

    /// The encoding of this key.
    pub fn to_bytes(&self) -> (r: [u8; 32])
        ensures
            r@ == self@,
            is_nonzero_scalar(r@),
    {
        proof {
            use_type_invariant(self);
        }
        self.bytes
    }

    /// The public half of the key pair over the base that `d` stands for. Whoever holds the viewing
    /// key `ivk` of an address over that base shares with the public half what the sender shares
    /// with the address. The public half is the identity only where the base is.
    pub fn derive_public(&self, d: &Diversifier) -> (r: EphemeralPublicKey)
        ensures
            r@ == pallas::pallas_mul(self@, diversify_hash(d@)),
            pallas::pallas_is_point(r@),
            forall|ivk: Seq<u8>|
                pallas::is_scalar(ivk) ==> #[trigger] pallas::pallas_mul(ivk, r@)
                    == pallas::pallas_mul(self@, pallas::pallas_mul(ivk, diversify_hash(d@))),
            r@ == pallas::identity() <==> diversify_hash(d@) == pallas::identity(),
            forall|ivk: Seq<u8>|
                pallas::is_scalar(ivk) && r@ == pallas::identity()
                    ==> #[trigger] pallas::pallas_mul(ivk, r@) == pallas::identity(),
    {
        let scalar = self.to_bytes();
        let g_d = d.g_d();
        EphemeralPublicKey { bytes: point_mul(&scalar, &g_d) }
    }

    /// The secret that this key shares with `pk_d`.
    pub fn agree(&self, pk_d: &DiversifiedTransmissionKey) -> (r: SharedSecret)
        ensures
            r@ == pallas::pallas_mul(self@, pk_d@),
            is_nonzero_scalar(self@),
    {
        let scalar = self.to_bytes();
        let point = pk_d.to_bytes();
        SharedSecret { bytes: point_mul(&scalar, &point) }
    }
}

/// The public half of an ephemeral key pair: a point, held by its encoding.
#[derive(Clone, Copy, Debug)]
pub struct EphemeralPublicKey {
    bytes: [u8; 32],
}

impl View for EphemeralPublicKey {
    type V = Seq<u8>;

    closed spec fn view(&self) -> Seq<u8> {
        self.bytes@
    }
}

impl EphemeralPublicKey {
    #[verifier::type_invariant]
    spec fn is_valid(self) -> bool {
        pallas::pallas_is_point(self.bytes@)
    }

    /// Parses the encoding of a point other than the identity.
    pub fn from_bytes(bytes: &[u8; 32]) -> (r: Option<Self>)
        ensures
            r is Some <==> pallas::pallas_is_point(bytes@) && bytes@ != pallas::identity(),
            r is Some ==> r->0@ == bytes@,
    {
        if point_is_valid(bytes) && !is_identity(bytes) {
            Some(EphemeralPublicKey { bytes: *bytes })
        } else {
            None
        }
    }

    /// The encoding of this key.
    pub fn to_bytes(&self) -> (r: [u8; 32])
        ensures
            r@ == self@,
            pallas::pallas_is_point(r@),
    {
        proof {
            use_type_invariant(self);
        }
        self.bytes
    }
}

/// An ephemeral public key that is ready to be agreed on with viewing keys.
#[derive(Clone, Copy, Debug)]
pub struct PreparedEphemeralPublicKey {
    epk: EphemeralPublicKey,
}

impl View for PreparedEphemeralPublicKey {
    type V = Seq<u8>;

    closed spec fn view(&self) -> Seq<u8> {
        self.epk@
    }
}

impl PreparedEphemeralPublicKey {
    /// Prepares `epk`.
    pub fn new(epk: EphemeralPublicKey) -> (r: Self)
        ensures
            r@ == epk@,
    {
        PreparedEphemeralPublicKey { epk }
    }

    /// The encoding of the key that was prepared.
    pub fn to_bytes(&self) -> (r: [u8; 32])
        ensures
            r@ == self@,
            pallas::pallas_is_point(r@),
    {
        self.epk.to_bytes()
    }

    /// The secret that the holder of `ivk` shares with this key.
    pub fn agree(&self, ivk: &PreparedIncomingViewingKey) -> (r: SharedSecret)
        ensures
            r@ == pallas::pallas_mul(ivk@, self@),
    {
        let scalar = ivk.raw_scalar();
        let point = self.to_bytes();
        SharedSecret { bytes: point_mul(&scalar, &point) }
    }
}

/// The secret that a sender and a recipient share: a point, held by its encoding.
#[derive(Clone, Copy, Debug)]
pub struct SharedSecret {
    bytes: [u8; 32],
}

impl View for SharedSecret {
    type V = Seq<u8>;

    closed spec fn view(&self) -> Seq<u8> {
        self.bytes@
    }
}

impl SharedSecret {
    /// The secret with the given encoding.
    pub(crate) fn from_point(bytes: [u8; 32]) -> (r: Self)
        ensures
            r@ == bytes@,
    {
        SharedSecret { bytes }
    }

    /// The encoding of this secret.
    pub fn to_bytes(&self) -> (r: [u8; 32])
        ensures
            r@ == self@,
    {
        self.bytes
    }

    /// The symmetric key that this secret and an ephemeral key give.
    pub fn kdf_orchard(&self, ephemeral_key: &[u8; 32]) -> (r: [u8; 32])
        ensures
            r@ == kdf_orchard_spec(self@, ephemeral_key@),
    {
        let mut input: Vec<u8> = Vec::new();
        append(&mut input, &self.bytes);
        append(&mut input, ephemeral_key);
        assert(input@ =~= self@ + ephemeral_key@);
        let hash = blake2b_hash(&KDF_ORCHARD_PERSONALIZATION, input.as_slice(), 32);
        let r: [u8; 32] = take_array(hash.as_slice(), 0);
        assert(r@ =~= hash@);
        r
    }
}

/// An incoming viewing key that is ready to be agreed on with ephemeral keys: a scalar other than
/// zero.
#[derive(Clone, Copy, Debug)]
pub struct PreparedIncomingViewingKey {
    bytes: [u8; 32],
}

impl View for PreparedIncomingViewingKey {
    type V = Seq<u8>;

    closed spec fn view(&self) -> Seq<u8> {
        self.bytes@
    }
}

impl PreparedIncomingViewingKey {
    #[verifier::type_invariant]
    spec fn is_valid(self) -> bool {
        is_nonzero_scalar(self.bytes@)
    }

    /// Parses the encoding of a scalar other than zero.
    pub fn from_bytes(bytes: &[u8; 32]) -> (r: Option<Self>)
        ensures
            r is Some <==> is_nonzero_scalar(bytes@),
            r is Some ==> r->0@ == bytes@,
    {
        if scalar_is_canonical(bytes) && !is_identity(bytes) {
            Some(PreparedIncomingViewingKey { bytes: *bytes })
        } else {
            None
        }
    }

    /// The scalar of this key.
    pub fn raw_scalar(&self) -> (r: [u8; 32])
        ensures
            r@ == self@,
            is_nonzero_scalar(r@),
    {
        proof {
            use_type_invariant(self);
        }
        self.bytes
    }

    /// The address of this key at the diversifier `d`. It is missing only where the diversifier
    /// stands for the identity, of which no instance is known.
    pub fn address(&self, d: Diversifier) -> (r: Option<Address>)
        ensures
            r is Some <==> diversify_hash(d@) != pallas::identity(),
            r is Some ==> r->0@ == (AddressView {
                d: d@,
                pk_d: pallas::pallas_mul(self@, diversify_hash(d@)),
            }),
    {
        match DiversifiedTransmissionKey::derive(self, &d) {
            Some(pk_d) => Some(Address::from_parts(d, pk_d)),
            None => None,
        }
    }
}

/// The two ways in which a full viewing key is used.
#[derive(Clone, Copy, PartialEq, Eq, Structural, Debug)]
pub enum Scope {
    /// For what others send.
    External,
    /// For change and other wallet-internal transfers.
    Internal,
}

/// What a full viewing key is made of.
pub struct FullViewingKeyView {
    /// The encoding of the spend validating key.
    pub ak: Seq<u8>,
    /// The encoding of the nullifier deriving key.
    pub nk: Seq<u8>,
    /// The encoding of the external commitment randomness.
    pub rivk: Seq<u8>,
}

impl FullViewingKeyView {
    /// The commitment randomness of a scope.
    pub open spec fn rivk_in(self, scope: Scope) -> Seq<u8> {
        match scope {
            Scope::External => self.rivk,
            Scope::Internal => prf::to_scalar_spec(
                prf::prf_expand_spec(self.rivk, 0x83, self.ak + self.nk),
            ),
        }
    }

    /// The incoming viewing key of a scope, where the commitment has a value.
    pub open spec fn ivk_in(self, scope: Scope) -> Option<Seq<u8>> {
        sinsemilla_commit::sinsemilla_short_commit(
            "z.cash:Orchard-CommitIvk"@,
            bytes::bits_le(self.ak, 255) + bytes::bits_le(self.nk, 255),
            self.rivk_in(scope),
        )
    }

    /// Whether the parts make a full viewing key: `ak` is a point other than the identity whose
    /// sign bit is clear, `nk` is a base field element, `rivk` is a scalar, and both scopes have an
    /// incoming viewing key other than zero.
    pub open spec fn is_valid(self) -> bool {
        &&& pallas::pallas_is_point(self.ak)
        &&& self.ak.len() == 32
        &&& self.ak != pallas::identity()
        &&& self.ak[31] < 0x80
        &&& pallas::is_base(self.nk)
        &&& pallas::is_scalar(self.rivk)
        &&& self.ivk_in(Scope::External) is Some
        &&& self.ivk_in(Scope::External) != Some(pallas::identity())
        &&& self.ivk_in(Scope::Internal) is Some
        &&& self.ivk_in(Scope::Internal) != Some(pallas::identity())
    }

    /// The scope, if any, in which this key has the address.
    pub open spec fn scope_of(self, address: AddressView) -> Option<Scope> {
        scope_of_ivks(
            self.ivk_in(Scope::External)->0,
            self.ivk_in(Scope::Internal)->0,
            address,
        )
    }
}

/// The scope in which a pair of incoming viewing keys has the address: the first whose key gives
/// the address's transmission key at its diversifier.
pub open spec fn scope_of_ivks(
    external: Seq<u8>,
    internal: Seq<u8>,
    address: AddressView,
) -> Option<Scope> {
    if pallas::pallas_mul(external, address.g_d()) == address.pk_d {
        Some(Scope::External)
    } else if pallas::pallas_mul(internal, address.g_d()) == address.pk_d {
        Some(Scope::Internal)
    } else {
        None
    }
}

/// A key that recognizes and reads everything sent to or from an account.
#[derive(Clone, Copy, Eq, Debug)]
pub struct FullViewingKey {
    ak: [u8; 32],
    nk: [u8; 32],
    rivk: [u8; 32],
}

impl View for FullViewingKey {
    type V = FullViewingKeyView;

    closed spec fn view(&self) -> FullViewingKeyView {
        FullViewingKeyView { ak: self.ak@, nk: self.nk@, rivk: self.rivk@ }
    }
}

impl PartialEq for FullViewingKey {
    fn eq(&self, other: &Self) -> (r: bool) {
        bytes_eq(&self.ak, &other.ak) && bytes_eq(&self.nk, &other.nk) && bytes_eq(
            &self.rivk,
            &other.rivk,
        )
    }
}

impl vstd::std_specs::cmp::PartialEqSpecImpl for FullViewingKey {
    open spec fn obeys_eq_spec() -> bool {
        true
    }

    open spec fn eq_spec(&self, other: &Self) -> bool {
        self@ == other@
    }
}

/// Computes the incoming viewing key of a scope from the parts of a full viewing key.
fn derive_ivk(ak: &[u8; 32], nk: &[u8; 32], rivk: &[u8; 32], scope: Scope) -> (r: Option<[u8; 32]>)
    requires
        pallas::is_scalar(rivk@),
    ensures
        ({
            let ivk = (FullViewingKeyView { ak: ak@, nk: nk@, rivk: rivk@ }).ivk_in(scope);
            &&& r is Some <==> ivk is Some
            &&& r is Some ==> ivk == Some(r->0@) && pallas::is_base(r->0@)
        }),
{
    let rivk: [u8; 32] = match scope {
        Scope::External => *rivk,
        Scope::Internal => {
            let mut t: Vec<u8> = Vec::new();
            append(&mut t, ak);
            append(&mut t, nk);
            assert(t@ =~= ak@ + nk@);
            to_scalar(&prf_expand(rivk, 0x83, t.as_slice()))
        },
    };
    let mut msg: Vec<bool> = Vec::new();
    append_bits(&mut msg, ak, 255);
    append_bits(&mut msg, nk, 255);
    assert(msg@ =~= bytes::bits_le(ak@, 255) + bytes::bits_le(nk@, 255));
    proof {
        reveal_strlit("z.cash:Orchard-CommitIvk");
    }
    short_commit("z.cash:Orchard-CommitIvk", msg, &rivk)
}

impl FullViewingKey {
    #[verifier::type_invariant]
    spec fn is_valid(self) -> bool {
        self@.is_valid()
    }

    /// Parses the encodings of `ak`, `nk` and `rivk`, in this order.
    pub fn from_bytes(bytes: &[u8; 96]) -> (r: Option<Self>)
        ensures
            ({
                let parts = FullViewingKeyView {
                    ak: bytes@.subrange(0, 32),
                    nk: bytes@.subrange(32, 64),
                    rivk: bytes@.subrange(64, 96),
                };
                &&& r is Some <==> parts.is_valid()
                &&& r is Some ==> r->0@ == parts
            }),
    {
        let ak: [u8; 32] = take_array(bytes, 0);
        let nk: [u8; 32] = take_array(bytes, 32);
        let rivk: [u8; 32] = take_array(bytes, 64);
        if !point_is_valid(&ak) || is_identity(&ak) || ak[31] >= 0x80 || !base_is_canonical(&nk)
            || !scalar_is_canonical(&rivk) {
            return None;
        }
        match (
            derive_ivk(&ak, &nk, &rivk, Scope::External),
            derive_ivk(&ak, &nk, &rivk, Scope::Internal),
        ) {
            (Some(external), Some(internal)) => {
                if is_identity(&external) || is_identity(&internal) {
                    None
                } else {
                    Some(FullViewingKey { ak, nk, rivk })
                }
            },
            _ => None,
        }
    }

    /// The incoming viewing key of a scope.
    pub fn to_ivk(&self, scope: Scope) -> (r: PreparedIncomingViewingKey)
        ensures
            self@.ivk_in(scope) == Some(r@),
    {
        proof {
            use_type_invariant(self);
        }
        let ivk = derive_ivk(&self.ak, &self.nk, &self.rivk, scope).unwrap();
        PreparedIncomingViewingKey { bytes: ivk }
    }

    /// The scope, if any, in which this key has the address.
    pub fn scope_for_address(&self, address: &Address) -> (r: Option<Scope>)
        ensures
            r == self@.scope_of(address@),
    {
        let g_d = address.g_d();
        let pk_d = address.pk_d().to_bytes();
        let external = self.to_ivk(Scope::External).raw_scalar();
        if bytes_eq(&point_mul(&external, &g_d), &pk_d) {
            return Some(Scope::External);
        }
        let internal = self.to_ivk(Scope::Internal).raw_scalar();
        if bytes_eq(&point_mul(&internal, &g_d), &pk_d) {
            Some(Scope::Internal)
        } else {
            None
        }
    }

    /// Computes the incoming viewing keys of both scopes once, so that addresses can be classified
    /// without computing them again.
    pub fn scope_classifier(&self) -> (r: ScopeClassifier)
        ensures
            r.classifies_for(self@),
    {
        ScopeClassifier {
            external: self.to_ivk(Scope::External),
            internal: self.to_ivk(Scope::Internal),
        }
    }

    /// The encoding of the nullifier deriving key.
    pub fn nk(&self) -> (r: [u8; 32])
        ensures
            r@ == self@.nk,
            pallas::is_base(r@),
    {
        proof {
            use_type_invariant(self);
        }
        self.nk
    }
}

/// The incoming viewing keys of both scopes of a full viewing key.
#[derive(Clone, Copy, Debug)]
pub struct ScopeClassifier {
    external: PreparedIncomingViewingKey,
    internal: PreparedIncomingViewingKey,
}

impl ScopeClassifier {
    /// The external incoming viewing key.
    pub closed spec fn external(self) -> Seq<u8> {
        self.external@
    }

    /// The internal incoming viewing key.
    pub closed spec fn internal(self) -> Seq<u8> {
        self.internal@
    }

    /// Whether this classifier holds the incoming viewing keys of `fvk`.
    pub open spec fn classifies_for(self, fvk: FullViewingKeyView) -> bool {
        &&& fvk.ivk_in(Scope::External) == Some(self.external())
        &&& fvk.ivk_in(Scope::Internal) == Some(self.internal())
    }

    /// The scope, if any, in which the full viewing key that was classified for has the address.
    pub fn scope_for_address(&self, address: &Address) -> (r: Option<Scope>)
        ensures
            r == scope_of_ivks(self.external(), self.internal(), address@),
    {
        let g_d = address.g_d();
        let pk_d = address.pk_d().to_bytes();
        let external = self.external.raw_scalar();
        if bytes_eq(&point_mul(&external, &g_d), &pk_d) {
            return Some(Scope::External);
        }
        let internal = self.internal.raw_scalar();
        if bytes_eq(&point_mul(&internal, &g_d), &pk_d) {
            Some(Scope::Internal)
        } else {
            None
        }
    }
}

/// A scalar that randomizes a spend validating key.
#[derive(Clone, Copy, Debug)]
pub struct SpendAuthRandomizer {
    bytes: [u8; 32],
}

impl View for SpendAuthRandomizer {
    type V = Seq<u8>;

    closed spec fn view(&self) -> Seq<u8> {
        self.bytes@
    }
}

impl SpendAuthRandomizer {
    #[verifier::type_invariant]
    spec fn is_valid(self) -> bool {
        pallas::is_scalar(self.bytes@)
    }

    /// Parses the encoding of a scalar.
    pub fn from_bytes(bytes: &[u8; 32]) -> (r: Option<Self>)
        ensures
            r is Some <==> pallas::is_scalar(bytes@),
            r is Some ==> r->0@ == bytes@,
    {
        if scalar_is_canonical(bytes) {
            Some(SpendAuthRandomizer { bytes: *bytes })
        } else {
            None
        }
    }
}

/// A RedPallas verification key, held by its encoding.
#[derive(Clone, Copy, Eq, Debug)]
pub struct VerificationKey {
    bytes: [u8; 32],
}

impl View for VerificationKey {
    type V = Seq<u8>;

    closed spec fn view(&self) -> Seq<u8> {
        self.bytes@
    }
}

impl PartialEq for VerificationKey {
    fn eq(&self, other: &Self) -> (r: bool) {
        bytes_eq(&self.bytes, &other.bytes)
    }
}

impl vstd::std_specs::cmp::PartialEqSpecImpl for VerificationKey {
    open spec fn obeys_eq_spec() -> bool {
        true
    }

    open spec fn eq_spec(&self, other: &Self) -> bool {
        self@ == other@
    }
}

impl VerificationKey {
    /// Parses the encoding of a point.
    pub fn from_bytes(bytes: &[u8; 32]) -> (r: Option<Self>)
        ensures
            r is Some <==> pallas::pallas_is_point(bytes@),
            r is Some ==> r->0@ == bytes@,
    {
        if point_is_valid(bytes) {
            Some(VerificationKey { bytes: *bytes })
        } else {
            None
        }
    }

    /// The encoding of this key.
    pub fn to_bytes(&self) -> (r: [u8; 32])
        ensures
            r@ == self@,
    {
        self.bytes
    }
}

/// The key that validates spend authorization signatures before randomization.
#[derive(Clone, Copy, Debug)]
pub struct SpendValidatingKey {
    bytes: [u8; 32],
}

impl View for SpendValidatingKey {
    type V = Seq<u8>;

    closed spec fn view(&self) -> Seq<u8> {
        self.bytes@
    }
}

/// The encoding of the spend validating key `ak` randomized by `alpha`.
pub open spec fn randomized_key(ak: Seq<u8>, alpha: Seq<u8>) -> Seq<u8> {
    pallas::pallas_add(ak, pallas::pallas_mul(alpha, redpallas::spend_auth_basepoint()))
}

impl SpendValidatingKey {
    #[verifier::type_invariant]
    spec fn is_valid(self) -> bool {
        pallas::pallas_is_point(self.bytes@)
    }

    /// The spend validating key of a full viewing key.
    pub fn from_fvk(fvk: &FullViewingKey) -> (r: Self)
        ensures
            r@ == fvk@.ak,
    {
        proof {
            use_type_invariant(fvk);
        }
        SpendValidatingKey { bytes: fvk.ak }
    }

    /// This key randomized by `alpha`.
    pub fn randomize(&self, alpha: &SpendAuthRandomizer) -> (r: VerificationKey)
        ensures
            r@ == randomized_key(self@, alpha@),
    {
        proof {
            use_type_invariant(self);
            use_type_invariant(alpha);
        }
        VerificationKey { bytes: randomize(&self.bytes, &alpha.bytes) }
    }
}

} // verus!
