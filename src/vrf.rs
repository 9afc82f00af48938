//! VRF keypair and challenge records, the canonical byte form of a VRF input,
//! and the JSON projection of a challenge with its stable camelCase field names.
use vstd::prelude::*;
use crate::encoding::{frame_str, frameable, lemma_frame_str_split, push_frame_str};

verus! {

/// A VRF keypair before encryption.
#[derive(Clone, Debug)]
pub struct VRFKeypairData {
    /// Serialized keypair, private and public key together.
    pub keypair_bytes: Vec<u8>,
    /// Base64url-encoded public key.
    pub public_key_base64: String,
}

/// A VRF keypair at rest: base64url ciphertext and the nonce it was sealed with.
#[derive(Clone, Debug)]
pub struct EncryptedVRFKeypair {
    pub encrypted_vrf_data_b64u: String,
    pub chacha20_nonce_b64u: String,
}

/// The four fields bound into one VRF input.
#[derive(Clone, Debug)]
pub struct VRFInputData {
    pub user_id: String,
    pub rp_id: String,
    pub block_height: String,
    pub block_hash: String,
}

/// A VRF evaluation packaged as a WebAuthn challenge.
#[derive(Clone, Debug)]
pub struct VRFChallengeData {
    pub vrf_input: String,
    pub vrf_output: String,
    pub vrf_proof: String,
    pub vrf_public_key: String,
    pub user_id: String,
    pub rp_id: String,
    pub block_height: String,
    pub block_hash: String,
}

/// Reply to a keypair bootstrap: the public key and, when an input was given,
/// the challenge computed under the new key.
#[derive(Clone, Debug)]
pub struct GenerateVrfKeypairBootstrapResponse {
    pub vrf_public_key: String,
    pub vrf_challenge_data: Option<VRFChallengeData>,
}

/// Reply carrying an encrypted keypair and its public key.
#[derive(Clone, Debug)]
pub struct EncryptedVrfKeypairResponse {
    pub vrf_public_key: String,
    pub encrypted_vrf_keypair: EncryptedVRFKeypair,
}

/// The canonical byte form of a VRF input: the four fields, each framed by its
/// length, in the order user id, rp id, block height, block hash.
pub open spec fn canonical_input(d: VRFInputData) -> Seq<u8> {
    frame_str(d.user_id@) + frame_str(d.rp_id@) + frame_str(d.block_height@) + frame_str(
        d.block_hash@,
    )
}

/// All four fields of an input have a length that a frame can record.
pub open spec fn input_frameable(d: VRFInputData) -> bool {
    frameable(d.user_id@) && frameable(d.rp_id@) && frameable(d.block_height@) && frameable(
        d.block_hash@,
    )
}

/// A challenge is bound to an input when it carries the input's four fields.
pub open spec fn bound_to(c: VRFChallengeData, d: VRFInputData) -> bool {
    c.user_id@ == d.user_id@ && c.rp_id@ == d.rp_id@ && c.block_height@ == d.block_height@
        && c.block_hash@ == d.block_hash@
}

/// The members of a challenge's JSON object, by wire name.
pub open spec fn challenge_fields(c: VRFChallengeData) -> Seq<(Seq<char>, Seq<char>)> {
    seq![
        ("vrfInput"@, c.vrf_input@),
        ("vrfOutput"@, c.vrf_output@),
        ("vrfProof"@, c.vrf_proof@),
        ("vrfPublicKey"@, c.vrf_public_key@),
        ("userId"@, c.user_id@),
        ("rpId"@, c.rp_id@),
        ("blockHeight"@, c.block_height@),
        ("blockHash"@, c.block_hash@),
    ]
}

/// The views of a list of string pairs.
pub open spec fn pairs_view(v: Seq<(String, String)>) -> Seq<(Seq<char>, Seq<char>)> {
    v.map_values(|p: (String, String)| (p.0@, p.1@))
}

/// The JSON object whose members are the given string-valued fields.
pub uninterp spec fn json_object_of(fields: Seq<(Seq<char>, Seq<char>)>) -> serde_json::Value;

#[verifier::external_type_specification]
#[verifier::external_body]
pub struct ExJsonValue(serde_json::Value);

/// Relies on serde_json's `Map<String, Value>: FromIterator` with
/// `Value::String` and `Value::Object`: builds the JSON object of the given
/// string members, which depends on the members alone.
#[verifier::external_body]
fn json_object(fields: Vec<(String, String)>) -> (r: serde_json::Value)
    ensures
        r == json_object_of(pairs_view(fields@)),
{
    serde_json::Value::Object(
        fields.into_iter().map(|(k, v)| (k, serde_json::Value::String(v))).collect(),
    )
}

impl VRFInputData {
    /// The canonical byte form that the VRF is evaluated on.
    pub fn canonical_bytes(&self) -> (r: Vec<u8>)
        ensures
            r@ == canonical_input(*self),
    {
        let mut out: Vec<u8> = Vec::new();
        push_frame_str(&mut out, self.user_id.as_str());
        push_frame_str(&mut out, self.rp_id.as_str());
        push_frame_str(&mut out, self.block_height.as_str());
        push_frame_str(&mut out, self.block_hash.as_str());
        assert(out@ =~= canonical_input(*self));
        out
    }
}

impl VRFChallengeData {
    /// Packages a VRF evaluation of `input` (its canonical input, output,
    /// proof and public key, as text) together with the input's four fields.
    pub fn from_evaluation(
        input: VRFInputData,
        vrf_input: String,
        vrf_output: String,
        vrf_proof: String,
        vrf_public_key: String,
    ) -> (r: VRFChallengeData)
        ensures
            r.vrf_input == vrf_input,
            r.vrf_output == vrf_output,
            r.vrf_proof == vrf_proof,
            r.vrf_public_key == vrf_public_key,
            r.user_id == input.user_id,
            r.rp_id == input.rp_id,
            r.block_height == input.block_height,
            r.block_hash == input.block_hash,
    {
        VRFChallengeData {
            vrf_input,
            vrf_output,
            vrf_proof,
            vrf_public_key,
            user_id: input.user_id,
            rp_id: input.rp_id,
            block_height: input.block_height,
            block_hash: input.block_hash,
        }
    }

    /// Whether this challenge carries exactly the four fields of `input`.
    pub fn is_bound_to(&self, input: &VRFInputData) -> (r: bool)
        ensures
            r == bound_to(*self, *input),
    {
        self.user_id == input.user_id && self.rp_id == input.rp_id && self.block_height
            == input.block_height && self.block_hash == input.block_hash
    }

    /// The challenge's members under their wire names, in declaration order.
    pub fn json_fields(&self) -> (r: Vec<(String, String)>)
        ensures
            pairs_view(r@) == challenge_fields(*self),
    {
        let mut r: Vec<(String, String)> = Vec::new();
        r.push((String::from_str("vrfInput"), self.vrf_input.clone()));
        r.push((String::from_str("vrfOutput"), self.vrf_output.clone()));
        r.push((String::from_str("vrfProof"), self.vrf_proof.clone()));
        r.push((String::from_str("vrfPublicKey"), self.vrf_public_key.clone()));
        r.push((String::from_str("userId"), self.user_id.clone()));
        r.push((String::from_str("rpId"), self.rp_id.clone()));
        r.push((String::from_str("blockHeight"), self.block_height.clone()));
        r.push((String::from_str("blockHash"), self.block_hash.clone()));
        assert(pairs_view(r@) =~= challenge_fields(*self));
        r
    }

    /// The challenge as a JSON object keyed by the wire names.
    pub fn to_json(&self) -> (r: serde_json::Value)
        ensures
            r == json_object_of(challenge_fields(*self)),
    {
        json_object(self.json_fields())
    }
}

/// The canonical input determines all four fields: inputs that differ in any
/// field have different canonical forms.
pub proof fn lemma_canonical_input_injective(a: VRFInputData, b: VRFInputData)
    requires
        input_frameable(a),
        input_frameable(b),
        canonical_input(a) == canonical_input(b),
    ensures
        a.user_id@ == b.user_id@,
        a.rp_id@ == b.rp_id@,
        a.block_height@ == b.block_height@,
        a.block_hash@ == b.block_hash@,
{
    let ra = frame_str(a.rp_id@) + frame_str(a.block_height@) + frame_str(a.block_hash@);
    let rb = frame_str(b.rp_id@) + frame_str(b.block_height@) + frame_str(b.block_hash@);
    assert(canonical_input(a) =~= frame_str(a.user_id@) + ra);
    assert(canonical_input(b) =~= frame_str(b.user_id@) + rb);
    lemma_frame_str_split(a.user_id@, ra, b.user_id@, rb);
    let sa = frame_str(a.block_height@) + frame_str(a.block_hash@);
    let sb = frame_str(b.block_height@) + frame_str(b.block_hash@);
    assert(ra =~= frame_str(a.rp_id@) + sa);
    assert(rb =~= frame_str(b.rp_id@) + sb);
    lemma_frame_str_split(a.rp_id@, sa, b.rp_id@, sb);
    lemma_frame_str_split(a.block_height@, frame_str(a.block_hash@), b.block_height@, frame_str(b.block_hash@));
    let e = Seq::<u8>::empty();
    assert(frame_str(a.block_hash@) + e =~= frame_str(a.block_hash@));
    assert(frame_str(b.block_hash@) + e =~= frame_str(b.block_hash@));
    lemma_frame_str_split(a.block_hash@, e, b.block_hash@, e);
}

} // verus!
