//! Groth16 verifying keys in the snarkjs JSON layout: decoding, validation,
//! and the two installed keys of the light client.
use vstd::prelude::*;
use vstd::string::StringSliceAdditionalSpecFns;
use crate::pallet::Pallet;
use crate::types::{Error, Event, MAX_VERIFICATION_KEY_LENGTH};

verus! {

/// The string under `key` of the top-level object of the JSON text `doc`.
pub uninterp spec fn json_text_of(doc: Seq<u8>, key: Seq<char>) -> Option<Seq<char>>;

/// The unsigned integer under `key` of the top-level object of `doc`.
pub uninterp spec fn json_count_of(doc: Seq<u8>, key: Seq<char>) -> Option<u64>;

/// The length of the array under `key` of the top-level object of `doc`.
pub uninterp spec fn json_list_len_of(doc: Seq<u8>, key: Seq<char>) -> Option<usize>;

/// The string at position `i` of the array under `key` of `doc`.
pub uninterp spec fn json_text_at_of(doc: Seq<u8>, key: Seq<char>, i: usize) -> Option<Seq<char>>;

/// The string at position `j` of the array at position `i` of the array
/// under `key` of `doc`.
pub uninterp spec fn json_text_at2_of(doc: Seq<u8>, key: Seq<char>, i: usize, j: usize) -> Option<
    Seq<char>,
>;

pub open spec fn text_view(t: Option<String>) -> Option<Seq<char>> {
    match t {
        Some(s) => Some(s@),
        None => None,
    }
}

/// Relies on serde_json::from_slice, Value::get and Value::as_str.
#[verifier::external_body]
fn json_text(doc: &[u8], key: &str) -> (r: Option<String>)
    ensures
        text_view(r) == json_text_of(doc@, key@),
        doc@.len() == 0 ==> r is None,
{
    let v: serde_json::Value = serde_json::from_slice(doc).ok()?;
    v.get(key)?.as_str().map(|s| s.to_string())
}

/// Relies on serde_json::from_slice, Value::get and Value::as_u64.
#[verifier::external_body]
fn json_count(doc: &[u8], key: &str) -> (r: Option<u64>)
    ensures
        r == json_count_of(doc@, key@),
{
    let v: serde_json::Value = serde_json::from_slice(doc).ok()?;
    v.get(key)?.as_u64()
}

/// Relies on serde_json::from_slice, Value::get and Value::as_array.
#[verifier::external_body]
fn json_list_len(doc: &[u8], key: &str) -> (r: Option<usize>)
    ensures
        r == json_list_len_of(doc@, key@),
{
    let v: serde_json::Value = serde_json::from_slice(doc).ok()?;
    v.get(key)?.as_array().map(|a| a.len())
}

/// Relies on serde_json::from_slice, Value::get and Value::as_str.
#[verifier::external_body]
fn json_text_at(doc: &[u8], key: &str, i: usize) -> (r: Option<String>)
    ensures
        text_view(r) == json_text_at_of(doc@, key@, i),
{
    let v: serde_json::Value = serde_json::from_slice(doc).ok()?;
    v.get(key)?.get(i)?.as_str().map(|s| s.to_string())
}

/// Relies on serde_json::from_slice, Value::get and Value::as_str.
#[verifier::external_body]
fn json_text_at2(doc: &[u8], key: &str, i: usize, j: usize) -> (r: Option<String>)
    ensures
        text_view(r) == json_text_at2_of(doc@, key@, i, j),
{
    let v: serde_json::Value = serde_json::from_slice(doc).ok()?;
    v.get(key)?.get(i)?.get(j)?.as_str().map(|s| s.to_string())
}

/// A point of G1 in affine coordinates, each a decimal string.
#[derive(Clone, Debug, PartialEq, Eq)]
pub struct G1Text {
    pub x: String,
    pub y: String,
}

/// A point of G2 in affine coordinates over Fp2, each component a decimal string.
#[derive(Clone, Debug, PartialEq, Eq)]
pub struct G2Text {
    pub x0: String,
    pub x1: String,
    pub y0: String,
    pub y1: String,
}

/// A verifying key as the JSON states it, before any arithmetic.
#[derive(Clone, Debug, PartialEq, Eq)]
pub struct VerifyingKeyJson {
    pub curve: String,
    pub protocol: String,
    pub n_public: u64,
    pub alpha: G1Text,
    pub beta: G2Text,
    pub gamma: G2Text,
    pub delta: G2Text,
    pub ic: Vec<G1Text>,
}

pub open spec fn g1_present(doc: Seq<u8>, key: Seq<char>) -> bool {
    json_text_at_of(doc, key, 0) is Some && json_text_at_of(doc, key, 1) is Some
}

pub open spec fn g1_matches(doc: Seq<u8>, key: Seq<char>, p: G1Text) -> bool {
    json_text_at_of(doc, key, 0) == Some(p.x@) && json_text_at_of(doc, key, 1) == Some(p.y@)
}

pub open spec fn g2_present(doc: Seq<u8>, key: Seq<char>) -> bool {
    &&& json_text_at2_of(doc, key, 0, 0) is Some
    &&& json_text_at2_of(doc, key, 0, 1) is Some
    &&& json_text_at2_of(doc, key, 1, 0) is Some
    &&& json_text_at2_of(doc, key, 1, 1) is Some
}

pub open spec fn g2_matches(doc: Seq<u8>, key: Seq<char>, p: G2Text) -> bool {
    &&& json_text_at2_of(doc, key, 0, 0) == Some(p.x0@)
    &&& json_text_at2_of(doc, key, 0, 1) == Some(p.x1@)
    &&& json_text_at2_of(doc, key, 1, 0) == Some(p.y0@)
    &&& json_text_at2_of(doc, key, 1, 1) == Some(p.y1@)
}

pub open spec fn ic_entry_present(doc: Seq<u8>, i: usize) -> bool {
    json_text_at2_of(doc, "IC"@, i, 0) is Some && json_text_at2_of(doc, "IC"@, i, 1) is Some
}

pub open spec fn ic_entry_matches(doc: Seq<u8>, i: usize, p: G1Text) -> bool {
    json_text_at2_of(doc, "IC"@, i, 0) == Some(p.x@) && json_text_at2_of(doc, "IC"@, i, 1)
        == Some(p.y@)
}

/// `doc` holds every field of a key, and one IC point per public input plus one.
pub open spec fn key_decodes(doc: Seq<u8>) -> bool {
    &&& json_text_of(doc, "curve"@) is Some
    &&& json_text_of(doc, "protocol"@) is Some
    &&& json_count_of(doc, "nPublic"@) is Some
    &&& g1_present(doc, "vk_alpha_1"@)
    &&& g2_present(doc, "vk_beta_2"@)
    &&& g2_present(doc, "vk_gamma_2"@)
    &&& g2_present(doc, "vk_delta_2"@)
    &&& json_list_len_of(doc, "IC"@) matches Some(n) && n
        == json_count_of(doc, "nPublic"@).unwrap() + 1 && forall|i: usize|
        i < n ==> #[trigger] ic_entry_present(doc, i)
}

/// `k` holds exactly what `doc` states.
pub open spec fn key_matches(doc: Seq<u8>, k: VerifyingKeyJson) -> bool {
    &&& json_text_of(doc, "curve"@) == Some(k.curve@)
    &&& json_text_of(doc, "protocol"@) == Some(k.protocol@)
    &&& json_count_of(doc, "nPublic"@) == Some(k.n_public)
    &&& g1_matches(doc, "vk_alpha_1"@, k.alpha)
    &&& g2_matches(doc, "vk_beta_2"@, k.beta)
    &&& g2_matches(doc, "vk_gamma_2"@, k.gamma)
    &&& g2_matches(doc, "vk_delta_2"@, k.delta)
    &&& json_list_len_of(doc, "IC"@) == Some(k.ic@.len() as usize)
    &&& forall|i: int| 0 <= i < k.ic@.len() ==> #[trigger] ic_entry_matches(doc, i as usize, k.ic@[i])
}

fn decode_g1(doc: &[u8], key: &str) -> (r: Option<G1Text>)
    ensures
        r is Some == g1_present(doc@, key@),
        r matches Some(p) ==> g1_matches(doc@, key@, p),
{
    let x = json_text_at(doc, key, 0)?;
    let y = json_text_at(doc, key, 1)?;
    Some(G1Text { x, y })
}

fn decode_g2(doc: &[u8], key: &str) -> (r: Option<G2Text>)
    ensures
        r is Some == g2_present(doc@, key@),
        r matches Some(p) ==> g2_matches(doc@, key@, p),
{
    let x0 = json_text_at2(doc, key, 0, 0)?;
    let x1 = json_text_at2(doc, key, 0, 1)?;
    let y0 = json_text_at2(doc, key, 1, 0)?;
    let y1 = json_text_at2(doc, key, 1, 1)?;
    Some(G2Text { x0, x1, y0, y1 })
}

/// Reads a verifying key out of snarkjs JSON; `None` when a field is
/// missing or of the wrong kind, or IC does not hold `nPublic + 1` points.
pub fn decode_verifying_key(doc: &[u8]) -> (r: Option<VerifyingKeyJson>)
    ensures
        r is Some == key_decodes(doc@),
        r matches Some(k) ==> key_matches(doc@, k),
        r is Some ==> doc@.len() > 0,
{
    let curve = json_text(doc, "curve")?;
    let protocol = json_text(doc, "protocol")?;
    let n_public = json_count(doc, "nPublic")?;
    let alpha = decode_g1(doc, "vk_alpha_1")?;
    let beta = decode_g2(doc, "vk_beta_2")?;
    let gamma = decode_g2(doc, "vk_gamma_2")?;
    let delta = decode_g2(doc, "vk_delta_2")?;
    let n = json_list_len(doc, "IC")?;
    if n == 0 || (n - 1) as u64 != n_public {
        return None;
    }
    let mut ic: Vec<G1Text> = Vec::new();
    let mut i: usize = 0;
    while i < n
        invariant
            i <= n,
            ic@.len() == i,
            json_list_len_of(doc@, "IC"@) == Some(n),
            json_count_of(doc@, "nPublic"@) == Some(n_public),
            n == n_public + 1,
            forall|k: int| 0 <= k < i ==> #[trigger] ic_entry_matches(doc@, k as usize, ic@[k]),
            forall|k: usize| k < i ==> #[trigger] ic_entry_present(doc@, k),
        decreases n - i,
    {
        let x = match json_text_at2(doc, "IC", i, 0) {
            Some(x) => x,
            None => {
                assert(!ic_entry_present(doc@, i));
                return None;
            },
        };
        let y = match json_text_at2(doc, "IC", i, 1) {
            Some(y) => y,
            None => {
                assert(!ic_entry_present(doc@, i));
                return None;
            },
        };
        let ghost before = ic@;
        ic.push(G1Text { x, y });
        assert(ic_entry_matches(doc@, i, ic@[i as int]));
        assert forall|k: int| 0 <= k < i + 1 implies #[trigger] ic_entry_matches(
            doc@,
            k as usize,
            ic@[k],
        ) by {
            if k < i {
                assert(ic@[k] == before[k]);
            }
        }
        i = i + 1;
    }
    Some(VerifyingKeyJson { curve, protocol, n_public, alpha, beta, gamma, delta, ic })
}

/// The two proof flavors, each with its own installed key.
#[derive(Clone, Copy, Debug, PartialEq, Eq, Structural)]
pub enum Flavor {
    Step,
    Rotate,
}

/// What installing `doc` as a key gives: the first failing check among the
/// length cap, decoding, the curve and the protocol.
pub open spec fn key_check(doc: Seq<u8>) -> Result<(), Error> {
    if doc.len() > MAX_VERIFICATION_KEY_LENGTH {
        Err(Error::TooLongVerificationKey)
    } else if !key_decodes(doc) {
        Err(Error::MalformedVerificationKey)
    } else if json_text_of(doc, "curve"@) != Some("bn128"@) {
        Err(Error::NotSupportedCurve)
    } else if json_text_of(doc, "protocol"@) != Some("groth16"@) {
        Err(Error::NotSupportedProtocol)
    } else {
        Ok(())
    }
}

/// What the governance install path gives: a key that does not decode is
/// malformed whatever its length; otherwise as `key_check`.
pub open spec fn setup_check(doc: Seq<u8>) -> Result<(), Error> {
    if !key_decodes(doc) {
        Err(Error::MalformedVerificationKey)
    } else {
        key_check(doc)
    }
}

/// What loading the installed key of a flavor gives.
pub open spec fn load_check(stored: Seq<u8>) -> Result<(), Error> {
    if stored.len() == 0 {
        Err(Error::VerificationKeyIsNotSet)
    } else if !key_decodes(stored) {
        Err(Error::MalformedVerificationKey)
    } else {
        Ok(())
    }
}

fn text_is(s: &String, lit: &str) -> (r: bool)
    ensures
        r == (s@ == lit@),
{
    let t = lit.to_owned();
    s.eq(&t)
}

impl Pallet {
    pub open spec fn key_bytes(self, flavor: Flavor) -> Seq<u8> {
        match flavor {
            Flavor::Step => self.step_verification_key@,
            Flavor::Rotate => self.rotate_verification_key@,
        }
    }

    /// `self` is `old` with the key of `flavor` replaced by `doc`.
    pub open spec fn key_installed_from(self, old: Pallet, flavor: Flavor, doc: Seq<u8>) -> bool {
        &&& self.state == old.state
        &&& self.headers@ == old.headers@
        &&& self.execution_state_roots@ == old.execution_state_roots@
        &&& self.timestamps@ == old.timestamps@
        &&& self.sync_committee_poseidons@ == old.sync_committee_poseidons@
        &&& self.key_bytes(flavor) == doc
        &&& flavor == Flavor::Step ==> self.rotate_verification_key@ == old.rotate_verification_key@
        &&& flavor == Flavor::Rotate ==> self.step_verification_key@ == old.step_verification_key@
        &&& self.verified_call == old.verified_call
    }

    fn store_verification_key(&mut self, flavor: Flavor, vec_vk: Vec<u8>) -> (r: Result<
        VerifyingKeyJson,
        Error,
    >)
        ensures
            old(self).evolves_to(*final(self)),
            r is Ok == key_check(vec_vk@) is Ok,
            r matches Err(e) ==> key_check(vec_vk@) == Err::<(), Error>(e) && *final(self) == *old(
                self,
            ),
            r matches Ok(k) ==> {
                &&& key_matches(vec_vk@, k)
                &&& final(self).key_installed_from(*old(self), flavor, vec_vk@)
                &&& final(self).event_log@ == old(self).event_log@
            },
    {
        if vec_vk.len() > MAX_VERIFICATION_KEY_LENGTH {
            return Err(Error::TooLongVerificationKey);
        }
        let key = match decode_verifying_key(vec_vk.as_slice()) {
            Some(k) => k,
            None => return Err(Error::MalformedVerificationKey),
        };
        if !text_is(&key.curve, "bn128") {
            return Err(Error::NotSupportedCurve);
        }
        if !text_is(&key.protocol, "groth16") {
            return Err(Error::NotSupportedProtocol);
        }
        match flavor {
            Flavor::Step => self.step_verification_key = vec_vk,
            Flavor::Rotate => self.rotate_verification_key = vec_vk,
        }
        Ok(key)
    }

    /// Checks and installs the step key: at most the length cap, decodable,
    /// on bn128 and for groth16.
    pub fn store_step_verification_key(&mut self, vec_vk: Vec<u8>) -> (r: Result<
        VerifyingKeyJson,
        Error,
    >)
        ensures
            old(self).evolves_to(*final(self)),
            r is Ok == key_check(vec_vk@) is Ok,
            r matches Err(e) ==> key_check(vec_vk@) == Err::<(), Error>(e) && *final(self) == *old(
                self,
            ),
            r matches Ok(k) ==> {
                &&& key_matches(vec_vk@, k)
                &&& final(self).key_installed_from(*old(self), Flavor::Step, vec_vk@)
                &&& final(self).event_log@ == old(self).event_log@
            },
    {
        self.store_verification_key(Flavor::Step, vec_vk)
    }

    /// Checks and installs the rotate key, as `store_step_verification_key`.
    pub fn store_rotate_verification_key(&mut self, vec_vk: Vec<u8>) -> (r: Result<
        VerifyingKeyJson,
        Error,
    >)
        ensures
            old(self).evolves_to(*final(self)),
            r is Ok == key_check(vec_vk@) is Ok,
            r matches Err(e) ==> key_check(vec_vk@) == Err::<(), Error>(e) && *final(self) == *old(
                self,
            ),
            r matches Ok(k) ==> {
                &&& key_matches(vec_vk@, k)
                &&& final(self).key_installed_from(*old(self), Flavor::Rotate, vec_vk@)
                &&& final(self).event_log@ == old(self).event_log@
            },
    {
        self.store_verification_key(Flavor::Rotate, vec_vk)
    }

    fn setup_verification(&mut self, flavor: Flavor, verification: &str) -> (r: Result<(), Error>)
        ensures
            old(self).evolves_to(*final(self)),
            r == setup_check(verification.spec_bytes()),
            r is Ok ==> verification.spec_bytes().len() > 0,
            r is Err ==> *final(self) == *old(self),
            r is Ok ==> {
                &&& final(self).key_installed_from(*old(self), flavor, verification.spec_bytes())
                &&& final(self).event_log@ == old(self).event_log@.push(
                    Event::VerificationSetupCompleted,
                )
            },
    {
        let bytes = verification.as_bytes();
        if decode_verifying_key(bytes).is_none() {
            return Err(Error::MalformedVerificationKey);
        }
        let v = vstd::slice::slice_to_vec(bytes);
        match self.store_verification_key(flavor, v) {
            Err(e) => return Err(e),
            Ok(_) => {},
        }
        self.event_log.push(Event::VerificationSetupCompleted);
        Ok(())
    }

    /// Installs the step key given as snarkjs JSON and emits
    /// `VerificationSetupCompleted`.
    pub fn setup_step_verification(&mut self, verification: &str) -> (r: Result<(), Error>)
        ensures
            old(self).evolves_to(*final(self)),
            r == setup_check(verification.spec_bytes()),
            r is Ok ==> verification.spec_bytes().len() > 0,
            r is Err ==> *final(self) == *old(self),
            r is Ok ==> {
                &&& final(self).key_installed_from(
                    *old(self),
                    Flavor::Step,
                    verification.spec_bytes(),
                )
                &&& final(self).event_log@ == old(self).event_log@.push(
                    Event::VerificationSetupCompleted,
                )
            },
    {
        self.setup_verification(Flavor::Step, verification)
    }

    /// Installs the rotate key given as snarkjs JSON and emits
    /// `VerificationSetupCompleted`.
    pub fn setup_rotate_verification(&mut self, verification: &str) -> (r: Result<(), Error>)
        ensures
            old(self).evolves_to(*final(self)),
            r == setup_check(verification.spec_bytes()),
            r is Ok ==> verification.spec_bytes().len() > 0,
            r is Err ==> *final(self) == *old(self),
            r is Ok ==> {
                &&& final(self).key_installed_from(
                    *old(self),
                    Flavor::Rotate,
                    verification.spec_bytes(),
                )
                &&& final(self).event_log@ == old(self).event_log@.push(
                    Event::VerificationSetupCompleted,
                )
            },
    {
        self.setup_verification(Flavor::Rotate, verification)
    }

    /// Decodes the installed key of `flavor` afresh.
    pub fn get_verifier_key(&self, flavor: Flavor) -> (r: Result<VerifyingKeyJson, Error>)
        ensures
            r is Ok == load_check(self.key_bytes(flavor)) is Ok,
            r matches Err(e) ==> load_check(self.key_bytes(flavor)) == Err::<(), Error>(e),
            r matches Ok(k) ==> key_matches(self.key_bytes(flavor), k),
    {
        let vk = match flavor {
            Flavor::Step => &self.step_verification_key,
            Flavor::Rotate => &self.rotate_verification_key,
        };
        if vk.len() == 0 {
            return Err(Error::VerificationKeyIsNotSet);
        }
        match decode_verifying_key(vk.as_slice()) {
            Some(k) => Ok(k),
            None => Err(Error::MalformedVerificationKey),
        }
    }
}

/// A key accepted by installation loads again from storage, as the same key.
pub proof fn lemma_installed_key_round_trip(
    before: Pallet,
    after: Pallet,
    flavor: Flavor,
    doc: Seq<u8>,
    key: VerifyingKeyJson,
)
    requires
        setup_check(doc) is Ok,
        doc.len() > 0,
        after.key_installed_from(before, flavor, doc),
        key_matches(doc, key),
    ensures
        load_check(after.key_bytes(flavor)) is Ok,
        key_matches(after.key_bytes(flavor), key),
{
}

} // verus!
