//! The signer abstraction: a 64-byte keypair whose secret half is held
//! privately; callers see only the derived public address and signatures.
use vstd::prelude::*;
use vstd::pervasive::unreached;
use crate::addr::Address;
use crate::errors::CnftError;

verus! {

/// What decoding 64 bytes of key material yields: the derived 32-byte
/// public address, or `None` where the bytes are not a valid keypair
/// encoding. A deterministic function of the bytes alone.
pub uninterp spec fn secret_public(secret: Seq<u8>) -> Option<Seq<u8>>;

/// What signing a message with given key material yields: a deterministic
/// function of the 64 key bytes and the message alone.
pub uninterp spec fn signature_of(secret: Seq<u8>, msg: Seq<u8>) -> Seq<u8>;

/// A signing keypair. The secret half is immutable and never exposed;
/// only the derived public address and signatures leave this type.
pub struct Signer {
    secret: Vec<u8>,
    public: Address,
}

impl Signer {
    /// The 64 secret bytes, visible to specifications only.
    pub closed spec fn secret(&self) -> Seq<u8> {
        self.secret@
    }

    /// The derived public address, as a specification value.
    pub closed spec fn spec_public(&self) -> Seq<u8> {
        self.public@
    }

    /// A well-formed signer: its public address is exactly the one derived
    /// from its secret bytes.
    pub open spec fn wf(&self) -> bool {
        &&& self.secret().len() == 64
        &&& secret_public(self.secret()) == Some(self.spec_public())
    }

    /// Builds a signer from secret key material. Fails with
    /// `InvalidKeyLength` exactly where the input is not 64 bytes, and with
    /// `InvalidKeyEncoding` exactly where 64 bytes do not decode to a
    /// keypair.
    pub fn create(secret_key: &Vec<u8>) -> (r: Result<Signer, CnftError>)
        ensures
            (secret_key@.len() != 64) <==> (r == Err::<Signer, CnftError>(
                CnftError::InvalidKeyLength,
            )),
            secret_key@.len() == 64 ==> match r {
                Ok(s) => s.wf() && s.secret() == secret_key@,
                Err(e) => e == CnftError::InvalidKeyEncoding && secret_public(secret_key@) is None,
            },
    {
        if secret_key.len() != 64 {
            return Err(CnftError::InvalidKeyLength);
        }
        match keypair_public(secret_key) {
            Some(public) => Ok(Signer { secret: secret_key.clone(), public }),
            None => Err(CnftError::InvalidKeyEncoding),
        }
    }

    /// A fresh random signer, for a new mint or tree account.
    pub fn generate() -> (r: Signer)
        ensures
            r.wf(),
    {
        let secret = generate_secret();
        match keypair_public(&secret) {
            Some(public) => Signer { secret, public },
            None => unreached(),
        }
    }

    /// The signer's public address. Pure: repeated calls return the same
    /// address.
    pub fn public_address(&self) -> (r: Address)
        ensures
            r@ == self.spec_public(),
    {
        self.public
    }

    /// Signs a message; the signature is a deterministic function of the
    /// key material and the message. Relies on solana_sdk's
    /// `Signer::sign_message` for `Keypair`, which cannot fail once the key
    /// bytes decode.
    #[verifier::external_body]
    pub fn sign(&self, message: &Vec<u8>) -> (r: Vec<u8>)
        requires
            self.wf(),
        ensures
            r@ == signature_of(self.secret(), message@),
            r@.len() == 64,
    {
        let kp = solana_sdk::signer::keypair::Keypair::from_bytes(self.secret.as_slice())
            .expect("well-formed signer");
        let sig = solana_sdk::signer::Signer::sign_message(&kp, message.as_slice());
        let mut out = Vec::new();
        out.extend_from_slice(sig.as_ref());
        out
    }
}

/// Relies on solana_sdk `Keypair::from_bytes` and `Signer::pubkey`:
/// decoding 64 key bytes and deriving the public address is a deterministic
/// function of the bytes alone, and fails exactly where the bytes are not a
/// valid keypair encoding.
#[verifier::external_body]
fn keypair_public(secret_key: &Vec<u8>) -> (r: Option<Address>)
    requires
        secret_key@.len() == 64,
    ensures
        match r {
            Some(a) => secret_public(secret_key@) == Some(a@) && a@.len() == 32,
            None => secret_public(secret_key@) is None,
        },
{
    match solana_sdk::signer::keypair::Keypair::from_bytes(secret_key.as_slice()) {
        Ok(kp) => Some(Address::from_bytes(solana_sdk::signer::Signer::pubkey(&kp).to_bytes())),
        Err(_) => None,
    }
}

/// Relies on solana_sdk `Keypair::new` and `Keypair::to_bytes`: the bytes
/// of a freshly generated keypair are random, but always 64 bytes that
/// decode back to a keypair.
#[verifier::external_body]
fn generate_secret() -> (r: Vec<u8>)
    ensures
        r@.len() == 64,
        secret_public(r@) is Some,
{
    solana_sdk::signer::keypair::Keypair::new().to_bytes().to_vec()
}

/// For all valid 64-byte key material the exposed public address is
/// deterministic: two well-formed signers over equal secret bytes expose
/// equal public addresses, however many times each is queried.
pub proof fn lemma_public_address_deterministic(a: &Signer, b: &Signer)
    requires
        a.wf(),
        b.wf(),
        a.secret() == b.secret(),
    ensures
        a.spec_public() == b.spec_public(),
{
}

} // verus!
