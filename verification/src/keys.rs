//! The deterministic test keys of the two peers, and the addresses that they fund.

use bitcoin::key::CompressedPublicKey;
use bitcoin::secp256k1::{Secp256k1, SecretKey};
use vstd::prelude::*;

verus! {

/// The network that a key is meant for.
#[derive(Debug, Clone, Copy, PartialEq, Eq, Structural)]
pub enum NetworkKind {
    Main,
    Test,
}

/// The network that an address is written for.
#[derive(Debug, Clone, Copy, PartialEq, Eq, Structural)]
pub enum Network {
    Regtest,
}

/// The number that bytes write, the most significant byte first.
pub open spec fn big_endian(bytes: Seq<u8>) -> nat
    decreases bytes.len(),
{
    if bytes.len() == 0 {
        0
    } else {
        big_endian(bytes.drop_last()) * 256 + bytes.last() as nat
    }
}

/// The order of the secp256k1 group.
pub open spec fn curve_order() -> nat {
    0xffff_ffff_ffff_ffff_ffff_ffff_ffff_fffe_baae_dce6_af48_a03b_bfd2_5e8c_d036_4141nat
}

/// Whether bytes are a secret key: thirty-two of them, whose number is not zero and below the
/// order of the group.
pub open spec fn is_secret_key(bytes: Seq<u8>) -> bool {
    bytes.len() == 32 && 0 < big_endian(bytes) < curve_order()
}

/// The error of `secp256k1`.
#[verifier::external_type_specification]
#[verifier::external_body]
pub struct ExSecpError(bitcoin::secp256k1::Error);

/// `SecretKey::from_slice` of `bitcoin::secp256k1`, the key handed out as its bytes.
///
/// Trusted: it succeeds exactly on thirty-two bytes whose number, the most significant byte
/// first, is not zero and below the order of the group; the key is those bytes.
#[verifier::external_body]
fn secret_key(bytes: &[u8]) -> (key: Result<[u8; 32], bitcoin::secp256k1::Error>)
    ensures
        key is Ok <==> is_secret_key(bytes@),
        key is Ok ==> key->Ok_0@ == bytes@,
{
    SecretKey::from_slice(bytes).map(|key| key.secret_bytes())
}

/// A private key.
#[derive(Debug, Clone, Copy)]
pub struct PrivateKey {
    secret: [u8; 32],
    network: NetworkKind,
}

/// A private key with its secret as a sequence.
#[verifier::ext_equal]
pub struct PrivateKeyModel {
    pub secret: Seq<u8>,
    pub network: NetworkKind,
}

impl View for PrivateKey {
    type V = PrivateKeyModel;

    closed spec fn view(&self) -> PrivateKeyModel {
        PrivateKeyModel { secret: self.secret@, network: self.network }
    }
}

impl PrivateKey {
    #[verifier::type_invariant]
    spec fn usable(self) -> bool {
        is_secret_key(self.secret@)
    }

    /// The bytes of the secret.
    pub fn secret_bytes(&self) -> (bytes: [u8; 32])
        ensures
            bytes@ == self@.secret,
            is_secret_key(bytes@),
    {
        proof {
            use_type_invariant(self);
        }
        self.secret
    }

    /// The network that the key is meant for.
    pub fn network(&self) -> (network: NetworkKind)
        ensures
            network == self@.network,
    {
        self.network
    }
}

/// Why a secret is no private key.
#[derive(Debug, Clone, Copy, PartialEq, Eq, Structural)]
pub enum KeyError {
    /// The secret is zero, or not below the order of the group.
    InvalidSecretKey,
}

impl KeyError {
    /// The sentence that tells the operator what is wrong.
    pub fn message(&self) -> (text: &'static str)
        ensures
            text@ == "malformed or out-of-range secret key"@,
    {
        "malformed or out-of-range secret key"
    }
}

/// A byte, thirty-two times.
pub open spec fn repeated(byte: u8) -> Seq<u8> {
    Seq::new(32, |i: int| byte)
}

/// The number that `n` bytes of one write.
spec fn repunit(n: nat) -> nat
    decreases n,
{
    if n == 0 {
        0
    } else {
        repunit((n - 1) as nat) * 256 + 1
    }
}

proof fn lemma_repeated_value(byte: u8, n: nat)
    ensures
        big_endian(Seq::new(n, |i: int| byte)) == byte * repunit(n),
    decreases n,
{
    let bytes = Seq::new(n, |i: int| byte);
    if n > 0 {
        let shorter = (n - 1) as nat;
        lemma_repeated_value(byte, shorter);
        assert(bytes.drop_last() =~= Seq::new(shorter, |i: int| byte));
        let unit = repunit(shorter);
        assert(byte * (unit * 256 + 1) == byte * unit * 256 + byte) by (nonlinear_arith);
    } else {
        assert(byte * 0 == 0) by (nonlinear_arith);
    }
}

/// A byte repeated thirty-two times is a secret key exactly when it is neither the lowest nor
/// the highest byte.
pub proof fn law_repeated_secret(byte: u8)
    ensures
        is_secret_key(repeated(byte)) <==> 1 <= byte <= 254,
{
    lemma_repeated_value(byte, 32);
    reveal_with_fuel(repunit, 33);
    let unit = repunit(32);
    assert(unit == 0x0101_0101_0101_0101_0101_0101_0101_0101_0101_0101_0101_0101_0101_0101_0101_0101nat);
    if byte == 0 {
        assert(0 * unit == 0) by (nonlinear_arith);
    } else if byte == 255 {
        assert(byte * unit == 255 * unit);
    } else {
        assert(unit <= byte * unit <= 254 * unit) by (nonlinear_arith)
            requires
                1 <= byte <= 254,
        ;
    }
}

/// Makes the private key, for test networks, whose secret is one byte thirty-two times.
pub fn private_key(secret_byte: u8) -> (key: Result<PrivateKey, KeyError>)
    ensures
        key is Ok <==> 1 <= secret_byte <= 254,
        key matches Ok(key) ==> key@ == (PrivateKeyModel {
            secret: repeated(secret_byte),
            network: NetworkKind::Test,
        }),
        key matches Err(error) ==> error == KeyError::InvalidSecretKey,
{
    let bytes: [u8; 32] = [secret_byte;32];
    proof {
        assert(bytes@ =~= repeated(secret_byte));
        law_repeated_secret(secret_byte);
    }
    match secret_key(bytes.as_slice()) {
        Ok(secret) => Ok(PrivateKey { secret, network: NetworkKind::Test }),
        Err(_) => Err(KeyError::InvalidSecretKey),
    }
}

/// The compressed public key of a secret key.
pub uninterp spec fn public_key_of(secret: Seq<u8>) -> Seq<u8>;

/// `CompressedPublicKey::from_private_key` of `bitcoin`, the key handed out as its bytes.
///
/// Trusted: the public key is a function of the secret; its network has no part in it. The call
/// fails only for a key marked uncompressed, which `PrivateKey::new` never makes.
#[verifier::external_body]
fn public_key(secret: &[u8; 32]) -> (key: [u8; 33])
    requires
        is_secret_key(secret@),
    ensures
        key@ == public_key_of(secret@),
{
    let secret = SecretKey::from_slice(secret).expect("a secret key");
    let private = bitcoin::PrivateKey::new(secret, bitcoin::NetworkKind::Test);
    let public = CompressedPublicKey::from_private_key(&Secp256k1::new(), &private);
    public.expect("a compressed key").to_bytes()
}

/// Makes the compressed public key of a private key.
pub fn compressed_public_key(private_key: &PrivateKey) -> (key: [u8; 33])
    ensures
        key@ == public_key_of(private_key@.secret),
        is_public_key(key@),
{
    let secret = private_key.secret_bytes();
    public_key(&secret)
}

/// The hash of a public key that a version 0 witness program of twenty bytes holds.
pub uninterp spec fn public_key_hash(public_key: Seq<u8>) -> Seq<u8>;

/// The script that pays to the hash of a public key: version 0, a push of twenty bytes, the hash.
pub open spec fn p2wpkh_script(public_key: Seq<u8>) -> Seq<u8> {
    seq![0u8, 20u8] + public_key_hash(public_key)
}

/// Whether bytes are the public key of some secret key.
pub open spec fn is_public_key(bytes: Seq<u8>) -> bool {
    exists|secret: Seq<u8>| is_secret_key(secret) && #[trigger] public_key_of(secret) == bytes
}

/// `bitcoin::Address::script_pubkey`, for the address that `bitcoin::Address::p2wpkh` makes of a
/// public key.
///
/// Trusted: the script is version 0, a push of twenty bytes, and the twenty bytes of the key's
/// hash; the network has no part in it.
#[verifier::external_body]
fn address_script(public_key: &[u8; 33]) -> (script: Vec<u8>)
    requires
        is_public_key(public_key@),
    ensures
        script@ == seq![0u8, 20u8] + public_key_hash(public_key@),
        script@.len() == 22,
{
    let public_key = CompressedPublicKey::from_slice(public_key).expect("a public key");
    bitcoin::Address::p2wpkh(&public_key, bitcoin::Network::Regtest).script_pubkey().into_bytes()
}

/// How the address that pays to the hash of a public key is written on a network.
pub uninterp spec fn p2wpkh_text(public_key: Seq<u8>, network: Network) -> Seq<char>;

/// `bitcoin::Address::p2wpkh`, the address handed out as its text.
///
/// Trusted: the text is a function of the public key and the network. On regtest it begins with the
/// network's prefix `bcrt`, the separator `1`, and `q` for version 0.
#[verifier::external_body]
fn address_text(public_key: &[u8; 33], network: Network) -> (text: String)
    requires
        is_public_key(public_key@),
    ensures
        text@ == p2wpkh_text(public_key@, network),
        network == Network::Regtest ==> "bcrt1q"@.is_prefix_of(text@),
{
    let public_key = CompressedPublicKey::from_slice(public_key).expect("a public key");
    let network = match network {
        Network::Regtest => bitcoin::Network::Regtest,
    };
    bitcoin::Address::p2wpkh(&public_key, network).to_string()
}

/// An address: how it is written, and the script that pays to it.
#[derive(Debug)]
pub struct Address {
    pub text: String,
    pub script_pubkey: Vec<u8>,
}

/// An address with its text and script as sequences.
#[verifier::ext_equal]
pub struct AddressModel {
    pub text: Seq<char>,
    pub script_pubkey: Seq<u8>,
}

impl View for Address {
    type V = AddressModel;

    open spec fn view(&self) -> AddressModel {
        AddressModel { text: self.text@, script_pubkey: self.script_pubkey@ }
    }
}

/// The regtest address that pays to the public key of a secret.
pub open spec fn regtest_address(secret: Seq<u8>) -> AddressModel {
    AddressModel {
        text: p2wpkh_text(public_key_of(secret), Network::Regtest),
        script_pubkey: p2wpkh_script(public_key_of(secret)),
    }
}

/// Makes the regtest address that pays to the public key of a private key.
pub fn p2wpkh_address(private_key: &PrivateKey) -> (address: Address)
    ensures
        address@ == regtest_address(private_key@.secret),
        "bcrt1q"@.is_prefix_of(address@.text),
        crate::script::is_v0_program(address@.script_pubkey, 20),
{
    let public = compressed_public_key(private_key);
    Address {
        text: address_text(&public, Network::Regtest),
        script_pubkey: address_script(&public),
    }
}

/// The peer whose secret is one byte thirty-two times is paid at the script of version 0 that holds
/// the hash of its public key; the address is the one of that key on regtest.
pub proof fn law_peers_are_paid_at_their_key(byte: u8, secret: Seq<u8>)
    requires
        secret.len() == 32,
        forall|i: int| 0 <= i < 32 ==> #[trigger] secret[i] == byte,
    ensures
        regtest_address(repeated(byte)).text == p2wpkh_text(
            public_key_of(secret),
            Network::Regtest,
        ),
        regtest_address(repeated(byte)).script_pubkey == seq![0u8, 20u8] + public_key_hash(
            public_key_of(secret),
        ),
{
    assert(repeated(byte) =~= secret);
}

/// The model hides nothing: it shows the fields of what it stands for.
pub proof fn law_model_shows_every_field(address: Address)
    ensures
        address@.text == address.text@,
        address@.script_pubkey == address.script_pubkey@,
{
}

} // verus!
