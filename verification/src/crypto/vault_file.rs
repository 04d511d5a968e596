//! The vault file: a versioned header naming the key derivation and the
//! cipher, and the vault's plaintext sealed with AES-256-GCM under a key
//! derived from the master password. Every header field is bound into the
//! sealing as associated data, so a changed header no longer opens.

use vstd::prelude::*;
use vstd::seq_lib::lemma_concat_associative;
use vstd::string::*;

use crate::clock::now_unix;
use crate::crypto::cipher::{
    self, aes256gcm_opened, aes256gcm_sealed, aes_gcm_accepts, generate_nonce, AES_GCM_MAX_INPUT,
    NONCE_LEN, TAG_LEN,
};
use crate::crypto::encoding::{
    base64_decode, base64_decoded, base64_encode, base64_len, base64_text, lemma_base64_text_len,
    Decoded,
};
use crate::crypto::kdf::{
    argon2id_key, derive_key, derived_key, generate_salt, KdfParams, KEY_LEN, MAX_CHECKED_PARALLELISM,
    SALT_LEN,
};
use crate::crypto::secret::{bytes_held, key_held, reveal_key, SecretBytes, SecretKey};
use crate::error::{CryptoError, CryptoErrorModel};
use crate::json::{
    decimal, lemma_decimal_len, lemma_decimal_prefix, lemma_escape_len, lemma_quoted_prefix,
    lemma_utf8_injective, lemma_utf8_len, push_decimal, push_quoted, quoted, utf8,
};

verus! {

/// The tag that opens every vault file.
pub const MAGIC: &'static str = "PWMGRVAULT";

/// The vault file format this code reads and writes.
pub const FORMAT_VERSION: u32 = 1;

/// The key-derivation algorithm named in the header.
pub const KDF_ALGORITHM: &'static str = "argon2id";

/// The cipher named in the header.
pub const CIPHER_ALGORITHM: &'static str = "aes-256-gcm";

/// Key-derivation part of the header: the algorithm, the Base64 salt and the
/// Argon2 costs.
#[derive(Debug, Clone)]
pub struct KdfHeader {
    pub algorithm: String,
    pub salt: String,
    pub memory_kib: u32,
    pub iterations: u32,
    pub parallelism: u32,
}

/// Cipher part of the header: the algorithm and the Base64 nonce.
#[derive(Debug, Clone)]
pub struct CipherHeader {
    pub algorithm: String,
    pub nonce: String,
}

/// A vault file: header, timestamps and the Base64 ciphertext.
#[derive(Debug, Clone)]
pub struct VaultFile {
    pub magic: String,
    pub format_version: u32,
    pub kdf: KdfHeader,
    pub cipher: CipherHeader,
    pub created_at: i64,
    pub modified_at: i64,
    pub ciphertext: String,
}

/// A [`KdfHeader`] with its texts as character sequences.
pub struct KdfHeaderModel {
    pub algorithm: Seq<char>,
    pub salt: Seq<char>,
    pub memory_kib: u32,
    pub iterations: u32,
    pub parallelism: u32,
}

/// A [`CipherHeader`] with its texts as character sequences.
pub struct CipherHeaderModel {
    pub algorithm: Seq<char>,
    pub nonce: Seq<char>,
}

/// A [`VaultFile`] with its texts as character sequences.
pub struct VaultFileModel {
    pub magic: Seq<char>,
    pub format_version: u32,
    pub kdf: KdfHeaderModel,
    pub cipher: CipherHeaderModel,
    pub created_at: i64,
    pub modified_at: i64,
    pub ciphertext: Seq<char>,
}

impl View for KdfHeader {
    type V = KdfHeaderModel;

    open spec fn view(&self) -> KdfHeaderModel {
        KdfHeaderModel {
            algorithm: self.algorithm@,
            salt: self.salt@,
            memory_kib: self.memory_kib,
            iterations: self.iterations,
            parallelism: self.parallelism,
        }
    }
}

impl View for CipherHeader {
    type V = CipherHeaderModel;

    open spec fn view(&self) -> CipherHeaderModel {
        CipherHeaderModel { algorithm: self.algorithm@, nonce: self.nonce@ }
    }
}

impl View for VaultFile {
    type V = VaultFileModel;

    open spec fn view(&self) -> VaultFileModel {
        VaultFileModel {
            magic: self.magic@,
            format_version: self.format_version,
            kdf: self.kdf@,
            cipher: self.cipher@,
            created_at: self.created_at,
            modified_at: self.modified_at,
            ciphertext: self.ciphertext@,
        }
    }
}

impl KdfHeaderModel {
    /// The Argon2 costs that the header names.
    pub open spec fn params(self) -> KdfParams {
        KdfParams {
            memory_kib: self.memory_kib,
            iterations: self.iterations,
            parallelism: self.parallelism,
        }
    }
}

/// The associated data that seals a vault: the header as compact JSON, in the
/// order magic, format version, key derivation (algorithm, salt, memory,
/// iterations, parallelism), cipher (algorithm, nonce).
pub open spec fn header_aad(v: VaultFileModel) -> Seq<u8> {
    utf8("{\"magic\":"@) + quoted(utf8(v.magic)) + utf8(",\"format_version\":"@) + decimal(
        v.format_version as nat,
    ) + utf8(",\"kdf\":{\"algorithm\":"@) + quoted(utf8(v.kdf.algorithm)) + utf8(",\"salt\":"@)
        + quoted(utf8(v.kdf.salt)) + utf8(",\"memory_kib\":"@) + decimal(v.kdf.memory_kib as nat)
        + utf8(",\"iterations\":"@) + decimal(v.kdf.iterations as nat) + utf8(
        ",\"parallelism\":"@,
    ) + decimal(v.kdf.parallelism as nat) + utf8("},\"cipher\":{\"algorithm\":"@) + quoted(
        utf8(v.cipher.algorithm),
    ) + utf8(",\"nonce\":"@) + quoted(utf8(v.cipher.nonce)) + utf8("}}"@)
}

/// What opening a vault's ciphertext with `key` gives: the nonce and the
/// ciphertext are decoded from Base64 (the nonce must be twelve bytes), and
/// the ciphertext is authenticated against the header. Every failure, be it
/// text that is not Base64, a nonce of the wrong length or a ciphertext that
/// does not authenticate, is the one [`CryptoErrorModel::Decrypt`].
pub open spec fn opened_with_key(v: VaultFileModel, key: Seq<u8>) -> Result<
    Seq<u8>,
    CryptoErrorModel,
> {
    match base64_decoded(utf8(v.cipher.nonce)) {
        Err(_) => Err(CryptoErrorModel::Decrypt),
        Ok(nonce) => if nonce.len() != NONCE_LEN {
            Err(CryptoErrorModel::Decrypt)
        } else {
            match base64_decoded(utf8(v.ciphertext)) {
                Err(_) => Err(CryptoErrorModel::Decrypt),
                Ok(ct) => match aes256gcm_opened(key, nonce, header_aad(v), ct) {
                    Some(p) => Ok(p),
                    None => Err(CryptoErrorModel::Decrypt),
                },
            }
        },
    }
}

/// The outcome of unlocking a vault with a password: the derived key and the
/// plaintext, or the first failure among an unknown magic, an unsupported
/// version, an unsupported key derivation or cipher, a salt that is not
/// Base64 or not sixteen bytes, a refused key derivation, and the failures of
/// [`opened_with_key`]. Past the header's names, damaged data and a wrong
/// password are not told apart: a bad salt, nonce or ciphertext and a failed
/// authentication all give [`CryptoErrorModel::Decrypt`].
pub open spec fn unlocked(v: VaultFileModel, password: Seq<char>) -> Result<
    (Seq<u8>, Seq<u8>),
    CryptoErrorModel,
> {
    if v.magic != MAGIC@ {
        Err(CryptoErrorModel::InvalidMagic)
    } else if v.format_version != FORMAT_VERSION {
        Err(CryptoErrorModel::UnsupportedVersion(v.format_version))
    } else if v.kdf.algorithm != KDF_ALGORITHM@ {
        Err(CryptoErrorModel::UnsupportedAlgorithm(v.kdf.algorithm))
    } else if v.cipher.algorithm != CIPHER_ALGORITHM@ {
        Err(CryptoErrorModel::UnsupportedAlgorithm(v.cipher.algorithm))
    } else {
        match base64_decoded(utf8(v.kdf.salt)) {
            Err(_) => Err(CryptoErrorModel::Decrypt),
            Ok(salt) => if salt.len() != SALT_LEN {
                Err(CryptoErrorModel::Decrypt)
            } else {
                match derived_key(password, salt, v.kdf.params()) {
                    Err(m) => Err(CryptoErrorModel::Kdf(m)),
                    Ok(key) => match opened_with_key(v, key) {
                        Ok(p) => Ok((key, p)),
                        Err(e) => Err(e),
                    },
                }
            },
        }
    }
}

/// Whether unlocking `v` gets as far as deriving the key: the header names
/// this format and these algorithms, and the salt decodes to sixteen bytes.
pub open spec fn reaches_key_derivation(v: VaultFileModel) -> bool {
    &&& v.magic == MAGIC@
    &&& v.format_version == FORMAT_VERSION
    &&& v.kdf.algorithm == KDF_ALGORITHM@
    &&& v.cipher.algorithm == CIPHER_ALGORITHM@
    &&& base64_decoded(utf8(v.kdf.salt)) is Ok
    &&& base64_decoded(utf8(v.kdf.salt))->Ok_0.len() == SALT_LEN
}

/// Whether the key derivation that unlocking `v` runs, if it runs one, has a
/// parallelism that Argon2's parameter check takes without overflowing.
pub open spec fn derivation_checkable(v: VaultFileModel) -> bool {
    reaches_key_derivation(v) ==> v.kdf.parallelism <= MAX_CHECKED_PARALLELISM
}

/// `v` holds `plaintext` sealed under `key` with `nonce`: the nonce field is
/// the nonce's Base64 text, the ciphertext field is the Base64 text of the
/// AES-256-GCM sealing of the plaintext with the header as associated data
/// (sixteen tag bytes longer than the plaintext), and each text decodes back and the sealing opens back as the crates
/// promise when they produce them.
pub open spec fn seals_with(
    v: VaultFileModel,
    key: Seq<u8>,
    plaintext: Seq<u8>,
    nonce: Seq<u8>,
) -> bool {
    let ct = aes256gcm_sealed(key, nonce, header_aad(v), plaintext);
    &&& nonce.len() == NONCE_LEN
    &&& v.cipher.nonce == base64_text(nonce)
    &&& v.cipher.nonce.len() == base64_len(NONCE_LEN as nat)
    &&& ct.len() == plaintext.len() + TAG_LEN
    &&& base64_decoded(utf8(v.cipher.nonce)) == Decoded::Ok(nonce)
    &&& v.ciphertext == base64_text(ct)
    &&& base64_decoded(utf8(v.ciphertext)) == Decoded::Ok(ct)
    &&& aes256gcm_opened(key, nonce, header_aad(v), ct) == Some(plaintext)
}

/// `v` holds `plaintext` sealed under `key` with some nonce.
pub open spec fn sealed(v: VaultFileModel, key: Seq<u8>, plaintext: Seq<u8>) -> bool {
    exists|nonce: Seq<u8>| #[trigger] seals_with(v, key, plaintext, nonce)
}

/// `new` is `old` with a fresh nonce, ciphertext and modification time; the
/// rest of the header and the creation time are unchanged.
pub open spec fn same_but_seal(old: VaultFileModel, new: VaultFileModel) -> bool {
    &&& new.magic == old.magic
    &&& new.format_version == old.format_version
    &&& new.kdf == old.kdf
    &&& new.cipher.algorithm == old.cipher.algorithm
    &&& new.created_at == old.created_at
}

/// `key` is the key that `password` and the header's salt derive, the salt
/// being `salt`, stored as its Base64 text (24 characters), which decodes
/// back.
pub open spec fn salted_key(
    v: VaultFileModel,
    key: Seq<u8>,
    password: Seq<char>,
    salt: Seq<u8>,
) -> bool {
    &&& salt.len() == SALT_LEN
    &&& v.kdf.salt == base64_text(salt)
    &&& v.kdf.salt.len() == base64_len(SALT_LEN as nat)
    &&& base64_decoded(utf8(v.kdf.salt)) == Decoded::Ok(salt)
    &&& derived_key(password, salt, v.kdf.params()) == Ok::<Seq<u8>, Seq<char>>(key)
}

/// `v` is a vault as [`VaultFile::create`] makes it for `password` and
/// `plaintext`, with `key` the key it derived: the current magic and format
/// version, Argon2id with the production costs and a sixteen-byte salt,
/// AES-256-GCM, and the plaintext sealed under the key.
pub open spec fn created(
    v: VaultFileModel,
    key: Seq<u8>,
    password: Seq<char>,
    plaintext: Seq<u8>,
) -> bool {
    &&& v.magic == MAGIC@
    &&& v.format_version == FORMAT_VERSION
    &&& v.kdf.algorithm == KDF_ALGORITHM@
    &&& v.kdf.memory_kib == 65536
    &&& v.kdf.iterations == 3
    &&& v.kdf.parallelism == 4
    &&& v.cipher.algorithm == CIPHER_ALGORITHM@
    &&& exists|salt: Seq<u8>| #[trigger] salted_key(v, key, password, salt)
    &&& sealed(v, key, plaintext)
}

/// Why [`VaultFile::create`] refuses: a password whose UTF-8 encoding Argon2
/// does not take, or a plaintext too long for AES-GCM.
pub open spec fn create_refusal(password: Seq<char>, plaintext: Seq<u8>) -> Option<
    CryptoErrorModel,
> {
    if utf8(password).len() > 0xFFFF_FFFF {
        Some(CryptoErrorModel::Kdf("password is too long"@))
    } else if plaintext.len() > AES_GCM_MAX_INPUT {
        Some(CryptoErrorModel::Encrypt)
    } else {
        None
    }
}

/// Whether the Base64 text of a sealing of `plaintext_len` bytes fits in
/// memory: a limit of the machine, met on 64-bit targets.
pub open spec fn seal_fits(plaintext_len: nat) -> bool {
    plaintext_len <= AES_GCM_MAX_INPUT ==> base64_len((plaintext_len + TAG_LEN) as nat) <= usize::MAX
}

/// The associated data is short: literal punctuation and field names, at most
/// 24 bytes for each character of the five header texts (four UTF-8 bytes,
/// escaped into at most six), and the four numbers.
pub proof fn lemma_header_aad_len(v: VaultFileModel)
    ensures
        header_aad(v).len() <= 1000 + 24 * (v.magic.len() + v.kdf.algorithm.len() + v.kdf.salt.len()
            + v.cipher.algorithm.len() + v.cipher.nonce.len()) + 4 * 0x1_0000_0001,
{
    reveal_strlit("{\"magic\":");
    reveal_strlit(",\"format_version\":");
    reveal_strlit(",\"kdf\":{\"algorithm\":");
    reveal_strlit(",\"salt\":");
    reveal_strlit(",\"memory_kib\":");
    reveal_strlit(",\"iterations\":");
    reveal_strlit(",\"parallelism\":");
    reveal_strlit("},\"cipher\":{\"algorithm\":");
    reveal_strlit(",\"nonce\":");
    reveal_strlit("}}");
    lemma_utf8_len("{\"magic\":"@);
    lemma_utf8_len(",\"format_version\":"@);
    lemma_utf8_len(",\"kdf\":{\"algorithm\":"@);
    lemma_utf8_len(",\"salt\":"@);
    lemma_utf8_len(",\"memory_kib\":"@);
    lemma_utf8_len(",\"iterations\":"@);
    lemma_utf8_len(",\"parallelism\":"@);
    lemma_utf8_len("},\"cipher\":{\"algorithm\":"@);
    lemma_utf8_len(",\"nonce\":"@);
    lemma_utf8_len("}}"@);
    lemma_utf8_len(v.magic);
    lemma_utf8_len(v.kdf.algorithm);
    lemma_utf8_len(v.kdf.salt);
    lemma_utf8_len(v.cipher.algorithm);
    lemma_utf8_len(v.cipher.nonce);
    lemma_escape_len(utf8(v.magic));
    lemma_escape_len(utf8(v.kdf.algorithm));
    lemma_escape_len(utf8(v.kdf.salt));
    lemma_escape_len(utf8(v.cipher.algorithm));
    lemma_escape_len(utf8(v.cipher.nonce));
    lemma_decimal_len(v.format_version as nat);
    lemma_decimal_len(v.kdf.memory_kib as nat);
    lemma_decimal_len(v.kdf.iterations as nat);
    lemma_decimal_len(v.kdf.parallelism as nat);
}

/// A vault sealed under `key` opens with `key` to the plaintext it seals.
pub proof fn lemma_sealed_opens(v: VaultFileModel, key: Seq<u8>, plaintext: Seq<u8>)
    requires
        sealed(v, key, plaintext),
    ensures
        opened_with_key(v, key) == Ok::<Seq<u8>, CryptoErrorModel>(plaintext),
{
    let nonce = choose|nonce: Seq<u8>| #[trigger] seals_with(v, key, plaintext, nonce);
    assert(seals_with(v, key, plaintext, nonce));
}

/// What a vault is created with is what unlocking it gives back: a vault
/// that [`VaultFile::create`] made for `password` and `plaintext` unlocks
/// with `password` to the same derived key and to `plaintext`.
pub proof fn law_create_then_unlock(
    v: VaultFileModel,
    key: Seq<u8>,
    password: Seq<char>,
    plaintext: Seq<u8>,
)
    requires
        created(v, key, password, plaintext),
    ensures
        unlocked(v, password) == Ok::<(Seq<u8>, Seq<u8>), CryptoErrorModel>((key, plaintext)),
{
    let salt = choose|salt: Seq<u8>| #[trigger] salted_key(v, key, password, salt);
    assert(salted_key(v, key, password, salt));
    lemma_sealed_opens(v, key, plaintext);
}

/// Unlocking derives the key from the whole password: when a vault unlocks
/// with `password`, the key it gives is Argon2id of the password's entire
/// UTF-8 encoding, with the salt the header holds and the header's costs.
pub proof fn law_unlock_key_uses_whole_password(v: VaultFileModel, password: Seq<char>)
    requires
        unlocked(v, password) is Ok,
    ensures
        base64_decoded(utf8(v.kdf.salt)) is Ok,
        unlocked(v, password)->Ok_0.0 == argon2id_key(
            utf8(password),
            base64_decoded(utf8(v.kdf.salt))->Ok_0,
            v.kdf.memory_kib,
            v.kdf.iterations,
            v.kdf.parallelism,
        ),
{
}

/// A created vault's key is Argon2id, with the production costs, of the
/// password's entire UTF-8 encoding and of the sixteen-byte salt whose
/// Base64 text the header holds.
pub proof fn law_created_key_uses_whole_password(
    v: VaultFileModel,
    key: Seq<u8>,
    password: Seq<char>,
    plaintext: Seq<u8>,
)
    requires
        created(v, key, password, plaintext),
    ensures
        exists|salt: Seq<u8>|
            {
                &&& salt.len() == SALT_LEN
                &&& v.kdf.salt == base64_text(salt)
                &&& key == #[trigger] argon2id_key(utf8(password), salt, 65536, 3, 4)
            },
{
    let salt = choose|salt: Seq<u8>| #[trigger] salted_key(v, key, password, salt);
    assert(salted_key(v, key, password, salt));
    assert(key == argon2id_key(utf8(password), salt, 65536, 3, 4));
}

/// Re-sealing replaces what unlocking gives: if a vault unlocks with
/// `password` to `key`, then after re-sealing `plaintext` under that key it
/// unlocks with the same password to the same key and to `plaintext`.
pub proof fn law_reencrypt_then_unlock(
    before: VaultFileModel,
    after: VaultFileModel,
    password: Seq<char>,
    key: Seq<u8>,
    plaintext: Seq<u8>,
)
    requires
        unlocked(before, password) is Ok,
        unlocked(before, password)->Ok_0.0 == key,
        same_but_seal(before, after),
        sealed(after, key, plaintext),
    ensures
        unlocked(after, password) == Ok::<(Seq<u8>, Seq<u8>), CryptoErrorModel>((key, plaintext)),
{
    lemma_sealed_opens(after, key, plaintext);
}

/// A vault that [`VaultFile::create`] made can always be re-sealed with a
/// plaintext that AES-GCM takes: its header, with any fresh nonce of the same
/// length, is short enough to be associated data.
pub proof fn law_created_vault_reseals(
    v: VaultFileModel,
    key: Seq<u8>,
    password: Seq<char>,
    plaintext: Seq<u8>,
    w: VaultFileModel,
)
    requires
        created(v, key, password, plaintext),
        same_but_seal(v, w),
        w.cipher.nonce.len() == base64_len(NONCE_LEN as nat),
    ensures
        header_aad(w).len() <= AES_GCM_MAX_INPUT,
{
    let salt = choose|salt: Seq<u8>| #[trigger] salted_key(v, key, password, salt);
    assert(salted_key(v, key, password, salt));
    reveal_strlit("PWMGRVAULT");
    reveal_strlit("argon2id");
    reveal_strlit("aes-256-gcm");
    lemma_header_aad_len(w);
}

/// A common prefix cancels.
proof fn lemma_cancel_prefix(p: Seq<u8>, x: Seq<u8>, y: Seq<u8>)
    requires
        p + x == p + y,
    ensures
        x == y,
{
    assert(x =~= (p + x).subrange(p.len() as int, (p + x).len() as int));
    assert(y =~= (p + y).subrange(p.len() as int, (p + y).len() as int));
}

/// The first byte of an ASCII text's encoding is its first character.
proof fn lemma_ascii_first(s: Seq<char>)
    requires
        s.len() > 0,
        vstd::utf8::is_ascii_chars(s),
    ensures
        utf8(s).len() > 0,
        utf8(s)[0] == s[0] as u8,
{
    vstd::utf8::is_ascii_chars_encode_utf8(s);
}

/// The header's associated data, grouped from the right: each field followed
/// by everything after it.
#[verifier::opaque]
spec fn aad_from_magic(v: VaultFileModel) -> Seq<u8> {
    quoted(utf8(v.magic)) + (utf8(",\"format_version\":"@) + aad_from_version(v))
}

#[verifier::opaque]
spec fn aad_from_version(v: VaultFileModel) -> Seq<u8> {
    decimal(v.format_version as nat) + (utf8(",\"kdf\":{\"algorithm\":"@) + aad_from_kdf_algorithm(v))
}

#[verifier::opaque]
spec fn aad_from_kdf_algorithm(v: VaultFileModel) -> Seq<u8> {
    quoted(utf8(v.kdf.algorithm)) + (utf8(",\"salt\":"@) + aad_from_salt(v))
}

#[verifier::opaque]
spec fn aad_from_salt(v: VaultFileModel) -> Seq<u8> {
    quoted(utf8(v.kdf.salt)) + (utf8(",\"memory_kib\":"@) + aad_from_memory(v))
}

#[verifier::opaque]
spec fn aad_from_memory(v: VaultFileModel) -> Seq<u8> {
    decimal(v.kdf.memory_kib as nat) + (utf8(",\"iterations\":"@) + aad_from_iterations(v))
}

#[verifier::opaque]
spec fn aad_from_iterations(v: VaultFileModel) -> Seq<u8> {
    decimal(v.kdf.iterations as nat) + (utf8(",\"parallelism\":"@) + aad_from_parallelism(v))
}

#[verifier::opaque]
spec fn aad_from_parallelism(v: VaultFileModel) -> Seq<u8> {
    decimal(v.kdf.parallelism as nat) + (utf8("},\"cipher\":{\"algorithm\":"@)
        + aad_from_cipher_algorithm(v))
}

#[verifier::opaque]
spec fn aad_from_cipher_algorithm(v: VaultFileModel) -> Seq<u8> {
    quoted(utf8(v.cipher.algorithm)) + (utf8(",\"nonce\":"@) + aad_from_nonce(v))
}

#[verifier::opaque]
spec fn aad_from_nonce(v: VaultFileModel) -> Seq<u8> {
    quoted(utf8(v.cipher.nonce)) + utf8("}}"@)
}

/// The associated data is its opening literal followed by the right-grouped
/// rest.
proof fn lemma_aad_regrouped(v: VaultFileModel)
    ensures
        header_aad(v) == utf8("{\"magic\":"@) + aad_from_magic(v),
{
    reveal(aad_from_magic);
    reveal(aad_from_version);
    reveal(aad_from_kdf_algorithm);
    reveal(aad_from_salt);
    reveal(aad_from_memory);
    reveal(aad_from_iterations);
    reveal(aad_from_parallelism);
    reveal(aad_from_cipher_algorithm);
    reveal(aad_from_nonce);
    let a0 = utf8("{\"magic\":"@);
    let a1 = quoted(utf8(v.magic));
    let a2 = utf8(",\"format_version\":"@);
    let a3 = decimal(v.format_version as nat);
    let a4 = utf8(",\"kdf\":{\"algorithm\":"@);
    let a5 = quoted(utf8(v.kdf.algorithm));
    let a6 = utf8(",\"salt\":"@);
    let a7 = quoted(utf8(v.kdf.salt));
    let a8 = utf8(",\"memory_kib\":"@);
    let a9 = decimal(v.kdf.memory_kib as nat);
    let a10 = utf8(",\"iterations\":"@);
    let a11 = decimal(v.kdf.iterations as nat);
    let a12 = utf8(",\"parallelism\":"@);
    let a13 = decimal(v.kdf.parallelism as nat);
    let a14 = utf8("},\"cipher\":{\"algorithm\":"@);
    let a15 = quoted(utf8(v.cipher.algorithm));
    let a16 = utf8(",\"nonce\":"@);
    let a17 = quoted(utf8(v.cipher.nonce));
    let a18 = utf8("}}"@);
    let l0 = a0;
    let l1 = l0 + a1;
    let l2 = l1 + a2;
    let l3 = l2 + a3;
    let l4 = l3 + a4;
    let l5 = l4 + a5;
    let l6 = l5 + a6;
    let l7 = l6 + a7;
    let l8 = l7 + a8;
    let l9 = l8 + a9;
    let l10 = l9 + a10;
    let l11 = l10 + a11;
    let l12 = l11 + a12;
    let l13 = l12 + a13;
    let l14 = l13 + a14;
    let l15 = l14 + a15;
    let l16 = l15 + a16;
    let l17 = l16 + a17;
    let l18 = l17 + a18;
    assert(header_aad(v) == l18);
    let t18 = a18;
    let t17 = a17 + t18;
    lemma_concat_associative(l16, a17, t18);
    let t16 = a16 + t17;
    lemma_concat_associative(l15, a16, t17);
    let t15 = a15 + t16;
    lemma_concat_associative(l14, a15, t16);
    let t14 = a14 + t15;
    lemma_concat_associative(l13, a14, t15);
    let t13 = a13 + t14;
    lemma_concat_associative(l12, a13, t14);
    let t12 = a12 + t13;
    lemma_concat_associative(l11, a12, t13);
    let t11 = a11 + t12;
    lemma_concat_associative(l10, a11, t12);
    let t10 = a10 + t11;
    lemma_concat_associative(l9, a10, t11);
    let t9 = a9 + t10;
    lemma_concat_associative(l8, a9, t10);
    let t8 = a8 + t9;
    lemma_concat_associative(l7, a8, t9);
    let t7 = a7 + t8;
    lemma_concat_associative(l6, a7, t8);
    let t6 = a6 + t7;
    lemma_concat_associative(l5, a6, t7);
    let t5 = a5 + t6;
    lemma_concat_associative(l4, a5, t6);
    let t4 = a4 + t5;
    lemma_concat_associative(l3, a4, t5);
    let t3 = a3 + t4;
    lemma_concat_associative(l2, a3, t4);
    let t2 = a2 + t3;
    lemma_concat_associative(l1, a2, t3);
    let t1 = a1 + t2;
    lemma_concat_associative(l0, a1, t2);
    assert(header_aad(v) == l0 + t1);
}

/// Reading the header back one field at a time: equal texts from a field on
/// give equal fields and equal texts from the next field on.
proof fn lemma_read_magic(v: VaultFileModel, w: VaultFileModel)
    requires
        aad_from_magic(v) == aad_from_magic(w),
    ensures
        v.magic == w.magic,
        aad_from_version(v) == aad_from_version(w),
{
    reveal(aad_from_magic);
    lemma_quoted_prefix(
        utf8(v.magic),
        utf8(w.magic),
        utf8(",\"format_version\":"@) + aad_from_version(v),
        utf8(",\"format_version\":"@) + aad_from_version(w),
    );
    lemma_utf8_injective(v.magic, w.magic);
    lemma_cancel_prefix(utf8(",\"format_version\":"@), aad_from_version(v), aad_from_version(w));
}

proof fn lemma_read_version(v: VaultFileModel, w: VaultFileModel)
    requires
        aad_from_version(v) == aad_from_version(w),
    ensures
        v.format_version == w.format_version,
        aad_from_kdf_algorithm(v) == aad_from_kdf_algorithm(w),
{
    reveal(aad_from_version);
    reveal_strlit(",\"kdf\":{\"algorithm\":");
    lemma_ascii_first(",\"kdf\":{\"algorithm\":"@);
    lemma_decimal_prefix(
        v.format_version as nat,
        w.format_version as nat,
        utf8(",\"kdf\":{\"algorithm\":"@) + aad_from_kdf_algorithm(v),
        utf8(",\"kdf\":{\"algorithm\":"@) + aad_from_kdf_algorithm(w),
    );
    lemma_cancel_prefix(
        utf8(",\"kdf\":{\"algorithm\":"@),
        aad_from_kdf_algorithm(v),
        aad_from_kdf_algorithm(w),
    );
}

proof fn lemma_read_kdf_algorithm(v: VaultFileModel, w: VaultFileModel)
    requires
        aad_from_kdf_algorithm(v) == aad_from_kdf_algorithm(w),
    ensures
        v.kdf.algorithm == w.kdf.algorithm,
        aad_from_salt(v) == aad_from_salt(w),
{
    reveal(aad_from_kdf_algorithm);
    lemma_quoted_prefix(
        utf8(v.kdf.algorithm),
        utf8(w.kdf.algorithm),
        utf8(",\"salt\":"@) + aad_from_salt(v),
        utf8(",\"salt\":"@) + aad_from_salt(w),
    );
    lemma_utf8_injective(v.kdf.algorithm, w.kdf.algorithm);
    lemma_cancel_prefix(utf8(",\"salt\":"@), aad_from_salt(v), aad_from_salt(w));
}

proof fn lemma_read_salt(v: VaultFileModel, w: VaultFileModel)
    requires
        aad_from_salt(v) == aad_from_salt(w),
    ensures
        v.kdf.salt == w.kdf.salt,
        aad_from_memory(v) == aad_from_memory(w),
{
    reveal(aad_from_salt);
    lemma_quoted_prefix(
        utf8(v.kdf.salt),
        utf8(w.kdf.salt),
        utf8(",\"memory_kib\":"@) + aad_from_memory(v),
        utf8(",\"memory_kib\":"@) + aad_from_memory(w),
    );
    lemma_utf8_injective(v.kdf.salt, w.kdf.salt);
    lemma_cancel_prefix(utf8(",\"memory_kib\":"@), aad_from_memory(v), aad_from_memory(w));
}

proof fn lemma_read_memory(v: VaultFileModel, w: VaultFileModel)
    requires
        aad_from_memory(v) == aad_from_memory(w),
    ensures
        v.kdf.memory_kib == w.kdf.memory_kib,
        aad_from_iterations(v) == aad_from_iterations(w),
{
    reveal(aad_from_memory);
    reveal_strlit(",\"iterations\":");
    lemma_ascii_first(",\"iterations\":"@);
    lemma_decimal_prefix(
        v.kdf.memory_kib as nat,
        w.kdf.memory_kib as nat,
        utf8(",\"iterations\":"@) + aad_from_iterations(v),
        utf8(",\"iterations\":"@) + aad_from_iterations(w),
    );
    lemma_cancel_prefix(utf8(",\"iterations\":"@), aad_from_iterations(v), aad_from_iterations(w));
}

proof fn lemma_read_iterations(v: VaultFileModel, w: VaultFileModel)
    requires
        aad_from_iterations(v) == aad_from_iterations(w),
    ensures
        v.kdf.iterations == w.kdf.iterations,
        aad_from_parallelism(v) == aad_from_parallelism(w),
{
    reveal(aad_from_iterations);
    reveal_strlit(",\"parallelism\":");
    lemma_ascii_first(",\"parallelism\":"@);
    lemma_decimal_prefix(
        v.kdf.iterations as nat,
        w.kdf.iterations as nat,
        utf8(",\"parallelism\":"@) + aad_from_parallelism(v),
        utf8(",\"parallelism\":"@) + aad_from_parallelism(w),
    );
    lemma_cancel_prefix(
        utf8(",\"parallelism\":"@),
        aad_from_parallelism(v),
        aad_from_parallelism(w),
    );
}

proof fn lemma_read_parallelism(v: VaultFileModel, w: VaultFileModel)
    requires
        aad_from_parallelism(v) == aad_from_parallelism(w),
    ensures
        v.kdf.parallelism == w.kdf.parallelism,
        aad_from_cipher_algorithm(v) == aad_from_cipher_algorithm(w),
{
    reveal(aad_from_parallelism);
    reveal_strlit("},\"cipher\":{\"algorithm\":");
    lemma_ascii_first("},\"cipher\":{\"algorithm\":"@);
    lemma_decimal_prefix(
        v.kdf.parallelism as nat,
        w.kdf.parallelism as nat,
        utf8("},\"cipher\":{\"algorithm\":"@) + aad_from_cipher_algorithm(v),
        utf8("},\"cipher\":{\"algorithm\":"@) + aad_from_cipher_algorithm(w),
    );
    lemma_cancel_prefix(
        utf8("},\"cipher\":{\"algorithm\":"@),
        aad_from_cipher_algorithm(v),
        aad_from_cipher_algorithm(w),
    );
}

proof fn lemma_read_cipher(v: VaultFileModel, w: VaultFileModel)
    requires
        aad_from_cipher_algorithm(v) == aad_from_cipher_algorithm(w),
    ensures
        v.cipher.algorithm == w.cipher.algorithm,
        v.cipher.nonce == w.cipher.nonce,
{
    reveal(aad_from_cipher_algorithm);
    reveal(aad_from_nonce);
    lemma_quoted_prefix(
        utf8(v.cipher.algorithm),
        utf8(w.cipher.algorithm),
        utf8(",\"nonce\":"@) + aad_from_nonce(v),
        utf8(",\"nonce\":"@) + aad_from_nonce(w),
    );
    lemma_utf8_injective(v.cipher.algorithm, w.cipher.algorithm);
    lemma_cancel_prefix(utf8(",\"nonce\":"@), aad_from_nonce(v), aad_from_nonce(w));
    lemma_quoted_prefix(utf8(v.cipher.nonce), utf8(w.cipher.nonce), utf8("}}"@), utf8("}}"@));
    lemma_utf8_injective(v.cipher.nonce, w.cipher.nonce);
}

/// The associated data determines the whole header: two vaults whose
/// headers differ in any field (magic, format version, key-derivation
/// algorithm, salt, memory, iterations, parallelism, cipher algorithm or
/// nonce) are sealed with different associated data, so a ciphertext sealed
/// under one header is not checked against a changed one.
pub proof fn law_header_aad_injective(v: VaultFileModel, w: VaultFileModel)
    requires
        header_aad(v) == header_aad(w),
    ensures
        v.magic == w.magic,
        v.format_version == w.format_version,
        v.kdf == w.kdf,
        v.cipher == w.cipher,
{
    lemma_aad_regrouped(v);
    lemma_aad_regrouped(w);
    lemma_cancel_prefix(utf8("{\"magic\":"@), aad_from_magic(v), aad_from_magic(w));
    lemma_read_magic(v, w);
    lemma_read_version(v, w);
    lemma_read_kdf_algorithm(v, w);
    lemma_read_salt(v, w);
    lemma_read_memory(v, w);
    lemma_read_iterations(v, w);
    lemma_read_parallelism(v, w);
    lemma_read_cipher(v, w);
}

/// Whether the Base64 text of a sealing of `plaintext_len` bytes fits in
/// memory (see [`seal_fits`]).
pub fn seal_fits_in_memory(plaintext_len: usize) -> (r: bool)
    ensures
        r == seal_fits(plaintext_len as nat),
{
    if plaintext_len as u64 > AES_GCM_MAX_INPUT {
        return true;
    }
    let sealed_len = plaintext_len as u64 + TAG_LEN as u64;
    let groups = (sealed_len + 2) / 3;
    (groups as u128) * 4 <= usize::MAX as u128
}

/// Appends the bytes of `s`.
fn push_str(out: &mut Vec<u8>, s: &str)
    ensures
        final(out)@ == old(out)@ + utf8(s@),
{
    let bytes = s.as_bytes();
    let ghost start = out@;
    let n = bytes.len();
    for i in 0..n
        invariant
            n == bytes@.len(),
            bytes@ == utf8(s@),
            out@ == start + bytes@.take(i as int),
    {
        out.push(bytes[i]);
        proof {
            assert(bytes@.take(i + 1) =~= bytes@.take(i as int).push(bytes@[i as int]));
        }
    }
    proof {
        assert(bytes@.take(n as int) =~= bytes@);
    }
}

/// The first `N` bytes of `bytes` as an array.
fn to_array<const N: usize>(bytes: &[u8]) -> (r: [u8; N])
    requires
        bytes@.len() == N,
    ensures
        r@ == bytes@,
{
    let mut r: [u8; N] = vstd::array::array_fill_for_copy_types(0u8);
    for i in 0..N
        invariant
            bytes@.len() == N,
            r@.len() == N,
            forall|j: int| 0 <= j < i ==> r@[j] == bytes@[j],
    {
        r[i] = bytes[i];
    }
    proof {
        assert(r@ =~= bytes@);
    }
    r
}

impl VaultFile {
    /// Accepts a vault file read from storage only when it carries the vault
    /// magic.
    pub fn from_loaded(vault: VaultFile) -> (r: Result<VaultFile, CryptoError>)
        ensures
            r is Ok <==> vault@.magic == MAGIC@,
            r is Ok ==> r->Ok_0@ == vault@,
            r is Err ==> r->Err_0@ == CryptoErrorModel::InvalidMagic,
    {
        let magic = String::from_str(MAGIC);
        if vault.magic == magic {
            Ok(vault)
        } else {
            Err(CryptoError::InvalidMagic)
        }
    }

    /// Whether unlocking this vault file stays clear of the parallelism
    /// that overflows Argon2's parameter check (see
    /// [`derivation_checkable`]).
    pub fn is_derivation_checkable(&self) -> (r: bool)
        ensures
            r == derivation_checkable(self@),
    {
        if self.kdf.parallelism <= MAX_CHECKED_PARALLELISM {
            return true;
        }
        let magic = String::from_str(MAGIC);
        let kdf_algorithm = String::from_str(KDF_ALGORITHM);
        let cipher_algorithm = String::from_str(CIPHER_ALGORITHM);
        if !(self.magic == magic) || self.format_version != FORMAT_VERSION || !(self.kdf.algorithm
            == kdf_algorithm) || !(self.cipher.algorithm == cipher_algorithm) {
            return true;
        }
        match base64_decode(self.kdf.salt.as_str().as_bytes()) {
            Ok(salt) => salt.len() != SALT_LEN,
            Err(_) => true,
        }
    }

    /// The header as associated data for sealing (see [`header_aad`]).
    pub fn build_aad(&self) -> (r: Vec<u8>)
        ensures
            r@ == header_aad(self@),
    {
        let mut out: Vec<u8> = Vec::new();
        push_str(&mut out, "{\"magic\":");
        push_quoted(&mut out, self.magic.as_str());
        push_str(&mut out, ",\"format_version\":");
        push_decimal(&mut out, self.format_version);
        push_str(&mut out, ",\"kdf\":{\"algorithm\":");
        push_quoted(&mut out, self.kdf.algorithm.as_str());
        push_str(&mut out, ",\"salt\":");
        push_quoted(&mut out, self.kdf.salt.as_str());
        push_str(&mut out, ",\"memory_kib\":");
        push_decimal(&mut out, self.kdf.memory_kib);
        push_str(&mut out, ",\"iterations\":");
        push_decimal(&mut out, self.kdf.iterations);
        push_str(&mut out, ",\"parallelism\":");
        push_decimal(&mut out, self.kdf.parallelism);
        push_str(&mut out, "},\"cipher\":{\"algorithm\":");
        push_quoted(&mut out, self.cipher.algorithm.as_str());
        push_str(&mut out, ",\"nonce\":");
        push_quoted(&mut out, self.cipher.nonce.as_str());
        push_str(&mut out, "}}");
        out
    }

    /// Derives the key from `password` with the header's Argon2 parameters
    /// and opens the ciphertext. A wrong password and damaged or tampered
    /// data give the same [`CryptoError::Decrypt`], whether the salt, nonce
    /// or ciphertext no longer decodes or the ciphertext no longer
    /// authenticates; only an unknown header or a refused key derivation is
    /// reported otherwise (see [`unlocked`]).
    pub fn unlock(&self, password: &str) -> (r: Result<
        (SecretKey, SecretBytes),
        CryptoError,
    >)
        requires
            derivation_checkable(self@),
        ensures
            match r {
                Ok((k, p)) => unlocked(self@, password@) == Ok::<
                    (Seq<u8>, Seq<u8>),
                    CryptoErrorModel,
                >((key_held(k), bytes_held(p))),
                Err(e) => unlocked(self@, password@) == Err::<
                    (Seq<u8>, Seq<u8>),
                    CryptoErrorModel,
                >(e@),
            },
    {
        let magic = String::from_str(MAGIC);
        if !(self.magic == magic) {
            return Err(CryptoError::InvalidMagic);
        }
        if self.format_version != FORMAT_VERSION {
            return Err(CryptoError::UnsupportedVersion(self.format_version));
        }
        let kdf_algorithm = String::from_str(KDF_ALGORITHM);
        if !(self.kdf.algorithm == kdf_algorithm) {
            return Err(CryptoError::UnsupportedAlgorithm(self.kdf.algorithm.clone()));
        }
        let cipher_algorithm = String::from_str(CIPHER_ALGORITHM);
        if !(self.cipher.algorithm == cipher_algorithm) {
            return Err(CryptoError::UnsupportedAlgorithm(self.cipher.algorithm.clone()));
        }
        let salt_bytes = match base64_decode(self.kdf.salt.as_str().as_bytes()) {
            Ok(b) => b,
            Err(_) => {
                return Err(CryptoError::Decrypt);
            },
        };
        if salt_bytes.len() != SALT_LEN {
            return Err(CryptoError::Decrypt);
        }
        let salt: [u8; SALT_LEN] = to_array(salt_bytes.as_slice());
        let params = KdfParams {
            memory_kib: self.kdf.memory_kib,
            iterations: self.kdf.iterations,
            parallelism: self.kdf.parallelism,
        };
        let key = match derive_key(password, &salt, &params) {
            Ok(k) => k,
            Err(e) => {
                return Err(e);
            },
        };
        match self.decrypt_with_key(reveal_key(&key)) {
            Ok(p) => Ok((key, p)),
            Err(e) => Err(e),
        }
    }

    /// Creates a vault for `password` holding `plaintext`: a fresh random
    /// salt, Argon2id with the production costs, and the plaintext sealed
    /// with a fresh random nonce. The derived key is returned with the vault,
    /// so that an open session can re-seal without deriving it again. When
    /// the random number generator or the clock cannot be read, that failure
    /// is reported (see [`VaultFile::create_with`] for the rest).
    pub fn create(password: &str, plaintext: &[u8]) -> (r: Result<
        (VaultFile, SecretKey),
        CryptoError,
    >)
        requires
            seal_fits(plaintext@.len()),
        ensures
            r is Ok ==> create_refusal(password@, plaintext@) is None,
            r is Ok ==> created(r->Ok_0.0@, key_held(r->Ok_0.1), password@, plaintext@),
            r is Ok ==> r->Ok_0.0.created_at == r->Ok_0.0.modified_at,
            r is Err ==> r->Err_0@.is_environment() || create_refusal(password@, plaintext@)
                == Some(r->Err_0@),
            create_refusal(password@, plaintext@) is Some ==> r is Err,
    {
        let salt = generate_salt()?;
        let nonce = generate_nonce()?;
        let now = match now_unix() {
            Some(t) => t,
            None => {
                return Err(CryptoError::Clock);
            },
        };
        VaultFile::create_with(password, plaintext, &salt, &nonce, now)
    }

    /// Creates a vault for `password` holding `plaintext` from the given
    /// salt, nonce and creation time: Argon2id with the production costs
    /// derives the key from the password and the salt, and the plaintext is
    /// sealed under it with the nonce. Refused exactly as
    /// [`create_refusal`] says.
    pub fn create_with(
        password: &str,
        plaintext: &[u8],
        salt: &[u8; SALT_LEN],
        nonce: &[u8; NONCE_LEN],
        now: i64,
    ) -> (r: Result<(VaultFile, SecretKey), CryptoError>)
        requires
            seal_fits(plaintext@.len()),
        ensures
            r is Ok <==> create_refusal(password@, plaintext@) is None,
            r is Ok ==> {
                let (v, k) = r->Ok_0;
                &&& created(v@, key_held(k), password@, plaintext@)
                &&& salted_key(v@, key_held(k), password@, salt@)
                &&& seals_with(v@, key_held(k), plaintext@, nonce@)
                &&& v.created_at == now
                &&& v.modified_at == now
            },
            r is Err ==> create_refusal(password@, plaintext@) == Some(r->Err_0@),
    {
        let params = KdfParams::default();
        let key = match derive_key(password, salt, &params) {
            Ok(k) => k,
            Err(e) => {
                proof {
                    reveal_strlit("password is too long");
                }
                return Err(e);
            },
        };
        let mut vault = VaultFile {
            magic: String::from_str(MAGIC),
            format_version: FORMAT_VERSION,
            kdf: KdfHeader {
                algorithm: String::from_str(KDF_ALGORITHM),
                salt: base64_encode(salt.as_slice()),
                memory_kib: params.memory_kib,
                iterations: params.iterations,
                parallelism: params.parallelism,
            },
            cipher: CipherHeader {
                algorithm: String::from_str(CIPHER_ALGORITHM),
                nonce: String::new(),
            },
            created_at: now,
            modified_at: now,
            ciphertext: String::new(),
        };
        let sealing = vault.reencrypt_with(reveal_key(&key), plaintext, nonce, now);
        proof {
            reveal_strlit("PWMGRVAULT");
            reveal_strlit("argon2id");
            reveal_strlit("aes-256-gcm");
            lemma_base64_text_len(salt@);
            lemma_header_aad_len(vault@);
            assert(header_aad(vault@).len() <= AES_GCM_MAX_INPUT);
            assert(salted_key(vault@, key_held(key), password@, salt@));
        }
        match sealing {
            Ok(()) => Ok((vault, key)),
            Err(e) => Err(e),
        }
    }

    /// Re-seals `plaintext` under the already derived `key` with a fresh
    /// random nonce, without running the key derivation again, and stamps the
    /// modification time. When the random number generator or the clock
    /// cannot be read, that failure is reported and the vault file is left as
    /// it was; otherwise it is [`VaultFile::reencrypt_with`] on the nonce and
    /// the time read.
    pub fn reencrypt(&mut self, key: &[u8; KEY_LEN], plaintext: &[u8]) -> (r: Result<
        (),
        CryptoError,
    >)
        requires
            seal_fits(plaintext@.len()),
        ensures
            r is Err && r->Err_0@.is_environment() ==> final(self)@ == old(self)@,
            !(r is Err && r->Err_0@.is_environment()) ==> {
                &&& same_but_seal(old(self)@, final(self)@)
                &&& final(self)@.cipher.nonce.len() == base64_len(NONCE_LEN as nat)
                &&& r is Ok <==> aes_gcm_accepts(plaintext@.len(), header_aad(final(self)@).len())
                &&& r is Ok ==> sealed(final(self)@, key@, plaintext@)
                &&& r is Err ==> r->Err_0@ == CryptoErrorModel::Encrypt
                &&& r is Err ==> final(self)@.ciphertext == old(self)@.ciphertext
                &&& r is Err ==> final(self)@.modified_at == old(self)@.modified_at
            },
    {
        let nonce = generate_nonce()?;
        let now = match now_unix() {
            Some(t) => t,
            None => {
                return Err(CryptoError::Clock);
            },
        };
        self.reencrypt_with(key, plaintext, &nonce, now)
    }

    /// Re-seals `plaintext` under `key` with `nonce`, and stamps the
    /// modification time `now`. When sealing fails the new nonce stays in the
    /// header, as it is written before sealing, and the ciphertext and the
    /// modification time stay as they were.
    pub fn reencrypt_with(
        &mut self,
        key: &[u8; KEY_LEN],
        plaintext: &[u8],
        nonce: &[u8; NONCE_LEN],
        now: i64,
    ) -> (r: Result<(), CryptoError>)
        requires
            seal_fits(plaintext@.len()),
        ensures
            same_but_seal(old(self)@, final(self)@),
            final(self)@.cipher.nonce == base64_text(nonce@),
            final(self)@.cipher.nonce.len() == base64_len(NONCE_LEN as nat),
            r is Ok <==> aes_gcm_accepts(plaintext@.len(), header_aad(final(self)@).len()),
            r is Ok ==> seals_with(final(self)@, key@, plaintext@, nonce@),
            r is Ok ==> final(self)@.modified_at == now,
            r is Err ==> r->Err_0@ == CryptoErrorModel::Encrypt,
            r is Err ==> final(self)@.ciphertext == old(self)@.ciphertext,
            r is Err ==> final(self)@.modified_at == old(self)@.modified_at,
    {
        self.cipher.nonce = base64_encode(nonce.as_slice());
        proof {
            lemma_base64_text_len(nonce@);
        }
        let aad = self.build_aad();
        let ciphertext = match cipher::encrypt(key, nonce, aad.as_slice(), plaintext) {
            Ok(c) => c,
            Err(e) => {
                return Err(e);
            },
        };
        self.ciphertext = base64_encode(ciphertext.as_slice());
        self.modified_at = now;
        proof {
            assert(header_aad(self@) == aad@);
            assert(seals_with(self@, key@, plaintext@, nonce@));
        }
        Ok(())
    }

    /// Opens the ciphertext with an already derived key; every failure is
    /// [`CryptoError::Decrypt`] (see [`opened_with_key`]).
    pub fn decrypt_with_key(&self, key: &[u8; KEY_LEN]) -> (r: Result<
        SecretBytes,
        CryptoError,
    >)
        ensures
            match r {
                Ok(p) => opened_with_key(self@, key@) == Ok::<Seq<u8>, CryptoErrorModel>(
                    bytes_held(p),
                ),
                Err(e) => opened_with_key(self@, key@) == Err::<Seq<u8>, CryptoErrorModel>(e@),
            },
    {
        let nonce_bytes = match base64_decode(self.cipher.nonce.as_str().as_bytes()) {
            Ok(b) => b,
            Err(_) => {
                return Err(CryptoError::Decrypt);
            },
        };
        if nonce_bytes.len() != NONCE_LEN {
            return Err(CryptoError::Decrypt);
        }
        let nonce: [u8; NONCE_LEN] = to_array(nonce_bytes.as_slice());
        let ciphertext = match base64_decode(self.ciphertext.as_str().as_bytes()) {
            Ok(b) => b,
            Err(_) => {
                return Err(CryptoError::Decrypt);
            },
        };
        let aad = self.build_aad();
        cipher::decrypt(key, &nonce, aad.as_slice(), ciphertext.as_slice())
    }
}

} // verus!
