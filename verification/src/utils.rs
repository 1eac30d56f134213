//! Configuration, the writer of multipart bodies, digests and the cipher
//! for assets.

use vstd::prelude::*;
use vstd::string::*;
use sha2::Digest;
use crate::encoding::{base64_encode, base64_text};
use crate::errors::{BerylliumError, BerylliumResult};
use crate::text::{join2, join3, same_text};
use crate::types::EncryptData;

verus! {

/// What a process is configured with: the directory under which each bot
/// keeps its files, and the token that the platform must present.
#[derive(Clone, Debug, PartialEq, Eq)]
pub struct Config {
    store_path: String,
    auth_token: String,
}

impl Config {
    /// The configuration before anything is set: the current directory and
    /// an empty token.
    pub fn new() -> (r: Self)
        ensures
            r.store_path() == "."@,
            r.auth_token() == Seq::<char>::empty(),
    {
        Config { store_path: ".".to_owned(), auth_token: String::new() }
    }

    /// The directory under which each bot keeps its files.
    pub closed spec fn store_path(&self) -> Seq<char> {
        self.store_path@
    }

    /// The token that the platform must present.
    pub closed spec fn auth_token(&self) -> Seq<char> {
        self.auth_token@
    }
}

/// Sets the directory under which each bot keeps its files.
pub fn set_store_path(config: &mut Config, path: &str)
    ensures
        final(config).store_path() == path@,
        final(config).auth_token() == old(config).auth_token(),
{
    config.store_path = path.to_owned();
}

/// Sets the token that the platform must present.
pub fn set_auth_token(config: &mut Config, token: String)
    ensures
        final(config).auth_token() == token@,
        final(config).store_path() == old(config).store_path(),
{
    config.auth_token = token;
}

/// The directory under which each bot keeps its files.
pub fn get_store_path(config: &Config) -> (r: String)
    ensures
        r@ == config.store_path(),
{
    config.store_path.clone()
}

/// Whether `token` is the token that the platform must present.
pub fn check_auth_token(config: &Config, token: &str) -> (r: bool)
    ensures
        r == (config.auth_token() == token@),
{
    same_text(config.auth_token.as_str(), token)
}

/// The token inside the value of an `Authorization` header: what follows
/// `Bearer` and one space, if anything does. A value of another shape
/// holds none.
pub open spec fn bearer_of(header: Seq<char>) -> Option<Seq<char>> {
    if header.len() > 7 && header.subrange(0, 7) == "Bearer "@ {
        Some(header.subrange(7, header.len() as int))
    } else {
        None
    }
}

/// Whether a request with this `Authorization` header (if it has one) may
/// pass: the header holds a bearer token, and it is the configured one.
pub open spec fn authorized(config: &Config, header: Option<Seq<char>>) -> bool {
    match header {
        Some(h) => match bearer_of(h) {
            Some(t) => t == config.auth_token(),
            None => false,
        },
        None => false,
    }
}

/// The bearer token of an `Authorization` header value, if it holds one.
pub fn bearer_token(header: &str) -> (r: Option<&str>)
    ensures
        match r {
            Some(t) => bearer_of(header@) == Some(t@),
            None => bearer_of(header@).is_none(),
        },
{
    let n = header.unicode_len();
    if n <= 7 {
        return None;
    }
    let scheme = header.substring_char(0, 7);
    if same_text(scheme, "Bearer ") {
        Some(header.substring_char(7, n))
    } else {
        None
    }
}

/// Whether a request with this `Authorization` header may pass.
pub fn check_authorization(config: &Config, header: Option<&str>) -> (r: bool)
    ensures
        r == authorized(
            config,
            match header {
                Some(h) => Some(h@),
                None => None,
            },
        ),
{
    match header {
        Some(h) => match bearer_token(h) {
            Some(t) => check_auth_token(config, t),
            None => false,
        },
        None => false,
    }
}

/// `base` with `part` pushed onto it as a path component: an absolute
/// `part` replaces `base`; otherwise a separator comes between the two
/// unless `base` is empty or ends with one.
pub open spec fn pushed_path(base: Seq<char>, part: Seq<char>) -> Seq<char> {
    if part.len() > 0 && part[0] == '/' {
        part
    } else if base.len() == 0 || base.last() == '/' {
        base + part
    } else {
        base + "/"@ + part
    }
}

/// `base` with `part` pushed onto it as a path component.
pub fn push_path(base: &str, part: &str) -> (r: String)
    ensures
        r@ == pushed_path(base@, part@),
{
    let pn = part.unicode_len();
    if pn > 0 && part.get_char(0) == '/' {
        return part.to_owned();
    }
    let bn = base.unicode_len();
    if bn == 0 || base.get_char(bn - 1) == '/' {
        join2(base, part)
    } else {
        join3(base, "/", part)
    }
}

/// Writes the parts of a multipart body into one buffer.
#[derive(Clone, Debug, PartialEq, Eq)]
pub struct MultipartWriter {
    boundary: String,
    inner: Vec<u8>,
}

/// The bytes of a line break.
pub open spec fn line_break() -> Seq<u8> {
    seq![13u8, 10u8]
}

/// The bytes of a boundary line: two hyphens, the boundary, a line break.
pub open spec fn boundary_line(boundary: Seq<char>) -> Seq<u8> {
    seq![45u8, 45u8] + vstd::utf8::encode_utf8(boundary) + line_break()
}

impl MultipartWriter {
    /// The boundary that separates the parts.
    pub closed spec fn boundary(&self) -> Seq<char> {
        self.boundary@
    }

    /// What has been written so far.
    pub closed spec fn written(&self) -> Seq<u8> {
        self.inner@
    }

    /// A writer with the given boundary and nothing written.
    pub fn new(boundary: &str) -> (r: MultipartWriter)
        ensures
            r.boundary() == boundary@,
            r.written() == Seq::<u8>::empty(),
    {
        MultipartWriter { boundary: boundary.to_owned(), inner: Vec::new() }
    }

    /// Writes a line break.
    pub fn add_line(&mut self)
        ensures
            final(self).written() == old(self).written() + line_break(),
            final(self).boundary() == old(self).boundary(),
    {
        self.inner.push(13u8);
        self.inner.push(10u8);
        assert(self.inner@ =~= old(self).inner@ + line_break());
    }

    /// Writes a boundary line.
    pub fn add_boundary(&mut self)
        ensures
            final(self).written() == old(self).written() + boundary_line(old(self).boundary()),
            final(self).boundary() == old(self).boundary(),
    {
        self.inner.push(45u8);
        self.inner.push(45u8);
        self.inner.extend_from_slice(self.boundary.as_str().as_bytes());
        self.add_line();
        assert(self.inner@ =~= old(self).inner@ + boundary_line(old(self).boundary()));
    }

    /// Writes a header line: the header as text, then a line break.
    pub fn add_header(&mut self, header: &str)
        ensures
            final(self).written() == old(self).written() + vstd::utf8::encode_utf8(header@)
                + line_break(),
            final(self).boundary() == old(self).boundary(),
    {
        self.inner.extend_from_slice(header.as_bytes());
        self.add_line();
    }

    /// Writes the bytes of a body, then a line break.
    pub fn add_body(&mut self, data: &[u8])
        ensures
            final(self).written() == old(self).written() + data@ + line_break(),
            final(self).boundary() == old(self).boundary(),
    {
        self.inner.extend_from_slice(data);
        self.add_line();
    }

    /// Everything that was written.
    pub fn finish(self) -> (r: Vec<u8>)
        ensures
            r@ == self.written(),
    {
        self.inner
    }
}

/// The MD5 digest of the bytes, as `md5::Md5` computes it.
pub uninterp spec fn md5_of(data: Seq<u8>) -> Seq<u8>;

/// The SHA-256 digest of the bytes, as `sha2::Sha256` computes it.
pub uninterp spec fn sha256_of(data: Seq<u8>) -> Seq<u8>;

/// The ciphertext that `openssl::symm::encrypt` returns, where it returns
/// one, for the cipher AES-256 in CBC mode with this key, initialisation
/// vector and plaintext.
pub uninterp spec fn aes_256_cbc_of(key: Seq<u8>, iv: Seq<u8>, data: Seq<u8>) -> Seq<u8>;

/// Calls `md5::Md5::digest`: the digest depends on the bytes alone, and
/// has sixteen bytes.
#[verifier::external_body]
pub fn md5_hash(data: &[u8]) -> (r: Vec<u8>)
    ensures
        r@ == md5_of(data@),
        r@.len() == 16,
{
    md5::Md5::digest(data).to_vec()
}

/// Calls `sha2::Sha256::digest`: the digest depends on the bytes alone,
/// and has thirty-two bytes.
#[verifier::external_body]
fn sha256_hash(data: &[u8]) -> (r: Vec<u8>)
    ensures
        r@ == sha256_of(data@),
        r@.len() == 32,
{
    sha2::Sha256::digest(data).to_vec()
}

/// The value of the `Content-MD5` header for a body: its MD5 digest in
/// base64.
pub fn content_md5(data: &[u8]) -> (r: String)
    ensures
        r@ == base64_text(md5_of(data@)),
{
    let digest = md5_hash(data);
    base64_encode(digest.as_slice())
}

/// The errors of OpenSSL, carried as they are.
#[verifier::external_type_specification]
#[verifier::external_body]
pub struct ExErrorStack(openssl::error::ErrorStack);

/// Calls `openssl::rand::rand_bytes` on a fresh buffer of `n` bytes. Which
/// bytes come back is left open; on success there are `n` of them.
#[verifier::external_body]
fn random_bytes(n: usize) -> (r: Result<Vec<u8>, openssl::error::ErrorStack>)
    requires
        n <= 0x7fff_ffff,
    ensures
        r matches Ok(v) ==> v@.len() == n,
{
    let mut buf = vec![0u8; n];
    openssl::rand::rand_bytes(&mut buf).map(|_| buf)
}

/// Calls `openssl::symm::encrypt` with the cipher AES-256 in CBC mode. A
/// ciphertext that comes back depends on the key, the initialisation vector
/// and the plaintext alone; when the call fails is left open.
#[verifier::external_body]
fn aes_256_cbc_encrypt(key: &[u8], iv: &[u8], data: &[u8]) -> (r: Result<
    Vec<u8>,
    openssl::error::ErrorStack,
>)
    requires
        key@.len() == 32,
        iv@.len() == 16,
        data@.len() + 16 <= 0x7fff_ffff,
    ensures
        r matches Ok(v) ==> v@ == aes_256_cbc_of(key@, iv@, data@),
{
    openssl::symm::encrypt(openssl::symm::Cipher::aes_256_cbc(), key, Some(iv), data)
}

/// The encrypted asset made of a key, an initialisation vector, the
/// ciphertext and the digest of the ciphertext: the vector goes in front of
/// the ciphertext.
pub fn sealed_asset(key: Vec<u8>, iv: Vec<u8>, cipher: Vec<u8>, hash: Vec<u8>) -> (r: EncryptData)
    ensures
        r.key@ == key@,
        r.data@ == iv@ + cipher@,
        r.hash@ == hash@,
{
    let mut out = iv;
    let mut bytes = cipher;
    out.append(&mut bytes);
    EncryptData { key, data: out, hash }
}

/// Encrypts an asset with AES-256 in CBC mode under a fresh random key and
/// a fresh random initialisation vector, and computes the SHA-256 digest of
/// the ciphertext. Fails only where the random number generator or the
/// cipher fails, and then with their error.
pub fn encrypt(data: &[u8]) -> (r: BerylliumResult<EncryptData>)
    requires
        data@.len() + 16 <= 0x7fff_ffff,
    ensures
        match r {
            Ok(e) => {
                &&& e.key@.len() == 32
                &&& e.data@.len() >= 16
                &&& e.data@.subrange(16, e.data@.len() as int) == aes_256_cbc_of(
                    e.key@,
                    e.data@.subrange(0, 16),
                    data@,
                )
                &&& e.hash@ == sha256_of(e.data@.subrange(16, e.data@.len() as int))
                &&& e.hash@.len() == 32
            },
            Err(e) => e is Openssl,
        },
{
    let iv = match random_bytes(16) {
        Ok(v) => v,
        Err(e) => {
            return Err(BerylliumError::Openssl(e.to_string()));
        },
    };
    let key = match random_bytes(32) {
        Ok(v) => v,
        Err(e) => {
            return Err(BerylliumError::Openssl(e.to_string()));
        },
    };
    let bytes = match aes_256_cbc_encrypt(key.as_slice(), iv.as_slice(), data) {
        Ok(v) => v,
        Err(e) => {
            return Err(BerylliumError::Openssl(e.to_string()));
        },
    };
    let hash = sha256_hash(bytes.as_slice());
    let ghost ivs = iv@;
    let ghost cs = bytes@;
    let out = sealed_asset(key, iv, bytes, hash);
    assert(out.data@.subrange(0, 16) =~= ivs);
    assert(out.data@.subrange(16, out.data@.len() as int) =~= cs);
    Ok(out)
}

} // verus!
