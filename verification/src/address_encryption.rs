//! Address encryption for sender and recipient privacy: addresses are sealed
//! with ChaCha20Poly1305 under a 32-byte key and a fresh random 12-byte nonce;
//! ciphertext and tag are kept apart.
use vstd::prelude::*;
use vstd::string::*;
use vstd::utf8::*;
use crate::crypto::{
    chacha20poly1305_decrypt, chacha20poly1305_encrypt, chacha20poly1305_open, chacha20poly1305_seal, hex_encode,
    hex_lower, random_bytes, sha256, sha256_spec, string_from_utf8, tag_is_unique, unix_time_secs,
};
use crate::error::PrivacyError;
use crate::text::{all_zero, debug_list, debug_string_list, extend_bytes, extend_str_bytes, lemma_encode_utf8_nonempty, owned, string_views};

verus! {

/// An encrypted address.
#[derive(Debug, Clone)]
pub struct EncryptedAddress {
    /// Ciphertext of the address bytes.
    pub ciphertext: Vec<u8>,
    /// ChaCha20Poly1305 nonce.
    pub nonce: [u8; 12],
    /// ChaCha20Poly1305 authentication tag.
    pub tag: [u8; 16],
    /// Address metadata.
    pub metadata: AddressMetadata,
}

/// Metadata of an encrypted address.
#[derive(Debug, Clone)]
pub struct AddressMetadata {
    /// `sender` or `recipient`.
    pub address_type: String,
    /// Encryption time, seconds since the Unix epoch.
    pub timestamp: u64,
    /// Encryption format version.
    pub version: u8,
}

/// Address encryption under one ChaCha20Poly1305 key.
#[derive(Clone)]
pub struct AddressEncryption {
    encryption_key: [u8; 32],
    key_context: String,
}

/// A batch of encrypted addresses with a batch proof.
#[derive(Debug, Clone)]
pub struct AddressEncryptionBatch {
    /// The encrypted addresses.
    pub encrypted_addresses: Vec<EncryptedAddress>,
    /// The batch proof.
    pub batch_proof: Vec<u8>,
    /// Batch metadata.
    pub metadata: BatchMetadata,
}

/// Metadata of an address batch.
#[derive(Debug, Clone)]
pub struct BatchMetadata {
    /// Number of addresses in the batch.
    pub count: usize,
    /// Creation time, seconds since the Unix epoch.
    pub timestamp: u64,
    /// Batch format version.
    pub version: u8,
}

/// The sealed form of an encrypted address: ciphertext followed by tag.
pub open spec fn sealed_of(e: EncryptedAddress) -> Seq<u8> {
    e.ciphertext@ + e.tag@
}

/// `e` is an encryption of `address` under `key`: its ciphertext and tag are
/// the ChaCha20Poly1305 sealing of the address's UTF-8 bytes under its nonce,
/// and opening them gives those bytes back.
pub open spec fn encrypts_to(key: Seq<u8>, address: Seq<char>, e: EncryptedAddress) -> bool {
    &&& sealed_of(e) == chacha20poly1305_seal(key, e.nonce@, encode_utf8(address))
    &&& chacha20poly1305_open(key, e.nonce@, sealed_of(e)) == Some(encode_utf8(address))
    &&& e.ciphertext@.len() == encode_utf8(address).len()
    &&& tag_is_unique(key, e.nonce@, e.ciphertext@, e.tag@)
}

/// The outcome of decrypting `e` under `key`.
pub open spec fn decrypt_spec(key: Seq<u8>, e: EncryptedAddress) -> Result<Seq<char>, PrivacyError> {
    if e.ciphertext@.len() == 0 {
        Err(PrivacyError::EmptyCiphertext)
    } else {
        match chacha20poly1305_open(key, e.nonce@, sealed_of(e)) {
            None => Err(PrivacyError::AuthenticationFailed),
            Some(p) => if !valid_utf8(p) {
                Err(PrivacyError::InvalidUtf8)
            } else if decode_utf8(p).len() == 0 {
                Err(PrivacyError::EmptyAddress)
            } else {
                Ok(decode_utf8(p))
            },
        }
    }
}

/// What the integrity check accepts: non-zero nonce and tag, a non-empty
/// ciphertext and address type, and a non-zero version.
pub open spec fn address_well_formed(e: EncryptedAddress) -> bool {
    &&& exists|i: int| 0 <= i < 12 && e.nonce@[i] != 0
    &&& exists|i: int| 0 <= i < 16 && e.tag@[i] != 0
    &&& e.ciphertext@.len() > 0
    &&& e.metadata.address_type@.len() > 0
    &&& e.metadata.version != 0
}

/// The indexing hash: hex of SHA-256 over ciphertext, nonce and tag.
pub open spec fn address_hash_spec(e: EncryptedAddress) -> Seq<char> {
    hex_lower(sha256_spec(e.ciphertext@ + e.nonce@ + e.tag@))
}

/// The batch proof: `address_batch_proof:` and the `{:?}` of the hashes.
pub open spec fn address_batch_proof_spec(addrs: Seq<EncryptedAddress>) -> Seq<u8> {
    encode_utf8(
        "address_batch_proof:"@ + debug_list(addrs.map_values(|e: EncryptedAddress| address_hash_spec(e))),
    )
}

/// What batch verification accepts.
pub open spec fn address_batch_valid(b: AddressEncryptionBatch) -> bool {
    &&& b.batch_proof@.len() > 0
    &&& forall|i: int|
        0 <= i < b.encrypted_addresses@.len() ==> #[trigger] b.encrypted_addresses@[i].ciphertext@.len() > 0
    &&& b.metadata.count == b.encrypted_addresses@.len()
}

/// The validation an address must pass before encryption: it is not empty.
pub open spec fn address_valid(address: Seq<char>) -> bool {
    address.len() > 0
}

impl AddressEncryption {
    /// The encryption key.
    pub closed spec fn key_view(&self) -> Seq<u8> {
        self.encryption_key@
    }

    /// An address encryption system under `key`.
    pub fn new(key: &[u8; 32]) -> (res: Result<Self, PrivacyError>)
        ensures
            res matches Ok(a) && a.key_view() == key@,
    {
        Ok(AddressEncryption { encryption_key: *key, key_context: owned("zkc0dl3_address_encryption") })
    }

    /// Encrypts a sender address.
    pub fn encrypt_sender(&mut self, sender: &str) -> (res: Result<EncryptedAddress, PrivacyError>)
        requires
            sender.spec_bytes().len() + 16 <= isize::MAX,
        ensures
            *final(self) == *old(self),
            !address_valid(sender@) ==> res == Err::<EncryptedAddress, PrivacyError>(PrivacyError::InvalidAddress),
            res matches Err(e) ==> ((e == PrivacyError::InvalidAddress && !address_valid(sender@)) || (e
                == PrivacyError::EncryptionFailed && sender.spec_bytes().len() / 64 >= u32::MAX) || e
                == PrivacyError::ClockError),
            res matches Ok(e) ==> {
                &&& address_valid(sender@)
                &&& encrypts_to(old(self).key_view(), sender@, e)
                &&& e.metadata.address_type@ == "sender"@
                &&& e.metadata.version == 1
            },
    {
        self.encrypt_address(sender, "sender")
    }

    /// Encrypts a recipient address.
    pub fn encrypt_recipient(&mut self, recipient: &str) -> (res: Result<EncryptedAddress, PrivacyError>)
        requires
            recipient.spec_bytes().len() + 16 <= isize::MAX,
        ensures
            *final(self) == *old(self),
            !address_valid(recipient@) ==> res == Err::<EncryptedAddress, PrivacyError>(
                PrivacyError::InvalidAddress,
            ),
            res matches Err(e) ==> ((e == PrivacyError::InvalidAddress && !address_valid(recipient@)) || (e
                == PrivacyError::EncryptionFailed && recipient.spec_bytes().len() / 64 >= u32::MAX) || e
                == PrivacyError::ClockError),
            res matches Ok(e) ==> {
                &&& address_valid(recipient@)
                &&& encrypts_to(old(self).key_view(), recipient@, e)
                &&& e.metadata.address_type@ == "recipient"@
                &&& e.metadata.version == 1
            },
    {
        self.encrypt_address(recipient, "recipient")
    }

    /// Decrypts an address. Refuses an empty ciphertext, a tag that does not
    /// authenticate, bytes that are not UTF-8, and an empty address.
    pub fn decrypt_address(&self, encrypted: &EncryptedAddress) -> (res: Result<String, PrivacyError>)
        ensures
            match res {
                Ok(s) => decrypt_spec(self.key_view(), *encrypted) == Ok::<Seq<char>, PrivacyError>(s@),
                Err(e) => decrypt_spec(self.key_view(), *encrypted) == Err::<Seq<char>, PrivacyError>(e),
            },
    {
        if encrypted.ciphertext.len() == 0 {
            return Err(PrivacyError::EmptyCiphertext);
        }
        let plaintext = match self.decrypt_data(encrypted.ciphertext.as_slice(), &encrypted.nonce, &encrypted.tag) {
            Some(p) => p,
            None => return Err(PrivacyError::AuthenticationFailed),
        };
        let ghost p = plaintext@;
        let address = match string_from_utf8(plaintext) {
            Some(s) => s,
            None => return Err(PrivacyError::InvalidUtf8),
        };
        if address.as_str().is_empty() {
            return Err(PrivacyError::EmptyAddress);
        }
        Ok(address)
    }

    /// Checks the integrity of an encrypted address: non-zero nonce and tag,
    /// non-empty ciphertext and address type, non-zero version.
    pub fn verify_address(&self, encrypted: &EncryptedAddress) -> (res: Result<bool, PrivacyError>)
        ensures
            res == Ok::<bool, PrivacyError>(address_well_formed(*encrypted)),
    {
        if all_zero(&encrypted.nonce) {
            return Ok(false);
        }
        if all_zero(&encrypted.tag) {
            return Ok(false);
        }
        if encrypted.ciphertext.len() == 0 {
            return Ok(false);
        }
        if encrypted.metadata.address_type.as_str().is_empty() {
            return Ok(false);
        }
        if encrypted.metadata.version == 0 {
            return Ok(false);
        }
        Ok(true)
    }

    /// A hash for indexing that reveals nothing of the address: hex of
    /// SHA-256 over ciphertext, nonce and tag.
    pub fn generate_address_hash(&self, encrypted: &EncryptedAddress) -> (res: String)
        ensures
            res@ == address_hash_spec(*encrypted),
    {
        hash_encrypted_address(encrypted)
    }

    /// Validates, then seals an address under a fresh random nonce.
    fn encrypt_address(&mut self, address: &str, address_type: &str) -> (res: Result<EncryptedAddress, PrivacyError>)
        requires
            address.spec_bytes().len() + 16 <= isize::MAX,
        ensures
            *final(self) == *old(self),
            !address_valid(address@) ==> res == Err::<EncryptedAddress, PrivacyError>(PrivacyError::InvalidAddress),
            res matches Err(e) ==> ((e == PrivacyError::InvalidAddress && !address_valid(address@)) || (e
                == PrivacyError::EncryptionFailed && address.spec_bytes().len() / 64 >= u32::MAX) || e
                == PrivacyError::ClockError),
            res matches Ok(e) ==> {
                &&& address_valid(address@)
                &&& encrypts_to(old(self).key_view(), address@, e)
                &&& e.metadata.address_type@ == address_type@
                &&& e.metadata.version == 1
            },
    {
        if !validate_address(address) {
            return Err(PrivacyError::InvalidAddress);
        }
        let nonce = self.generate_secure_nonce();
        if address.as_bytes().len() / 64 >= 0xffff_ffff {
            return Err(PrivacyError::EncryptionFailed);
        }
        let timestamp = match unix_time_secs() {
            Some(t) => t,
            None => return Err(PrivacyError::ClockError),
        };
        self.encrypt_address_with(address, address_type, nonce, timestamp)
    }

    /// Validates, then seals an address under `nonce`, stamped with
    /// `timestamp`. Refused exactly where the address is empty, or too long
    /// for the cipher.
    pub fn encrypt_address_with(&self, address: &str, address_type: &str, nonce: [u8; 12], timestamp: u64) -> (res:
        Result<EncryptedAddress, PrivacyError>)
        requires
            address.spec_bytes().len() + 16 <= isize::MAX,
        ensures
            !address_valid(address@) ==> res == Err::<EncryptedAddress, PrivacyError>(PrivacyError::InvalidAddress),
            address_valid(address@) && address.spec_bytes().len() / 64 >= u32::MAX ==> res == Err::<
                EncryptedAddress,
                PrivacyError,
            >(PrivacyError::EncryptionFailed),
            address_valid(address@) && address.spec_bytes().len() / 64 < u32::MAX ==> (res matches Ok(e) && {
                &&& encrypts_to(self.key_view(), address@, e)
                &&& e.nonce@ == nonce@
                &&& e.metadata.address_type@ == address_type@
                &&& e.metadata.timestamp == timestamp
                &&& e.metadata.version == 1
            }),
    {
        if !validate_address(address) {
            return Err(PrivacyError::InvalidAddress);
        }
        let (ciphertext, tag) = match self.encrypt_data(address.as_bytes(), &nonce) {
            Some(r) => r,
            None => return Err(PrivacyError::EncryptionFailed),
        };
        let metadata = AddressMetadata { address_type: owned(address_type), timestamp, version: 1 };
        Ok(EncryptedAddress { ciphertext, nonce, tag, metadata })
    }

    /// A fresh random 12-byte nonce.
    fn generate_secure_nonce(&mut self) -> (res: [u8; 12])
        ensures
            *final(self) == *old(self),
    {
        let bytes = random_bytes(12);
        let mut nonce = [0u8; 12];
        let mut i: usize = 0;
        while i < 12
            invariant
                i <= 12,
                bytes@.len() == 12,
            decreases 12 - i,
        {
            nonce.set(i, bytes[i]);
            i = i + 1;
        }
        nonce
    }

    /// Seals `data`; returns the ciphertext and the 16-byte tag apart.
    fn encrypt_data(&self, data: &[u8], nonce: &[u8; 12]) -> (res: Option<(Vec<u8>, [u8; 16])>)
        requires
            data@.len() + 16 <= isize::MAX,
        ensures
            res is Some <==> data@.len() / 64 < u32::MAX,
            res matches Some(r) ==> {
                &&& r.0@ + r.1@ == chacha20poly1305_seal(self.encryption_key@, nonce@, data@)
                &&& chacha20poly1305_open(self.encryption_key@, nonce@, r.0@ + r.1@) == Some(data@)
                &&& r.0@.len() == data@.len()
                &&& tag_is_unique(self.encryption_key@, nonce@, r.0@, r.1@)
            },
    {
        let sealed = match chacha20poly1305_encrypt(&self.encryption_key, nonce, data) {
            Some(c) => c,
            None => return None,
        };
        let n = sealed.len();
        let tag_start = n - 16;
        let mut ciphertext: Vec<u8> = Vec::new();
        let mut i: usize = 0;
        while i < tag_start
            invariant
                tag_start == sealed@.len() - 16,
                i <= tag_start,
                ciphertext@ == sealed@.subrange(0, i as int),
            decreases tag_start - i,
        {
            ciphertext.push(sealed[i]);
            i = i + 1;
            assert(ciphertext@ =~= sealed@.subrange(0, i as int));
        }
        let mut tag = [0u8; 16];
        let mut k: usize = 0;
        while k < 16
            invariant
                n == sealed@.len(),
                tag_start == n - 16,
                k <= 16,
                forall|j: int| 0 <= j < k ==> tag@[j] == sealed@[tag_start + j],
            decreases 16 - k,
        {
            tag.set(k, sealed[tag_start + k]);
            k = k + 1;
        }
        assert(ciphertext@ + tag@ =~= sealed@);
        assert(ciphertext@ =~= sealed@.subrange(0, data@.len() as int));
        assert(tag@ =~= sealed@.subrange(data@.len() as int, sealed@.len() as int));
        Some((ciphertext, tag))
    }

    /// Opens ciphertext and tag together.
    fn decrypt_data(&self, ciphertext: &[u8], nonce: &[u8; 12], tag: &[u8; 16]) -> (res: Option<Vec<u8>>)
        ensures
            match res {
                Some(p) => chacha20poly1305_open(self.encryption_key@, nonce@, ciphertext@ + tag@) == Some(p@),
                None => chacha20poly1305_open(self.encryption_key@, nonce@, ciphertext@ + tag@) is None,
            },
    {
        let mut sealed: Vec<u8> = Vec::new();
        extend_bytes(&mut sealed, ciphertext);
        extend_bytes(&mut sealed, tag);
        chacha20poly1305_decrypt(&self.encryption_key, nonce, sealed.as_slice())
    }
}

/// The address validation applied before encryption: it must not be empty.
fn validate_address(address: &str) -> (res: bool)
    ensures
        res == address_valid(address@),
{
    !address.is_empty()
}

/// Hex of SHA-256 over ciphertext, nonce and tag.
fn hash_encrypted_address(e: &EncryptedAddress) -> (res: String)
    ensures
        res@ == address_hash_spec(*e),
{
    let mut buf: Vec<u8> = Vec::new();
    extend_bytes(&mut buf, e.ciphertext.as_slice());
    extend_bytes(&mut buf, &e.nonce);
    extend_bytes(&mut buf, &e.tag);
    let digest = sha256(buf.as_slice());
    hex_encode(&digest)
}

impl AddressEncryptionBatch {
    /// Groups encrypted addresses under a batch proof over their hashes. An
    /// empty list is refused.
    pub fn new(encrypted_addresses: Vec<EncryptedAddress>) -> (res: Result<Self, PrivacyError>)
        ensures
            encrypted_addresses@.len() == 0 ==> res == Err::<Self, PrivacyError>(PrivacyError::EmptyBatch),
            res matches Err(e) ==> ((e == PrivacyError::EmptyBatch && encrypted_addresses@.len() == 0) || e
                == PrivacyError::ClockError),
            res matches Ok(b) ==> {
                &&& b.encrypted_addresses@ == encrypted_addresses@
                &&& b.batch_proof@ == address_batch_proof_spec(encrypted_addresses@)
                &&& b.metadata.count == encrypted_addresses@.len()
                &&& b.metadata.version == 1
                &&& (address_batch_valid(b) <==> forall|i: int|
                    0 <= i < encrypted_addresses@.len() ==> #[trigger] encrypted_addresses@[i].ciphertext@.len() > 0)
            },
    {
        if encrypted_addresses.len() == 0 {
            return Err(PrivacyError::EmptyBatch);
        }
        let timestamp = match unix_time_secs() {
            Some(t) => t,
            None => return Err(PrivacyError::ClockError),
        };
        Self::new_at(encrypted_addresses, timestamp)
    }

    /// The batch of `encrypted_addresses` stamped with `timestamp`: refused
    /// exactly where the list is empty.
    pub fn new_at(encrypted_addresses: Vec<EncryptedAddress>, timestamp: u64) -> (res: Result<Self, PrivacyError>)
        ensures
            encrypted_addresses@.len() == 0 ==> res == Err::<Self, PrivacyError>(PrivacyError::EmptyBatch),
            encrypted_addresses@.len() > 0 ==> (res matches Ok(b) && {
                &&& b.encrypted_addresses@ == encrypted_addresses@
                &&& b.batch_proof@ == address_batch_proof_spec(encrypted_addresses@)
                &&& b.metadata.count == encrypted_addresses@.len()
                &&& b.metadata.timestamp == timestamp
                &&& b.metadata.version == 1
                &&& (address_batch_valid(b) <==> forall|i: int|
                    0 <= i < encrypted_addresses@.len() ==> #[trigger] encrypted_addresses@[i].ciphertext@.len() > 0)
            }),
    {
        if encrypted_addresses.len() == 0 {
            return Err(PrivacyError::EmptyBatch);
        }
        let batch_proof = Self::generate_batch_proof(&encrypted_addresses);
        let count = encrypted_addresses.len();
        Ok(AddressEncryptionBatch {
            encrypted_addresses,
            batch_proof,
            metadata: BatchMetadata { count, timestamp, version: 1 },
        })
    }

    /// Checks the batch: a non-empty proof, no empty ciphertext, and a count
    /// that matches.
    pub fn verify_batch(&self) -> (res: Result<bool, PrivacyError>)
        ensures
            res == Ok::<bool, PrivacyError>(address_batch_valid(*self)),
            self.metadata.count != self.encrypted_addresses@.len() ==> res == Ok::<bool, PrivacyError>(false),
            self.batch_proof@.len() == 0 ==> res == Ok::<bool, PrivacyError>(false),
            (exists|i: int|
                0 <= i < self.encrypted_addresses@.len() && #[trigger] self.encrypted_addresses@[i].ciphertext@.len()
                    == 0) ==> res == Ok::<bool, PrivacyError>(false),
            res == Ok::<bool, PrivacyError>(true) <==> {
                &&& self.metadata.count == self.encrypted_addresses@.len()
                &&& self.batch_proof@.len() > 0
                &&& forall|i: int|
                    0 <= i < self.encrypted_addresses@.len() ==> #[trigger] self.encrypted_addresses@[i].ciphertext@.len()
                        > 0
            },
    {
        if self.batch_proof.len() == 0 {
            return Ok(false);
        }
        let mut i: usize = 0;
        while i < self.encrypted_addresses.len()
            invariant
                i <= self.encrypted_addresses@.len(),
                forall|j: int| 0 <= j < i ==> #[trigger] self.encrypted_addresses@[j].ciphertext@.len() > 0,
            decreases self.encrypted_addresses@.len() - i,
        {
            if self.encrypted_addresses[i].ciphertext.len() == 0 {
                return Ok(false);
            }
            i = i + 1;
        }
        if self.metadata.count != self.encrypted_addresses.len() {
            return Ok(false);
        }
        Ok(true)
    }

    /// `address_batch_proof:` followed by the `{:?}` of the address hashes.
    fn generate_batch_proof(encrypted_addresses: &Vec<EncryptedAddress>) -> (res: Vec<u8>)
        ensures
            res@ == address_batch_proof_spec(encrypted_addresses@),
            res@.len() > 0,
    {
        let mut hashes: Vec<String> = Vec::new();
        let mut i: usize = 0;
        while i < encrypted_addresses.len()
            invariant
                i <= encrypted_addresses@.len(),
                hashes@.len() == i,
                forall|j: int| 0 <= j < i ==> #[trigger] hashes@[j]@ == address_hash_spec(encrypted_addresses@[j]),
            decreases encrypted_addresses@.len() - i,
        {
            let h = hash_encrypted_address(&encrypted_addresses[i]);
            hashes.push(h);
            i = i + 1;
        }
        assert(string_views(hashes@) =~= encrypted_addresses@.map_values(
            |e: EncryptedAddress| address_hash_spec(e),
        ));
        let mut s = owned("address_batch_proof:");
        let list = debug_string_list(&hashes);
        s.append(list.as_str());
        let mut v: Vec<u8> = Vec::new();
        extend_str_bytes(&mut v, s.as_str());
        proof {
            reveal_strlit("address_batch_proof:");
            lemma_encode_utf8_nonempty(s@);
        }
        v
    }
}

/// Decryption inverts encryption: whatever `encrypt_sender` or
/// `encrypt_recipient` produced from an address under a key decrypts, under
/// that key, to the same address.
pub proof fn lemma_decrypt_inverts_encrypt(key: Seq<u8>, address: Seq<char>, e: EncryptedAddress)
    requires
        address_valid(address),
        encrypts_to(key, address, e),
    ensures
        decrypt_spec(key, e) == Ok::<Seq<char>, PrivacyError>(address),
{
    lemma_encode_utf8_nonempty(address);
    vstd::utf8::encode_utf8_valid_utf8(address);
    vstd::utf8::encode_utf8_decode_utf8(address);
}

/// A tampered tag is refused: where `e` is an encryption of a valid address
/// under `key`, the same ciphertext and nonce with any other tag does not
/// authenticate under that key.
pub proof fn lemma_tampered_tag_is_refused(
    key: Seq<u8>,
    address: Seq<char>,
    e: EncryptedAddress,
    tampered: EncryptedAddress,
)
    requires
        address_valid(address),
        encrypts_to(key, address, e),
        tampered.ciphertext@ == e.ciphertext@,
        tampered.nonce@ == e.nonce@,
        tampered.tag@ != e.tag@,
    ensures
        decrypt_spec(key, tampered) == Err::<Seq<char>, PrivacyError>(PrivacyError::AuthenticationFailed),
{
    lemma_encode_utf8_nonempty(address);
    assert(chacha20poly1305_open(key, e.nonce@, e.ciphertext@ + tampered.tag@) is None);
}

/// A well-formed encrypted address passes the integrity check exactly when
/// neither its nonce nor its tag is all zeros: an encryption of a valid
/// address has a non-empty ciphertext, a non-empty type and version 1.
pub proof fn lemma_encrypted_address_integrity(key: Seq<u8>, address: Seq<char>, e: EncryptedAddress)
    requires
        address_valid(address),
        encrypts_to(key, address, e),
        e.metadata.address_type@.len() > 0,
        e.metadata.version == 1,
    ensures
        address_well_formed(e) <==> (exists|i: int| 0 <= i < 12 && e.nonce@[i] != 0) && (exists|i: int|
            0 <= i < 16 && e.tag@[i] != 0),
{
    lemma_encode_utf8_nonempty(address);
}

} // verus!
