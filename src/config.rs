//! The persisted credential record: its fixed binary layout, its checksum and
//! the rules for building one from user input.
//!
//! Layout (little-endian): `version` (1) | `ssid_len` (1) | `pass_len` (1) |
//! `api_key_len` (1) | `ssid` (32, zero-padded) | `pass` (64, zero-padded) |
//! `api_key` (32, zero-padded) | CRC-32 over all preceding bytes (4).
use vstd::prelude::*;
use vstd::slice::slice_to_vec;
use vstd::string::StringSliceAdditionalSpecFns;
use vstd::utf8::{encode_utf8_valid_utf8, valid_utf8};

use crate::checksum::{crc32, crc32_of};

verus! {

/// Format version written into every record built by [`Config::new`].
pub const VERSION: u8 = 1;

/// Size of the trailing checksum.
pub const CHECKSUM_SZ: usize = 4;

/// Largest network name, in bytes.
pub const SSID_MAX_LEN: usize = 32;

/// Largest network password, in bytes.
pub const PASS_MAX_LEN: usize = 64;

/// Largest API key, in bytes.
pub const API_KEY_MAX_LEN: usize = 32;

/// Offset of the zero-padded network name.
pub const SSID_OFFSET: usize = 4;

/// Offset of the zero-padded password.
pub const PASS_OFFSET: usize = SSID_OFFSET + SSID_MAX_LEN;

/// Offset of the zero-padded API key.
pub const API_KEY_OFFSET: usize = PASS_OFFSET + PASS_MAX_LEN;

/// Size of everything the checksum covers; also the checksum's offset.
pub const PAYLOAD_SZ: usize = API_KEY_OFFSET + API_KEY_MAX_LEN;

/// Size of a whole record, checksum included.
pub const CONFIG_SZ: usize = PAYLOAD_SZ + CHECKSUM_SZ;

/// Why a record could not be built, encoded or decoded.
#[derive(Debug, Clone, Copy, PartialEq, Eq, Structural)]
pub enum ConfigError {
    /// The buffer is shorter than [`CONFIG_SZ`].
    BufferTooSmall,
    /// The stored checksum differs from the one computed over the payload.
    BadChecksum,
    /// A field handed to [`Config::new`] is longer than its maximum.
    BadArgs,
    /// A stored field is not valid UTF-8.
    Utf8,
    /// A stored length is larger than its field.
    Decode,
}

/// The mathematical content of a record: its version and the bytes of each
/// string field.
pub struct ConfigView {
    pub version: u8,
    pub ssid: Seq<u8>,
    pub pass: Seq<u8>,
    pub api_key: Seq<u8>,
}

impl ConfigView {
    /// Every field fits its slot and holds UTF-8.
    pub open spec fn valid(self) -> bool {
        &&& self.ssid.len() <= SSID_MAX_LEN
        &&& self.pass.len() <= PASS_MAX_LEN
        &&& self.api_key.len() <= API_KEY_MAX_LEN
        &&& valid_utf8(self.ssid)
        &&& valid_utf8(self.pass)
        &&& valid_utf8(self.api_key)
    }
}

/// `s` followed by zeros up to `width` bytes.
pub open spec fn zero_padded(s: Seq<u8>, width: nat) -> Seq<u8> {
    s + Seq::new((width - s.len()) as nat, |_i: int| 0u8)
}

/// The bytes that the checksum covers.
pub open spec fn payload_of(c: ConfigView) -> Seq<u8> {
    seq![c.version, c.ssid.len() as u8, c.pass.len() as u8, c.api_key.len() as u8]
        + zero_padded(c.ssid, SSID_MAX_LEN as nat)
        + zero_padded(c.pass, PASS_MAX_LEN as nat)
        + zero_padded(c.api_key, API_KEY_MAX_LEN as nat)
}

/// Little-endian bytes of `x`.
pub open spec fn le_bytes(x: u32) -> Seq<u8> {
    seq![(x % 0x100) as u8, (x / 0x100 % 0x100) as u8, (x / 0x1_0000 % 0x100) as u8, (x / 0x100_0000) as u8]
}

/// The integer whose little-endian bytes are `b0`, `b1`, `b2`, `b3`.
pub open spec fn le_u32(b0: u8, b1: u8, b2: u8, b3: u8) -> u32 {
    (b0 as u32 + 0x100u32 * (b1 as u32) + 0x1_0000u32 * (b2 as u32) + 0x100_0000u32 * (b3 as u32)) as u32
}

/// The whole persisted block of a record.
pub open spec fn block_of(c: ConfigView) -> Seq<u8> {
    payload_of(c) + le_bytes(crc32_of(payload_of(c)))
}

/// The checksum stored in a block.
pub open spec fn stored_checksum(b: Seq<u8>) -> u32 {
    le_u32(b[PAYLOAD_SZ as int], b[PAYLOAD_SZ + 1], b[PAYLOAD_SZ + 2], b[PAYLOAD_SZ + 3])
}

/// The string field of `len` bytes at `offset`.
pub open spec fn field_at(b: Seq<u8>, offset: int, len: u8) -> Seq<u8> {
    b.subrange(offset, offset + len)
}

/// What decoding `b` gives when the checksum computed over its payload is
/// `computed`: the size is checked first, then the checksum, then the
/// lengths, then the text.
pub open spec fn decode_spec(b: Seq<u8>, computed: u32) -> Result<ConfigView, ConfigError> {
    if b.len() < CONFIG_SZ {
        Err(ConfigError::BufferTooSmall)
    } else if stored_checksum(b) != computed {
        Err(ConfigError::BadChecksum)
    } else if b[1] > SSID_MAX_LEN || b[2] > PASS_MAX_LEN || b[3] > API_KEY_MAX_LEN {
        Err(ConfigError::Decode)
    } else {
        let ssid = field_at(b, SSID_OFFSET as int, b[1]);
        let pass = field_at(b, PASS_OFFSET as int, b[2]);
        let api_key = field_at(b, API_KEY_OFFSET as int, b[3]);
        if valid_utf8(ssid) && valid_utf8(pass) && valid_utf8(api_key) {
            Ok(ConfigView { version: b[0], ssid, pass, api_key })
        } else {
            Err(ConfigError::Utf8)
        }
    }
}

/// What loading the block `b` gives.
pub open spec fn load_spec(b: Seq<u8>) -> Result<ConfigView, ConfigError> {
    decode_spec(b, crc32_of(b.subrange(0, PAYLOAD_SZ as int)))
}

/// A credential record. Every field fits its slot and holds UTF-8.
pub struct Config {
    version: u8,
    ssid: Vec<u8>,
    pass: Vec<u8>,
    api_key: Vec<u8>,
}

impl View for Config {
    type V = ConfigView;

    closed spec fn view(&self) -> ConfigView {
        ConfigView { version: self.version, ssid: self.ssid@, pass: self.pass@, api_key: self.api_key@ }
    }
}

/// The mathematical content of a decoding result.
pub open spec fn result_view(r: Result<Config, ConfigError>) -> Result<ConfigView, ConfigError> {
    match r {
        Ok(c) => Ok(c@),
        Err(e) => Err(e),
    }
}

/// Relies on `core::str::from_utf8`: it returns the text when the bytes are
/// valid UTF-8 and fails otherwise.
#[verifier::external_body]
fn utf8_str(b: &[u8]) -> (r: Option<&str>)
    ensures
        r is Some <==> valid_utf8(b@),
        r matches Some(s) ==> s.spec_bytes() == b@,
{
    core::str::from_utf8(b).ok()
}

/// Appends `field` and then zeros up to `width` bytes.
fn push_padded(out: &mut Vec<u8>, field: &Vec<u8>, width: usize)
    requires
        field@.len() <= width,
    ensures
        final(out)@ == old(out)@ + zero_padded(field@, width as nat),
{
    let mut i: usize = 0;
    while i < field.len()
        invariant
            i <= field@.len(),
            out@ == old(out)@ + field@.subrange(0, i as int),
        decreases field@.len() - i,
    {
        out.push(field[i]);
        i += 1;
        assert(out@ =~= old(out)@ + field@.subrange(0, i as int));
    }
    assert(field@.subrange(0, i as int) =~= field@);
    while i < width
        invariant
            field@.len() <= i <= width,
            out@ == old(out)@ + field@ + Seq::new((i - field@.len()) as nat, |_j: int| 0u8),
        decreases width - i,
    {
        out.push(0u8);
        i += 1;
        assert(out@ =~= old(out)@ + field@ + Seq::new((i - field@.len()) as nat, |_j: int| 0u8));
    }
    assert(out@ =~= old(out)@ + zero_padded(field@, width as nat));
}

impl Config {
    #[verifier::type_invariant]
    spec fn inv(self) -> bool {
        self@.valid()
    }

    /// Builds a version-[`VERSION`] record. Fails with `BadArgs` exactly when
    /// a field is longer than its maximum.
    pub fn new(ssid: &str, pass: &str, api_key: &str) -> (r: Result<Config, ConfigError>)
        ensures
            r is Ok <==> (ssid.spec_bytes().len() <= SSID_MAX_LEN && pass.spec_bytes().len()
                <= PASS_MAX_LEN && api_key.spec_bytes().len() <= API_KEY_MAX_LEN),
            r matches Ok(c) ==> c@ == (ConfigView {
                version: VERSION,
                ssid: ssid.spec_bytes(),
                pass: pass.spec_bytes(),
                api_key: api_key.spec_bytes(),
            }),
            r matches Err(e) ==> e == ConfigError::BadArgs,
    {
        let ssid_b = ssid.as_bytes();
        let pass_b = pass.as_bytes();
        let api_key_b = api_key.as_bytes();
        if ssid_b.len() > SSID_MAX_LEN || pass_b.len() > PASS_MAX_LEN || api_key_b.len()
            > API_KEY_MAX_LEN {
            return Err(ConfigError::BadArgs);
        }
        proof {
            encode_utf8_valid_utf8(ssid@);
            encode_utf8_valid_utf8(pass@);
            encode_utf8_valid_utf8(api_key@);
        }
        Ok(Config {
            version: VERSION,
            ssid: slice_to_vec(ssid_b),
            pass: slice_to_vec(pass_b),
            api_key: slice_to_vec(api_key_b),
        })
    }

    /// Writes the record's block into the start of `buffer` and returns its
    /// size. Fails with `BufferTooSmall`, writing nothing, when `buffer` is
    /// shorter than [`CONFIG_SZ`]; bytes past the block are left as they were.
    pub fn to_bytes(&self, buffer: &mut [u8]) -> (r: Result<usize, ConfigError>)
        ensures
            old(buffer)@.len() < CONFIG_SZ ==> r == Err::<usize, ConfigError>(
                ConfigError::BufferTooSmall,
            ) && final(buffer)@ == old(buffer)@,
            old(buffer)@.len() >= CONFIG_SZ ==> r == Ok::<usize, ConfigError>(CONFIG_SZ)
                && final(buffer)@ == block_of(self@) + old(buffer)@.subrange(
                CONFIG_SZ as int,
                old(buffer)@.len() as int,
            ),
    {
        proof {
            use_type_invariant(self);
        }
        if buffer.len() < CONFIG_SZ {
            return Err(ConfigError::BufferTooSmall);
        }
        let mut out: Vec<u8> = Vec::new();
        out.push(self.version);
        out.push(self.ssid.len() as u8);
        out.push(self.pass.len() as u8);
        out.push(self.api_key.len() as u8);
        push_padded(&mut out, &self.ssid, SSID_MAX_LEN);
        push_padded(&mut out, &self.pass, PASS_MAX_LEN);
        push_padded(&mut out, &self.api_key, API_KEY_MAX_LEN);
        assert(out@ =~= payload_of(self@));
        let crc = crc32(out.as_slice());
        proof {
            lemma_le_bytes_shifts(crc);
        }
        out.push((crc & 0xff) as u8);
        out.push(((crc >> 8u32) & 0xff) as u8);
        out.push(((crc >> 16u32) & 0xff) as u8);
        out.push(((crc >> 24u32) & 0xff) as u8);
        assert(out@ =~= block_of(self@));
        let mut i: usize = 0;
        while i < CONFIG_SZ
            invariant
                out@ == block_of(self@),
                out@.len() == CONFIG_SZ,
                i <= CONFIG_SZ,
                buffer@.len() == old(buffer)@.len(),
                old(buffer)@.len() >= CONFIG_SZ,
                forall|j: int| 0 <= j < i ==> buffer@[j] == out@[j],
                forall|j: int| i <= j < buffer@.len() ==> buffer@[j] == old(buffer)@[j],
            decreases CONFIG_SZ - i,
        {
            buffer[i] = out[i];
            i += 1;
        }
        assert(buffer@ =~= block_of(self@) + old(buffer)@.subrange(
            CONFIG_SZ as int,
            old(buffer)@.len() as int,
        ));
        Ok(CONFIG_SZ)
    }

    /// Decodes the block at the start of `bytes`, given the checksum
    /// `computed` over its first [`PAYLOAD_SZ`] bytes.
    pub fn from_bytes_with_checksum(bytes: &[u8], computed: u32) -> (r: Result<Config, ConfigError>)
        ensures
            result_view(r) == decode_spec(bytes@, computed),
    {
        if bytes.len() < CONFIG_SZ {
            return Err(ConfigError::BufferTooSmall);
        }
        let stored: u32 = (bytes[PAYLOAD_SZ] as u32) | ((bytes[PAYLOAD_SZ + 1] as u32) << 8u32)
            | ((bytes[PAYLOAD_SZ + 2] as u32) << 16u32) | ((bytes[PAYLOAD_SZ + 3] as u32)
            << 24u32);
        proof {
            lemma_le_u32_shifts(
                bytes@[PAYLOAD_SZ as int],
                bytes@[PAYLOAD_SZ + 1],
                bytes@[PAYLOAD_SZ + 2],
                bytes@[PAYLOAD_SZ + 3],
            );
        }
        if stored != computed {
            return Err(ConfigError::BadChecksum);
        }
        let ssid_len = bytes[1] as usize;
        let pass_len = bytes[2] as usize;
        let api_key_len = bytes[3] as usize;
        if ssid_len > SSID_MAX_LEN || pass_len > PASS_MAX_LEN || api_key_len > API_KEY_MAX_LEN {
            return Err(ConfigError::Decode);
        }
        let ssid = &bytes[SSID_OFFSET..SSID_OFFSET + ssid_len];
        let pass = &bytes[PASS_OFFSET..PASS_OFFSET + pass_len];
        let api_key = &bytes[API_KEY_OFFSET..API_KEY_OFFSET + api_key_len];
        if utf8_str(ssid).is_none() || utf8_str(pass).is_none() || utf8_str(api_key).is_none() {
            return Err(ConfigError::Utf8);
        }
        Ok(Config {
            version: bytes[0],
            ssid: slice_to_vec(ssid),
            pass: slice_to_vec(pass),
            api_key: slice_to_vec(api_key),
        })
    }

    /// Loads a record from the block at the start of `bytes`, recomputing the
    /// checksum over its first [`PAYLOAD_SZ`] bytes.
    pub fn from_bytes(bytes: &[u8]) -> (r: Result<Config, ConfigError>)
        ensures
            bytes@.len() < CONFIG_SZ ==> r == Err::<Config, ConfigError>(
                ConfigError::BufferTooSmall,
            ),
            bytes@.len() >= CONFIG_SZ ==> result_view(r) == load_spec(bytes@),
    {
        if bytes.len() < CONFIG_SZ {
            return Err(ConfigError::BufferTooSmall);
        }
        let computed = crc32(&bytes[0..PAYLOAD_SZ]);
        Config::from_bytes_with_checksum(bytes, computed)
    }

    /// The record's format version.
    pub fn version(&self) -> (r: u8)
        ensures
            r == self@.version,
    {
        self.version
    }

    /// The network name.
    pub fn ssid(&self) -> (r: &str)
        ensures
            r.spec_bytes() == self@.ssid,
    {
        proof {
            use_type_invariant(self);
        }
        match utf8_str(self.ssid.as_slice()) {
            Some(s) => s,
            None => "",
        }
    }

    /// The network password.
    pub fn pass(&self) -> (r: &str)
        ensures
            r.spec_bytes() == self@.pass,
    {
        proof {
            use_type_invariant(self);
        }
        match utf8_str(self.pass.as_slice()) {
            Some(s) => s,
            None => "",
        }
    }

    /// The API key.
    pub fn api_key(&self) -> (r: &str)
        ensures
            r.spec_bytes() == self@.api_key,
    {
        proof {
            use_type_invariant(self);
        }
        match utf8_str(self.api_key.as_slice()) {
            Some(s) => s,
            None => "",
        }
    }
}

/// Where the record is kept in a storage region of `capacity` bytes erased
/// in sectors of `sector_size` bytes: at the start of the last sector, when
/// the region holds a sector, the sector holds a record, and the offset fits
/// a `u32`.
pub open spec fn offset_spec(capacity: usize, sector_size: u32) -> Option<u32> {
    if CONFIG_SZ <= sector_size <= capacity && capacity - sector_size <= u32::MAX {
        Some((capacity - sector_size) as u32)
    } else {
        None
    }
}

/// The offset of the record in a storage region; `None` when it has no
/// place there.
pub fn config_offset(capacity: usize, sector_size: u32) -> (r: Option<u32>)
    ensures
        r == offset_spec(capacity, sector_size),
{
    if (sector_size as usize) < CONFIG_SZ || capacity < sector_size as usize {
        return None;
    }
    let offset = capacity - sector_size as usize;
    if offset > u32::MAX as usize {
        return None;
    }
    Some(offset as u32)
}

/// `b` with bit `bit` flipped, counting from the least significant bit of
/// the first byte.
pub open spec fn flip_bit(b: Seq<u8>, bit: int) -> Seq<u8> {
    b.update(bit / 8, b[bit / 8] ^ (1u8 << ((bit % 8) as u8)))
}

proof fn lemma_le_u32_of_le_bytes(x: u32)
    by (bit_vector)
    ensures
        le_u32(
            (x % 0x100) as u8,
            (x / 0x100 % 0x100) as u8,
            (x / 0x1_0000 % 0x100) as u8,
            (x / 0x100_0000) as u8,
        ) == x,
{
}

proof fn lemma_le_bytes_of_le_u32(b0: u8, b1: u8, b2: u8, b3: u8)
    ensures
        (le_u32(b0, b1, b2, b3) % 0x100) as u8 == b0,
        (le_u32(b0, b1, b2, b3) / 0x100 % 0x100) as u8 == b1,
        (le_u32(b0, b1, b2, b3) / 0x1_0000 % 0x100) as u8 == b2,
        (le_u32(b0, b1, b2, b3) / 0x100_0000) as u8 == b3,
{
    let x = le_u32(b0, b1, b2, b3);
    assert(x % 0x100 == b0 as u32 && x / 0x100 % 0x100 == b1 as u32 && x / 0x1_0000 % 0x100
        == b2 as u32 && x / 0x100_0000 == b3 as u32) by (bit_vector)
        requires
            x == le_u32(b0, b1, b2, b3),
    ;
}

/// The shifts and masks of the encoder compute [`le_bytes`].
proof fn lemma_le_bytes_shifts(x: u32)
    ensures
        (x & 0xff) as u8 == (x % 0x100) as u8,
        ((x >> 8u32) & 0xff) as u8 == (x / 0x100 % 0x100) as u8,
        ((x >> 16u32) & 0xff) as u8 == (x / 0x1_0000 % 0x100) as u8,
        ((x >> 24u32) & 0xff) as u8 == (x / 0x100_0000) as u8,
{
    assert(x & 0xff == x % 0x100 && (x >> 8u32) & 0xff == x / 0x100 % 0x100 && (x >> 16u32)
        & 0xff == x / 0x1_0000 % 0x100 && (x >> 24u32) & 0xff == x / 0x100_0000) by (bit_vector);
}

/// The shifts of the decoder compute [`le_u32`].
proof fn lemma_le_u32_shifts(b0: u8, b1: u8, b2: u8, b3: u8)
    by (bit_vector)
    ensures
        (b0 as u32) | ((b1 as u32) << 8u32) | ((b2 as u32) << 16u32) | ((b3 as u32) << 24u32)
            == le_u32(b0, b1, b2, b3),
{
}

proof fn lemma_flip_changes_byte(v: u8, k: u8)
    by (bit_vector)
    requires
        k < 8,
    ensures
        v ^ (1u8 << k) != v,
{
}

proof fn lemma_block_layout(c: ConfigView)
    requires
        c.valid(),
    ensures
        payload_of(c).len() == PAYLOAD_SZ,
        block_of(c).len() == CONFIG_SZ,
        block_of(c).subrange(0, PAYLOAD_SZ as int) == payload_of(c),
        stored_checksum(block_of(c)) == crc32_of(payload_of(c)),
{
    let p = payload_of(c);
    let b = block_of(c);
    assert(b.subrange(0, PAYLOAD_SZ as int) =~= p);
    lemma_le_u32_of_le_bytes(crc32_of(p));
}

/// Loading the block of a valid record gives the record back, whatever
/// follows the block.
pub proof fn lemma_round_trip(c: ConfigView, rest: Seq<u8>)
    requires
        c.valid(),
    ensures
        load_spec(block_of(c) + rest) == Ok::<ConfigView, ConfigError>(c),
{
    let p = payload_of(c);
    let b = block_of(c) + rest;
    lemma_block_layout(c);
    assert(b.subrange(0, PAYLOAD_SZ as int) =~= p);
    assert(b[PAYLOAD_SZ as int] == block_of(c)[PAYLOAD_SZ as int]);
    assert(b[PAYLOAD_SZ + 1] == block_of(c)[PAYLOAD_SZ + 1]);
    assert(b[PAYLOAD_SZ + 2] == block_of(c)[PAYLOAD_SZ + 2]);
    assert(b[PAYLOAD_SZ + 3] == block_of(c)[PAYLOAD_SZ + 3]);
    assert(b[1] == c.ssid.len());
    assert(b[2] == c.pass.len());
    assert(b[3] == c.api_key.len());
    assert(field_at(b, SSID_OFFSET as int, b[1]) =~= c.ssid);
    assert(field_at(b, PASS_OFFSET as int, b[2]) =~= c.pass);
    assert(field_at(b, API_KEY_OFFSET as int, b[3]) =~= c.api_key);
}

/// Flipping one bit of a record's block makes loading it fail with
/// `BadChecksum`, unless the flip lands in the payload and leaves the
/// payload's CRC-32 unchanged.
pub proof fn lemma_bit_flip_detected(c: ConfigView, bit: int)
    requires
        c.valid(),
        0 <= bit < 8 * CONFIG_SZ,
        bit < 8 * PAYLOAD_SZ ==> crc32_of(flip_bit(block_of(c), bit).subrange(0, PAYLOAD_SZ as int))
            != crc32_of(payload_of(c)),
    ensures
        load_spec(flip_bit(block_of(c), bit)) == Err::<ConfigView, ConfigError>(
            ConfigError::BadChecksum,
        ),
{
    let b = block_of(c);
    let f = flip_bit(b, bit);
    let i = bit / 8;
    let k = (bit % 8) as u8;
    lemma_block_layout(c);
    lemma_flip_changes_byte(b[i], k);
    if bit < 8 * PAYLOAD_SZ {
        assert(stored_checksum(f) == stored_checksum(b));
    } else {
        let x = crc32_of(payload_of(c));
        assert(f.subrange(0, PAYLOAD_SZ as int) =~= payload_of(c));
        if stored_checksum(f) == x {
            lemma_le_bytes_of_le_u32(
                f[PAYLOAD_SZ as int],
                f[PAYLOAD_SZ + 1],
                f[PAYLOAD_SZ + 2],
                f[PAYLOAD_SZ + 3],
            );
            assert(f[i] == b[i]);
        }
    }
}

/// An erased (all-zero) region stores the checksum zero, so it fails to
/// load with `BadChecksum` whenever the CRC-32 of the zero payload is not
/// zero.
pub proof fn lemma_zero_region_rejected(len: nat)
    requires
        len >= CONFIG_SZ,
        crc32_of(Seq::new(PAYLOAD_SZ as nat, |_i: int| 0u8)) != 0,
    ensures
        load_spec(Seq::new(len, |_i: int| 0u8)) == Err::<ConfigView, ConfigError>(
            ConfigError::BadChecksum,
        ),
{
    let z = Seq::new(len, |_i: int| 0u8);
    assert(z.subrange(0, PAYLOAD_SZ as int) =~= Seq::new(PAYLOAD_SZ as nat, |_i: int| 0u8));
    assert(stored_checksum(z) == 0);
}

} // verus!
