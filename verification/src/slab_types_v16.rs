//! The v16 portfolio account as the NFT program reads it.
//!
//! A wrapper-owned portfolio account is laid out as
//!
//! ```text
//!   [ 16-byte wrapper header ][ PortfolioAccountV16Account ][ source-domain tail ]
//!     MAGIC u64 @0                fixed 2907-byte image       variable, ignored
//!     VERSION u16 @8              starts at HEADER_LEN = 16
//!     kind   u8  @10
//! ```
//!
//! Every multi-byte scalar of the engine's image is a little-endian byte
//! array, so every struct below is packed: its byte image is the concatenation
//! of its fields' images in declaration order. Each struct states that image
//! as the spec function `image`, proves its length and the offset of each
//! field, and proves that the image determines the value. Decoding reads the
//! fields by name from the bytes at their offsets; no offset is computed by
//! hand anywhere else.

use crate::le_codec::{
    from_twos_complement_128, law_from_twos_complement_128_roundtrip, law_le_bytes_of_le_value,
    law_le_value_of_le_bytes, law_twos_complement_128_roundtrip, le_bytes, le_decode, le_encode,
    le_value, lemma_le_bytes_len, lemma_le_value_bound, lemma_pow256_widths, twos_complement_128,
};
use vstd::prelude::*;

verus! {

// ════════════════════════════════════════════════════════════════════════════
// LAYOUT REVISION
// ════════════════════════════════════════════════════════════════════════════
/// Bump whenever the layout below is intentionally re-synced with a new
/// engine layout. Stamped into every minted NFT so a re-sync invalidates
/// older NFTs rather than silently decoding with the wrong offsets.
///
/// Revision 3: v16 account-local layout (`PortfolioAccountV16Account`,
/// 2907-byte fixed head).
pub const LAYOUT_REVISION: u32 = 3;

// ════════════════════════════════════════════════════════════════════════════
// WRAPPER ACCOUNT HEADER
// ════════════════════════════════════════════════════════════════════════════
/// `"PERCV16\0"` little-endian. Bytes 0..8 of every wrapper account.
pub const MAGIC: u64 = 0x5045_5243_5631_3600;

/// Wrapper account-format version. Bytes 8..10.
pub const VERSION: u16 = 16;

/// Account-kind discriminant for a portfolio. Byte 10.
pub const KIND_PORTFOLIO: u8 = 2;

/// Bytes consumed by the wrapper header before the engine image begins.
pub const HEADER_LEN: usize = 16;

// ════════════════════════════════════════════════════════════════════════════
// ENGINE CONSTANTS
// ════════════════════════════════════════════════════════════════════════════
/// `ProvenanceHeaderV16Account.layout_discriminator` must equal this (v16 guard).
pub const V16_LAYOUT_DISCRIMINATOR: u16 = 16;

/// `ProvenanceHeaderV16Account.version` must equal this.
pub const V16_ACCOUNT_VERSION: u16 = 1;

/// Number of leg slots in a portfolio's `legs` array.
pub const V16_MAX_PORTFOLIO_ASSETS_N: usize = 16;

/// `ceil(V16_MAX_PORTFOLIO_ASSETS_N / 64)`.
pub const V16_ACTIVE_BITMAP_WORDS: usize = 1;

/// Largest active-leg count the wrapper permits per portfolio.
/// An NFT's `asset_index` must be `< WRAPPER_MAX_PORTFOLIO_ASSETS`.
pub const WRAPPER_MAX_PORTFOLIO_ASSETS: u16 = 14;

// ════════════════════════════════════════════════════════════════════════════
// EXPECTED SIZES — the engine's byte counts
// ════════════════════════════════════════════════════════════════════════════
pub const EXPECTED_PROVENANCE_HEADER_SIZE: usize = 100;

pub const EXPECTED_PORTFOLIO_LEG_SIZE: usize = 144;

pub const EXPECTED_HEALTH_CERT_SIZE: usize = 121;

pub const EXPECTED_CLOSE_PROGRESS_SIZE: usize = 184;

pub const EXPECTED_RESOLVED_PAYOUT_RECEIPT_SIZE: usize = 66;

pub const EXPECTED_PORTFOLIO_ACCOUNT_SIZE: usize = 2907;

// ════════════════════════════════════════════════════════════════════════════
// BYTE-RANGE HELPERS
// ════════════════════════════════════════════════════════════════════════════
/// Copies `N` bytes of `data` starting at `off`.
pub(crate) fn read_bytes<const N: usize>(data: &[u8], off: usize) -> (r: [u8; N])
    requires
        off + N <= data.len(),
    ensures
        r@ == data@.subrange(off as int, off + N),
{
    let mut bytes = [0u8; N];
    let mut i: usize = 0;
    while i < N
        invariant
            i <= N,
            off + N <= data.len(),
            bytes@.len() == N,
            forall|k: int| 0 <= k < i ==> bytes@[k] == data@[off + k],
        decreases N - i,
    {
        bytes[i] = data[off + i];
        i = i + 1;
    }
    assert(bytes@ =~= data@.subrange(off as int, off + N));
    bytes
}

/// Appends the bytes of `b` to `out`.
pub(crate) fn push_bytes<const N: usize>(out: &mut Vec<u8>, b: &[u8; N])
    ensures
        final(out)@ == old(out)@ + b@,
{
    let mut i: usize = 0;
    while i < N
        invariant
            i <= N,
            b@.len() == N,
            out@ == old(out)@ + b@.subrange(0, i as int),
        decreases N - i,
    {
        out.push(b[i]);
        i = i + 1;
        assert(out@ =~= old(out)@ + b@.subrange(0, i as int));
    }
    assert(b@.subrange(0, N as int) =~= b@);
}

/// Byte-wise equality of two 32-byte keys.
pub(crate) fn keys_equal(a: &[u8; 32], b: &[u8; 32]) -> (r: bool)
    ensures
        r == (a@ == b@),
{
    let mut i: usize = 0;
    while i < 32
        invariant
            i <= 32,
            a@.len() == 32,
            b@.len() == 32,
            forall|k: int| 0 <= k < i ==> a@[k] == b@[k],
        decreases 32 - i,
    {
        if a[i] != b[i] {
            return false;
        }
        i = i + 1;
    }
    assert(a@ =~= b@);
    true
}

// ════════════════════════════════════════════════════════════════════════════
// POD SCALAR WRAPPERS — little-endian byte arrays, align 1
// ════════════════════════════════════════════════════════════════════════════
#[derive(Clone, Copy, Debug, Default, PartialEq, Eq)]
pub struct V16PodU16 {
    pub bytes: [u8; 2],
}

impl V16PodU16 {
    /// The little-endian bytes of `value`.
    pub fn new(value: u16) -> (r: Self)
        ensures
            r.bytes@ == le_bytes(value as nat, 2),
    {
        Self { bytes: le_encode(value as u128) }
    }

    /// The value that the bytes hold, read little-endian.
    pub fn get(self) -> (r: u16)
        ensures
            r as nat == le_value(self.bytes@),
    {
        proof {
            lemma_le_value_bound(self.bytes@);
            lemma_pow256_widths();
        }
        le_decode(&self.bytes) as u16
    }
}

#[derive(Clone, Copy, Debug, Default, PartialEq, Eq)]
pub struct V16PodU32 {
    pub bytes: [u8; 4],
}

impl V16PodU32 {
    /// The little-endian bytes of `value`.
    pub fn new(value: u32) -> (r: Self)
        ensures
            r.bytes@ == le_bytes(value as nat, 4),
    {
        Self { bytes: le_encode(value as u128) }
    }

    /// The value that the bytes hold, read little-endian.
    pub fn get(self) -> (r: u32)
        ensures
            r as nat == le_value(self.bytes@),
    {
        proof {
            lemma_le_value_bound(self.bytes@);
            lemma_pow256_widths();
        }
        le_decode(&self.bytes) as u32
    }
}

#[derive(Clone, Copy, Debug, Default, PartialEq, Eq)]
pub struct V16PodU64 {
    pub bytes: [u8; 8],
}

impl V16PodU64 {
    /// The little-endian bytes of `value`.
    pub fn new(value: u64) -> (r: Self)
        ensures
            r.bytes@ == le_bytes(value as nat, 8),
    {
        Self { bytes: le_encode(value as u128) }
    }

    /// The value that the bytes hold, read little-endian.
    pub fn get(self) -> (r: u64)
        ensures
            r as nat == le_value(self.bytes@),
    {
        proof {
            lemma_le_value_bound(self.bytes@);
            lemma_pow256_widths();
        }
        le_decode(&self.bytes) as u64
    }
}

#[derive(Clone, Copy, Debug, Default, PartialEq, Eq)]
pub struct V16PodU128 {
    pub bytes: [u8; 16],
}

impl V16PodU128 {
    /// The little-endian bytes of `value`.
    pub fn new(value: u128) -> (r: Self)
        ensures
            r.bytes@ == le_bytes(value as nat, 16),
    {
        Self { bytes: le_encode(value) }
    }

    /// The value that the bytes hold, read little-endian.
    pub fn get(self) -> (r: u128)
        ensures
            r as nat == le_value(self.bytes@),
    {
        le_decode(&self.bytes)
    }
}

#[derive(Clone, Copy, Debug, Default, PartialEq, Eq)]
pub struct V16PodI128 {
    pub bytes: [u8; 16],
}

impl V16PodI128 {
    /// The little-endian bytes of the two's-complement image of `value`.
    pub fn new(value: i128) -> (r: Self)
        ensures
            r.bytes@ == le_bytes(twos_complement_128(value as int), 16),
    {
        let image: u128 = if value >= 0 {
            value as u128
        } else {
            ((value - i128::MIN) as u128) + 0x8000_0000_0000_0000_0000_0000_0000_0000u128
        };
        Self { bytes: le_encode(image) }
    }

    /// The signed value whose two's-complement image the bytes hold, read
    /// little-endian.
    pub fn get(self) -> (r: i128)
        ensures
            r as int == from_twos_complement_128(le_value(self.bytes@)),
    {
        let image = le_decode(&self.bytes);
        if image < 0x8000_0000_0000_0000_0000_0000_0000_0000u128 {
            image as i128
        } else {
            ((image - 0x8000_0000_0000_0000_0000_0000_0000_0000u128) as i128) + i128::MIN
        }
    }
}


// ════════════════════════════════════════════════════════════════════════════
// ProvenanceHeaderV16Account
// ════════════════════════════════════════════════════════════════════════════
#[derive(Clone, Copy, Debug, Default, PartialEq, Eq)]
pub struct ProvenanceHeaderV16Account {
    pub market_group_id: [u8; 32],
    pub portfolio_account_id: [u8; 32],
    pub owner: [u8; 32],
    pub version: V16PodU16,
    pub layout_discriminator: V16PodU16,
}

impl ProvenanceHeaderV16Account {
    /// The engine's byte image: the fields in declaration order.
    pub open spec fn image(self) -> Seq<u8> {
        self.market_group_id@ + self.portfolio_account_id@ + self.owner@ + self.version.bytes@
            + self.layout_discriminator.bytes@
    }

    /// The image is `EXPECTED_PROVENANCE_HEADER_SIZE` bytes long and holds each
    /// field at its engine offset.
    pub proof fn lemma_layout(self)
        ensures
            self.image().len() == EXPECTED_PROVENANCE_HEADER_SIZE,
            self.image().subrange(0, 32) == self.market_group_id@,
            self.image().subrange(32, 64) == self.portfolio_account_id@,
            self.image().subrange(64, 96) == self.owner@,
            self.image().subrange(96, 98) == self.version.bytes@,
            self.image().subrange(98, 100) == self.layout_discriminator.bytes@,
    {
        let s = self.image();
        assert(s.subrange(0, 32) =~= self.market_group_id@);
        assert(s.subrange(32, 64) =~= self.portfolio_account_id@);
        assert(s.subrange(64, 96) =~= self.owner@);
        assert(s.subrange(96, 98) =~= self.version.bytes@);
        assert(s.subrange(98, 100) =~= self.layout_discriminator.bytes@);
    }

    /// The image determines the header.
    pub proof fn lemma_image_determines(a: Self, b: Self)
        requires
            a.image() == b.image(),
        ensures
            a == b,
    {
        a.lemma_layout();
        b.lemma_layout();
        assert(a.market_group_id =~= b.market_group_id);
        assert(a.portfolio_account_id =~= b.portfolio_account_id);
        assert(a.owner =~= b.owner);
        assert(a.version.bytes =~= b.version.bytes);
        assert(a.layout_discriminator.bytes =~= b.layout_discriminator.bytes);
    }

    /// The header whose image is `data[off..off + 100]`.
    pub fn read_from(data: &[u8], off: usize) -> (r: Self)
        requires
            off + EXPECTED_PROVENANCE_HEADER_SIZE <= data.len(),
        ensures
            r.image() == data@.subrange(off as int, off + EXPECTED_PROVENANCE_HEADER_SIZE),
    {
        let r = Self {
            market_group_id: read_bytes(data, off),
            portfolio_account_id: read_bytes(data, off + 32),
            owner: read_bytes(data, off + 64),
            version: V16PodU16 { bytes: read_bytes(data, off + 96) },
            layout_discriminator: V16PodU16 { bytes: read_bytes(data, off + 98) },
        };
        assert(r.image() =~= data@.subrange(off as int, off + EXPECTED_PROVENANCE_HEADER_SIZE));
        r
    }

    /// Appends the image to `out`.
    pub fn write_to(&self, out: &mut Vec<u8>)
        ensures
            final(out)@ == old(out)@ + self.image(),
    {
        push_bytes(out, &self.market_group_id);
        push_bytes(out, &self.portfolio_account_id);
        push_bytes(out, &self.owner);
        push_bytes(out, &self.version.bytes);
        push_bytes(out, &self.layout_discriminator.bytes);
        assert(out@ =~= old(out)@ + self.image());
    }
}

// ════════════════════════════════════════════════════════════════════════════
// PortfolioLegV16Account
// ════════════════════════════════════════════════════════════════════════════
#[derive(Clone, Copy, Debug, Default, PartialEq, Eq)]
pub struct PortfolioLegV16Account {
    pub active: u8,
    pub asset_index: V16PodU32,
    pub market_id: V16PodU64,
    pub side: u8,
    pub basis_pos_q: V16PodI128,
    pub a_basis: V16PodU128,
    pub k_snap: V16PodI128,
    pub f_snap: V16PodI128,
    pub epoch_snap: V16PodU64,
    pub loss_weight: V16PodU128,
    pub b_snap: V16PodU128,
    pub b_rem: V16PodU128,
    pub b_epoch_snap: V16PodU64,
    pub b_stale: u8,
    pub stale: u8,
}

impl PortfolioLegV16Account {
    /// The engine's byte image: the fields in declaration order.
    pub open spec fn image(self) -> Seq<u8> {
        seq![self.active] + self.asset_index.bytes@ + self.market_id.bytes@ + seq![self.side]
            + self.basis_pos_q.bytes@ + self.a_basis.bytes@ + self.k_snap.bytes@
            + self.f_snap.bytes@ + self.epoch_snap.bytes@ + self.loss_weight.bytes@
            + self.b_snap.bytes@ + self.b_rem.bytes@ + self.b_epoch_snap.bytes@ + seq![self.b_stale]
            + seq![self.stale]
    }

    /// The image is `EXPECTED_PORTFOLIO_LEG_SIZE` bytes long and holds each
    /// field at its engine offset.
    pub proof fn lemma_layout(self)
        ensures
            self.image().len() == EXPECTED_PORTFOLIO_LEG_SIZE,
            self.image()[0] == self.active,
            self.image().subrange(1, 5) == self.asset_index.bytes@,
            self.image().subrange(5, 13) == self.market_id.bytes@,
            self.image()[13] == self.side,
            self.image().subrange(14, 30) == self.basis_pos_q.bytes@,
            self.image().subrange(30, 46) == self.a_basis.bytes@,
            self.image().subrange(46, 62) == self.k_snap.bytes@,
            self.image().subrange(62, 78) == self.f_snap.bytes@,
            self.image().subrange(78, 86) == self.epoch_snap.bytes@,
            self.image().subrange(86, 102) == self.loss_weight.bytes@,
            self.image().subrange(102, 118) == self.b_snap.bytes@,
            self.image().subrange(118, 134) == self.b_rem.bytes@,
            self.image().subrange(134, 142) == self.b_epoch_snap.bytes@,
            self.image()[142] == self.b_stale,
            self.image()[143] == self.stale,
    {
        let s = self.image();
        assert(s.subrange(1, 5) =~= self.asset_index.bytes@);
        assert(s.subrange(5, 13) =~= self.market_id.bytes@);
        assert(s.subrange(14, 30) =~= self.basis_pos_q.bytes@);
        assert(s.subrange(30, 46) =~= self.a_basis.bytes@);
        assert(s.subrange(46, 62) =~= self.k_snap.bytes@);
        assert(s.subrange(62, 78) =~= self.f_snap.bytes@);
        assert(s.subrange(78, 86) =~= self.epoch_snap.bytes@);
        assert(s.subrange(86, 102) =~= self.loss_weight.bytes@);
        assert(s.subrange(102, 118) =~= self.b_snap.bytes@);
        assert(s.subrange(118, 134) =~= self.b_rem.bytes@);
        assert(s.subrange(134, 142) =~= self.b_epoch_snap.bytes@);
    }

    /// The image determines the leg.
    pub proof fn lemma_image_determines(a: Self, b: Self)
        requires
            a.image() == b.image(),
        ensures
            a == b,
    {
        a.lemma_layout();
        b.lemma_layout();
        assert(a.asset_index.bytes =~= b.asset_index.bytes);
        assert(a.market_id.bytes =~= b.market_id.bytes);
        assert(a.basis_pos_q.bytes =~= b.basis_pos_q.bytes);
        assert(a.a_basis.bytes =~= b.a_basis.bytes);
        assert(a.k_snap.bytes =~= b.k_snap.bytes);
        assert(a.f_snap.bytes =~= b.f_snap.bytes);
        assert(a.epoch_snap.bytes =~= b.epoch_snap.bytes);
        assert(a.loss_weight.bytes =~= b.loss_weight.bytes);
        assert(a.b_snap.bytes =~= b.b_snap.bytes);
        assert(a.b_rem.bytes =~= b.b_rem.bytes);
        assert(a.b_epoch_snap.bytes =~= b.b_epoch_snap.bytes);
    }

    /// The leg whose image is `data[off..off + 144]`.
    pub fn read_from(data: &[u8], off: usize) -> (r: Self)
        requires
            off + EXPECTED_PORTFOLIO_LEG_SIZE <= data.len(),
        ensures
            r.image() == data@.subrange(off as int, off + EXPECTED_PORTFOLIO_LEG_SIZE),
    {
        let r = Self {
            active: data[off],
            asset_index: V16PodU32 { bytes: read_bytes(data, off + 1) },
            market_id: V16PodU64 { bytes: read_bytes(data, off + 5) },
            side: data[off + 13],
            basis_pos_q: V16PodI128 { bytes: read_bytes(data, off + 14) },
            a_basis: V16PodU128 { bytes: read_bytes(data, off + 30) },
            k_snap: V16PodI128 { bytes: read_bytes(data, off + 46) },
            f_snap: V16PodI128 { bytes: read_bytes(data, off + 62) },
            epoch_snap: V16PodU64 { bytes: read_bytes(data, off + 78) },
            loss_weight: V16PodU128 { bytes: read_bytes(data, off + 86) },
            b_snap: V16PodU128 { bytes: read_bytes(data, off + 102) },
            b_rem: V16PodU128 { bytes: read_bytes(data, off + 118) },
            b_epoch_snap: V16PodU64 { bytes: read_bytes(data, off + 134) },
            b_stale: data[off + 142],
            stale: data[off + 143],
        };
        assert(r.image() =~= data@.subrange(off as int, off + EXPECTED_PORTFOLIO_LEG_SIZE));
        r
    }

    /// Appends the image to `out`.
    pub fn write_to(&self, out: &mut Vec<u8>)
        ensures
            final(out)@ == old(out)@ + self.image(),
    {
        out.push(self.active);
        push_bytes(out, &self.asset_index.bytes);
        push_bytes(out, &self.market_id.bytes);
        out.push(self.side);
        push_bytes(out, &self.basis_pos_q.bytes);
        push_bytes(out, &self.a_basis.bytes);
        push_bytes(out, &self.k_snap.bytes);
        push_bytes(out, &self.f_snap.bytes);
        push_bytes(out, &self.epoch_snap.bytes);
        push_bytes(out, &self.loss_weight.bytes);
        push_bytes(out, &self.b_snap.bytes);
        push_bytes(out, &self.b_rem.bytes);
        push_bytes(out, &self.b_epoch_snap.bytes);
        out.push(self.b_stale);
        out.push(self.stale);
        assert(out@ =~= old(out)@ + self.image());
    }
}


// ════════════════════════════════════════════════════════════════════════════
// Bitmap words
// ════════════════════════════════════════════════════════════════════════════
/// The image of a run of bitmap words: their bytes, word after word.
pub open spec fn words_image(words: Seq<V16PodU64>) -> Seq<u8>
    decreases words.len(),
{
    if words.len() == 0 {
        Seq::empty()
    } else {
        words_image(words.drop_last()) + words.last().bytes@
    }
}

/// A bitmap of `V16_ACTIVE_BITMAP_WORDS` (one) word is that word's bytes.
pub proof fn lemma_words_image_single(words: Seq<V16PodU64>)
    requires
        words.len() == V16_ACTIVE_BITMAP_WORDS,
    ensures
        words_image(words) == words[0].bytes@,
        words_image(words).len() == 8 * V16_ACTIVE_BITMAP_WORDS,
{
    assert(words.drop_last() =~= Seq::<V16PodU64>::empty());
    assert(words_image(words.drop_last()) =~= Seq::<u8>::empty());
    assert(words_image(words) =~= words[0].bytes@);
}

/// Reads `V16_ACTIVE_BITMAP_WORDS` bitmap words at `off`.
pub(crate) fn read_words(data: &[u8], off: usize) -> (r: [V16PodU64; V16_ACTIVE_BITMAP_WORDS])
    requires
        off + 8 * V16_ACTIVE_BITMAP_WORDS <= data.len(),
    ensures
        words_image(r@) == data@.subrange(off as int, off + 8 * V16_ACTIVE_BITMAP_WORDS),
{
    let r = [V16PodU64 { bytes: read_bytes(data, off) }];
    proof {
        lemma_words_image_single(r@);
    }
    r
}

/// Appends the image of the bitmap words to `out`.
pub(crate) fn write_words(words: &[V16PodU64; V16_ACTIVE_BITMAP_WORDS], out: &mut Vec<u8>)
    ensures
        final(out)@ == old(out)@ + words_image(words@),
{
    proof {
        lemma_words_image_single(words@);
    }
    push_bytes(out, &words[0].bytes);
}

/// The bitmap image determines the words.
pub proof fn lemma_words_image_determines(a: [V16PodU64; V16_ACTIVE_BITMAP_WORDS], b: [V16PodU64; V16_ACTIVE_BITMAP_WORDS])
    requires
        words_image(a@) == words_image(b@),
    ensures
        a == b,
{
    lemma_words_image_single(a@);
    lemma_words_image_single(b@);
    assert(a[0].bytes =~= b[0].bytes);
    assert(a =~= b);
}

// ════════════════════════════════════════════════════════════════════════════
// HealthCertV16Account
// ════════════════════════════════════════════════════════════════════════════
#[derive(Clone, Copy, Debug, Default, PartialEq, Eq)]
pub struct HealthCertV16Account {
    pub certified_equity: V16PodI128,
    pub certified_initial_req: V16PodU128,
    pub certified_maintenance_req: V16PodU128,
    pub certified_liq_deficit: V16PodU128,
    pub certified_worst_case_loss: V16PodU128,
    pub cert_oracle_epoch: V16PodU64,
    pub cert_funding_epoch: V16PodU64,
    pub cert_risk_epoch: V16PodU64,
    pub cert_asset_set_epoch: V16PodU64,
    pub active_bitmap_at_cert: [V16PodU64; V16_ACTIVE_BITMAP_WORDS],
    pub valid: u8,
}

impl HealthCertV16Account {
    /// The engine's byte image: the fields in declaration order.
    pub open spec fn image(self) -> Seq<u8> {
        self.certified_equity.bytes@ + self.certified_initial_req.bytes@
            + self.certified_maintenance_req.bytes@ + self.certified_liq_deficit.bytes@
            + self.certified_worst_case_loss.bytes@ + self.cert_oracle_epoch.bytes@
            + self.cert_funding_epoch.bytes@ + self.cert_risk_epoch.bytes@
            + self.cert_asset_set_epoch.bytes@ + words_image(self.active_bitmap_at_cert@)
            + seq![self.valid]
    }

    /// The image is `EXPECTED_HEALTH_CERT_SIZE` bytes long and holds each field
    /// at its engine offset.
    pub proof fn lemma_layout(self)
        ensures
            self.image().len() == EXPECTED_HEALTH_CERT_SIZE,
            self.image().subrange(0, 16) == self.certified_equity.bytes@,
            self.image().subrange(16, 32) == self.certified_initial_req.bytes@,
            self.image().subrange(32, 48) == self.certified_maintenance_req.bytes@,
            self.image().subrange(48, 64) == self.certified_liq_deficit.bytes@,
            self.image().subrange(64, 80) == self.certified_worst_case_loss.bytes@,
            self.image().subrange(80, 88) == self.cert_oracle_epoch.bytes@,
            self.image().subrange(88, 96) == self.cert_funding_epoch.bytes@,
            self.image().subrange(96, 104) == self.cert_risk_epoch.bytes@,
            self.image().subrange(104, 112) == self.cert_asset_set_epoch.bytes@,
            self.image().subrange(112, 120) == words_image(self.active_bitmap_at_cert@),
            self.image()[120] == self.valid,
    {
        lemma_words_image_single(self.active_bitmap_at_cert@);
        let s = self.image();
        assert(s.subrange(0, 16) =~= self.certified_equity.bytes@);
        assert(s.subrange(16, 32) =~= self.certified_initial_req.bytes@);
        assert(s.subrange(32, 48) =~= self.certified_maintenance_req.bytes@);
        assert(s.subrange(48, 64) =~= self.certified_liq_deficit.bytes@);
        assert(s.subrange(64, 80) =~= self.certified_worst_case_loss.bytes@);
        assert(s.subrange(80, 88) =~= self.cert_oracle_epoch.bytes@);
        assert(s.subrange(88, 96) =~= self.cert_funding_epoch.bytes@);
        assert(s.subrange(96, 104) =~= self.cert_risk_epoch.bytes@);
        assert(s.subrange(104, 112) =~= self.cert_asset_set_epoch.bytes@);
        assert(s.subrange(112, 120) =~= words_image(self.active_bitmap_at_cert@));
    }

    /// The image determines the certificate.
    pub proof fn lemma_image_determines(a: Self, b: Self)
        requires
            a.image() == b.image(),
        ensures
            a == b,
    {
        a.lemma_layout();
        b.lemma_layout();
        assert(a.certified_equity.bytes =~= b.certified_equity.bytes);
        assert(a.certified_initial_req.bytes =~= b.certified_initial_req.bytes);
        assert(a.certified_maintenance_req.bytes =~= b.certified_maintenance_req.bytes);
        assert(a.certified_liq_deficit.bytes =~= b.certified_liq_deficit.bytes);
        assert(a.certified_worst_case_loss.bytes =~= b.certified_worst_case_loss.bytes);
        assert(a.cert_oracle_epoch.bytes =~= b.cert_oracle_epoch.bytes);
        assert(a.cert_funding_epoch.bytes =~= b.cert_funding_epoch.bytes);
        assert(a.cert_risk_epoch.bytes =~= b.cert_risk_epoch.bytes);
        assert(a.cert_asset_set_epoch.bytes =~= b.cert_asset_set_epoch.bytes);
        lemma_words_image_determines(a.active_bitmap_at_cert, b.active_bitmap_at_cert);
    }

    /// The certificate whose image is `data[off..off + 121]`.
    pub fn read_from(data: &[u8], off: usize) -> (r: Self)
        requires
            off + EXPECTED_HEALTH_CERT_SIZE <= data.len(),
        ensures
            r.image() == data@.subrange(off as int, off + EXPECTED_HEALTH_CERT_SIZE),
    {
        let r = Self {
            certified_equity: V16PodI128 { bytes: read_bytes(data, off) },
            certified_initial_req: V16PodU128 { bytes: read_bytes(data, off + 16) },
            certified_maintenance_req: V16PodU128 { bytes: read_bytes(data, off + 32) },
            certified_liq_deficit: V16PodU128 { bytes: read_bytes(data, off + 48) },
            certified_worst_case_loss: V16PodU128 { bytes: read_bytes(data, off + 64) },
            cert_oracle_epoch: V16PodU64 { bytes: read_bytes(data, off + 80) },
            cert_funding_epoch: V16PodU64 { bytes: read_bytes(data, off + 88) },
            cert_risk_epoch: V16PodU64 { bytes: read_bytes(data, off + 96) },
            cert_asset_set_epoch: V16PodU64 { bytes: read_bytes(data, off + 104) },
            active_bitmap_at_cert: read_words(data, off + 112),
            valid: data[off + 120],
        };
        assert(r.image() =~= data@.subrange(off as int, off + EXPECTED_HEALTH_CERT_SIZE));
        r
    }

    /// Appends the image to `out`.
    pub fn write_to(&self, out: &mut Vec<u8>)
        ensures
            final(out)@ == old(out)@ + self.image(),
    {
        push_bytes(out, &self.certified_equity.bytes);
        push_bytes(out, &self.certified_initial_req.bytes);
        push_bytes(out, &self.certified_maintenance_req.bytes);
        push_bytes(out, &self.certified_liq_deficit.bytes);
        push_bytes(out, &self.certified_worst_case_loss.bytes);
        push_bytes(out, &self.cert_oracle_epoch.bytes);
        push_bytes(out, &self.cert_funding_epoch.bytes);
        push_bytes(out, &self.cert_risk_epoch.bytes);
        push_bytes(out, &self.cert_asset_set_epoch.bytes);
        write_words(&self.active_bitmap_at_cert, out);
        out.push(self.valid);
        assert(out@ =~= old(out)@ + self.image());
    }
}

// ════════════════════════════════════════════════════════════════════════════
// CloseProgressLedgerV16Account
// ════════════════════════════════════════════════════════════════════════════
#[derive(Clone, Copy, Debug, Default, PartialEq, Eq)]
pub struct CloseProgressLedgerV16Account {
    pub active: u8,
    pub finalized: u8,
    pub canceled: u8,
    pub close_id: V16PodU64,
    pub asset_index: V16PodU32,
    pub market_id: V16PodU64,
    pub domain_side: u8,
    pub gross_loss_at_close_start: V16PodU128,
    pub drift_reference_slot: V16PodU64,
    pub max_close_slot: V16PodU64,
    pub support_consumed: V16PodU128,
    pub junior_face_burned: V16PodU128,
    pub insurance_spent: V16PodU128,
    pub b_loss_booked: V16PodU128,
    pub explicit_loss_assigned: V16PodU128,
    pub quantity_adl_applied_q: V16PodU128,
    pub drift_consumed: V16PodU128,
    pub residual_remaining: V16PodU128,
}

impl CloseProgressLedgerV16Account {
    /// The engine's byte image: the fields in declaration order.
    pub open spec fn image(self) -> Seq<u8> {
        seq![self.active, self.finalized, self.canceled] + self.close_id.bytes@
            + self.asset_index.bytes@ + self.market_id.bytes@ + seq![self.domain_side]
            + self.gross_loss_at_close_start.bytes@ + self.drift_reference_slot.bytes@
            + self.max_close_slot.bytes@ + self.support_consumed.bytes@
            + self.junior_face_burned.bytes@ + self.insurance_spent.bytes@
            + self.b_loss_booked.bytes@ + self.explicit_loss_assigned.bytes@
            + self.quantity_adl_applied_q.bytes@ + self.drift_consumed.bytes@
            + self.residual_remaining.bytes@
    }

    /// The image is `EXPECTED_CLOSE_PROGRESS_SIZE` bytes long and holds each
    /// field at its engine offset.
    pub proof fn lemma_layout(self)
        ensures
            self.image().len() == EXPECTED_CLOSE_PROGRESS_SIZE,
            self.image()[0] == self.active,
            self.image()[1] == self.finalized,
            self.image()[2] == self.canceled,
            self.image().subrange(3, 11) == self.close_id.bytes@,
            self.image().subrange(11, 15) == self.asset_index.bytes@,
            self.image().subrange(15, 23) == self.market_id.bytes@,
            self.image()[23] == self.domain_side,
            self.image().subrange(24, 40) == self.gross_loss_at_close_start.bytes@,
            self.image().subrange(40, 48) == self.drift_reference_slot.bytes@,
            self.image().subrange(48, 56) == self.max_close_slot.bytes@,
            self.image().subrange(56, 72) == self.support_consumed.bytes@,
            self.image().subrange(72, 88) == self.junior_face_burned.bytes@,
            self.image().subrange(88, 104) == self.insurance_spent.bytes@,
            self.image().subrange(104, 120) == self.b_loss_booked.bytes@,
            self.image().subrange(120, 136) == self.explicit_loss_assigned.bytes@,
            self.image().subrange(136, 152) == self.quantity_adl_applied_q.bytes@,
            self.image().subrange(152, 168) == self.drift_consumed.bytes@,
            self.image().subrange(168, 184) == self.residual_remaining.bytes@,
    {
        let s = self.image();
        assert(s.subrange(3, 11) =~= self.close_id.bytes@);
        assert(s.subrange(11, 15) =~= self.asset_index.bytes@);
        assert(s.subrange(15, 23) =~= self.market_id.bytes@);
        assert(s.subrange(24, 40) =~= self.gross_loss_at_close_start.bytes@);
        assert(s.subrange(40, 48) =~= self.drift_reference_slot.bytes@);
        assert(s.subrange(48, 56) =~= self.max_close_slot.bytes@);
        assert(s.subrange(56, 72) =~= self.support_consumed.bytes@);
        assert(s.subrange(72, 88) =~= self.junior_face_burned.bytes@);
        assert(s.subrange(88, 104) =~= self.insurance_spent.bytes@);
        assert(s.subrange(104, 120) =~= self.b_loss_booked.bytes@);
        assert(s.subrange(120, 136) =~= self.explicit_loss_assigned.bytes@);
        assert(s.subrange(136, 152) =~= self.quantity_adl_applied_q.bytes@);
        assert(s.subrange(152, 168) =~= self.drift_consumed.bytes@);
        assert(s.subrange(168, 184) =~= self.residual_remaining.bytes@);
    }

    /// The image determines the ledger.
    pub proof fn lemma_image_determines(a: Self, b: Self)
        requires
            a.image() == b.image(),
        ensures
            a == b,
    {
        a.lemma_layout();
        b.lemma_layout();
        assert(a.close_id.bytes =~= b.close_id.bytes);
        assert(a.asset_index.bytes =~= b.asset_index.bytes);
        assert(a.market_id.bytes =~= b.market_id.bytes);
        assert(a.gross_loss_at_close_start.bytes =~= b.gross_loss_at_close_start.bytes);
        assert(a.drift_reference_slot.bytes =~= b.drift_reference_slot.bytes);
        assert(a.max_close_slot.bytes =~= b.max_close_slot.bytes);
        assert(a.support_consumed.bytes =~= b.support_consumed.bytes);
        assert(a.junior_face_burned.bytes =~= b.junior_face_burned.bytes);
        assert(a.insurance_spent.bytes =~= b.insurance_spent.bytes);
        assert(a.b_loss_booked.bytes =~= b.b_loss_booked.bytes);
        assert(a.explicit_loss_assigned.bytes =~= b.explicit_loss_assigned.bytes);
        assert(a.quantity_adl_applied_q.bytes =~= b.quantity_adl_applied_q.bytes);
        assert(a.drift_consumed.bytes =~= b.drift_consumed.bytes);
        assert(a.residual_remaining.bytes =~= b.residual_remaining.bytes);
    }

    /// The ledger whose image is `data[off..off + 184]`.
    pub fn read_from(data: &[u8], off: usize) -> (r: Self)
        requires
            off + EXPECTED_CLOSE_PROGRESS_SIZE <= data.len(),
        ensures
            r.image() == data@.subrange(off as int, off + EXPECTED_CLOSE_PROGRESS_SIZE),
    {
        let r = Self {
            active: data[off],
            finalized: data[off + 1],
            canceled: data[off + 2],
            close_id: V16PodU64 { bytes: read_bytes(data, off + 3) },
            asset_index: V16PodU32 { bytes: read_bytes(data, off + 11) },
            market_id: V16PodU64 { bytes: read_bytes(data, off + 15) },
            domain_side: data[off + 23],
            gross_loss_at_close_start: V16PodU128 { bytes: read_bytes(data, off + 24) },
            drift_reference_slot: V16PodU64 { bytes: read_bytes(data, off + 40) },
            max_close_slot: V16PodU64 { bytes: read_bytes(data, off + 48) },
            support_consumed: V16PodU128 { bytes: read_bytes(data, off + 56) },
            junior_face_burned: V16PodU128 { bytes: read_bytes(data, off + 72) },
            insurance_spent: V16PodU128 { bytes: read_bytes(data, off + 88) },
            b_loss_booked: V16PodU128 { bytes: read_bytes(data, off + 104) },
            explicit_loss_assigned: V16PodU128 { bytes: read_bytes(data, off + 120) },
            quantity_adl_applied_q: V16PodU128 { bytes: read_bytes(data, off + 136) },
            drift_consumed: V16PodU128 { bytes: read_bytes(data, off + 152) },
            residual_remaining: V16PodU128 { bytes: read_bytes(data, off + 168) },
        };
        assert(r.image() =~= data@.subrange(off as int, off + EXPECTED_CLOSE_PROGRESS_SIZE));
        r
    }

    /// Appends the image to `out`.
    pub fn write_to(&self, out: &mut Vec<u8>)
        ensures
            final(out)@ == old(out)@ + self.image(),
    {
        out.push(self.active);
        out.push(self.finalized);
        out.push(self.canceled);
        push_bytes(out, &self.close_id.bytes);
        push_bytes(out, &self.asset_index.bytes);
        push_bytes(out, &self.market_id.bytes);
        out.push(self.domain_side);
        push_bytes(out, &self.gross_loss_at_close_start.bytes);
        push_bytes(out, &self.drift_reference_slot.bytes);
        push_bytes(out, &self.max_close_slot.bytes);
        push_bytes(out, &self.support_consumed.bytes);
        push_bytes(out, &self.junior_face_burned.bytes);
        push_bytes(out, &self.insurance_spent.bytes);
        push_bytes(out, &self.b_loss_booked.bytes);
        push_bytes(out, &self.explicit_loss_assigned.bytes);
        push_bytes(out, &self.quantity_adl_applied_q.bytes);
        push_bytes(out, &self.drift_consumed.bytes);
        push_bytes(out, &self.residual_remaining.bytes);
        assert(out@ =~= old(out)@ + self.image());
    }
}

// ════════════════════════════════════════════════════════════════════════════
// ResolvedPayoutReceiptV16Account
// ════════════════════════════════════════════════════════════════════════════
#[derive(Clone, Copy, Debug, Default, PartialEq, Eq)]
pub struct ResolvedPayoutReceiptV16Account {
    pub prior_bound_contribution_num: V16PodU128,
    pub live_released_face_at_receipt: V16PodU128,
    pub terminal_positive_claim_face: V16PodU128,
    pub paid_effective: V16PodU128,
    pub present: u8,
    pub finalized: u8,
}

impl ResolvedPayoutReceiptV16Account {
    /// The engine's byte image: the fields in declaration order.
    pub open spec fn image(self) -> Seq<u8> {
        self.prior_bound_contribution_num.bytes@ + self.live_released_face_at_receipt.bytes@
            + self.terminal_positive_claim_face.bytes@ + self.paid_effective.bytes@ + seq![
            self.present,
            self.finalized,
        ]
    }

    /// The image is `EXPECTED_RESOLVED_PAYOUT_RECEIPT_SIZE` bytes long and holds
    /// each field at its engine offset.
    pub proof fn lemma_layout(self)
        ensures
            self.image().len() == EXPECTED_RESOLVED_PAYOUT_RECEIPT_SIZE,
            self.image().subrange(0, 16) == self.prior_bound_contribution_num.bytes@,
            self.image().subrange(16, 32) == self.live_released_face_at_receipt.bytes@,
            self.image().subrange(32, 48) == self.terminal_positive_claim_face.bytes@,
            self.image().subrange(48, 64) == self.paid_effective.bytes@,
            self.image()[64] == self.present,
            self.image()[65] == self.finalized,
    {
        let s = self.image();
        assert(s.subrange(0, 16) =~= self.prior_bound_contribution_num.bytes@);
        assert(s.subrange(16, 32) =~= self.live_released_face_at_receipt.bytes@);
        assert(s.subrange(32, 48) =~= self.terminal_positive_claim_face.bytes@);
        assert(s.subrange(48, 64) =~= self.paid_effective.bytes@);
    }

    /// The image determines the receipt.
    pub proof fn lemma_image_determines(a: Self, b: Self)
        requires
            a.image() == b.image(),
        ensures
            a == b,
    {
        a.lemma_layout();
        b.lemma_layout();
        assert(a.prior_bound_contribution_num.bytes =~= b.prior_bound_contribution_num.bytes);
        assert(a.live_released_face_at_receipt.bytes =~= b.live_released_face_at_receipt.bytes);
        assert(a.terminal_positive_claim_face.bytes =~= b.terminal_positive_claim_face.bytes);
        assert(a.paid_effective.bytes =~= b.paid_effective.bytes);
    }

    /// The receipt whose image is `data[off..off + 66]`.
    pub fn read_from(data: &[u8], off: usize) -> (r: Self)
        requires
            off + EXPECTED_RESOLVED_PAYOUT_RECEIPT_SIZE <= data.len(),
        ensures
            r.image() == data@.subrange(off as int, off + EXPECTED_RESOLVED_PAYOUT_RECEIPT_SIZE),
    {
        let r = Self {
            prior_bound_contribution_num: V16PodU128 { bytes: read_bytes(data, off) },
            live_released_face_at_receipt: V16PodU128 { bytes: read_bytes(data, off + 16) },
            terminal_positive_claim_face: V16PodU128 { bytes: read_bytes(data, off + 32) },
            paid_effective: V16PodU128 { bytes: read_bytes(data, off + 48) },
            present: data[off + 64],
            finalized: data[off + 65],
        };
        assert(r.image() =~= data@.subrange(
            off as int,
            off + EXPECTED_RESOLVED_PAYOUT_RECEIPT_SIZE,
        ));
        r
    }

    /// Appends the image to `out`.
    pub fn write_to(&self, out: &mut Vec<u8>)
        ensures
            final(out)@ == old(out)@ + self.image(),
    {
        push_bytes(out, &self.prior_bound_contribution_num.bytes);
        push_bytes(out, &self.live_released_face_at_receipt.bytes);
        push_bytes(out, &self.terminal_positive_claim_face.bytes);
        push_bytes(out, &self.paid_effective.bytes);
        out.push(self.present);
        out.push(self.finalized);
        assert(out@ =~= old(out)@ + self.image());
    }
}


// ════════════════════════════════════════════════════════════════════════════
// Leg slots
// ════════════════════════════════════════════════════════════════════════════
/// The image of a run of legs: their images, leg after leg.
pub open spec fn legs_image(legs: Seq<PortfolioLegV16Account>) -> Seq<u8>
    decreases legs.len(),
{
    if legs.len() == 0 {
        Seq::empty()
    } else {
        legs_image(legs.drop_last()) + legs.last().image()
    }
}

pub proof fn lemma_legs_image_len(legs: Seq<PortfolioLegV16Account>)
    ensures
        legs_image(legs).len() == EXPECTED_PORTFOLIO_LEG_SIZE * legs.len(),
    decreases legs.len(),
{
    if legs.len() > 0 {
        lemma_legs_image_len(legs.drop_last());
        legs.last().lemma_layout();
    }
}

/// Leg `i` sits at `144 * i` in the image of a run of legs.
pub proof fn lemma_legs_image_slot(legs: Seq<PortfolioLegV16Account>, i: int)
    requires
        0 <= i < legs.len(),
    ensures
        legs_image(legs).subrange(
            EXPECTED_PORTFOLIO_LEG_SIZE * i,
            EXPECTED_PORTFOLIO_LEG_SIZE * (i + 1),
        ) == legs[i].image(),
    decreases legs.len(),
{
    let prefix = legs_image(legs.drop_last());
    lemma_legs_image_len(legs.drop_last());
    legs.last().lemma_layout();
    if i == legs.len() - 1 {
        assert(legs_image(legs).subrange(
            EXPECTED_PORTFOLIO_LEG_SIZE * i,
            EXPECTED_PORTFOLIO_LEG_SIZE * (i + 1),
        ) =~= legs[i].image());
    } else {
        lemma_legs_image_slot(legs.drop_last(), i);
        assert(legs_image(legs).subrange(
            EXPECTED_PORTFOLIO_LEG_SIZE * i,
            EXPECTED_PORTFOLIO_LEG_SIZE * (i + 1),
        ) =~= prefix.subrange(
            EXPECTED_PORTFOLIO_LEG_SIZE * i,
            EXPECTED_PORTFOLIO_LEG_SIZE * (i + 1),
        ));
    }
}

/// The image of a run of legs determines the legs.
pub proof fn lemma_legs_image_determines(
    a: Seq<PortfolioLegV16Account>,
    b: Seq<PortfolioLegV16Account>,
)
    requires
        a.len() == b.len(),
        legs_image(a) == legs_image(b),
    ensures
        a == b,
{
    assert forall|i: int| 0 <= i < a.len() implies a[i] == b[i] by {
        lemma_legs_image_slot(a, i);
        lemma_legs_image_slot(b, i);
        PortfolioLegV16Account::lemma_image_determines(a[i], b[i]);
    }
    assert(a =~= b);
}

/// Reads the `V16_MAX_PORTFOLIO_ASSETS_N` legs at `off`.
pub(crate) fn read_legs(data: &[u8], off: usize) -> (r: [PortfolioLegV16Account; V16_MAX_PORTFOLIO_ASSETS_N])
    requires
        off + EXPECTED_PORTFOLIO_LEG_SIZE * V16_MAX_PORTFOLIO_ASSETS_N <= data.len(),
    ensures
        legs_image(r@) == data@.subrange(
            off as int,
            off + EXPECTED_PORTFOLIO_LEG_SIZE * V16_MAX_PORTFOLIO_ASSETS_N,
        ),
{
    let first = PortfolioLegV16Account::read_from(data, off);
    let mut legs = [first;V16_MAX_PORTFOLIO_ASSETS_N];
    let mut i: usize = 0;
    assert(legs@.take(0) =~= Seq::<PortfolioLegV16Account>::empty());
    assert(data@.subrange(off as int, off as int) =~= Seq::<u8>::empty());
    while i < V16_MAX_PORTFOLIO_ASSETS_N
        invariant
            i <= V16_MAX_PORTFOLIO_ASSETS_N,
            off + EXPECTED_PORTFOLIO_LEG_SIZE * V16_MAX_PORTFOLIO_ASSETS_N <= data.len(),
            legs@.len() == V16_MAX_PORTFOLIO_ASSETS_N,
            legs_image(legs@.take(i as int)) == data@.subrange(
                off as int,
                off + EXPECTED_PORTFOLIO_LEG_SIZE * i,
            ),
        decreases V16_MAX_PORTFOLIO_ASSETS_N - i,
    {
        let ghost before = legs@;
        let leg = PortfolioLegV16Account::read_from(data, off + EXPECTED_PORTFOLIO_LEG_SIZE * i);
        legs[i] = leg;
        proof {
            let taken = legs@.take(i + 1);
            assert(taken.drop_last() =~= before.take(i as int));
            assert(taken.last() == leg);
            assert(legs_image(taken) == legs_image(before.take(i as int)) + leg.image());
            assert(data@.subrange(off as int, off + EXPECTED_PORTFOLIO_LEG_SIZE * (i + 1))
                =~= data@.subrange(off as int, off + EXPECTED_PORTFOLIO_LEG_SIZE * i)
                + data@.subrange(
                off + EXPECTED_PORTFOLIO_LEG_SIZE * i,
                off + EXPECTED_PORTFOLIO_LEG_SIZE * (i + 1),
            ));
        }
        i = i + 1;
    }
    assert(legs@.take(V16_MAX_PORTFOLIO_ASSETS_N as int) =~= legs@);
    legs
}

/// Appends the image of the legs to `out`.
pub(crate) fn write_legs(legs: &[PortfolioLegV16Account; V16_MAX_PORTFOLIO_ASSETS_N], out: &mut Vec<u8>)
    ensures
        final(out)@ == old(out)@ + legs_image(legs@),
{
    let mut i: usize = 0;
    assert(legs@.take(0) =~= Seq::<PortfolioLegV16Account>::empty());
    assert(old(out)@ + legs_image(legs@.take(0)) =~= old(out)@);
    while i < V16_MAX_PORTFOLIO_ASSETS_N
        invariant
            i <= V16_MAX_PORTFOLIO_ASSETS_N,
            legs@.len() == V16_MAX_PORTFOLIO_ASSETS_N,
            out@ == old(out)@ + legs_image(legs@.take(i as int)),
        decreases V16_MAX_PORTFOLIO_ASSETS_N - i,
    {
        let ghost before = out@;
        legs[i].write_to(out);
        proof {
            let taken = legs@.take(i + 1);
            assert(taken.drop_last() =~= legs@.take(i as int));
            assert(taken.last() == legs@[i as int]);
            assert(out@ =~= old(out)@ + legs_image(taken));
        }
        i = i + 1;
    }
    assert(legs@.take(V16_MAX_PORTFOLIO_ASSETS_N as int) =~= legs@);
}


// ════════════════════════════════════════════════════════════════════════════
// PortfolioAccountV16Account — the fixed head of a v16 portfolio account
// ════════════════════════════════════════════════════════════════════════════
#[derive(Clone, Copy, Debug, PartialEq, Eq)]
pub struct PortfolioAccountV16Account {
    pub provenance_header: ProvenanceHeaderV16Account,
    pub owner: [u8; 32],
    pub capital: V16PodU128,
    pub pnl: V16PodI128,
    pub reserved_pnl: V16PodU128,
    pub fee_credits: V16PodI128,
    pub cancel_deposit_escrow: V16PodU128,
    pub last_fee_slot: V16PodU64,
    pub active_bitmap: [V16PodU64; V16_ACTIVE_BITMAP_WORDS],
    pub legs: [PortfolioLegV16Account; V16_MAX_PORTFOLIO_ASSETS_N],
    pub health_cert: HealthCertV16Account,
    pub stale_state: u8,
    pub b_stale_state: u8,
    pub rebalance_lock: u8,
    pub liquidation_lock: u8,
    pub close_progress: CloseProgressLedgerV16Account,
    pub resolved_payout_receipt: ResolvedPayoutReceiptV16Account,
}

/// Whether `leg` is an active leg that trades asset `asset_index`.
pub open spec fn leg_trades_asset(leg: PortfolioLegV16Account, asset_index: u32) -> bool {
    leg.active != 0 && le_value(leg.asset_index.bytes@) == asset_index
}

impl PortfolioAccountV16Account {
    /// The engine's byte image: the fields in declaration order.
    pub open spec fn image(self) -> Seq<u8> {
        self.provenance_header.image() + self.owner@ + self.capital.bytes@ + self.pnl.bytes@
            + self.reserved_pnl.bytes@ + self.fee_credits.bytes@
            + self.cancel_deposit_escrow.bytes@ + self.last_fee_slot.bytes@ + words_image(
            self.active_bitmap@,
        ) + legs_image(self.legs@) + self.health_cert.image() + seq![
            self.stale_state,
            self.b_stale_state,
            self.rebalance_lock,
            self.liquidation_lock,
        ] + self.close_progress.image() + self.resolved_payout_receipt.image()
    }

    /// The image is `EXPECTED_PORTFOLIO_ACCOUNT_SIZE` bytes long and holds each
    /// field at its engine offset.
    pub proof fn lemma_layout(self)
        ensures
            self.image().len() == EXPECTED_PORTFOLIO_ACCOUNT_SIZE,
            self.image().subrange(0, 100) == self.provenance_header.image(),
            self.image().subrange(100, 132) == self.owner@,
            self.image().subrange(132, 148) == self.capital.bytes@,
            self.image().subrange(148, 164) == self.pnl.bytes@,
            self.image().subrange(164, 180) == self.reserved_pnl.bytes@,
            self.image().subrange(180, 196) == self.fee_credits.bytes@,
            self.image().subrange(196, 212) == self.cancel_deposit_escrow.bytes@,
            self.image().subrange(212, 220) == self.last_fee_slot.bytes@,
            self.image().subrange(220, 228) == words_image(self.active_bitmap@),
            self.image().subrange(228, 2532) == legs_image(self.legs@),
            self.image().subrange(2532, 2653) == self.health_cert.image(),
            self.image()[2653] == self.stale_state,
            self.image()[2654] == self.b_stale_state,
            self.image()[2655] == self.rebalance_lock,
            self.image()[2656] == self.liquidation_lock,
            self.image().subrange(2657, 2841) == self.close_progress.image(),
            self.image().subrange(2841, 2907) == self.resolved_payout_receipt.image(),
    {
        self.provenance_header.lemma_layout();
        lemma_words_image_single(self.active_bitmap@);
        lemma_legs_image_len(self.legs@);
        self.health_cert.lemma_layout();
        self.close_progress.lemma_layout();
        self.resolved_payout_receipt.lemma_layout();
        let s = self.image();
        assert(s.subrange(0, 100) =~= self.provenance_header.image());
        assert(s.subrange(100, 132) =~= self.owner@);
        assert(s.subrange(132, 148) =~= self.capital.bytes@);
        assert(s.subrange(148, 164) =~= self.pnl.bytes@);
        assert(s.subrange(164, 180) =~= self.reserved_pnl.bytes@);
        assert(s.subrange(180, 196) =~= self.fee_credits.bytes@);
        assert(s.subrange(196, 212) =~= self.cancel_deposit_escrow.bytes@);
        assert(s.subrange(212, 220) =~= self.last_fee_slot.bytes@);
        assert(s.subrange(220, 228) =~= words_image(self.active_bitmap@));
        assert(s.subrange(228, 2532) =~= legs_image(self.legs@));
        assert(s.subrange(2532, 2653) =~= self.health_cert.image());
        assert(s.subrange(2657, 2841) =~= self.close_progress.image());
        assert(s.subrange(2841, 2907) =~= self.resolved_payout_receipt.image());
    }

    /// The image determines the account: decoding is unambiguous.
    pub proof fn lemma_image_determines(a: Self, b: Self)
        requires
            a.image() == b.image(),
        ensures
            a == b,
    {
        a.lemma_layout();
        b.lemma_layout();
        ProvenanceHeaderV16Account::lemma_image_determines(a.provenance_header, b.provenance_header);
        assert(a.owner =~= b.owner);
        assert(a.capital.bytes =~= b.capital.bytes);
        assert(a.pnl.bytes =~= b.pnl.bytes);
        assert(a.reserved_pnl.bytes =~= b.reserved_pnl.bytes);
        assert(a.fee_credits.bytes =~= b.fee_credits.bytes);
        assert(a.cancel_deposit_escrow.bytes =~= b.cancel_deposit_escrow.bytes);
        assert(a.last_fee_slot.bytes =~= b.last_fee_slot.bytes);
        lemma_words_image_determines(a.active_bitmap, b.active_bitmap);
        lemma_legs_image_determines(a.legs@, b.legs@);
        assert(a.legs =~= b.legs);
        HealthCertV16Account::lemma_image_determines(a.health_cert, b.health_cert);
        CloseProgressLedgerV16Account::lemma_image_determines(a.close_progress, b.close_progress);
        ResolvedPayoutReceiptV16Account::lemma_image_determines(
            a.resolved_payout_receipt,
            b.resolved_payout_receipt,
        );
    }

    /// The account whose image is `data[off..off + 2907]`.
    pub fn read_from(data: &[u8], off: usize) -> (r: Self)
        requires
            off + EXPECTED_PORTFOLIO_ACCOUNT_SIZE <= data.len(),
        ensures
            r.image() == data@.subrange(off as int, off + EXPECTED_PORTFOLIO_ACCOUNT_SIZE),
    {
        let r = Self {
            provenance_header: ProvenanceHeaderV16Account::read_from(data, off),
            owner: read_bytes(data, off + 100),
            capital: V16PodU128 { bytes: read_bytes(data, off + 132) },
            pnl: V16PodI128 { bytes: read_bytes(data, off + 148) },
            reserved_pnl: V16PodU128 { bytes: read_bytes(data, off + 164) },
            fee_credits: V16PodI128 { bytes: read_bytes(data, off + 180) },
            cancel_deposit_escrow: V16PodU128 { bytes: read_bytes(data, off + 196) },
            last_fee_slot: V16PodU64 { bytes: read_bytes(data, off + 212) },
            active_bitmap: read_words(data, off + 220),
            legs: read_legs(data, off + 228),
            health_cert: HealthCertV16Account::read_from(data, off + 2532),
            stale_state: data[off + 2653],
            b_stale_state: data[off + 2654],
            rebalance_lock: data[off + 2655],
            liquidation_lock: data[off + 2656],
            close_progress: CloseProgressLedgerV16Account::read_from(data, off + 2657),
            resolved_payout_receipt: ResolvedPayoutReceiptV16Account::read_from(data, off + 2841),
        };
        proof {
            r.provenance_header.lemma_layout();
            lemma_words_image_single(r.active_bitmap@);
            lemma_legs_image_len(r.legs@);
            r.health_cert.lemma_layout();
            r.close_progress.lemma_layout();
            r.resolved_payout_receipt.lemma_layout();
        }
        assert(r.image() =~= data@.subrange(off as int, off + EXPECTED_PORTFOLIO_ACCOUNT_SIZE));
        r
    }

    /// Appends the image to `out`.
    pub fn write_to(&self, out: &mut Vec<u8>)
        ensures
            final(out)@ == old(out)@ + self.image(),
    {
        self.provenance_header.write_to(out);
        push_bytes(out, &self.owner);
        push_bytes(out, &self.capital.bytes);
        push_bytes(out, &self.pnl.bytes);
        push_bytes(out, &self.reserved_pnl.bytes);
        push_bytes(out, &self.fee_credits.bytes);
        push_bytes(out, &self.cancel_deposit_escrow.bytes);
        push_bytes(out, &self.last_fee_slot.bytes);
        write_words(&self.active_bitmap, out);
        write_legs(&self.legs, out);
        self.health_cert.write_to(out);
        out.push(self.stale_state);
        out.push(self.b_stale_state);
        out.push(self.rebalance_lock);
        out.push(self.liquidation_lock);
        self.close_progress.write_to(out);
        self.resolved_payout_receipt.write_to(out);
        assert(out@ =~= old(out)@ + self.image());
    }

    /// The account's byte image, as the engine stores it.
    pub fn to_bytes(&self) -> (r: Vec<u8>)
        ensures
            r@ == self.image(),
    {
        let mut out: Vec<u8> = Vec::new();
        self.write_to(&mut out);
        assert(out@ =~= self.image());
        out
    }

    /// The account whose image is all zero bytes.
    pub fn zeroed() -> (r: Self)
        ensures
            r.image() == Seq::new(EXPECTED_PORTFOLIO_ACCOUNT_SIZE as nat, |i: int| 0u8),
    {
        let zeros: Vec<u8> = vec![0u8; EXPECTED_PORTFOLIO_ACCOUNT_SIZE];
        let r = Self::read_from(zeros.as_slice(), 0);
        assert(zeros@.subrange(0, EXPECTED_PORTFOLIO_ACCOUNT_SIZE as int) =~= Seq::new(
            EXPECTED_PORTFOLIO_ACCOUNT_SIZE as nat,
            |i: int| 0u8,
        ));
        r
    }

    /// Authoritative owner. (`owner == provenance_header.owner` is enforced by
    /// [`decode_portfolio`].)
    pub fn owner(&self) -> (r: [u8; 32])
        ensures
            r == self.owner,
    {
        self.owner
    }

    /// The first leg slot whose leg is active and trades `asset_index`, or
    /// `None` when no active leg trades that asset. `asset_index` is the asset
    /// identifier, not the array slot, so this scans the array.
    pub fn active_leg_slot_for_asset(&self, asset_index: u32) -> (r: Option<usize>)
        ensures
            match r {
                Some(slot) => {
                    &&& slot < V16_MAX_PORTFOLIO_ASSETS_N
                    &&& leg_trades_asset(self.legs[slot as int], asset_index)
                    &&& forall|j: int|
                        0 <= j < slot ==> !leg_trades_asset(#[trigger] self.legs[j], asset_index)
                },
                None => forall|j: int|
                    0 <= j < V16_MAX_PORTFOLIO_ASSETS_N ==> !leg_trades_asset(
                        #[trigger] self.legs[j],
                        asset_index,
                    ),
            },
            r matches Some(slot) ==> self.legs[slot as int].active != 0 && le_value(
                self.legs[slot as int].asset_index.bytes@,
            ) == asset_index,
            r is None ==> forall|j: int|
                0 <= j < V16_MAX_PORTFOLIO_ASSETS_N ==> (#[trigger] self.legs[j]).active == 0
                    || le_value(self.legs[j].asset_index.bytes@) != asset_index,
    {
        let mut i: usize = 0;
        while i < V16_MAX_PORTFOLIO_ASSETS_N
            invariant
                i <= V16_MAX_PORTFOLIO_ASSETS_N,
                forall|j: int|
                    0 <= j < i ==> !leg_trades_asset(#[trigger] self.legs[j], asset_index),
            decreases V16_MAX_PORTFOLIO_ASSETS_N - i,
        {
            let leg = self.legs[i];
            if leg.active != 0 && leg.asset_index.get() == asset_index {
                return Some(i);
            }
            i = i + 1;
        }
        None
    }

    /// True if a close is in progress for `asset_index` (a transfer must reject).
    pub fn close_in_progress_for_asset(&self, asset_index: u32) -> (r: bool)
        ensures
            r == (self.close_progress.active != 0 && le_value(
                self.close_progress.asset_index.bytes@,
            ) == asset_index),
    {
        self.close_progress.active != 0 && self.close_progress.asset_index.get() == asset_index
    }

    /// True if the portfolio has a terminal payout receipt present.
    pub fn has_resolved_receipt(&self) -> (r: bool)
        ensures
            r == (self.resolved_payout_receipt.present != 0),
    {
        self.resolved_payout_receipt.present != 0
    }

    /// True if any portfolio-level lock or stale gate blocks free transfer.
    pub fn portfolio_locked_or_stale(&self) -> (r: bool)
        ensures
            r == (self.liquidation_lock != 0 || self.stale_state != 0 || self.b_stale_state != 0),
    {
        self.liquidation_lock != 0 || self.stale_state != 0 || self.b_stale_state != 0
    }
}


// ════════════════════════════════════════════════════════════════════════════
// DECODE
// ════════════════════════════════════════════════════════════════════════════
/// Why a portfolio account failed to decode. Each variant maps to an
/// NFT-program error so the on-chain handler can reject precisely.
#[derive(Clone, Copy, Debug, PartialEq, Eq)]
pub enum PortfolioDecodeError {
    /// Account data shorter than `HEADER_LEN + EXPECTED_PORTFOLIO_ACCOUNT_SIZE`.
    TooShort,
    /// Wrapper header MAGIC mismatch — not a percolator-v16 account.
    BadMagic,
    /// Wrapper header VERSION mismatch.
    BadVersion,
    /// Account kind is not `KIND_PORTFOLIO`.
    BadKind,
    /// The fixed window could not be viewed as an account. Every window of
    /// the right length decodes, so `decode_portfolio` never returns this.
    Cast,
    /// `provenance_header.layout_discriminator != V16_LAYOUT_DISCRIMINATOR`.
    BadLayoutDiscriminator,
    /// `provenance_header.version != V16_ACCOUNT_VERSION`.
    BadAccountVersion,
    /// Engine invariant `owner == provenance_header.owner` violated.
    OwnerMismatch,
}

/// The bytes of wrapper account data that hold the engine image.
pub open spec fn portfolio_window(data: Seq<u8>) -> Seq<u8> {
    data.subrange(HEADER_LEN as int, HEADER_LEN + EXPECTED_PORTFOLIO_ACCOUNT_SIZE)
}

/// The account whose byte image is `body`.
pub open spec fn account_with_image(body: Seq<u8>) -> PortfolioAccountV16Account {
    choose|a: PortfolioAccountV16Account| a.image() == body
}

/// What decoding wrapper account data gives: the checks in order (length,
/// wrapper magic, wrapper version, account kind, layout discriminator,
/// account version, owner invariant), and the account read from the window
/// after the wrapper header when all pass.
pub open spec fn decode_result(data: Seq<u8>) -> Result<
    PortfolioAccountV16Account,
    PortfolioDecodeError,
> {
    if data.len() < HEADER_LEN + EXPECTED_PORTFOLIO_ACCOUNT_SIZE {
        Err(PortfolioDecodeError::TooShort)
    } else if le_value(data.subrange(0, 8)) != MAGIC {
        Err(PortfolioDecodeError::BadMagic)
    } else if le_value(data.subrange(8, 10)) != VERSION {
        Err(PortfolioDecodeError::BadVersion)
    } else if data[10] != KIND_PORTFOLIO {
        Err(PortfolioDecodeError::BadKind)
    } else {
        provenance_check(account_with_image(portfolio_window(data)))
    }
}

/// The checks on a decoded account, in order: the v16 layout discriminator,
/// the account version, and the engine invariant `owner ==
/// provenance_header.owner`.
pub open spec fn provenance_check(a: PortfolioAccountV16Account) -> Result<
    PortfolioAccountV16Account,
    PortfolioDecodeError,
> {
    if le_value(a.provenance_header.layout_discriminator.bytes@) != V16_LAYOUT_DISCRIMINATOR {
        Err(PortfolioDecodeError::BadLayoutDiscriminator)
    } else if le_value(a.provenance_header.version.bytes@) != V16_ACCOUNT_VERSION {
        Err(PortfolioDecodeError::BadAccountVersion)
    } else if a.owner != a.provenance_header.owner {
        Err(PortfolioDecodeError::OwnerMismatch)
    } else {
        Ok(a)
    }
}

/// A 16-byte wrapper header of a portfolio account: the magic, the wrapper
/// version and the portfolio kind; bytes 11..16 are not read.
pub open spec fn is_portfolio_wrapper_header(h: Seq<u8>) -> bool {
    &&& h.len() == HEADER_LEN
    &&& le_value(h.subrange(0, 8)) == MAGIC
    &&& le_value(h.subrange(8, 10)) == VERSION
    &&& h[10] == KIND_PORTFOLIO
}

/// Decode a wrapper-owned portfolio account's raw data into the fixed head.
/// Validates the wrapper header, the v16 provenance guard, and the engine's
/// `owner == provenance_header.owner` invariant. The variable source-domain
/// tail (if any) is ignored.
///
/// This is the only place the NFT interprets portfolio bytes. The body offset
/// is the constant [`HEADER_LEN`] and field access is by name.
pub fn decode_portfolio(data: &[u8]) -> (r: Result<PortfolioAccountV16Account, PortfolioDecodeError>)
    ensures
        r == decode_result(data@),
        r matches Ok(a) ==> a.image() == portfolio_window(data@),
{
    if data.len() < HEADER_LEN + EXPECTED_PORTFOLIO_ACCOUNT_SIZE {
        return Err(PortfolioDecodeError::TooShort);
    }
    let magic = V16PodU64 { bytes: read_bytes(data, 0) }.get();
    if magic != MAGIC {
        return Err(PortfolioDecodeError::BadMagic);
    }
    let version = V16PodU16 { bytes: read_bytes(data, 8) }.get();
    if version != VERSION {
        return Err(PortfolioDecodeError::BadVersion);
    }
    if data[10] != KIND_PORTFOLIO {
        return Err(PortfolioDecodeError::BadKind);
    }
    let account = PortfolioAccountV16Account::read_from(data, HEADER_LEN);
    proof {
        let chosen = account_with_image(portfolio_window(data@));
        assert(account.image() == portfolio_window(data@));
        PortfolioAccountV16Account::lemma_image_determines(chosen, account);
    }
    if account.provenance_header.layout_discriminator.get() != V16_LAYOUT_DISCRIMINATOR {
        return Err(PortfolioDecodeError::BadLayoutDiscriminator);
    }
    if account.provenance_header.version.get() != V16_ACCOUNT_VERSION {
        return Err(PortfolioDecodeError::BadAccountVersion);
    }
    if !keys_equal(&account.owner, &account.provenance_header.owner) {
        return Err(PortfolioDecodeError::OwnerMismatch);
    }
    assert(account.owner =~= account.provenance_header.owner);
    Ok(account)
}


/// The header the wrapper writes — `MAGIC` and `VERSION` little-endian, then
/// `KIND_PORTFOLIO` — is a portfolio wrapper header, whatever its last five
/// bytes hold.
pub proof fn law_written_wrapper_header(rest: Seq<u8>)
    requires
        rest.len() == 5,
    ensures
        is_portfolio_wrapper_header(
            le_bytes(MAGIC as nat, 8) + le_bytes(VERSION as nat, 2) + seq![KIND_PORTFOLIO] + rest,
        ),
{
    let h = le_bytes(MAGIC as nat, 8) + le_bytes(VERSION as nat, 2) + seq![KIND_PORTFOLIO] + rest;
    lemma_pow256_widths();
    lemma_le_bytes_len(MAGIC as nat, 8);
    lemma_le_bytes_len(VERSION as nat, 2);
    law_le_value_of_le_bytes(MAGIC as nat, 8);
    law_le_value_of_le_bytes(VERSION as nat, 2);
    assert(h.subrange(0, 8) =~= le_bytes(MAGIC as nat, 8));
    assert(h.subrange(8, 10) =~= le_bytes(VERSION as nat, 2));
}

/// Decoding reads back what was written: an account's image framed by a
/// portfolio wrapper header, followed by any tail, decodes to the outcome of
/// the provenance checks on that very account (the account itself when they
/// pass).
pub proof fn law_decode_reads_back_framed_account(
    header: Seq<u8>,
    a: PortfolioAccountV16Account,
    tail: Seq<u8>,
)
    requires
        is_portfolio_wrapper_header(header),
    ensures
        decode_result(header + a.image() + tail) == provenance_check(a),
{
    let data = header + a.image() + tail;
    a.lemma_layout();
    assert(data.subrange(0, 8) =~= header.subrange(0, 8));
    assert(data.subrange(8, 10) =~= header.subrange(8, 10));
    assert(portfolio_window(data) =~= a.image());
    let chosen = account_with_image(a.image());
    assert(chosen.image() == a.image());
    PortfolioAccountV16Account::lemma_image_determines(chosen, a);
}

/// The source-domain tail is ignored: bytes after the fixed window never
/// change what decoding gives.
pub proof fn law_decode_ignores_tail(data: Seq<u8>, tail: Seq<u8>)
    requires
        data.len() >= HEADER_LEN + EXPECTED_PORTFOLIO_ACCOUNT_SIZE,
    ensures
        decode_result(data + tail) == decode_result(data),
{
    let ext = data + tail;
    assert(ext.subrange(0, 8) =~= data.subrange(0, 8));
    assert(ext.subrange(8, 10) =~= data.subrange(8, 10));
    assert(portfolio_window(ext) =~= portfolio_window(data));
}

/// Every decoded account satisfies the v16 provenance guard and the engine
/// invariant `owner == provenance_header.owner`, and decoding never fails
/// with `Cast`.
pub proof fn law_decoded_account_is_consistent(data: Seq<u8>)
    ensures
        decode_result(data) != Err::<PortfolioAccountV16Account, PortfolioDecodeError>(
            PortfolioDecodeError::Cast,
        ),
        decode_result(data) matches Ok(a) ==> {
            &&& a.owner == a.provenance_header.owner
            &&& le_value(a.provenance_header.layout_discriminator.bytes@)
                == V16_LAYOUT_DISCRIMINATOR
            &&& le_value(a.provenance_header.version.bytes@) == V16_ACCOUNT_VERSION
        },
{
}


// ════════════════════════════════════════════════════════════════════════════
// POD ROUND TRIPS
// ════════════════════════════════════════════════════════════════════════════
/// `get` after `new` gives the value back, and `new` after `get` gives the
/// same bytes back: a pod's bytes are exactly the little-endian encoding of
/// its value.
pub proof fn law_pod_u16_roundtrip(value: u16, pod: V16PodU16)
    ensures
        le_value(le_bytes(value as nat, 2)) == value,
        le_bytes(le_value(pod.bytes@), 2) == pod.bytes@,
{
    lemma_pow256_widths();
    law_le_value_of_le_bytes(value as nat, 2);
    law_le_bytes_of_le_value(pod.bytes@);
}

/// `get` after `new` gives the value back, and `new` after `get` gives the
/// same bytes back.
pub proof fn law_pod_u32_roundtrip(value: u32, pod: V16PodU32)
    ensures
        le_value(le_bytes(value as nat, 4)) == value,
        le_bytes(le_value(pod.bytes@), 4) == pod.bytes@,
{
    lemma_pow256_widths();
    law_le_value_of_le_bytes(value as nat, 4);
    law_le_bytes_of_le_value(pod.bytes@);
}

/// `get` after `new` gives the value back, and `new` after `get` gives the
/// same bytes back.
pub proof fn law_pod_u64_roundtrip(value: u64, pod: V16PodU64)
    ensures
        le_value(le_bytes(value as nat, 8)) == value,
        le_bytes(le_value(pod.bytes@), 8) == pod.bytes@,
{
    lemma_pow256_widths();
    law_le_value_of_le_bytes(value as nat, 8);
    law_le_bytes_of_le_value(pod.bytes@);
}

/// `get` after `new` gives the value back, and `new` after `get` gives the
/// same bytes back.
pub proof fn law_pod_u128_roundtrip(value: u128, pod: V16PodU128)
    ensures
        le_value(le_bytes(value as nat, 16)) == value,
        le_bytes(le_value(pod.bytes@), 16) == pod.bytes@,
{
    lemma_pow256_widths();
    law_le_value_of_le_bytes(value as nat, 16);
    law_le_bytes_of_le_value(pod.bytes@);
}

/// `get` after `new` gives the signed value back, and `new` after `get`
/// gives the same bytes back.
pub proof fn law_pod_i128_roundtrip(value: i128, pod: V16PodI128)
    ensures
        from_twos_complement_128(le_value(le_bytes(twos_complement_128(value as int), 16)))
            == value,
        le_bytes(twos_complement_128(from_twos_complement_128(le_value(pod.bytes@))), 16)
            == pod.bytes@,
{
    lemma_pow256_widths();
    law_twos_complement_128_roundtrip(value as int);
    law_le_value_of_le_bytes(twos_complement_128(value as int), 16);
    lemma_le_value_bound(pod.bytes@);
    law_from_twos_complement_128_roundtrip(le_value(pod.bytes@));
    law_le_bytes_of_le_value(pod.bytes@);
}


// ════════════════════════════════════════════════════════════════════════════
// LAWS OF THE TRANSFER GATES AND OF DECODING
// ════════════════════════════════════════════════════════════════════════════
/// Whether a leg counts as trading an asset depends on its active flag and its
/// asset index alone: legs that agree on those two fields agree on the
/// answer, whatever their stale flags, side or snapshots hold; and an active
/// leg (any nonzero flag) whose asset index is the asset does trade it.
pub proof fn law_leg_match_reads_only_active_and_asset(
    leg: PortfolioLegV16Account,
    other: PortfolioLegV16Account,
    asset_index: u32,
)
    requires
        other.active == leg.active,
        other.asset_index == leg.asset_index,
    ensures
        leg_trades_asset(leg, asset_index) == leg_trades_asset(other, asset_index),
        leg.active != 0 && le_value(leg.asset_index.bytes@) == asset_index ==> leg_trades_asset(
            leg,
            asset_index,
        ),
        leg.active == 0 ==> !leg_trades_asset(leg, asset_index),
{
}

/// Decoding succeeds only on data that starts with the exact wrapper header
/// bytes: `MAGIC` little-endian at 0..8, `VERSION` little-endian at 8..10 and
/// `KIND_PORTFOLIO` at 10, and only when the full fixed head is present.
pub proof fn law_decode_ok_needs_exact_wrapper_header(data: Seq<u8>)
    ensures
        decode_result(data) is Ok ==> {
            &&& data.len() >= HEADER_LEN + EXPECTED_PORTFOLIO_ACCOUNT_SIZE
            &&& data.subrange(0, 8) == le_bytes(MAGIC as nat, 8)
            &&& data.subrange(8, 10) == le_bytes(VERSION as nat, 2)
            &&& data[10] == KIND_PORTFOLIO
        },
{
    if decode_result(data) is Ok {
        law_le_bytes_of_le_value(data.subrange(0, 8));
        law_le_bytes_of_le_value(data.subrange(8, 10));
    }
}

/// Full-length data whose first eight bytes are not `MAGIC` little-endian is
/// rejected with `BadMagic`, whatever else it holds.
pub proof fn law_decode_rejects_wrong_magic(data: Seq<u8>)
    requires
        data.len() >= HEADER_LEN + EXPECTED_PORTFOLIO_ACCOUNT_SIZE,
        data.subrange(0, 8) != le_bytes(MAGIC as nat, 8),
    ensures
        decode_result(data) == Err::<PortfolioAccountV16Account, PortfolioDecodeError>(
            PortfolioDecodeError::BadMagic,
        ),
{
    law_le_bytes_of_le_value(data.subrange(0, 8));
}

/// Full-length data with the right magic whose bytes 8..10 are not `VERSION`
/// little-endian is rejected with `BadVersion`, whatever else it holds.
pub proof fn law_decode_rejects_wrong_wrapper_version(data: Seq<u8>)
    requires
        data.len() >= HEADER_LEN + EXPECTED_PORTFOLIO_ACCOUNT_SIZE,
        data.subrange(0, 8) == le_bytes(MAGIC as nat, 8),
        data.subrange(8, 10) != le_bytes(VERSION as nat, 2),
    ensures
        decode_result(data) == Err::<PortfolioAccountV16Account, PortfolioDecodeError>(
            PortfolioDecodeError::BadVersion,
        ),
{
    lemma_pow256_widths();
    law_le_value_of_le_bytes(MAGIC as nat, 8);
    law_le_bytes_of_le_value(data.subrange(8, 10));
}

/// Full-length data with the right magic and wrapper version whose byte 10 is
/// not `KIND_PORTFOLIO` is rejected with `BadKind`, whatever else it holds.
pub proof fn law_decode_rejects_wrong_kind(data: Seq<u8>)
    requires
        data.len() >= HEADER_LEN + EXPECTED_PORTFOLIO_ACCOUNT_SIZE,
        data.subrange(0, 8) == le_bytes(MAGIC as nat, 8),
        data.subrange(8, 10) == le_bytes(VERSION as nat, 2),
        data[10] != KIND_PORTFOLIO,
    ensures
        decode_result(data) == Err::<PortfolioAccountV16Account, PortfolioDecodeError>(
            PortfolioDecodeError::BadKind,
        ),
{
    lemma_pow256_widths();
    law_le_value_of_le_bytes(MAGIC as nat, 8);
    law_le_value_of_le_bytes(VERSION as nat, 2);
}

} // verus!
