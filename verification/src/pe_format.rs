//! Version metadata of executables, and the patch that lets a 32-bit
//! executable address more than two gigabytes.

use pelite::pe32::Pe;
use vstd::prelude::*;

verus! {

/// An error of the executable parser.
#[verifier::external_type_specification]
#[verifier::external_body]
pub struct ExPeliteError(pelite::Error);

/// What the library tells apart of an input/output failure.
#[derive(Clone, Copy, Debug, PartialEq, Eq, Structural)]
pub enum IoErrorKind {
    NotFound,
    PermissionDenied,
    InvalidData,
    Other,
}

/// Why the metadata of an executable could not be read or changed.
#[derive(Clone, Copy, Debug)]
pub enum PeError {
    /// The file could not be read or written.
    IoError(IoErrorKind),
    /// The file is not an executable that the parser accepts.
    PeliteError(pelite::Error),
    /// The executable holds no version resource.
    PeliteFindError,
    /// The version resource holds no fixed version.
    NoVersion,
}

/// The four parts of a product version.
#[derive(Clone, Copy, Debug, PartialEq, Eq, Structural)]
pub struct ProductVersion {
    pub major: u16,
    pub minor: u16,
    pub patch: u16,
    pub build: u16,
}

/// The version metadata embedded in an executable.
pub struct VersionInfo {
    pub product_version: ProductVersion,
    pub product_name: Option<String>,
    pub original_filename: Option<String>,
    pub legal_copyright: Option<String>,
}

/// The header flag that marks an executable as large-address aware.
pub const IMAGE_FILE_LARGE_ADDRESS_AWARE: u16 = 0x0020;

/// Offset, in the image, of the word that locates the new header.
pub const E_LFANEW_OFFSET: usize = 0x3c;

/// Offset of the characteristics word from the start of the new header.
pub const CHARACTERISTICS_OFFSET: usize = 22;

/// Offset of the checksum from the start of the new header.
pub const CHECKSUM_OFFSET: usize = 88;

/// Size of the old header, which every image starts with.
pub const DOS_HEADER_SIZE: usize = 64;

/// Size of the new header of a 32-bit image, data directory excluded.
pub const NT_HEADERS_SIZE: usize = 120;

/// The largest offset of the new header that the parser accepts.
pub const E_LFANEW_MAX: u32 = 0x0100_0000;

/// The two header fields that the patch reads.
#[derive(Clone, Copy, Debug, PartialEq, Eq, Structural)]
pub struct PeHeader {
    /// Offset of the new header in the image.
    pub e_lfanew: u32,
    /// The characteristics word of the file header.
    pub characteristics: u16,
}

/// The value of two bytes read as a little-endian half word.
pub open spec fn le_half(b0: u8, b1: u8) -> u16 {
    (b0 as int + b1 as int * 0x100) as u16
}

/// The little-endian half word at `offset` in `image`.
pub open spec fn le_half_at(image: Seq<u8>, offset: int) -> u16 {
    le_half(image[offset], image[offset + 1])
}

/// The offset of the new header that an image declares.
pub open spec fn e_lfanew_of(image: Seq<u8>) -> u32 {
    crate::game::installation::le_word_at(image, E_LFANEW_OFFSET as int)
}

/// The characteristics word that an image declares.
pub open spec fn characteristics_of(image: Seq<u8>) -> u16 {
    le_half_at(image, e_lfanew_of(image) + CHARACTERISTICS_OFFSET)
}

/// Whether the two headers lie inside the image, at an offset that the
/// parser accepts.
pub open spec fn headers_in_bounds(image: Seq<u8>) -> bool {
    &&& DOS_HEADER_SIZE <= image.len()
    &&& e_lfanew_of(image) <= E_LFANEW_MAX
    &&& e_lfanew_of(image) + NT_HEADERS_SIZE <= image.len()
}

/// Whether an image carries the large-address flag.
pub open spec fn large_address_aware(image: Seq<u8>) -> bool {
    characteristics_of(image) & IMAGE_FILE_LARGE_ADDRESS_AWARE != 0
}

/// The checksum that the parser computes over a whole image.
pub uninterp spec fn pe_checksum(image: Seq<u8>) -> u32;

/// Reads the header fields of a 32-bit image.
///
/// Trusted: calls `pelite::pe32::PeFile::from_bytes`, then `dos_header` and
/// `nt_headers` of its `Pe` trait. Whether the parser accepts an image also
/// depends on where the bytes lie in memory, so nothing is promised of when
/// it does. When it does, both headers lie inside the image, and the two
/// fields are the little-endian values at their places in it: the parser
/// reads them in place, on the little-endian hosts it is written for.
#[verifier::external_body]
pub(crate) fn read_pe32_header(image: &[u8]) -> (header: Result<PeHeader, pelite::Error>)
    ensures
        header matches Ok(h) ==> {
            &&& headers_in_bounds(image@)
            &&& h.e_lfanew == e_lfanew_of(image@)
            &&& h.characteristics == characteristics_of(image@)
        },
{
    let file = pelite::pe32::PeFile::from_bytes(image)?;
    Ok(
        PeHeader {
            e_lfanew: file.dos_header().e_lfanew,
            characteristics: file.nt_headers().FileHeader.Characteristics,
        },
    )
}

/// Computes the checksum of a 32-bit image.
///
/// Trusted: calls `pelite::pe32::PeFile::from_bytes`, then `check_sum` of its
/// headers. When the parser accepts the image, the result is the checksum it
/// computes over these bytes, which the contract names and says no more of.
#[verifier::external_body]
pub(crate) fn compute_checksum(image: &[u8]) -> (sum: Result<u32, pelite::Error>)
    ensures
        sum matches Ok(s) ==> s == pe_checksum(image@),
{
    Ok(pelite::pe32::PeFile::from_bytes(image)?.headers().check_sum())
}


/// A run of bytes to write at an offset of a file.
pub struct Patch {
    pub offset: u64,
    pub bytes: Vec<u8>,
}

/// An image with `bytes` written over it from `offset` on.
pub open spec fn with_bytes(image: Seq<u8>, offset: int, bytes: Seq<u8>) -> Seq<u8> {
    Seq::new(
        image.len(),
        |i: int|
            if offset <= i < offset + bytes.len() {
                bytes[i - offset]
            } else {
                image[i]
            },
    )
}

/// The two bytes of a half word, low byte first.
pub open spec fn half_le_bytes(x: u16) -> Seq<u8> {
    seq![(x & 0xff) as u8, (x >> 8) as u8]
}

/// The four bytes of a word, low byte first.
pub open spec fn word_le_bytes(x: u32) -> Seq<u8> {
    seq![
        (x & 0xff) as u8,
        ((x >> 8) & 0xff) as u8,
        ((x >> 16) & 0xff) as u8,
        ((x >> 24) & 0xff) as u8,
    ]
}

/// An image with the large-address flag set in its characteristics word.
pub open spec fn with_flag(image: Seq<u8>) -> Seq<u8> {
    with_bytes(
        image,
        e_lfanew_of(image) + CHARACTERISTICS_OFFSET,
        half_le_bytes(characteristics_of(image) | IMAGE_FILE_LARGE_ADDRESS_AWARE),
    )
}

/// An image with `sum` written into the checksum field of the header that
/// starts at `e_lfanew`.
pub open spec fn with_checksum(image: Seq<u8>, e_lfanew: u32, sum: u32) -> Seq<u8> {
    with_bytes(image, e_lfanew + CHECKSUM_OFFSET, word_le_bytes(sum))
}

/// The image that the patch leaves: the flag set, then the checksum of that
/// image written into it.
pub open spec fn patched(image: Seq<u8>) -> Seq<u8> {
    with_checksum(with_flag(image), e_lfanew_of(image), pe_checksum(with_flag(image)))
}

/// Whether the characteristics word lies clear of the word that locates the
/// new header, so that setting the flag cannot move the header.
pub open spec fn header_stays(image: Seq<u8>) -> bool {
    ||| e_lfanew_of(image) + CHARACTERISTICS_OFFSET + 2 <= E_LFANEW_OFFSET
    ||| E_LFANEW_OFFSET + 4 <= e_lfanew_of(image) + CHARACTERISTICS_OFFSET
}

proof fn lemma_half_round_trip(x: u16)
    ensures
        le_half((x & 0xff) as u8, (x >> 8) as u8) == x,
{
    assert((x & 0xff) < 0x100 && (x >> 8) < 0x100 && (x & 0xff) + (x >> 8) * 0x100 == x)
        by (bit_vector);
}

proof fn lemma_flag_is_set(x: u16)
    ensures
        (x | IMAGE_FILE_LARGE_ADDRESS_AWARE) & IMAGE_FILE_LARGE_ADDRESS_AWARE != 0,
{
    assert((x | 0x0020u16) & 0x0020u16 != 0) by (bit_vector);
}

impl Patch {
    /// Writes the bytes of the patch into an image held in memory.
    pub fn apply(&self, image: &mut Vec<u8>)
        requires
            self.offset + self.bytes.len() <= old(image).len(),
        ensures
            final(image)@ == with_bytes(old(image)@, self.offset as int, self.bytes@),
    {
        let offset: usize = self.offset as usize;
        let mut k: usize = 0;
        while k < self.bytes.len()
            invariant
                k <= self.bytes.len(),
                offset == self.offset,
                image.len() == old(image).len(),
                self.offset + self.bytes.len() <= image.len(),
                image@ == with_bytes(old(image)@, self.offset as int, self.bytes@.take(k as int)),
            decreases self.bytes.len() - k,
        {
            image.set(offset + k, self.bytes[k]);
            assert(image@ =~= with_bytes(
                old(image)@,
                self.offset as int,
                self.bytes@.take(k + 1),
            ));
            k += 1;
        }
        assert(self.bytes@.take(self.bytes.len() as int) =~= self.bytes@);
    }
}

/// Reads the header fields of a 32-bit image, or says why the parser refuses
/// it.
pub fn read_header(image: &[u8]) -> (header: Result<PeHeader, PeError>)
    ensures
        header matches Ok(h) ==> {
            &&& headers_in_bounds(image@)
            &&& h.e_lfanew == e_lfanew_of(image@)
            &&& h.characteristics == characteristics_of(image@)
        },
        header matches Err(e) ==> e is PeliteError,
{
    match read_pe32_header(image) {
        Ok(h) => Ok(h),
        Err(e) => Err(PeError::PeliteError(e)),
    }
}

/// The write that sets the large-address flag; none where the header
/// already carries it.
pub fn characteristics_patch(header: &PeHeader) -> (patch: Option<Patch>)
    ensures
        patch is None <==> header.characteristics & IMAGE_FILE_LARGE_ADDRESS_AWARE != 0,
        patch matches Some(p) ==> {
            &&& p.offset == header.e_lfanew + CHARACTERISTICS_OFFSET
            &&& p.bytes@ == half_le_bytes(header.characteristics | IMAGE_FILE_LARGE_ADDRESS_AWARE)
        },
{
    if header.characteristics & IMAGE_FILE_LARGE_ADDRESS_AWARE != 0 {
        return None;
    }
    let characteristics: u16 = header.characteristics | IMAGE_FILE_LARGE_ADDRESS_AWARE;
    let mut bytes: Vec<u8> = Vec::new();
    bytes.push((characteristics & 0xff) as u8);
    bytes.push((characteristics >> 8) as u8);
    assert(bytes@ =~= half_le_bytes(characteristics));
    Some(Patch { offset: header.e_lfanew as u64 + CHARACTERISTICS_OFFSET as u64, bytes })
}

/// The write that stores a checksum in the header.
pub fn checksum_patch(header: &PeHeader, sum: u32) -> (patch: Patch)
    ensures
        patch.offset == header.e_lfanew + CHECKSUM_OFFSET,
        patch.bytes@ == word_le_bytes(sum),
{
    let mut bytes: Vec<u8> = Vec::new();
    bytes.push((sum & 0xff) as u8);
    bytes.push(((sum >> 8) & 0xff) as u8);
    bytes.push(((sum >> 16) & 0xff) as u8);
    bytes.push(((sum >> 24) & 0xff) as u8);
    assert(bytes@ =~= word_le_bytes(sum));
    Patch { offset: header.e_lfanew as u64 + CHECKSUM_OFFSET as u64, bytes }
}

/// The write that stores the checksum of an image as it stands, in the
/// header that `header` located before the flag was set.
pub fn recompute_checksum(image: &[u8], header: &PeHeader) -> (patch: Result<Patch, PeError>)
    ensures
        patch matches Ok(p) ==> {
            &&& p.offset == header.e_lfanew + CHECKSUM_OFFSET
            &&& p.bytes@ == word_le_bytes(pe_checksum(image@))
        },
        patch matches Err(e) ==> e is PeliteError,
{
    match compute_checksum(image) {
        Ok(sum) => Ok(checksum_patch(header, sum)),
        Err(e) => Err(PeError::PeliteError(e)),
    }
}

/// Makes a 32-bit executable, held in memory, large-address aware.
///
/// Returns `false` and leaves the image alone where the flag is already set.
/// Else sets the flag, computes the checksum of the image as it then stands
/// and stores it, and returns `true`. Where the parser refuses the image
/// after the flag was set, the flag stays and the checksum is left as it was.
pub fn pe_patch_4bg(image: &mut Vec<u8>) -> (applied: Result<bool, PeError>)
    ensures
        match applied {
            Ok(done) => {
                &&& headers_in_bounds(old(image)@)
                &&& done == !large_address_aware(old(image)@)
                &&& final(image)@ == if done {
                    patched(old(image)@)
                } else {
                    old(image)@
                }
            },
            Err(e) => {
                &&& e is PeliteError
                &&& final(image)@ == old(image)@ || (headers_in_bounds(old(image)@)
                    && !large_address_aware(old(image)@) && final(image)@ == with_flag(old(image)@))
            },
        },
{
    let header = match read_header(image.as_slice()) {
        Ok(h) => h,
        Err(e) => { return Err(e); },
    };
    let flag = match characteristics_patch(&header) {
        None => { return Ok(false); },
        Some(p) => p,
    };
    flag.apply(image);
    let sum = match recompute_checksum(image.as_slice(), &header) {
        Ok(p) => p,
        Err(e) => { return Err(e); },
    };
    sum.apply(image);
    Ok(true)
}

/// Patching is idempotent: an image that the patch has changed carries the
/// flag, at the same header, so that a second run finds nothing to do.
pub proof fn lemma_patch_is_idempotent(image: Seq<u8>)
    requires
        headers_in_bounds(image),
        header_stays(image),
    ensures
        headers_in_bounds(patched(image)),
        e_lfanew_of(patched(image)) == e_lfanew_of(image),
        large_address_aware(patched(image)),
        patched(image).len() == image.len(),
{
    let flagged = characteristics_of(image) | IMAGE_FILE_LARGE_ADDRESS_AWARE;
    lemma_half_round_trip(flagged);
    lemma_flag_is_set(characteristics_of(image));
    let after = patched(image);
    let at = e_lfanew_of(image) + CHARACTERISTICS_OFFSET;
    assert(e_lfanew_of(after) == e_lfanew_of(image));
    assert(after[at] == half_le_bytes(flagged)[0]);
    assert(after[at + 1] == half_le_bytes(flagged)[1]);
    assert(characteristics_of(after) == flagged);
}

} // verus!
