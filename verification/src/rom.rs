//! Cartridge model: the iNES image layout, the NROM (mapper 0) address
//! folding for PRG and CHR space, and the mirroring mode the header selects.

use vstd::prelude::*;
use vstd::string::StrSliceExecFns;
use vstd::string::StringSliceAdditionalSpecFns;

verus! {

broadcast use {crate::bits::lemma_u16_mask_3fff, crate::bits::lemma_u16_mask_7fff};

/// How the two physical nametables alias across the four logical slots.
#[allow(non_camel_case_types)]
#[derive(Clone, Copy, PartialEq, Eq, Structural, Debug)]
pub enum Mirroring {
    HORIZONTAL,
    VERTICAL,
    FOUR_SCREEN,
    SINGLE_SCREEN,
}

/// Why an image was refused.
#[derive(Clone, Copy, PartialEq, Eq, Structural, Debug)]
pub enum RomError {
    /// Header magic mismatch, truncated file, or an over-long title.
    BadImage,
    /// A bank count exceeds the supported maximum of 16.
    TooLarge,
    /// The mapper number is not one this build implements (only NROM).
    UnsupportedMapper,
    /// Reserved: battery RAM length mismatch.
    CorruptSave,
}

pub const PRG_BANK_BANK_SIZE: u32 = 16384;

pub const CHR_BANK_BANK_SIZE: u32 = 8192;

pub const MAX_PRG_BANK_COUNT: u8 = 16;

pub const MAX_CHR_BANK_COUNT: u8 = 16;

/// 16 PRG banks of 16 KiB.
pub const MAX_PRG_BANK_SIZE: u32 = 262144;

/// 16 CHR banks of 8 KiB.
pub const MAX_CHR_BANK_SIZE: u32 = 131072;

/// A parsed cartridge image. For NROM the PRG and CHR layout is immutable
/// once parsed.
pub struct Rom {
    pub header: Vec<u8>,
    pub trainer: Vec<u8>,
    pub prg: Vec<u8>,
    pub chr: Vec<u8>,
    pub title: Vec<u8>,
    pub title_size: u8,
    pub prg_bank_count: u8,
    pub chr_bank_count: u8,
    pub mirroring: Mirroring,
    pub has_battery_ram: bool,
    pub has_trainer: bool,
    pub mapper_number: u8,
}

/// The first four image bytes are the iNES identifier `NES\x1A`.
pub open spec fn spec_magic_ok(d: Seq<u8>) -> bool {
    d.len() >= 16 && d[0] == 0x4E && d[1] == 0x45 && d[2] == 0x53 && d[3] == 0x1A
}

/// Header byte 6, bit 2: a 512-byte trainer follows the header.
pub open spec fn spec_has_trainer(d: Seq<u8>) -> bool {
    d[6] & 0x04 != 0
}

/// The mapper number: low nibble from byte 6, high nibble from byte 7.
pub open spec fn spec_mapper(d: Seq<u8>) -> u8 {
    (d[6] >> 4) | (d[7] & 0xF0)
}

/// Where the PRG banks start in the image.
pub open spec fn spec_body_start(d: Seq<u8>) -> int {
    16 + if spec_has_trainer(d) {
        512int
    } else {
        0int
    }
}

pub open spec fn spec_prg_size(d: Seq<u8>) -> int {
    16384 * d[4]
}

pub open spec fn spec_chr_size(d: Seq<u8>) -> int {
    8192 * d[5]
}

/// The mirroring mode the header selects: four-screen overrides bit 0,
/// which otherwise picks vertical (set) or horizontal (clear).
pub open spec fn spec_mirroring_of(d: Seq<u8>) -> Mirroring {
    if d[6] & 0x08 != 0 {
        Mirroring::FOUR_SCREEN
    } else if d[6] & 0x01 == 0 {
        Mirroring::HORIZONTAL
    } else {
        Mirroring::VERTICAL
    }
}

/// Every check an accepted image passes: magic, bank limits, a supported
/// mapper, a body long enough for the declared banks, and a title of at
/// most 128 bytes after them.
pub open spec fn spec_image_ok(d: Seq<u8>) -> bool {
    &&& spec_magic_ok(d)
    &&& d[4] <= MAX_PRG_BANK_COUNT
    &&& d[5] <= MAX_CHR_BANK_COUNT
    &&& spec_mapper(d) == 0
    &&& d.len() >= spec_body_start(d) + spec_prg_size(d) + spec_chr_size(d)
    &&& d.len() <= spec_body_start(d) + spec_prg_size(d) + spec_chr_size(d) + 128
}

impl Rom {
    pub open spec fn wf(self) -> bool {
        &&& self.header@.len() == 16
        &&& self.trainer@.len() == 512
        &&& self.prg@.len() == MAX_PRG_BANK_SIZE
        &&& self.chr@.len() == MAX_CHR_BANK_SIZE
        &&& self.title@.len() == 128
    }

    /// The byte CPU address `addr` in 0x8000-0xFFFF reads: NROM folds with
    /// mask 0x3FFF for one PRG bank and 0x7FFF for two or more.
    pub open spec fn spec_read_prg(self, addr: u16) -> u8 {
        if self.prg_bank_count > 1 {
            self.prg@[(addr & 0x7FFF) as int]
        } else {
            self.prg@[(addr & 0x3FFF) as int]
        }
    }

    pub fn new() -> (r: Rom)
        ensures
            r.wf(),
            r.header@ == Seq::new(16, |i: int| 0u8),
            r.trainer@ == Seq::new(512, |i: int| 0u8),
            r.prg@ == Seq::new(MAX_PRG_BANK_SIZE as nat, |i: int| 0u8),
            r.chr@ == Seq::new(MAX_CHR_BANK_SIZE as nat, |i: int| 0u8),
            r.title@ == Seq::new(128, |i: int| 0u8),
            r.title_size == 0,
            r.prg_bank_count == 0,
            r.chr_bank_count == 0,
            r.mirroring == Mirroring::VERTICAL,
            !r.has_battery_ram,
            !r.has_trainer,
            r.mapper_number == 0,
    {
        Self {
            header: zero_vec(16),
            trainer: zero_vec(512),
            prg: zero_vec(MAX_PRG_BANK_SIZE as usize),
            chr: zero_vec(MAX_CHR_BANK_SIZE as usize),
            title: zero_vec(128),
            title_size: 0,
            prg_bank_count: 0,
            chr_bank_count: 0,
            has_trainer: false,
            has_battery_ram: false,
            mapper_number: 0,
            mirroring: Mirroring::VERTICAL,
        }
    }

    pub fn read_prg(&self, addr: u16) -> (r: u8)
        requires
            self.wf(),
        ensures
            r == self.spec_read_prg(addr),
    {
        if self.prg_bank_count > 1 {
            return self.prg[(addr & 0x7FFF) as usize];
        }
        return self.prg[(addr & 0x3FFF) as usize];
    }

    /// NROM has no bank-select state: PRG space is read-only and writes are
    /// ignored.
    pub fn write_prg(&mut self, _addr: u16, _value: u8)
        ensures
            *final(self) == *old(self),
    {
    }

    pub fn read_chr(&self, addr: u16) -> (r: u8)
        requires
            self.wf(),
            addr < 0x2000,
        ensures
            r == self.chr@[addr as int],
    {
        return self.chr[addr as usize];
    }

    /// NROM carries CHR ROM, not CHR RAM: writes to pattern space are
    /// ignored.
    pub fn write_chr(&mut self, _addr: u16, _value: u8)
        ensures
            *final(self) == *old(self),
    {
    }

    pub fn mirroring(&self) -> (r: Mirroring)
        ensures
            r == self.mirroring,
    {
        self.mirroring
    }

    /// Parse an iNES image: validate the header, then copy the trainer, the
    /// PRG banks, the CHR banks and the trailing title into place. On any
    /// error the cartridge is left unchanged.
    pub fn load_image(&mut self, data: &Vec<u8>) -> (r: Result<(), RomError>)
        requires
            old(self).wf(),
        ensures
            final(self).wf(),
            r is Ok <==> spec_image_ok(data@),
            r == Ok::<(), RomError>(()) || *final(self) == *old(self),
            match r {
                Ok(()) => {
                    let d = data@;
                    let body = spec_body_start(d);
                    let psz = spec_prg_size(d);
                    let csz = spec_chr_size(d);
                    let tsz = d.len() - body - psz - csz;
                    &&& final(self).header@ == d.subrange(0, 16)
                    &&& final(self).prg_bank_count == d[4]
                    &&& final(self).chr_bank_count == d[5]
                    &&& final(self).mirroring == spec_mirroring_of(d)
                    &&& final(self).has_battery_ram == (d[6] & 0x02 != 0)
                    &&& final(self).has_trainer == spec_has_trainer(d)
                    &&& final(self).mapper_number == 0
                    &&& (spec_has_trainer(d) ==> final(self).trainer@ == d.subrange(16, 528))
                    &&& (!spec_has_trainer(d) ==> final(self).trainer@ == old(self).trainer@)
                    &&& forall|j: int|
                        0 <= j < psz ==> final(self).prg@[j] == d[body + j]
                    &&& forall|j: int|
                        psz <= j < MAX_PRG_BANK_SIZE ==> final(self).prg@[j] == old(self).prg@[j]
                    &&& forall|j: int|
                        0 <= j < csz ==> final(self).chr@[j] == d[body + psz + j]
                    &&& forall|j: int|
                        csz <= j < MAX_CHR_BANK_SIZE ==> final(self).chr@[j] == old(self).chr@[j]
                    &&& final(self).title_size == tsz
                    &&& forall|j: int|
                        0 <= j < tsz ==> final(self).title@[j] == d[body + psz + csz + j]
                },
                Err(RomError::BadImage) => !spec_magic_ok(data@) || (data@[4] <= MAX_PRG_BANK_COUNT
                    && data@[5] <= MAX_CHR_BANK_COUNT && spec_mapper(data@) == 0 && (data@.len()
                    < spec_body_start(data@) + spec_prg_size(data@) + spec_chr_size(data@)
                    || data@.len() > spec_body_start(data@) + spec_prg_size(data@) + spec_chr_size(
                    data@,
                ) + 128)),
                Err(RomError::TooLarge) => spec_magic_ok(data@) && (data@[4] > MAX_PRG_BANK_COUNT
                    || data@[5] > MAX_CHR_BANK_COUNT),
                Err(RomError::UnsupportedMapper) => spec_magic_ok(data@) && data@[4]
                    <= MAX_PRG_BANK_COUNT && data@[5] <= MAX_CHR_BANK_COUNT && spec_mapper(data@)
                    != 0,
                Err(RomError::CorruptSave) => false,
            },
    {
        if data.len() < 16 {
            return Err(RomError::BadImage);
        }
        if !(data[0] == 0x4E && data[1] == 0x45 && data[2] == 0x53 && data[3] == 0x1A) {
            return Err(RomError::BadImage);
        }
        let prg_bank_count = data[4];
        let chr_bank_count = data[5];
        if prg_bank_count > MAX_PRG_BANK_COUNT || chr_bank_count > MAX_CHR_BANK_COUNT {
            return Err(RomError::TooLarge);
        }
        let f6_flags = data[6];
        let f7_flags = data[7];
        let mapper_number = (f6_flags >> 4) | (f7_flags & 0xF0);
        if mapper_number != 0 {
            return Err(RomError::UnsupportedMapper);
        }
        let has_trainer = f6_flags & 0x04 != 0;
        let body_start: usize = if has_trainer {
            528
        } else {
            16
        };
        let prg_total: usize = 16384 * (prg_bank_count as usize);
        let chr_total: usize = 8192 * (chr_bank_count as usize);
        if data.len() < body_start + prg_total + chr_total {
            return Err(RomError::BadImage);
        }
        let title_len: usize = data.len() - body_start - prg_total - chr_total;
        if title_len > 128 {
            return Err(RomError::BadImage);
        }

        let mut i: usize = 0;
        while i < 16
            invariant
                i <= 16,
                old(self).wf(),
                self.wf(),
                data@.len() >= 16,
                forall|j: int| 0 <= j < i ==> self.header@[j] == data@[j],
                *self == (Rom { header: self.header, ..*old(self) }),
            decreases 16 - i,
        {
            let b = data[i];
            self.header.set(i, b);
            i = i + 1;
        }

        if has_trainer {
            let mut i: usize = 0;
            while i < 512
                invariant
                    i <= 512,
                    old(self).wf(),
                    self.wf(),
                    data@.len() >= 528,
                    forall|j: int| 0 <= j < 16 ==> self.header@[j] == data@[j],
                    forall|j: int| 0 <= j < i ==> self.trainer@[j] == data@[16 + j],
                    *self == (Rom { header: self.header, trainer: self.trainer, ..*old(self) }),
                decreases 512 - i,
            {
                let b = data[16 + i];
                self.trainer.set(i, b);
                i = i + 1;
            }
        }

        let mut i: usize = 0;
        while i < prg_total
            invariant
                i <= prg_total,
                old(self).wf(),
                self.wf(),
                prg_total <= MAX_PRG_BANK_SIZE,
                data@.len() >= body_start + prg_total,
                body_start == spec_body_start(data@),
                forall|j: int| 0 <= j < 16 ==> self.header@[j] == data@[j],
                spec_has_trainer(data@) ==> forall|j: int|
                    0 <= j < 512 ==> self.trainer@[j] == data@[16 + j],
                !spec_has_trainer(data@) ==> self.trainer@ == old(self).trainer@,
                forall|j: int| 0 <= j < i ==> self.prg@[j] == data@[body_start + j],
                forall|j: int| i <= j < MAX_PRG_BANK_SIZE ==> self.prg@[j] == old(self).prg@[j],
                *self == (Rom {
                    header: self.header,
                    trainer: self.trainer,
                    prg: self.prg,
                    ..*old(self)
                }),
            decreases prg_total - i,
        {
            let b = data[body_start + i];
            self.prg.set(i, b);
            i = i + 1;
        }

        let mut i: usize = 0;
        while i < chr_total
            invariant
                i <= chr_total,
                old(self).wf(),
                self.wf(),
                prg_total == spec_prg_size(data@),
                chr_total <= MAX_CHR_BANK_SIZE,
                data@.len() >= body_start + prg_total + chr_total,
                body_start == spec_body_start(data@),
                forall|j: int| 0 <= j < 16 ==> self.header@[j] == data@[j],
                spec_has_trainer(data@) ==> forall|j: int|
                    0 <= j < 512 ==> self.trainer@[j] == data@[16 + j],
                !spec_has_trainer(data@) ==> self.trainer@ == old(self).trainer@,
                forall|j: int| 0 <= j < prg_total ==> self.prg@[j] == data@[body_start + j],
                forall|j: int|
                    prg_total <= j < MAX_PRG_BANK_SIZE ==> self.prg@[j] == old(self).prg@[j],
                forall|j: int| 0 <= j < i ==> self.chr@[j] == data@[body_start + prg_total + j],
                forall|j: int| i <= j < MAX_CHR_BANK_SIZE ==> self.chr@[j] == old(self).chr@[j],
                *self == (Rom {
                    header: self.header,
                    trainer: self.trainer,
                    prg: self.prg,
                    chr: self.chr,
                    ..*old(self)
                }),
            decreases chr_total - i,
        {
            let b = data[body_start + prg_total + i];
            self.chr.set(i, b);
            i = i + 1;
        }

        let title_start: usize = body_start + prg_total + chr_total;
        let mut i: usize = 0;
        while i < title_len
            invariant
                i <= title_len,
                title_len <= 128,
                old(self).wf(),
                self.wf(),
                title_start == spec_body_start(data@) + spec_prg_size(data@) + spec_chr_size(
                    data@,
                ),
                data@.len() == title_start + title_len,
                forall|j: int| 0 <= j < 16 ==> self.header@[j] == data@[j],
                spec_has_trainer(data@) ==> forall|j: int|
                    0 <= j < 512 ==> self.trainer@[j] == data@[16 + j],
                !spec_has_trainer(data@) ==> self.trainer@ == old(self).trainer@,
                forall|j: int| 0 <= j < prg_total ==> self.prg@[j] == data@[body_start + j],
                forall|j: int|
                    prg_total <= j < MAX_PRG_BANK_SIZE ==> self.prg@[j] == old(self).prg@[j],
                prg_total == spec_prg_size(data@),
                chr_total == spec_chr_size(data@),
                body_start == spec_body_start(data@),
                forall|j: int|
                    0 <= j < chr_total ==> self.chr@[j] == data@[body_start + prg_total + j],
                forall|j: int|
                    chr_total <= j < MAX_CHR_BANK_SIZE ==> self.chr@[j] == old(self).chr@[j],
                forall|j: int| 0 <= j < i ==> self.title@[j] == data@[title_start + j],
                *self == (Rom {
                    header: self.header,
                    trainer: self.trainer,
                    prg: self.prg,
                    chr: self.chr,
                    title: self.title,
                    ..*old(self)
                }),
            decreases title_len - i,
        {
            let b = data[title_start + i];
            self.title.set(i, b);
            i = i + 1;
        }

        self.title_size = title_len as u8;
        self.prg_bank_count = prg_bank_count;
        self.chr_bank_count = chr_bank_count;
        self.has_trainer = has_trainer;
        self.has_battery_ram = f6_flags & 0x02 != 0;
        self.mapper_number = mapper_number;
        self.mirroring = if f6_flags & 0x08 != 0 {
            Mirroring::FOUR_SCREEN
        } else if f6_flags & 0x01 == 0 {
            Mirroring::HORIZONTAL
        } else {
            Mirroring::VERTICAL
        };

        proof {
            assert(self.header@ =~= data@.subrange(0, 16));
            if spec_has_trainer(data@) {
                assert(self.trainer@ =~= data@.subrange(16, 528));
            }
        }
        return Ok(());
    }
}

/// An ASCII hex digit.
pub open spec fn is_hex_digit(b: u8) -> bool {
    (0x30 <= b && b <= 0x39) || (0x41 <= b && b <= 0x46) || (0x61 <= b && b <= 0x66)
}

/// The value of an ASCII hex digit.
pub open spec fn hex_val(b: u8) -> int {
    if 0x30 <= b && b <= 0x39 {
        b - 0x30
    } else if 0x41 <= b && b <= 0x46 {
        b - 0x41 + 10
    } else {
        b - 0x61 + 10
    }
}

/// A byte string that hex-decodes: even length, hex digits throughout.
pub open spec fn valid_hex(s: Seq<u8>) -> bool {
    s.len() % 2 == 0 && forall|i: int| 0 <= i < s.len() ==> is_hex_digit(#[trigger] s[i])
}

/// The bytes a hex string decodes to: one byte for each digit pair, most
/// significant digit first.
pub open spec fn spec_hex_decode(s: Seq<u8>) -> Seq<u8> {
    Seq::new((s.len() / 2) as nat, |i: int| (16 * hex_val(s[2 * i]) + hex_val(s[2 * i + 1])) as u8)
}

/// Relies on hex::decode of the hex crate: the input decodes to one byte per
/// digit pair, most significant digit first; an odd length or a byte that is
/// not an ASCII hex digit is an error.
#[verifier::external_body]
fn hex_decode(data: &Vec<u8>) -> (r: Option<Vec<u8>>)
    ensures
        r is Some <==> valid_hex(data@),
        r matches Some(v) ==> v@ == spec_hex_decode(data@),
{
    match hex::decode(data) {
        Ok(v) => Some(v),
        Err(_) => None,
    }
}

/// The hex digits a dump listing contributes, scanning from position `i`:
/// on each line, everything after the first colon except spaces counts,
/// until a `#` comment or the end of the line.
pub open spec fn spec_dump_digits(s: Seq<u8>, i: int, found: bool, skipping: bool) -> Seq<u8>
    decreases s.len() - i,
{
    if i < 0 || i >= s.len() {
        Seq::empty()
    } else {
        let c = s[i];
        if c == 0x0A {
            spec_dump_digits(s, i + 1, false, false)
        } else if skipping {
            spec_dump_digits(s, i + 1, found, true)
        } else if c == 0x20 {
            spec_dump_digits(s, i + 1, found, false)
        } else if c == 0x23 {
            spec_dump_digits(s, i + 1, found, true)
        } else if c == 0x3A {
            spec_dump_digits(s, i + 1, true, false)
        } else if !found {
            spec_dump_digits(s, i + 1, false, false)
        } else {
            seq![c] + spec_dump_digits(s, i + 1, true, false)
        }
    }
}

impl Rom {
    /// Load a textual hex dump (lines of the shape `0600: a9 01 ...`, with
    /// `#` comments) into PRG space starting at `offset`. The digits after
    /// each line's colon are gathered and decoded; a listing whose digits do
    /// not hex-decode, or that runs past the end of PRG space, is refused.
    pub fn load_hex_dump(&mut self, offset: u16, program: &str) -> (r: Result<(), RomError>)
        requires
            old(self).wf(),
        ensures
            final(self).wf(),
            ({
                let digits = spec_dump_digits(program.spec_bytes(), 0, false, false);
                let decoded = spec_hex_decode(digits);
                &&& (r is Ok <==> valid_hex(digits) && offset + decoded.len()
                    <= MAX_PRG_BANK_SIZE)
                &&& (r is Err ==> r == Err::<(), RomError>(RomError::BadImage) && *final(self)
                    == *old(self))
                &&& (r is Ok ==> {
                    &&& forall|j: int|
                        0 <= j < decoded.len() ==> final(self).prg@[offset + j] == decoded[j]
                    &&& forall|j: int|
                        0 <= j < MAX_PRG_BANK_SIZE && !(offset <= j < offset + decoded.len())
                            ==> final(self).prg@[j] == old(self).prg@[j]
                    &&& *final(self) == (Rom { prg: final(self).prg, ..*old(self) })
                })
            }),
    {
        let bytes = program.as_bytes();
        let n = bytes.len();
        let mut hexchars: Vec<u8> = Vec::new();
        let mut i: usize = 0;
        let mut found_colon: bool = false;
        let mut skipping: bool = false;
        while i < n
            invariant
                i <= n,
                n == program.spec_bytes().len(),
                bytes@ == program.spec_bytes(),
                hexchars@ + spec_dump_digits(program.spec_bytes(), i as int, found_colon, skipping)
                    == spec_dump_digits(program.spec_bytes(), 0, false, false),
            decreases n - i,
        {
            let c = bytes[i];
            if c == 0x0A {
                found_colon = false;
                skipping = false;
            } else if skipping {
            } else if c == 0x20 {
            } else if c == 0x23 {
                skipping = true;
            } else if c == 0x3A {
                found_colon = true;
            } else if found_colon {
                hexchars.push(c);
            }
            i = i + 1;
        }
        proof {
            assert(hexchars@ =~= spec_dump_digits(program.spec_bytes(), 0, false, false));
        }

        let decoded = match hex_decode(&hexchars) {
            Some(v) => v,
            None => {
                return Err(RomError::BadImage);
            },
        };
        if decoded.len() > (MAX_PRG_BANK_SIZE as usize) - (offset as usize) {
            return Err(RomError::BadImage);
        }

        let mut j: usize = 0;
        while j < decoded.len()
            invariant
                j <= decoded@.len(),
                old(self).wf(),
                self.wf(),
                offset + decoded@.len() <= MAX_PRG_BANK_SIZE,
                forall|k: int| 0 <= k < j ==> self.prg@[offset + k] == decoded@[k],
                forall|k: int|
                    0 <= k < MAX_PRG_BANK_SIZE && !(offset <= k < offset + j) ==> self.prg@[k]
                        == old(self).prg@[k],
                *self == (Rom { prg: self.prg, ..*old(self) }),
            decreases decoded@.len() - j,
        {
            let b = decoded[j];
            self.prg.set((offset as usize) + j, b);
            j = j + 1;
        }
        return Ok(());
    }
}

impl Rom {
    /// Load a raw 64 KiB memory image into the start of PRG space (the
    /// file read is the embedder's concern). An image shorter than 64 KiB
    /// is refused and leaves the cartridge unchanged.
    pub fn load_bin(&mut self, data: &Vec<u8>) -> (r: Result<(), RomError>)
        requires
            old(self).wf(),
        ensures
            final(self).wf(),
            r is Ok <==> data@.len() >= 0x10000,
            r is Err ==> r == Err::<(), RomError>(RomError::BadImage) && *final(self) == *old(
                self,
            ),
            r is Ok ==> {
                &&& forall|j: int| 0 <= j < 0x10000 ==> final(self).prg@[j] == data@[j]
                &&& forall|j: int|
                    0x10000 <= j < MAX_PRG_BANK_SIZE ==> final(self).prg@[j] == old(self).prg@[j]
                &&& *final(self) == (Rom { prg: final(self).prg, ..*old(self) })
            },
    {
        if data.len() < 0x10000 {
            return Err(RomError::BadImage);
        }
        let mut i: usize = 0;
        while i < 0x10000
            invariant
                i <= 0x10000,
                old(self).wf(),
                self.wf(),
                data@.len() >= 0x10000,
                forall|j: int| 0 <= j < i ==> self.prg@[j] == data@[j],
                forall|j: int| i <= j < MAX_PRG_BANK_SIZE ==> self.prg@[j] == old(self).prg@[j],
                *self == (Rom { prg: self.prg, ..*old(self) }),
            decreases 0x10000 - i,
        {
            let b = data[i];
            self.prg.set(i, b);
            i = i + 1;
        }
        return Ok(());
    }
}

/// A vector of `n` zero bytes.
pub fn zero_vec(n: usize) -> (v: Vec<u8>)
    ensures
        v@ == Seq::new(n as nat, |i: int| 0u8),
{
    let mut v: Vec<u8> = Vec::new();
    while v.len() < n
        invariant
            v@.len() <= n,
            forall|i: int| 0 <= i < v@.len() ==> v@[i] == 0u8,
        decreases n - v@.len(),
    {
        v.push(0);
    }
    proof {
        assert(v@ =~= Seq::new(n as nat, |i: int| 0u8));
    }
    v
}

} // verus!
