//! Pointer-chain resolution and field extraction over a foreign address
//! space.

use vstd::prelude::*;
use crate::config::Config;
use crate::reader::MemoryReader;
use crate::song_info::{millipercent, SongInfo};
use crate::text::{decode_utf16_lossy, lemma_decode_empty};

verus! {

/// Why a field could not be read.
#[derive(Debug, Clone, Copy, PartialEq, Eq, Structural)]
pub enum MemoryError {
    /// The read for the chain link at `index` faulted or came back short.
    ReadFault { index: usize },
    /// The chain link at `index` held a zero pointer.
    NullPointer { index: usize },
    /// An address on the way does not fit the platform or lies outside the
    /// range in which a field can stand.
    InvalidAddress,
    /// No code unit could be obtained where a string was expected.
    EmptyRead,
}

/// Number of characters a string read is limited to when no limit is given.
pub const DEFAULT_MAX_CHARS: usize = 4096;

/// Addresses at or below this one are never taken for the place of a field.
pub const ADDRESS_FLOOR: usize = 0x1000;

/// Addresses at or above this one are never taken for the place of a field.
pub const ADDRESS_CEILING: u64 = 0x7FFF_FFFF_FFFF_FFFF;

/// The number that four bytes stand for, least significant byte first.
pub open spec fn le_u32(bytes: Seq<u8>) -> u32
    recommends
        bytes.len() == 4,
{
    (bytes[0] + bytes[1] * 0x100 + bytes[2] * 0x1_0000 + bytes[3] * 0x100_0000) as u32
}

/// The number that two bytes stand for, least significant byte first.
pub open spec fn le_u16(bytes: Seq<u8>) -> u16
    recommends
        bytes.len() == 2,
{
    (bytes[0] + bytes[1] * 0x100) as u16
}

/// The 32-bit value stored at `address`, if a read of four bytes there
/// obtains all four.
pub open spec fn word_at<M: MemoryReader>(memory: &M, address: usize) -> Option<u32> {
    match memory.outcome(address, 4) {
        Some(bytes) => if bytes.len() == 4 {
            Some(le_u32(bytes))
        } else {
            None
        },
        None => None,
    }
}

/// The code unit stored at `address`, if the address fits the platform and a
/// read of two bytes there obtains both.
pub open spec fn unit_at<M: MemoryReader>(memory: &M, address: int) -> Option<u16> {
    if 0 <= address <= usize::MAX {
        match memory.outcome(address as usize, 2) {
            Some(bytes) => if bytes.len() == 2 {
                Some(le_u16(bytes))
            } else {
                None
            },
            None => None,
        }
    } else {
        None
    }
}

/// The address reached from `current` by following the links of `offsets`
/// from position `index` on: at each link the pointer stored at the running
/// address is read, must not be zero, and the link's offset is added to it.
pub open spec fn resolve_from<M: MemoryReader>(
    memory: &M,
    current: usize,
    offsets: Seq<usize>,
    index: nat,
) -> Result<usize, MemoryError>
    decreases offsets.len() - index,
{
    if index >= offsets.len() {
        Ok(current)
    } else {
        match word_at(memory, current) {
            None => Err(MemoryError::ReadFault { index: index as usize }),
            Some(pointer) => if pointer == 0 {
                Err(MemoryError::NullPointer { index: index as usize })
            } else if pointer + offsets[index as int] > usize::MAX {
                Err(MemoryError::InvalidAddress)
            } else {
                resolve_from(
                    memory,
                    (pointer + offsets[index as int]) as usize,
                    offsets,
                    index + 1,
                )
            },
        }
    }
}

/// The address that the whole chain `offsets` leads to from `base`.
pub open spec fn resolve<M: MemoryReader>(memory: &M, base: usize, offsets: Seq<usize>) -> Result<
    usize,
    MemoryError,
> {
    resolve_from(memory, base, offsets, 0)
}

/// Reads the 32-bit value at `address`; `None` when the read faults or
/// obtains fewer than four bytes.
pub fn read_dword<M: MemoryReader>(memory: &M, address: usize) -> (value: Option<u32>)
    ensures
        value == word_at(memory, address),
{
    match memory.read(address, 4) {
        Some(bytes) => {
            if bytes.len() == 4 {
                let b0: u32 = bytes[0] as u32;
                let b1: u32 = bytes[1] as u32;
                let b2: u32 = bytes[2] as u32;
                let b3: u32 = bytes[3] as u32;
                Some(b0 + b1 * 0x100 + b2 * 0x1_0000 + b3 * 0x100_0000)
            } else {
                None
            }
        },
        None => None,
    }
}

/// Reads the pointer stored at `address`. Pointers of the inspected process
/// are four bytes wide.
pub fn read_pointer<M: MemoryReader>(memory: &M, address: usize) -> (value: Option<usize>)
    ensures
        value == match word_at(memory, address) {
            Some(pointer) => Some(pointer as usize),
            None => None,
        },
{
    match read_dword(memory, address) {
        Some(pointer) => Some(pointer as usize),
        None => None,
    }
}

/// Walks the pointer chain `offsets` from `base_address` and returns the
/// address it ends at, or the first failure on the way together with the
/// position of the link at which it happened.
pub fn resolve_pointer_chain<M: MemoryReader>(
    memory: &M,
    base_address: usize,
    offsets: &[usize],
) -> (resolved: Result<usize, MemoryError>)
    ensures
        resolved == resolve(memory, base_address, offsets@),
        offsets@.len() == 0 ==> resolved == Ok::<usize, MemoryError>(base_address),
        offsets@.len() > 0 && word_at(memory, base_address) == Some(0u32) ==> resolved == Err::<
            usize,
            MemoryError,
        >(MemoryError::NullPointer { index: 0 }),
{
    let mut current: usize = base_address;
    let mut i: usize = 0;
    while i < offsets.len()
        invariant
            i <= offsets@.len(),
            resolve_from(memory, current, offsets@, i as nat) == resolve(
                memory,
                base_address,
                offsets@,
            ),
        decreases offsets@.len() - i,
    {
        let pointer = match read_pointer(memory, current) {
            Some(pointer) => pointer,
            None => {
                return Err(MemoryError::ReadFault { index: i });
            },
        };
        if pointer == 0 {
            return Err(MemoryError::NullPointer { index: i });
        }
        current = match pointer.checked_add(offsets[i]) {
            Some(next) => next,
            None => {
                return Err(MemoryError::InvalidAddress);
            },
        };
        i += 1;
    }
    Ok(current)
}

/// Whether a resolved address can be the place of a field: strictly between
/// the floor and the ceiling.
pub open spec fn plausible_address(address: usize) -> bool {
    ADDRESS_FLOOR < address && address < ADDRESS_CEILING
}

/// Tells whether a resolved address can be the place of a field.
pub fn is_plausible_address(address: usize) -> (plausible: bool)
    ensures
        plausible == plausible_address(address),
{
    address > ADDRESS_FLOOR && (address as u64) < ADDRESS_CEILING
}

/// The code units of a string that starts at `address`: those stored there
/// one after another, up to `budget` of them, ending before the first that is
/// zero or cannot be read.
pub open spec fn units_from<M: MemoryReader>(memory: &M, address: int, budget: nat) -> Seq<u16>
    decreases budget,
{
    if budget == 0 {
        Seq::empty()
    } else {
        match unit_at(memory, address) {
            Some(unit) => if unit == 0 {
                Seq::empty()
            } else {
                seq![unit] + units_from(memory, address + 2, (budget - 1) as nat)
            },
            None => Seq::empty(),
        }
    }
}

/// The length that a length-prefixed string at `address` announces, if the
/// four bytes there can be read and hold a number from 1 to `max_chars`.
pub open spec fn length_prefix<M: MemoryReader>(
    memory: &M,
    address: usize,
    max_chars: usize,
) -> Option<u32> {
    match word_at(memory, address) {
        Some(length) => if 0 < length <= max_chars {
            Some(length)
        } else {
            None
        },
        None => None,
    }
}

/// The code units of the string at `address`. Where a plausible length stands
/// in front, the string is the announced number of units behind it; otherwise
/// it starts at `address` itself and is limited by `max_chars`.
pub open spec fn string_units<M: MemoryReader>(
    memory: &M,
    address: usize,
    max_chars: usize,
) -> Seq<u16> {
    match length_prefix(memory, address, max_chars) {
        Some(length) => units_from(memory, address + 4, length as nat),
        None => units_from(memory, address as int, max_chars as nat),
    }
}

/// What decoding the string at `address` gives: the text of its code units,
/// and a failure where not a single code unit can be obtained.
pub open spec fn decoded_string<M: MemoryReader>(
    memory: &M,
    address: usize,
    max_chars: usize,
) -> Result<Seq<char>, MemoryError> {
    if string_units(memory, address, max_chars).len() == 0 {
        Err(MemoryError::EmptyRead)
    } else {
        Ok(decode_utf16_lossy(string_units(memory, address, max_chars)))
    }
}

/// Reads the code unit at `address`; `None` when the read faults or obtains
/// fewer than two bytes.
fn read_unit<M: MemoryReader>(memory: &M, address: usize) -> (unit: Option<u16>)
    ensures
        unit == unit_at(memory, address as int),
{
    match memory.read(address, 2) {
        Some(bytes) => {
            if bytes.len() == 2 {
                let b0: u16 = bytes[0] as u16;
                let b1: u16 = bytes[1] as u16;
                Some(b0 + b1 * 0x100)
            } else {
                None
            }
        },
        None => None,
    }
}

/// Collects the code units of a string from `address` on, at most `budget` of
/// them, stopping before the first zero unit or failed read.
fn read_units<M: MemoryReader>(memory: &M, address: usize, budget: usize) -> (units: Vec<u16>)
    ensures
        units@ == units_from(memory, address as int, budget as nat),
{
    let mut units: Vec<u16> = Vec::new();
    let mut current: usize = address;
    let mut taken: usize = 0;
    while taken < budget
        invariant_except_break
            taken <= budget,
            units_from(memory, address as int, budget as nat) == units@ + units_from(
                memory,
                current as int,
                (budget - taken) as nat,
            ),
        ensures
            units@ == units_from(memory, address as int, budget as nat),
        decreases budget - taken,
    {
        let unit = match read_unit(memory, current) {
            Some(unit) => unit,
            None => {
                break ;
            },
        };
        if unit == 0 {
            break ;
        }
        units.push(unit);
        taken += 1;
        current = match current.checked_add(2) {
            Some(next) => next,
            None => {
                assert(units_from(memory, current + 2, (budget - taken) as nat) =~= Seq::empty());
                break ;
            },
        };
    }
    units
}

/// Decodes the wide-character string at `address`.
///
/// A length that stands in front of the string is honoured when it is
/// plausible, that is from 1 to the limit; otherwise the string is taken to
/// end at its first zero code unit. The limit is `max_length`, or
/// `DEFAULT_MAX_CHARS` where none is given. Malformed UTF-16 is replaced, never
/// refused. The read fails if and only if no code unit is obtained, so a text
/// that is returned is never empty.
pub fn read_wstring<M: MemoryReader>(memory: &M, address: usize, max_length: Option<usize>) -> (text:
    Result<String, MemoryError>)
    ensures
        match text {
            Ok(s) => s@.len() > 0 && decoded_string(memory, address, max_chars_of(max_length))
                == Ok::<Seq<char>, MemoryError>(s@),
            Err(e) => decoded_string(memory, address, max_chars_of(max_length)) == Err::<
                Seq<char>,
                MemoryError,
            >(e),
        },
{
    let max_chars: usize = match max_length {
        Some(limit) => limit,
        None => DEFAULT_MAX_CHARS,
    };
    let announced: Option<u32> = match read_dword(memory, address) {
        Some(length) => if length > 0 && length as usize <= max_chars {
            Some(length)
        } else {
            None
        },
        None => None,
    };
    let units: Vec<u16> = match announced {
        Some(length) => match address.checked_add(4) {
            Some(body) => read_units(memory, body, length as usize),
            None => Vec::new(),
        },
        None => read_units(memory, address, max_chars),
    };
    if units.len() == 0 {
        return Err(MemoryError::EmptyRead);
    }
    proof {
        lemma_decode_empty(units@);
    }
    Ok(String::from_utf16_lossy(units.as_slice()))
}

/// The limit on a string's length that `max_length` asks for.
pub open spec fn max_chars_of(max_length: Option<usize>) -> usize {
    match max_length {
        Some(limit) => limit,
        None => DEFAULT_MAX_CHARS,
    }
}

/// The address of a field: the chain is resolved from the module's base plus
/// the field's offset, and what it leads to must be a plausible address.
pub open spec fn field_address<M: MemoryReader>(
    memory: &M,
    base_address: usize,
    field_offset: usize,
    chain: Seq<usize>,
) -> Result<usize, MemoryError> {
    if base_address + field_offset > usize::MAX {
        Err(MemoryError::InvalidAddress)
    } else {
        match resolve(memory, (base_address + field_offset) as usize, chain) {
            Ok(address) => if plausible_address(address) {
                Ok(address)
            } else {
                Err(MemoryError::InvalidAddress)
            },
            Err(error) => Err(error),
        }
    }
}

/// The text of a string field: the string that stands `title_offset` bytes
/// behind the field's address, or the first failure on the way to it.
pub open spec fn string_field<M: MemoryReader>(
    memory: &M,
    base_address: usize,
    field_offset: usize,
    chain: Seq<usize>,
    title_offset: usize,
    max_chars: usize,
) -> Result<Seq<char>, MemoryError> {
    match field_address(memory, base_address, field_offset, chain) {
        Ok(address) => if address + title_offset > usize::MAX {
            Err(MemoryError::InvalidAddress)
        } else {
            decoded_string(memory, (address + title_offset) as usize, max_chars)
        },
        Err(error) => Err(error),
    }
}

/// The value of an integer field: the 32-bit value at the field's address,
/// and zero where anything on the way to it fails.
pub open spec fn int_field<M: MemoryReader>(
    memory: &M,
    base_address: usize,
    field_offset: usize,
    chain: Seq<usize>,
) -> u32 {
    match field_address(memory, base_address, field_offset, chain) {
        Ok(address) => match word_at(memory, address) {
            Some(value) => value,
            None => 0,
        },
        Err(_) => 0,
    }
}

/// The text a string field contributes to a snapshot: what was read, and
/// nothing where the read failed.
pub open spec fn text_or_empty(field: Result<Seq<char>, MemoryError>) -> Seq<char> {
    match field {
        Ok(text) => text,
        Err(_) => Seq::empty(),
    }
}

/// Resolves the address of a field and checks that it is plausible.
fn locate_field<M: MemoryReader>(
    memory: &M,
    base_address: usize,
    field_offset: usize,
    chain: &[usize],
) -> (address: Result<usize, MemoryError>)
    ensures
        address == field_address(memory, base_address, field_offset, chain@),
{
    let start: usize = match base_address.checked_add(field_offset) {
        Some(start) => start,
        None => {
            return Err(MemoryError::InvalidAddress);
        },
    };
    let resolved: usize = resolve_pointer_chain(memory, start, chain)?;
    if is_plausible_address(resolved) {
        Ok(resolved)
    } else {
        Err(MemoryError::InvalidAddress)
    }
}

/// Reads a text field.
///
/// The field's pointer chain is resolved from `base_address + field_offset`;
/// the string stands `title_offset` bytes behind the resolved address and is
/// decoded with the configured limit on its length. Every failure on the way
/// is reported, none is fatal: the caller takes the field for unavailable.
pub fn read_string_field<M: MemoryReader>(
    memory: &M,
    base_address: usize,
    config: &Config,
    field_offset: usize,
    chain: &[usize],
    title_offset: usize,
) -> (text: Result<String, MemoryError>)
    ensures
        match text {
            Ok(s) => s@.len() > 0 && string_field(
                memory,
                base_address,
                field_offset,
                chain@,
                title_offset,
                config.settings.max_string_length,
            ) == Ok::<Seq<char>, MemoryError>(s@),
            Err(e) => string_field(
                memory,
                base_address,
                field_offset,
                chain@,
                title_offset,
                config.settings.max_string_length,
            ) == Err::<Seq<char>, MemoryError>(e),
        },
{
    let resolved: usize = locate_field(memory, base_address, field_offset, chain)?;
    let string_address: usize = match resolved.checked_add(title_offset) {
        Some(address) => address,
        None => {
            return Err(MemoryError::InvalidAddress);
        },
    };
    read_wstring(memory, string_address, Some(config.settings.max_string_length))
}

/// Reads an integer field: the 32-bit value at the address that the field's
/// pointer chain resolves to. A field that cannot be reached or read counts
/// as zero.
pub fn read_int_field<M: MemoryReader>(
    memory: &M,
    base_address: usize,
    field_offset: usize,
    chain: &[usize],
) -> (value: u32)
    ensures
        value == int_field(memory, base_address, field_offset, chain@),
{
    match locate_field(memory, base_address, field_offset, chain) {
        Ok(address) => match read_dword(memory, address) {
            Some(value) => value,
            None => 0,
        },
        Err(_) => 0,
    }
}

/// The fields of one pass over the player's memory as they were read: each
/// text field with its text or with the reason why it could not be read, the
/// two times with zero in place of a value that could not be read.
#[derive(Debug, PartialEq, Eq)]
pub struct SongFields {
    pub title: Result<String, MemoryError>,
    pub artist: Result<String, MemoryError>,
    pub album: Result<String, MemoryError>,
    pub lyrics: Result<String, MemoryError>,
    pub current_time: u32,
    pub total_time: u32,
}

/// What was read of a text field, as plain mathematical values.
pub open spec fn field_text(field: Result<String, MemoryError>) -> Result<Seq<char>, MemoryError> {
    match field {
        Ok(text) => Ok(text@),
        Err(error) => Err(error),
    }
}

/// The text field that stands at `field_offset` behind `chain`, read with
/// the string offset and the length limit of the configuration.
pub open spec fn configured_text<M: MemoryReader>(
    memory: &M,
    base_address: usize,
    config: &Config,
    field_offset: usize,
    chain: Seq<usize>,
) -> Result<Seq<char>, MemoryError> {
    string_field(
        memory,
        base_address,
        field_offset,
        chain,
        config.memory_offsets.title_offset,
        config.settings.max_string_length,
    )
}

/// Reads a text field with the string offset and the length limit of the
/// configuration.
fn sample_text<M: MemoryReader>(
    memory: &M,
    base_address: usize,
    config: &Config,
    field_offset: usize,
    chain: &[usize],
) -> (field: Result<String, MemoryError>)
    ensures
        field_text(field) == configured_text(memory, base_address, config, field_offset, chain@),
{
    read_string_field(
        memory,
        base_address,
        config,
        field_offset,
        chain,
        config.memory_offsets.title_offset,
    )
}

/// The text of a field, or nothing where the field could not be read.
fn text_of_field(field: Result<String, MemoryError>) -> (text: String)
    ensures
        text@ == text_or_empty(field_text(field)),
{
    match field {
        Ok(text) => text,
        Err(_) => String::new(),
    }
}

impl SongFields {
    /// The snapshot that the fields amount to: a text field that could not be
    /// read is left empty.
    pub fn into_info(self) -> (info: SongInfo)
        ensures
            info.title@ == text_or_empty(field_text(self.title)),
            info.artist@ == text_or_empty(field_text(self.artist)),
            info.album@ == text_or_empty(field_text(self.album)),
            info.lyrics@ == text_or_empty(field_text(self.lyrics)),
            info.current_time == self.current_time,
            info.total_time == self.total_time,
    {
        SongInfo {
            title: text_of_field(self.title),
            artist: text_of_field(self.artist),
            album: text_of_field(self.album),
            lyrics: text_of_field(self.lyrics),
            current_time: self.current_time,
            total_time: self.total_time,
        }
    }
}

/// Reads the six fields of a song, each on its own: a field that fails does
/// not keep the others from being read, and every failure is kept with its
/// field.
pub fn read_song_fields<M: MemoryReader>(memory: &M, base_address: usize, config: &Config) -> (fields:
    SongFields)
    ensures
        field_text(fields.title) == configured_text(
            memory,
            base_address,
            config,
            config.memory_offsets.song_name_offset,
            config.memory_offsets.song_name_chain@,
        ),
        field_text(fields.artist) == configured_text(
            memory,
            base_address,
            config,
            config.memory_offsets.song_singer_offset,
            config.memory_offsets.song_singer_chain@,
        ),
        field_text(fields.album) == configured_text(
            memory,
            base_address,
            config,
            config.memory_offsets.song_album_offset,
            config.memory_offsets.song_album_chain@,
        ),
        field_text(fields.lyrics) == configured_text(
            memory,
            base_address,
            config,
            config.memory_offsets.song_lyrics_offset,
            config.memory_offsets.song_lyrics_chain@,
        ),
        fields.current_time == int_field(
            memory,
            base_address,
            config.memory_offsets.current_time_offset,
            config.memory_offsets.current_time_chain@,
        ),
        fields.total_time == int_field(
            memory,
            base_address,
            config.memory_offsets.total_time_offset,
            config.memory_offsets.total_time_chain@,
        ),
{
    let offsets = &config.memory_offsets;
    let title = sample_text(
        memory,
        base_address,
        config,
        offsets.song_name_offset,
        offsets.song_name_chain.as_slice(),
    );
    let artist = sample_text(
        memory,
        base_address,
        config,
        offsets.song_singer_offset,
        offsets.song_singer_chain.as_slice(),
    );
    let album = sample_text(
        memory,
        base_address,
        config,
        offsets.song_album_offset,
        offsets.song_album_chain.as_slice(),
    );
    let lyrics = sample_text(
        memory,
        base_address,
        config,
        offsets.song_lyrics_offset,
        offsets.song_lyrics_chain.as_slice(),
    );
    let current_time = read_int_field(
        memory,
        base_address,
        offsets.current_time_offset,
        offsets.current_time_chain.as_slice(),
    );
    let total_time = read_int_field(
        memory,
        base_address,
        offsets.total_time_offset,
        offsets.total_time_chain.as_slice(),
    );
    SongFields { title, artist, album, lyrics, current_time, total_time }
}

/// Takes one snapshot of what is playing.
///
/// Each of the six fields is read on its own; a field that fails is left empty
/// or zero and does not keep the others from being read. Whether the snapshot
/// is valid depends on the title alone.
pub fn read_song_info<M: MemoryReader>(memory: &M, base_address: usize, config: &Config) -> (info:
    SongInfo)
    ensures
        info.title@ == text_or_empty(
            string_field(
                memory,
                base_address,
                config.memory_offsets.song_name_offset,
                config.memory_offsets.song_name_chain@,
                config.memory_offsets.title_offset,
                config.settings.max_string_length,
            ),
        ),
        info.artist@ == text_or_empty(
            string_field(
                memory,
                base_address,
                config.memory_offsets.song_singer_offset,
                config.memory_offsets.song_singer_chain@,
                config.memory_offsets.title_offset,
                config.settings.max_string_length,
            ),
        ),
        info.album@ == text_or_empty(
            string_field(
                memory,
                base_address,
                config.memory_offsets.song_album_offset,
                config.memory_offsets.song_album_chain@,
                config.memory_offsets.title_offset,
                config.settings.max_string_length,
            ),
        ),
        info.lyrics@ == text_or_empty(
            string_field(
                memory,
                base_address,
                config.memory_offsets.song_lyrics_offset,
                config.memory_offsets.song_lyrics_chain@,
                config.memory_offsets.title_offset,
                config.settings.max_string_length,
            ),
        ),
        info.current_time == int_field(
            memory,
            base_address,
            config.memory_offsets.current_time_offset,
            config.memory_offsets.current_time_chain@,
        ),
        info.total_time == int_field(
            memory,
            base_address,
            config.memory_offsets.total_time_offset,
            config.memory_offsets.total_time_chain@,
        ),
        info.total_time == 0 ==> millipercent(info.current_time, info.total_time) == 0,
{
    read_song_fields(memory, base_address, config).into_info()
}

} // verus!
