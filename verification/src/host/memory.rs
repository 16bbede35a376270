//! The linear memory that the simulator shares with robot code, and the one
//! place where pointers that come from robot code are checked.
use vstd::prelude::*;
use vstd::utf8::{decode_utf8, valid_utf8};

verus! {

/// Size of one page of linear memory, in bytes.
pub const PAGE_SIZE: usize = 65536;

/// Number of pages that the shared memory starts with.
pub const INITIAL_PAGES: u32 = 18;

/// Number of pages that the shared memory can grow to.
pub const MAXIMUM_PAGES: u32 = 16384;

/// A range of bytes does not lie inside the memory.
#[derive(Debug, Clone, Copy, PartialEq, Eq, Structural)]
pub struct OutOfBoundsError;

/// Why no string could be read at a pointer.
#[derive(Debug, Clone, Copy, PartialEq, Eq, Structural)]
pub enum CStrError {
    /// No NUL byte lies between the pointer and the end of the memory.
    NotTerminated,
    /// The bytes before the NUL byte are not UTF-8.
    InvalidUtf8,
}

/// Number of bytes of `memory` from `ptr` up to the first NUL byte, if there
/// is one at or after `ptr`.
pub open spec fn c_str_len(memory: Seq<u8>, ptr: int) -> Option<int>
    decreases memory.len() - ptr,
{
    if ptr < 0 || ptr >= memory.len() {
        None
    } else if memory[ptr] == 0 {
        Some(0)
    } else {
        match c_str_len(memory, ptr + 1) {
            Some(n) => Some(n + 1),
            None => None,
        }
    }
}

/// The string that a C program sees at `ptr`: the bytes up to the first NUL
/// byte, read as UTF-8.
pub open spec fn c_str(memory: Seq<u8>, ptr: int) -> Result<Seq<char>, CStrError> {
    match c_str_len(memory, ptr) {
        None => Err(CStrError::NotTerminated),
        Some(n) => {
            let bytes = memory.subrange(ptr, ptr + n);
            if valid_utf8(bytes) {
                Ok(decode_utf8(bytes))
            } else {
                Err(CStrError::InvalidUtf8)
            }
        },
    }
}

/// `memory` with the bytes from `offset` on replaced by `buffer`.
pub open spec fn written(memory: Seq<u8>, offset: int, buffer: Seq<u8>) -> Seq<u8> {
    Seq::new(
        memory.len(),
        |i: int|
            if offset <= i < offset + buffer.len() {
                buffer[i - offset]
            } else {
                memory[i]
            },
    )
}

/// The four bytes of `value`, least significant first.
pub open spec fn le_bytes(value: u32) -> Seq<u8> {
    seq![
        (value & 0xff) as u8,
        ((value >> 8) & 0xff) as u8,
        ((value >> 16) & 0xff) as u8,
        ((value >> 24) & 0xff) as u8,
    ]
}

/// The number whose four bytes, least significant first, are `bytes`.
pub open spec fn from_le_bytes(bytes: Seq<u8>) -> u32
    recommends
        bytes.len() == 4,
{
    (bytes[0] as u32) | (bytes[1] as u32) << 8 | (bytes[2] as u32) << 16 | (bytes[3] as u32) << 24
}

/// Reading back the bytes of a number gives the number.
pub proof fn lemma_le_bytes_round_trip(value: u32)
    ensures
        le_bytes(value).len() == 4,
        from_le_bytes(le_bytes(value)) == value,
{
    let b0 = (value & 0xff) as u8;
    let b1 = ((value >> 8) & 0xff) as u8;
    let b2 = ((value >> 16) & 0xff) as u8;
    let b3 = ((value >> 24) & 0xff) as u8;
    assert(value == ((value & 0xff) as u8 as u32) | (((value >> 8) & 0xff) as u8 as u32) << 8 | (((
    value >> 16) & 0xff) as u8 as u32) << 16 | (((value >> 24) & 0xff) as u8 as u32) << 24)
        by (bit_vector);
}

/// The four bytes of `value`, least significant first.
pub fn u32_to_le_bytes(value: u32) -> (bytes: Vec<u8>)
    ensures
        bytes@ == le_bytes(value),
{
    let b0 = (value & 0xff) as u8;
    let b1 = ((value >> 8) & 0xff) as u8;
    let b2 = ((value >> 16) & 0xff) as u8;
    let b3 = ((value >> 24) & 0xff) as u8;
    let mut bytes: Vec<u8> = Vec::new();
    bytes.push(b0);
    bytes.push(b1);
    bytes.push(b2);
    bytes.push(b3);
    assert(bytes@ =~= le_bytes(value));
    bytes
}

/// The number whose four bytes, least significant first, are `bytes`.
pub fn u32_from_le_bytes(bytes: &Vec<u8>) -> (value: u32)
    requires
        bytes@.len() == 4,
    ensures
        value == from_le_bytes(bytes@),
{
    (bytes[0] as u32) | (bytes[1] as u32) << 8 | (bytes[2] as u32) << 16 | (bytes[3] as u32) << 24
}

/// Decodes `bytes` as UTF-8 with `String::from_utf8`. The text is the
/// decoding of the bytes where they are well-formed UTF-8; otherwise there is
/// no text.
#[verifier::external_body]
pub(crate) fn string_from_utf8(bytes: Vec<u8>) -> (text: Option<String>)
    ensures
        text is Some <==> valid_utf8(bytes@),
        text matches Some(s) ==> s@ == decode_utf8(bytes@),
{
    String::from_utf8(bytes).ok()
}

/// What the simulator does with the shared memory: every access is checked
/// against the bounds of the memory.
pub trait SharedMemoryExt {
    /// The bytes that the memory holds.
    spec fn contents(&self) -> Seq<u8>;

    /// Reads the NUL-terminated string at `ptr`.
    fn read_c_str(&self, ptr: u32) -> (text: Result<String, CStrError>)
        ensures
            match text {
                Ok(s) => c_str(self.contents(), ptr as int) == Ok::<Seq<char>, CStrError>(s@),
                Err(e) => c_str(self.contents(), ptr as int) == Err::<Seq<char>, CStrError>(e),
            },
    ;

    /// Replaces the bytes from `offset` on by `buffer`, if they all lie inside
    /// the memory; otherwise nothing changes.
    fn write_relaxed(&mut self, offset: usize, buffer: &[u8]) -> (done: Result<(), OutOfBoundsError>)
        ensures
            done is Ok <==> offset + buffer@.len() <= old(self).contents().len(),
            done is Ok ==> final(self).contents() == written(old(self).contents(), offset as int, buffer@),
            done is Err ==> final(self).contents() == old(self).contents(),
    ;

    /// Copies the `length` bytes from `offset` on, if they all lie inside the
    /// memory.
    fn read_relaxed(&self, offset: usize, length: usize) -> (bytes: Result<Vec<u8>, OutOfBoundsError>)
        ensures
            bytes is Ok <==> offset + length <= self.contents().len(),
            bytes matches Ok(b) ==> b@ == self.contents().subrange(offset as int, offset + length),
    ;
}

/// The linear memory as the simulator sees it during one host call.
#[derive(Debug, Clone)]
pub struct GuestMemory {
    bytes: Vec<u8>,
}

impl View for GuestMemory {
    type V = Seq<u8>;

    closed spec fn view(&self) -> Seq<u8> {
        self.bytes@
    }
}

impl GuestMemory {
    /// A memory that holds `bytes`.
    pub fn new(bytes: Vec<u8>) -> (memory: Self)
        ensures
            memory@ == bytes@,
    {
        GuestMemory { bytes }
    }

    /// Number of bytes in the memory.
    pub fn len(&self) -> (n: usize)
        ensures
            n == self@.len(),
    {
        self.bytes.len()
    }

    /// The bytes of the memory.
    pub fn into_bytes(self) -> (bytes: Vec<u8>)
        ensures
            bytes@ == self@,
    {
        self.bytes
    }

    /// Index of the first NUL byte at or after `ptr`, if there is one.
    fn find_nul(&self, ptr: usize) -> (end: Option<usize>)
        ensures
            match end {
                Some(e) => ptr <= e < self@.len() && c_str_len(self@, ptr as int) == Some(e - ptr),
                None => c_str_len(self@, ptr as int) is None,
            },
    {
        let n = self.bytes.len();
        let mut i = ptr;
        while i < n
            invariant
                n == self.bytes@.len(),
                ptr <= i,
                i <= n || ptr >= n,
                c_str_len(self@, ptr as int) == match c_str_len(self@, i as int) {
                    Some(k) => Some(k + (i - ptr)),
                    None => None,
                },
            decreases n - i,
        {
            if self.bytes[i] == 0 {
                return Some(i);
            }
            i = i + 1;
        }
        None
    }
}

impl SharedMemoryExt for GuestMemory {
    open spec fn contents(&self) -> Seq<u8> {
        self@
    }

    fn read_c_str(&self, ptr: u32) -> (text: Result<String, CStrError>) {
        let start = ptr as usize;
        match self.find_nul(start) {
            None => Err(CStrError::NotTerminated),
            Some(end) => {
                let mut bytes: Vec<u8> = Vec::new();
                let mut i = start;
                while i < end
                    invariant
                        start <= i <= end < self.bytes@.len(),
                        bytes@ == self.bytes@.subrange(start as int, i as int),
                    decreases end - i,
                {
                    bytes.push(self.bytes[i]);
                    i = i + 1;
                    assert(bytes@ =~= self.bytes@.subrange(start as int, i as int));
                }
                match string_from_utf8(bytes) {
                    Some(s) => Ok(s),
                    None => Err(CStrError::InvalidUtf8),
                }
            },
        }
    }

    fn write_relaxed(&mut self, offset: usize, buffer: &[u8]) -> (done: Result<(), OutOfBoundsError>) {
        let n = self.bytes.len();
        if offset > n || buffer.len() > n - offset {
            return Err(OutOfBoundsError);
        }
        let mut i: usize = 0;
        while i < buffer.len()
            invariant
                n == self.bytes@.len(),
                n == old(self).bytes@.len(),
                offset + buffer@.len() <= n,
                i <= buffer@.len(),
                self.bytes@ == written(old(self).bytes@, offset as int, buffer@.subrange(0, i as int)),
            decreases buffer@.len() - i,
        {
            self.bytes.set(offset + i, buffer[i]);
            i = i + 1;
            assert(self.bytes@ =~= written(old(self).bytes@, offset as int, buffer@.subrange(0, i as int)));
        }
        assert(buffer@.subrange(0, i as int) =~= buffer@);
        Ok(())
    }

    fn read_relaxed(&self, offset: usize, length: usize) -> (bytes: Result<Vec<u8>, OutOfBoundsError>) {
        let n = self.bytes.len();
        if offset > n || length > n - offset {
            return Err(OutOfBoundsError);
        }
        let mut bytes: Vec<u8> = Vec::new();
        let mut i: usize = 0;
        while i < length
            invariant
                n == self.bytes@.len(),
                offset + length <= n,
                i <= length,
                bytes@ == self.bytes@.subrange(offset as int, offset + i),
            decreases length - i,
        {
            bytes.push(self.bytes[offset + i]);
            i = i + 1;
            assert(bytes@ =~= self.bytes@.subrange(offset as int, offset + i));
        }
        Ok(bytes)
    }
}

} // verus!
