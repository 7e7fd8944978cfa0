//! The record a panic leaves behind for the next boot.
//!
//! Without a debug probe a panic on this board is invisible, so the panic
//! handler writes its message into RAM that survives a soft reset, marks
//! `GPREGRET2` with `PANIC_MARKER` and resets. The next boot takes the record
//! back (clearing it) and the status LED blinks the panic code.

use vstd::prelude::*;
use vstd::slice::slice_subrange;
use vstd::string::StringSliceAdditionalSpecFns;
use vstd::utf8::valid_utf8;

verus! {

/// Low nibble of the `GPREGRET2` marker of a panic reset, past the firmware
/// stack's own reboot reasons (1..=4).
pub const PANIC_CODE: u8 = 0x0F;

/// The `GPREGRET2` marker a panic leaves: a soft-reboot marker carrying
/// `PANIC_CODE`.
pub const PANIC_MARKER: u8 = 0xA0 | PANIC_CODE;

/// Marks a record that holds a message: "PNC!".
pub const MAGIC: u32 = 0x504E_4321;

/// Room for the message, in bytes.
pub const TEXT_CAPACITY: usize = 240;

/// The record as it lies in memory that survives the reset.
#[derive(Clone, Copy, Debug, PartialEq, Eq)]
pub struct PanicRecord {
    pub magic: u32,
    pub len: u32,
    pub text: [u8; 240],
}

/// Writes a message into a record's text buffer, cutting it off at the
/// buffer's end (possibly inside a character: the reader checks).
#[derive(Clone, Copy, Debug)]
pub struct Cursor {
    pub buf: [u8; 240],
    pub len: usize,
}

/// The text a record holds: its first `len` bytes, at most the whole buffer.
pub open spec fn stored_bytes(record: PanicRecord) -> Seq<u8> {
    let len = if record.len < TEXT_CAPACITY {
        record.len as int
    } else {
        TEXT_CAPACITY as int
    };
    record.text@.subrange(0, len)
}

/// What the next boot reads back from a record holding a message: the
/// stored text if it is valid UTF-8, else a note saying it was not.
pub open spec fn recovered_bytes(record: PanicRecord) -> Seq<u8> {
    if valid_utf8(stored_bytes(record)) {
        stored_bytes(record)
    } else {
        "<invalid utf-8>".spec_bytes()
    }
}

impl Cursor {
    /// A cursor at the start of `buf`.
    pub fn new(buf: [u8; 240]) -> (c: Cursor)
        ensures
            c.buf == buf,
            c.len == 0,
    {
        Cursor { buf, len: 0 }
    }

    /// Appends as much of `s` as still fits.
    pub fn write_str(&mut self, s: &str)
        requires
            old(self).len <= TEXT_CAPACITY,
        ensures
            ({
                let room = TEXT_CAPACITY - old(self).len;
                let n = if s.spec_bytes().len() < room {
                    s.spec_bytes().len() as int
                } else {
                    room as int
                };
                &&& final(self).len == old(self).len + n
                &&& final(self).buf@ == old(self).buf@.subrange(0, old(self).len as int)
                    + s.spec_bytes().subrange(0, n) + old(self).buf@.subrange(
                    old(self).len + n,
                    TEXT_CAPACITY as int,
                )
            }),
    {
        let bytes = s.as_bytes();
        let room = TEXT_CAPACITY - self.len;
        let n = if bytes.len() < room {
            bytes.len()
        } else {
            room
        };
        let start = self.len;
        let ghost before = self.buf@;
        let mut i: usize = 0;
        while i < n
            invariant
                i <= n,
                start + n <= TEXT_CAPACITY,
                n <= bytes@.len(),
                bytes@ == s.spec_bytes(),
                self.len == start,
                self.buf@.len() == TEXT_CAPACITY,
                before.len() == TEXT_CAPACITY,
                forall|j: int| 0 <= j < start ==> self.buf@[j] == before[j],
                forall|j: int| start <= j < start + i ==> self.buf@[j] == bytes@[j - start],
                forall|j: int| start + i <= j < TEXT_CAPACITY ==> self.buf@[j] == before[j],
            decreases n - i,
        {
            self.buf[start + i] = bytes[i];
            i = i + 1;
        }
        self.len = start + n;
        assert(self.buf@ =~= before.subrange(0, start as int) + s.spec_bytes().subrange(0, n as int)
            + before.subrange(start + n, TEXT_CAPACITY as int));
    }

    /// The record of a message written so far: marked as holding one.
    pub fn seal(self) -> (record: PanicRecord)
        requires
            self.len <= TEXT_CAPACITY,
        ensures
            record == (PanicRecord { magic: MAGIC, len: self.len as u32, text: self.buf }),
    {
        PanicRecord { magic: MAGIC, len: self.len as u32, text: self.buf }
    }
}

/// What a fixed-capacity string holds, as bytes.
pub uninterp spec fn text_bytes(s: heapless::String<240>) -> Seq<u8>;

/// Declares `heapless::String`, a string of fixed byte capacity, to Verus
/// as an opaque type: its contents are known only through `text_bytes`.
#[verifier::external_type_specification]
#[verifier::external_body]
pub struct ExString<const N: usize>(heapless::String<N>);

/// `heapless::String::new`: an empty string.
#[verifier::external_body]
fn new_text() -> (s: heapless::String<240>)
    ensures
        text_bytes(s) == Seq::<u8>::empty(),
{
    heapless::String::new()
}

/// `heapless::String::push_str`: appends `t` if its bytes fit in the
/// capacity; otherwise reports the failure and changes nothing.
#[verifier::external_body]
fn push_text(s: &mut heapless::String<240>, t: &str) -> (ok: bool)
    ensures
        ok == (text_bytes(*old(s)).len() + t.spec_bytes().len() <= 240),
        ok ==> text_bytes(*final(s)) == text_bytes(*old(s)) + t.spec_bytes(),
        !ok ==> *final(s) == *old(s),
{
    s.push_str(t).is_ok()
}

/// `core::str::from_utf8`: the bytes as a string slice if they are valid
/// UTF-8, and nothing otherwise.
#[verifier::external_body]
fn utf8_text(bytes: &[u8]) -> (text: Option<&str>)
    ensures
        text is Some <==> valid_utf8(bytes@),
        text matches Some(t) ==> t.spec_bytes() == bytes@,
{
    core::str::from_utf8(bytes).ok()
}

/// A record holds a message when it carries the magic.
pub open spec fn holds_message(record: PanicRecord) -> bool {
    record.magic == MAGIC
}

/// The record after it was taken: a record that held a message loses its
/// magic; any other is left as it was.
pub open spec fn after_take(record: PanicRecord) -> PanicRecord {
    if holds_message(record) {
        PanicRecord { magic: 0, ..record }
    } else {
        record
    }
}

/// The previous run's panic message, if the record holds one; the record is
/// cleared on read, so a second read finds nothing.
pub fn take(record: &mut PanicRecord) -> (text: Option<heapless::String<240>>)
    ensures
        *final(record) == after_take(*old(record)),
        text is Some <==> holds_message(*old(record)),
        text matches Some(t) ==> text_bytes(t) == recovered_bytes(*old(record)),
{
    if record.magic != MAGIC {
        return None;
    }
    record.magic = 0;
    let len = if (record.len as usize) < TEXT_CAPACITY {
        record.len as usize
    } else {
        TEXT_CAPACITY
    };
    let bytes = slice_subrange(record.text.as_slice(), 0, len);
    let text = match utf8_text(bytes) {
        Some(t) => t,
        None => "<invalid utf-8>",
    };
    proof {
        reveal_strlit("<invalid utf-8>");
        broadcast use vstd::string::is_ascii_spec_bytes;
        assert(vstd::string::is_ascii("<invalid utf-8>"));
        assert(text.spec_bytes() == recovered_bytes(*old(record)));
    }
    let mut out = new_text();
    let _ = push_text(&mut out, text);
    Some(out)
}

/// What was written is what is read back: a message that fits, written
/// through a fresh cursor and sealed, is recovered exactly on the next boot.
pub proof fn message_that_fits_reads_back(before: Cursor, after: Cursor, s: &str)
    requires
        before.len == 0,
        s.spec_bytes().len() <= TEXT_CAPACITY,
        after.len == s.spec_bytes().len(),
        after.buf@ == before.buf@.subrange(0, 0) + s.spec_bytes().subrange(
            0,
            s.spec_bytes().len() as int,
        ) + before.buf@.subrange(s.spec_bytes().len() as int, TEXT_CAPACITY as int),
    ensures
        recovered_bytes(PanicRecord { magic: MAGIC, len: after.len as u32, text: after.buf })
            == s.spec_bytes(),
{
    let record = PanicRecord { magic: MAGIC, len: after.len as u32, text: after.buf };
    assert(stored_bytes(record) =~= s.spec_bytes());
    vstd::utf8::encode_utf8_valid_utf8(s@);
}

/// Taking a record clears it: whatever it held, a second take finds no
/// message and leaves the record as the first take left it.
pub proof fn second_take_finds_nothing(record: PanicRecord)
    ensures
        !holds_message(after_take(record)),
        after_take(after_take(record)) == after_take(record),
{
}

/// What a record gives back, over every record: its first `len` bytes, cut
/// at the 240-byte buffer, if they are valid UTF-8, and otherwise the bytes
/// of "<invalid utf-8>".
pub proof fn recovered_text(record: PanicRecord)
    ensures
        ({
            let n = if record.len <= 240 {
                record.len as int
            } else {
                240
            };
            &&& valid_utf8(record.text@.subrange(0, n)) ==> recovered_bytes(record)
                == record.text@.subrange(0, n)
            &&& !valid_utf8(record.text@.subrange(0, n)) ==> recovered_bytes(record)
                == "<invalid utf-8>".spec_bytes()
        }),
        holds_message(record) == (record.magic == 0x504E_4321),
        holds_message(record) ==> after_take(record) == (PanicRecord { magic: 0, ..record }),
        !holds_message(record) ==> after_take(record) == record,
{
}

} // verus!
