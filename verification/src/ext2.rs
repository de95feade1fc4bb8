//! Error codes of libext2fs.

use vstd::prelude::*;
use crate::error::IoError;
use crate::text;

verus! {

/// A libext2fs error code.
///
/// Codes of the library's own table stand at `BASE` plus an offset.
/// Some of its functions give a host `errno` instead.
#[derive(Debug, Clone, Copy, PartialEq, Eq, Structural)]
pub enum Ext2Code {
    /// The inode bitmap is not loaded (offset 39).
    NoInodeBitmap,
    /// The block bitmap is not loaded (offset 40).
    NoBlockBitmap,
    /// The filesystem is too small (offset 44).
    TooSmall,
    /// The directory entry already exists (offset 79).
    DirExists,
    /// The file already exists (offset 155).
    FileExists,
    /// A host `errno`.
    Errno(i32),
    /// Any other code.
    Other(i64),
}

/// The code that a raw number stands for.
pub open spec fn decode(code: i64) -> Ext2Code {
    if 0 < code < Ext2Code::BASE {
        Ext2Code::Errno(code as i32)
    } else if code == Ext2Code::BASE + 39 {
        Ext2Code::NoInodeBitmap
    } else if code == Ext2Code::BASE + 40 {
        Ext2Code::NoBlockBitmap
    } else if code == Ext2Code::BASE + 44 {
        Ext2Code::TooSmall
    } else if code == Ext2Code::BASE + 79 {
        Ext2Code::DirExists
    } else if code == Ext2Code::BASE + 155 {
        Ext2Code::FileExists
    } else {
        Ext2Code::Other(code)
    }
}

/// The raw number of a code.
pub open spec fn encode(code: Ext2Code) -> i64 {
    match code {
        Ext2Code::NoInodeBitmap => (Ext2Code::BASE + 39) as i64,
        Ext2Code::NoBlockBitmap => (Ext2Code::BASE + 40) as i64,
        Ext2Code::TooSmall => (Ext2Code::BASE + 44) as i64,
        Ext2Code::DirExists => (Ext2Code::BASE + 79) as i64,
        Ext2Code::FileExists => (Ext2Code::BASE + 155) as i64,
        Ext2Code::Errno(n) => n as i64,
        Ext2Code::Other(c) => c,
    }
}

/// Description of a code of the table that has no variant of its own.
pub open spec fn table_text(offset: int) -> Option<Seq<char>> {
    if offset == 19 {
        Some("bad magic number in superblock"@)
    } else if offset == 20 {
        Some("filesystem revision too high"@)
    } else if offset == 21 {
        Some("cannot write to a read-only filesystem"@)
    } else if offset == 22 {
        Some("group descriptors read failure"@)
    } else if offset == 23 {
        Some("group descriptors write failure"@)
    } else if offset == 35 {
        Some("directory corrupted"@)
    } else if offset == 36 {
        Some("short read"@)
    } else if offset == 37 {
        Some("short write"@)
    } else if offset == 38 {
        Some("no space left in directory"@)
    } else if offset == 41 {
        Some("illegal inode number"@)
    } else if offset == 42 {
        Some("illegal block number"@)
    } else if offset == 60 {
        Some("corrupt superblock"@)
    } else if offset == 67 {
        Some("unsupported feature"@)
    } else if offset == 68 {
        Some("unsupported read-only feature"@)
    } else if offset == 70 {
        Some("out of memory"@)
    } else if offset == 71 {
        Some("invalid argument"@)
    } else if offset == 72 {
        Some("block allocation failed"@)
    } else if offset == 73 {
        Some("inode allocation failed"@)
    } else if offset == 74 {
        Some("not a directory"@)
    } else if offset == 76 {
        Some("file not found"@)
    } else if offset == 78 {
        Some("directory block not found"@)
    } else if offset == 80 {
        Some("operation not implemented"@)
    } else if offset == 82 {
        Some("file too big"@)
    } else if offset == 85 {
        Some("journal too small"@)
    } else {
        None
    }
}

/// A number as 64 bits.
pub open spec fn bits64(n: i64) -> nat {
    if n < 0 {
        (n + 0x1_0000_0000_0000_0000) as nat
    } else {
        n as nat
    }
}

/// Description of a code, given what the host says of an `errno`.
pub open spec fn describe(code: Ext2Code, os_text: Seq<char>) -> Seq<char> {
    match code {
        Ext2Code::NoInodeBitmap => "inode bitmap not loaded"@,
        Ext2Code::NoBlockBitmap => "block bitmap not loaded"@,
        Ext2Code::TooSmall => "filesystem too small for the requested operation"@,
        Ext2Code::DirExists => "directory entry already exists"@,
        Ext2Code::FileExists => "file already exists"@,
        Ext2Code::Errno(n) => os_text + " (errno "@ + text::dec_int(n as int) + ")"@,
        Ext2Code::Other(c) => match table_text(c - Ext2Code::BASE) {
            Some(t) => t,
            None => "libext2fs error 0x"@ + text::hex(bits64(c)),
        },
    }
}

/// Whether some host prints this text for `std::io::Error::from_raw_os_error` of
/// this `errno`. Hosts differ in their words, so there is more than one such text.
pub uninterp spec fn os_says(errno: i32, text: Seq<char>) -> bool;

/// `std::io::Error::from_raw_os_error`, printed: what this host says of this
/// `errno`. Its words depend on the platform, so nothing is claimed of them.
#[verifier::external_body]
fn os_error_text(errno: i32) -> (r: String)
    ensures
        os_says(errno, r@),
{
    format!("{}", std::io::Error::from_raw_os_error(errno))
}

/// Description of a code of the table, if it has one.
fn table_message(offset: i128) -> (r: Option<&'static str>)
    ensures
        match r {
            Some(t) => table_text(offset as int) == Some(t@),
            None => table_text(offset as int) is None,
        },
{
    if offset == 19 {
        Some("bad magic number in superblock")
    } else if offset == 20 {
        Some("filesystem revision too high")
    } else if offset == 21 {
        Some("cannot write to a read-only filesystem")
    } else if offset == 22 {
        Some("group descriptors read failure")
    } else if offset == 23 {
        Some("group descriptors write failure")
    } else if offset == 35 {
        Some("directory corrupted")
    } else if offset == 36 {
        Some("short read")
    } else if offset == 37 {
        Some("short write")
    } else if offset == 38 {
        Some("no space left in directory")
    } else if offset == 41 {
        Some("illegal inode number")
    } else if offset == 42 {
        Some("illegal block number")
    } else if offset == 60 {
        Some("corrupt superblock")
    } else if offset == 67 {
        Some("unsupported feature")
    } else if offset == 68 {
        Some("unsupported read-only feature")
    } else if offset == 70 {
        Some("out of memory")
    } else if offset == 71 {
        Some("invalid argument")
    } else if offset == 72 {
        Some("block allocation failed")
    } else if offset == 73 {
        Some("inode allocation failed")
    } else if offset == 74 {
        Some("not a directory")
    } else if offset == 76 {
        Some("file not found")
    } else if offset == 78 {
        Some("directory block not found")
    } else if offset == 80 {
        Some("operation not implemented")
    } else if offset == 82 {
        Some("file too big")
    } else if offset == 85 {
        Some("journal too small")
    } else {
        None
    }
}

/// Whether a text is what a host says of a code, where it is the host's to say.
pub open spec fn host_text(code: Ext2Code, os_text: Seq<char>) -> bool {
    code matches Ext2Code::Errno(n) ==> os_says(n, os_text)
}

impl Ext2Code {
    /// First entry of the libext2fs error table.
    pub const BASE: i64 = 2_133_571_328;

    /// Classifies a raw code.
    pub fn from_raw(code: i64) -> (r: Self)
        ensures
            r == decode(code),
    {
        if code > 0 && code < Ext2Code::BASE {
            return Ext2Code::Errno(code as i32);
        }
        if code == Ext2Code::BASE + 39 {
            Ext2Code::NoInodeBitmap
        } else if code == Ext2Code::BASE + 40 {
            Ext2Code::NoBlockBitmap
        } else if code == Ext2Code::BASE + 44 {
            Ext2Code::TooSmall
        } else if code == Ext2Code::BASE + 79 {
            Ext2Code::DirExists
        } else if code == Ext2Code::BASE + 155 {
            Ext2Code::FileExists
        } else {
            Ext2Code::Other(code)
        }
    }

    /// The raw code.
    pub fn raw(self) -> (r: i64)
        ensures
            r == encode(self),
    {
        match self {
            Ext2Code::NoInodeBitmap => Ext2Code::BASE + 39,
            Ext2Code::NoBlockBitmap => Ext2Code::BASE + 40,
            Ext2Code::TooSmall => Ext2Code::BASE + 44,
            Ext2Code::DirExists => Ext2Code::BASE + 79,
            Ext2Code::FileExists => Ext2Code::BASE + 155,
            Ext2Code::Errno(n) => n as i64,
            Ext2Code::Other(c) => c,
        }
    }

    /// Describes the code, given what the host says of an `errno`.
    pub fn message_with(self, os_text: &str) -> (r: String)
        ensures
            r@ == describe(self, os_text@),
    {
        match self {
            Ext2Code::NoInodeBitmap => "inode bitmap not loaded".to_owned(),
            Ext2Code::NoBlockBitmap => "block bitmap not loaded".to_owned(),
            Ext2Code::TooSmall => "filesystem too small for the requested operation".to_owned(),
            Ext2Code::DirExists => "directory entry already exists".to_owned(),
            Ext2Code::FileExists => "file already exists".to_owned(),
            Ext2Code::Errno(n) => {
                let number = text::dec_i64(n as i64);
                let head = text::cat3(os_text, " (errno ", number.as_str());
                text::cat2(head.as_str(), ")")
            },
            Ext2Code::Other(c) => match table_message(c as i128 - Ext2Code::BASE as i128) {
                Some(t) => t.to_owned(),
                None => {
                    let bits: u64 = if c < 0 {
                        (c as i128 + 0x1_0000_0000_0000_0000) as u64
                    } else {
                        c as u64
                    };
                    let digits = text::hex_u64(bits);
                    text::cat2("libext2fs error 0x", digits.as_str())
                },
            },
        }
    }

    /// Describes the code. What a host `errno` means is the host's to say.
    pub fn message(self) -> (r: String)
        ensures
            exists|os_text: Seq<char>|
                r@ == #[trigger] describe(self, os_text) && host_text(self, os_text),
    {
        match self {
            Ext2Code::Errno(n) => {
                let os_text = os_error_text(n);
                self.message_with(os_text.as_str())
            },
            _ => self.message_with(""),
        }
    }
}

/// Failures of ext4 operations.
#[derive(Debug)]
pub enum Error {
    /// A libext2fs function failed.
    Ext2fs {
        /// Name of the operation.
        op: String,
        /// Its error code.
        code: Ext2Code,
    },
    /// A path is no C string.
    InvalidPath(String),
    /// An input or output failure outside of libext2fs.
    Io(IoError),
}

/// Description of a failure, given what the host says of an `errno`.
pub open spec fn error_text(e: Error, os_text: Seq<char>) -> Seq<char> {
    match e {
        Error::Ext2fs { op, code } => op@ + ": "@ + describe(code, os_text),
        Error::InvalidPath(p) => "invalid path: "@ + p@,
        Error::Io(io) => io.message@,
    }
}

impl Error {
    /// Describes the failure.
    pub fn message(&self) -> (r: String)
        ensures
            exists|os_text: Seq<char>|
                r@ == #[trigger] error_text(*self, os_text) && (self matches Error::Ext2fs {
                    code,
                    ..
                } ==> host_text(*code, os_text)),
    {
        match self {
            Error::Ext2fs { op, code } => {
                let m = code.message();
                let r = text::cat3(op.as_str(), ": ", m.as_str());
                proof {
                    let os_text = choose|os_text: Seq<char>| m@ == #[trigger] describe(
                        *code,
                        os_text,
                    ) && host_text(*code, os_text);
                    assert(r@ == error_text(*self, os_text));
                }
                r
            },
            Error::InvalidPath(p) => {
                let r = text::cat2("invalid path: ", p.as_str());
                assert(r@ == error_text(*self, seq![]));
                r
            },
            Error::Io(io) => {
                let r = io.message.clone();
                assert(r@ == error_text(*self, seq![]));
                r
            },
        }
    }
}

/// No raw code is lost: each can be had back from what it was decoded to.
pub proof fn law_raw_codes_are_kept(code: i64)
    ensures
        encode(decode(code)) == code,
{
}

/// A code that decoding can give decodes back to itself.
pub proof fn law_decoding_settles(code: i64)
    ensures
        decode(encode(decode(code))) == decode(code),
{
}

/// Only an `errno` is left for the host to describe.
pub proof fn law_own_codes_have_fixed_texts(code: Ext2Code, a: Seq<char>, b: Seq<char>)
    requires
        !(code is Errno),
    ensures
        describe(code, a) == describe(code, b),
{
}

/// A positive number below the table is an `errno`; a number of the table with a
/// code of its own is that code; every other number is kept as it is.
pub proof fn law_codes_are_told_apart(code: i64)
    ensures
        0 < code < Ext2Code::BASE <==> decode(code) is Errno,
        decode(code) matches Ext2Code::Errno(n) ==> n == code,
        decode(code) matches Ext2Code::Other(c) ==> c == code,
        decode(code) is NoInodeBitmap <==> code == Ext2Code::BASE + 39,
        decode(code) is NoBlockBitmap <==> code == Ext2Code::BASE + 40,
        decode(code) is TooSmall <==> code == Ext2Code::BASE + 44,
        decode(code) is DirExists <==> code == Ext2Code::BASE + 79,
        decode(code) is FileExists <==> code == Ext2Code::BASE + 155,
{
}

/// What is said of an `errno` is what the host says of it, with its number; and
/// of a number that nothing is known of, its 64 bits in hexadecimal, from which
/// it can be told again.
pub proof fn law_numbers_are_said(code: Ext2Code, os_text: Seq<char>)
    ensures
        code matches Ext2Code::Errno(n) ==> text::starts_with(describe(code, os_text), os_text)
            && text::ends_with(
            describe(code, os_text),
            " (errno "@ + text::dec_int(n as int) + ")"@,
        ),
        code matches Ext2Code::Other(c) ==> (table_text(c - Ext2Code::BASE) is None ==> {
            let d = describe(code, os_text);
            let k = "libext2fs error 0x"@.len() as int;
            &&& d.len() > k
            &&& d.take(k) == "libext2fs error 0x"@
            &&& c >= 0 ==> text::hex_number(d.skip(k)) == c
            &&& c < 0 ==> text::hex_number(d.skip(k)) == c + 0x1_0000_0000_0000_0000
        }),
        code matches Ext2Code::Other(c) ==> (table_text(c - Ext2Code::BASE) is Some ==> describe(
            code,
            os_text,
        ) == table_text(c - Ext2Code::BASE)->0),
{
    match code {
        Ext2Code::Errno(n) => {
            let b = " (errno "@ + text::dec_int(n as int) + ")"@;
            let d = describe(code, os_text);
            assert(d =~= os_text + b);
            assert(d.take(os_text.len() as int) =~= os_text);
            assert(d.skip(d.len() - b.len()) =~= b);
        },
        Ext2Code::Other(c) => {
            let h = text::hex(bits64(c));
            text::law_hex_spells_the_number(bits64(c));
            let k = "libext2fs error 0x"@.len() as int;
            let d = "libext2fs error 0x"@ + h;
            assert(d.take(k) =~= "libext2fs error 0x"@);
            assert(d.skip(k) =~= h);
        },
        _ => {},
    }
}

/// The numbers of the table that something is known of, and what is known.
pub proof fn law_table_has_its_texts(offset: int)
    ensures
        table_text(19) == Some("bad magic number in superblock"@),
        table_text(20) == Some("filesystem revision too high"@),
        table_text(21) == Some("cannot write to a read-only filesystem"@),
        table_text(22) == Some("group descriptors read failure"@),
        table_text(23) == Some("group descriptors write failure"@),
        table_text(35) == Some("directory corrupted"@),
        table_text(36) == Some("short read"@),
        table_text(37) == Some("short write"@),
        table_text(38) == Some("no space left in directory"@),
        table_text(41) == Some("illegal inode number"@),
        table_text(42) == Some("illegal block number"@),
        table_text(60) == Some("corrupt superblock"@),
        table_text(67) == Some("unsupported feature"@),
        table_text(68) == Some("unsupported read-only feature"@),
        table_text(70) == Some("out of memory"@),
        table_text(71) == Some("invalid argument"@),
        table_text(72) == Some("block allocation failed"@),
        table_text(73) == Some("inode allocation failed"@),
        table_text(74) == Some("not a directory"@),
        table_text(76) == Some("file not found"@),
        table_text(78) == Some("directory block not found"@),
        table_text(80) == Some("operation not implemented"@),
        table_text(82) == Some("file too big"@),
        table_text(85) == Some("journal too small"@),
        table_text(offset) is Some <==> {
            ||| 19 <= offset <= 23
            ||| 35 <= offset <= 38
            ||| 41 <= offset <= 42
            ||| offset == 60
            ||| 67 <= offset <= 68
            ||| 70 <= offset <= 74
            ||| offset == 76 || offset == 78 || offset == 80 || offset == 82 || offset == 85
        },
{
}

/// A failure is told by what was being done and then by what is said of its
/// code, a wrong path by the path.
pub proof fn law_failures_say_what_was_done(e: Error, os_text: Seq<char>)
    ensures
        e matches Error::Ext2fs { op, code } ==> {
            let t = error_text(e, os_text);
            &&& text::starts_with(t, op@ + ": "@)
            &&& t.skip((op@ + ": "@).len() as int) == describe(code, os_text)
        },
        e matches Error::InvalidPath(p) ==> text::ends_with(error_text(e, os_text), p@)
            && text::starts_with(error_text(e, os_text), "invalid path: "@),
        e matches Error::Io(io) ==> error_text(e, os_text) == io.message@,
{
    let t = error_text(e, os_text);
    match e {
        Error::Ext2fs { op, code } => {
            let a = op@ + ": "@;
            assert(t.take(a.len() as int) =~= a);
            assert(t.skip(a.len() as int) =~= describe(code, os_text));
        },
        Error::InvalidPath(p) => {
            assert(t.take("invalid path: "@.len() as int) =~= "invalid path: "@);
            assert(t.skip(t.len() - p@.len()) =~= p@);
        },
        Error::Io(_) => {},
    }
}

} // verus!
