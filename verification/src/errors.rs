//! Provide error classification and handling for the library.

use vstd::prelude::*;
use vstd::string::*;
use crate::constants::MAGIC;
use crate::intbytes::{
    be_bytes_u16, decimal, dump_slice, dump_text, hex_number, lemma_decimal_ascii,
    lemma_dump_ascii, lemma_hex_number_ascii, push_decimal, push_hex_number, ByteDump,
};
use crate::text::{ascii_chars, push_ascii, quoted, to_quoted};

verus! {

/// std's `io::Error`, the cause that an I/O failure carries.  The library
/// only hands such a value on; nothing is known of what it holds.
#[verifier::external_type_specification]
#[verifier::external_body]
pub struct ExIoError(std::io::Error);

/// Diagnostic id: the store ends before the fixed part of the header does.
pub const ID_HEADER_SHORT: u32 = 1001;

/// Diagnostic id: the store ends before the key does.
pub const ID_KEY_SHORT: u32 = 1002;

/// Diagnostic id: the position of a read in the data region cannot be
/// addressed.
pub const ID_GET_SEEK: u32 = 1003;

/// Diagnostic id: the position of a write in the data region cannot be
/// addressed.
pub const ID_PUT_SEEK: u32 = 1004;

/// Diagnostic id: a write in the data region would end beyond what can be
/// addressed.
pub const ID_PUT_WRITE: u32 = 1005;

/// Diagnostic id: the key is longer than the header's key length field can
/// record.
pub const ID_KEY_LONG: u32 = 1006;

/// Diagnostic id: header, key and reserved metadata together end beyond
/// what the header's data offset field can record.
pub const ID_OFFSET_LARGE: u32 = 1007;

/// Diagnostic id: the file to encode cannot be opened.
pub const ID_ENCODE_SOURCE: u32 = 2001;

/// Diagnostic id: the file to encode into cannot be created.
pub const ID_ENCODE_TARGET: u32 = 2002;

/// Diagnostic id: the file to encode cannot be read.
pub const ID_ENCODE_READ: u32 = 2003;

/// Diagnostic id: the encoded file cannot be written.
pub const ID_ENCODE_WRITE: u32 = 2004;

/// Diagnostic id: the file to decode cannot be opened.
pub const ID_DECODE_SOURCE: u32 = 2010;

/// Diagnostic id: the file to decode into cannot be created.
pub const ID_DECODE_TARGET: u32 = 2011;

/// Diagnostic id: the decoded file cannot be written.
pub const ID_DECODE_WRITE: u32 = 2012;

/// Diagnostic id: the file to decode cannot be read.
pub const ID_DECODE_READ: u32 = 2013;

/// Diagnostic id: the file whose header is wanted cannot be opened.
pub const ID_HEADER_SOURCE: u32 = 2020;

/// Diagnostic id: the file whose header is wanted cannot be read.
pub const ID_HEADER_READ: u32 = 2021;

/// Diagnostic id: the text of the header cannot be written.
pub const ID_HEADER_WRITE: u32 = 2022;

/// `io::Error::from` on `ErrorKind::UnexpectedEof`: the cause recorded when
/// a store ends before the bytes that were to be read.  Nothing is claimed
/// of the value.
#[verifier::external_body]
pub(crate) fn end_of_data() -> std::io::Error {
    std::io::Error::from(std::io::ErrorKind::UnexpectedEof)
}

/// `io::Error::from` on `ErrorKind::InvalidInput`: the cause recorded when a
/// position or a length lies beyond what can be addressed.  Nothing is
/// claimed of the value.
#[verifier::external_body]
pub(crate) fn out_of_range() -> std::io::Error {
    std::io::Error::from(std::io::ErrorKind::InvalidInput)
}

/// Report an error in handling a Pico-encoded file.
#[derive(Debug)]
pub enum PicoError {
    /// A file that was expected to exist could not be found.
    FileNotFound(u32, String, std::io::Error),
    /// A file already exists.
    FileExists(u32, String, std::io::Error),
    /// Unable to seek to the required location in a file.  Provide a
    /// unique id for the error, and the underlying error from the
    /// io module.
    SeekFailed(u32, std::io::Error),
    /// Unable to read from a file.  Provide a unique id for the error,
    /// and the underlying error from the io module.
    ReadFailed(u32, std::io::Error),
    /// Unable to write to a file.  Provide a unique id for the error,
    /// and the underlying error from the io module.
    WriteFailed(u32, std::io::Error),
    /// The given file is not a Pico-encoded file.  Include the bad magic
    /// number.
    NotPico(u16),
    /// This library cannot handle the Pico-encoded file's version.  Include
    /// the major and minor version numbers of the file, and then the major
    /// and minor version numbers that this library supports.
    BadVersion(u16, u16, u16, u16),
    /// The key has zero length, which is not allowed.
    KeyError,
    /// The specified offset is invalid.  Include the offset value and the
    /// minimum offset value based on the header.
    BadOffset(u32, u32),
    /// An error occurred in computing the hash.
    HashError,
    /// A hrung collapsed somewhere.  Provide a unique id for the error.
    InternalError(u32),
}

/// What an error says, without the I/O cause that it may carry: its kind,
/// its diagnostic id and the values it reports.
pub enum Fault {
    FileNotFound(u32, Seq<char>),
    FileExists(u32, Seq<char>),
    SeekFailed(u32),
    ReadFailed(u32),
    WriteFailed(u32),
    NotPico(u16),
    BadVersion(u16, u16, u16, u16),
    KeyError,
    BadOffset(u32, u32),
    HashError,
    InternalError(u32),
}

impl View for PicoError {
    type V = Fault;

    open spec fn view(&self) -> Fault {
        match *self {
            PicoError::FileNotFound(id, name, _) => Fault::FileNotFound(id, name@),
            PicoError::FileExists(id, name, _) => Fault::FileExists(id, name@),
            PicoError::SeekFailed(id, _) => Fault::SeekFailed(id),
            PicoError::ReadFailed(id, _) => Fault::ReadFailed(id),
            PicoError::WriteFailed(id, _) => Fault::WriteFailed(id),
            PicoError::NotPico(magic) => Fault::NotPico(magic),
            PicoError::BadVersion(major, minor, ours, ours_minor) => Fault::BadVersion(
                major,
                minor,
                ours,
                ours_minor,
            ),
            PicoError::KeyError => Fault::KeyError,
            PicoError::BadOffset(offset, least) => Fault::BadOffset(offset, least),
            PicoError::HashError => Fault::HashError,
            PicoError::InternalError(id) => Fault::InternalError(id),
        }
    }
}

impl Fault {
    /// The fixed sentence that describes the kind of fault.
    pub open spec fn description(self) -> Seq<char> {
        match self {
            Fault::FileNotFound(_, _) => "File was not found."@,
            Fault::FileExists(_, _) => "File already exists."@,
            Fault::SeekFailed(_) => "Seeking within a file failed."@,
            Fault::ReadFailed(_) => "Reading from a file failed."@,
            Fault::WriteFailed(_) => "Writing to a file failed."@,
            Fault::NotPico(_) => "The file does not appear to be a Pico-encoded file."@,
            Fault::BadVersion(_, _, _, _) =>
                "This version of the library cannot read the version of the Pico encoding used in the file."@,
            Fault::KeyError => "A key cannot have zero length."@,
            Fault::BadOffset(_, _) => "The data offset in the file is incorrect."@,
            Fault::HashError => "An error occurred computing the hash."@,
            Fault::InternalError(_) => "An internal error was detected in the pico library."@,
        }
    }

    /// What is said of the fault after its description and a space: the
    /// file's name, or the values found and wanted, for the kinds that
    /// report any.
    pub open spec fn detail(self) -> Seq<char> {
        match self {
            Fault::FileNotFound(_, name) => "File "@ + quoted(name) + " was not found."@,
            Fault::FileExists(_, name) => "Preventing overwrite of file "@ + quoted(name)
                + ", which already exists."@,
            Fault::NotPico(found) => "First bytes are 0x"@ + ascii_chars(
                dump_text(be_bytes_u16(found), true, false),
            ) + " instead of 0x"@ + ascii_chars(dump_text(be_bytes_u16(MAGIC), true, false))
                + ", as required."@,
            Fault::BadVersion(major, minor, ours, ours_minor) => "This library implements version "@
                + ascii_chars(decimal(ours as nat)) + "."@ + ascii_chars(decimal(ours_minor as nat))
                + " of the Pico encoding, but the file specifies that it uses version "@
                + ascii_chars(decimal(major as nat)) + "."@ + ascii_chars(decimal(minor as nat))
                + "."@,
            Fault::BadOffset(offset, least) => "The header extends to at least offset 0x"@
                + ascii_chars(hex_number(least as nat))
                + ", but the file specifies the data offset as 0x"@ + ascii_chars(
                hex_number(offset as nat),
            ) + "."@,
            _ => Seq::<char>::empty(),
        }
    }

    /// The whole message: the description, a space, and the detail.
    pub open spec fn message(self) -> Seq<char> {
        self.description() + " "@ + self.detail()
    }

    /// Whether a fault of this kind carries an I/O cause.
    pub open spec fn has_cause(self) -> bool {
        self is FileNotFound || self is FileExists || self is SeekFailed || self is ReadFailed
            || self is WriteFailed
    }
}

impl PicoError {
    /// A short fixed description of the kind of error.
    pub fn description(&self) -> (text: &'static str)
        ensures
            text@ == self@.description(),
    {
        match *self {
            PicoError::FileNotFound(_, _, _) => "File was not found.",
            PicoError::FileExists(_, _, _) => "File already exists.",
            PicoError::SeekFailed(_, _) => "Seeking within a file failed.",
            PicoError::ReadFailed(_, _) => "Reading from a file failed.",
            PicoError::WriteFailed(_, _) => "Writing to a file failed.",
            PicoError::NotPico(_) => "The file does not appear to be a Pico-encoded file.",
            PicoError::BadVersion(_, _, _, _) =>
                "This version of the library cannot read the version of the Pico encoding used in the file.",
            PicoError::KeyError => "A key cannot have zero length.",
            PicoError::BadOffset(_, _) => "The data offset in the file is incorrect.",
            PicoError::HashError => "An error occurred computing the hash.",
            PicoError::InternalError(_) => "An internal error was detected in the pico library.",
        }
    }

    /// The I/O error that lies under this error, for the kinds that wrap one.
    pub fn cause(&self) -> (cause: Option<&std::io::Error>)
        ensures
            cause is Some <==> self@.has_cause(),
            match *self {
                PicoError::FileNotFound(_, _, err) => cause == Some(&err),
                PicoError::FileExists(_, _, err) => cause == Some(&err),
                PicoError::SeekFailed(_, err) => cause == Some(&err),
                PicoError::ReadFailed(_, err) => cause == Some(&err),
                PicoError::WriteFailed(_, err) => cause == Some(&err),
                _ => cause is None,
            },
    {
        match self {
            PicoError::FileNotFound(_, _, err) => Some(err),
            PicoError::FileExists(_, _, err) => Some(err),
            PicoError::SeekFailed(_, err) => Some(err),
            PicoError::WriteFailed(_, err) => Some(err),
            PicoError::ReadFailed(_, err) => Some(err),
            _ => None,
        }
    }
}

/// Append a number in decimal.
fn put_decimal(target: &mut String, value: u64)
    ensures
        final(target)@ == old(target)@ + ascii_chars(decimal(value as nat)),
{
    let mut digits: Vec<u8> = Vec::new();
    push_decimal(&mut digits, value);
    proof {
        lemma_decimal_ascii(value as nat);
    }
    push_ascii(target, digits.as_slice());
}

/// Append a number in upper-case hexadecimal.
fn put_hex_number(target: &mut String, value: u64)
    ensures
        final(target)@ == old(target)@ + ascii_chars(hex_number(value as nat)),
{
    let mut digits: Vec<u8> = Vec::new();
    push_hex_number(&mut digits, value);
    proof {
        lemma_hex_number_ascii(value as nat);
    }
    push_ascii(target, digits.as_slice());
}

/// Append the four hexadecimal digits of a number.
fn put_hex_u16(target: &mut String, value: u16)
    ensures
        final(target)@ == old(target)@ + ascii_chars(
            dump_text(be_bytes_u16(value), true, false),
        ),
{
    let mut digits: Vec<u8> = Vec::new();
    dump_slice(&mut digits, &value.get_bytes(), true, false);
    proof {
        lemma_dump_ascii(be_bytes_u16(value), true, false);
    }
    push_ascii(target, digits.as_slice());
}

impl PicoError {
    /// The message that shows the error: its description, a space, and
    /// further information where the kind of error has any.
    pub fn message(&self) -> (text: String)
        ensures
            text@ == self@.message(),
    {
        let mut text: String = self.description().to_owned();
        text.append(" ");
        match self {
            PicoError::FileNotFound(_, name, _) => {
                let shown = to_quoted(name.as_str());
                let mut detail: String = "File ".to_owned();
                detail.append(shown.as_str());
                detail.append(" was not found.");
                text.append(detail.as_str());
            },
            PicoError::FileExists(_, name, _) => {
                let shown = to_quoted(name.as_str());
                let mut detail: String = "Preventing overwrite of file ".to_owned();
                detail.append(shown.as_str());
                detail.append(", which already exists.");
                text.append(detail.as_str());
            },
            PicoError::NotPico(found) => {
                let mut detail: String = "First bytes are 0x".to_owned();
                put_hex_u16(&mut detail, *found);
                detail.append(" instead of 0x");
                put_hex_u16(&mut detail, MAGIC);
                detail.append(", as required.");
                text.append(detail.as_str());
            },
            PicoError::BadVersion(major, minor, ours, ours_minor) => {
                let mut detail: String = "This library implements version ".to_owned();
                put_decimal(&mut detail, *ours as u64);
                detail.append(".");
                put_decimal(&mut detail, *ours_minor as u64);
                detail.append(
                    " of the Pico encoding, but the file specifies that it uses version ",
                );
                put_decimal(&mut detail, *major as u64);
                detail.append(".");
                put_decimal(&mut detail, *minor as u64);
                detail.append(".");
                text.append(detail.as_str());
            },
            PicoError::BadOffset(offset, least) => {
                let mut detail: String = "The header extends to at least offset 0x".to_owned();
                put_hex_number(&mut detail, *least as u64);
                detail.append(", but the file specifies the data offset as 0x");
                put_hex_number(&mut detail, *offset as u64);
                detail.append(".");
                text.append(detail.as_str());
            },
            _ => {},
        }
        text
    }
}

/// A wrapper for easier use of the result type.
pub type Result<T> = std::result::Result<T, PicoError>;

} // verus!
