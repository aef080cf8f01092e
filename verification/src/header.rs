//! Exporting Pico file header information.

use vstd::prelude::*;
use vstd::string::*;
use crate::codec::{append, HeaderFields, HeaderView};
use crate::constants::MAGIC;
use crate::intbytes::{be_bytes_u16, decimal, dump_text, dump_vec, push_decimal, ByteDump};
use crate::text::{to_uppercase, uppercase};

verus! {

/// Different formats for writing out the header.
#[derive(Debug)]
pub enum HeaderFormat {
    /// Use Python dict format.  This should work in both Python 2.7+
    /// and in Python 3+.
    ///
    /// # Example
    /// ```python
    /// {
    ///     "magic" : [ 0x91, 0xC0 ],
    ///     "major" : 1,
    ///     "minor" : 0,
    ///     "offset" : 42,
    ///     "hash" : [ 0xD4, 0x1D, 0x8C, 0xD9, 0x8F, 0x00, 0xB2, 0x04, 0xE9, 0x80, 0x09, 0x98, 0xEC, 0xF8, 0x42, 0x7E ],
    ///     "key_length" : 4,
    ///     "key" : [ 0x55, 0x21, 0xE4, 0x9A ],
    ///     "md_length" : 10,
    /// }
    /// ```
    DICT,
    /// Use JSON format.  See http://www.json.org.
    ///
    /// # Example
    /// ```json
    /// {
    ///     "magic" : [ 145, 192 ],
    ///     "major" : 1,
    ///     "minor" : 0,
    ///     "offset" : 42,
    ///     "hash" : [ 212, 29, 140, 217, 143, 0, 178, 4, 233, 128, 9, 152, 236, 248, 66, 126 ],
    ///     "key_length" : 4,
    ///     "key" : [ 85, 33, 228, 154 ],
    ///     "md_length" : 10
    /// }
    /// ```
    JSON,
    /// Use YAML format.  Currently targeting the 1.2 version of the YAML
    /// standard.  See http://yaml.org.
    ///
    /// # Example
    /// ```yaml
    /// magic: [ 145, 192 ]
    /// major: 1
    /// minor: 0
    /// offset: 42
    /// hash: [ 212, 29, 140, 217, 143, 0, 178, 4, 233, 128, 9, 152, 236, 248, 66, 126 ]
    /// key_length: 4
    /// key: [ 85, 33, 228, 154 ]
    /// md_length: 10
    /// ```
    YAML,
    /// Use XML format.  All data is part of a single element, with data
    /// values provided by attributes.
    ///
    /// # Example
    /// ```xml
    /// <pico magic='0x91C0' major='1' minor='0' offset='42' hash='D41D8CD98F00B204E9800998ECF8427E' key='5521E49A' md_length='10' />
    /// ```
    XML,
}

/// The format that an upper-case name stands for, if any.
pub open spec fn format_named(upper: Seq<char>) -> Option<HeaderFormat> {
    if upper == "DICT"@ {
        Some(HeaderFormat::DICT)
    } else if upper == "JSON"@ {
        Some(HeaderFormat::JSON)
    } else if upper == "YAML"@ {
        Some(HeaderFormat::YAML)
    } else if upper == "XML"@ {
        Some(HeaderFormat::XML)
    } else {
        None
    }
}

impl HeaderFormat {
    /// The format that `ciname`, a name already in upper case, stands for.
    ///
    /// A name that stands for none is refused with a message that shows
    /// it.
    pub fn from_upper(ciname: String) -> (result: Result<HeaderFormat, String>)
        ensures
            match format_named(ciname@) {
                Some(format) => result == Ok::<HeaderFormat, String>(format),
                None => result matches Err(message) && message@ == "Unknown header format: "@
                    + ciname@,
            },
    {
        if ciname == "DICT".to_owned() {
            Ok(HeaderFormat::DICT)
        } else if ciname == "JSON".to_owned() {
            Ok(HeaderFormat::JSON)
        } else if ciname == "YAML".to_owned() {
            Ok(HeaderFormat::YAML)
        } else if ciname == "XML".to_owned() {
            Ok(HeaderFormat::XML)
        } else {
            let mut message = "Unknown header format: ".to_owned();
            message.append(ciname.as_str());
            Err(message)
        }
    }

    /// The format that `name` stands for, whatever the case of its
    /// letters.
    ///
    /// A name that stands for none is refused with a message that shows
    /// it in upper case.
    pub fn from_str(name: &str) -> (result: Result<HeaderFormat, String>)
        ensures
            match format_named(uppercase(name@)) {
                Some(format) => result == Ok::<HeaderFormat, String>(format),
                None => result matches Err(message) && message@ == "Unknown header format: "@
                    + uppercase(name@),
            },
    {
        HeaderFormat::from_upper(to_uppercase(name))
    }
}

impl std::str::FromStr for HeaderFormat {
    type Err = String;

    fn from_str(name: &str) -> (result: Result<HeaderFormat, String>)
        ensures
            match format_named(uppercase(name@)) {
                Some(format) => result == Ok::<HeaderFormat, String>(format),
                None => result matches Err(message) && message@ == "Unknown header format: "@
                    + uppercase(name@),
            },
    {
        HeaderFormat::from_str(name)
    }
}

/// The bytes of a piece of fixed text.
pub open spec fn lit(text: &str) -> Seq<u8> {
    text.spec_bytes()
}

/// One line of a dict or JSON rendering that holds a list of bytes.
pub open spec fn braced_list(label: &str, bytes: Seq<u8>, hex: bool, end: &str) -> Seq<u8> {
    lit("    \"") + lit(label) + lit("\" : [ ") + dump_text(bytes, hex, true) + lit(" ]") + lit(
        end,
    )
}

/// One line of a dict or JSON rendering that holds a number.
pub open spec fn braced_number(label: &str, value: nat, end: &str) -> Seq<u8> {
    lit("    \"") + lit(label) + lit("\" : ") + decimal(value) + lit(end)
}

/// The dict rendering, with hexadecimal bytes, or the JSON rendering, with
/// decimal bytes and no comma after the last entry.
pub open spec fn braced(header: HeaderView, md_length: nat, hex: bool) -> Seq<u8> {
    lit("{\n") + braced_list("magic", be_bytes_u16(MAGIC), hex, ",\n") + braced_number(
        "major",
        header.major as nat,
        ",\n",
    ) + braced_number("minor", header.minor as nat, ",\n") + braced_number(
        "offset",
        header.offset as nat,
        ",\n",
    ) + braced_list("hash", header.hash, hex, ",\n") + braced_number(
        "key_length",
        header.key.len(),
        ",\n",
    ) + braced_list("key", header.key, hex, ",\n") + braced_number(
        "md_length",
        md_length,
        if hex {
            ",\n"
        } else {
            "\n"
        },
    ) + lit("}\n")
}

/// One line of a YAML rendering that holds a list of bytes.
pub open spec fn yaml_list(label: &str, bytes: Seq<u8>) -> Seq<u8> {
    lit(label) + lit(": [ ") + dump_text(bytes, false, true) + lit(" ]\n")
}

/// One line of a YAML rendering that holds a number.
pub open spec fn yaml_number(label: &str, value: nat) -> Seq<u8> {
    lit(label) + lit(": ") + decimal(value) + lit("\n")
}

/// The YAML rendering.
pub open spec fn yaml(header: HeaderView, md_length: nat) -> Seq<u8> {
    yaml_list("magic", be_bytes_u16(MAGIC)) + yaml_number("major", header.major as nat)
        + yaml_number("minor", header.minor as nat) + yaml_number("offset", header.offset as nat)
        + yaml_list("hash", header.hash) + yaml_number("key_length", header.key.len())
        + yaml_list("key", header.key) + yaml_number("md_length", md_length)
}

/// One attribute of the XML rendering whose value is a run of bytes in
/// hexadecimal.
pub open spec fn xml_bytes(opening: &str, bytes: Seq<u8>) -> Seq<u8> {
    lit(opening) + dump_text(bytes, true, false)
}

/// One attribute of the XML rendering whose value is a number.
pub open spec fn xml_number(opening: &str, value: nat) -> Seq<u8> {
    lit(opening) + decimal(value)
}

/// The XML rendering: one element, with the values as attributes.
pub open spec fn xml(header: HeaderView, md_length: nat) -> Seq<u8> {
    xml_bytes("<pico magic='0x", be_bytes_u16(MAGIC)) + xml_number(
        "' major='",
        header.major as nat,
    ) + xml_number("' minor='", header.minor as nat) + xml_number(
        "' offset='",
        header.offset as nat,
    ) + xml_bytes("' hash='", header.hash) + xml_bytes("' key='", header.key) + xml_number(
        "' md_length='",
        md_length,
    ) + lit("' />\n")
}

/// The text of a header in the given format.
pub open spec fn rendered(header: HeaderView, md_length: nat, format: HeaderFormat) -> Seq<u8> {
    match format {
        HeaderFormat::DICT => braced(header, md_length, true),
        HeaderFormat::JSON => braced(header, md_length, false),
        HeaderFormat::YAML => yaml(header, md_length),
        HeaderFormat::XML => xml(header, md_length),
    }
}

/// Append a piece of fixed text.
fn put_lit(target: &mut Vec<u8>, text: &str)
    ensures
        final(target)@ == old(target)@ + lit(text),
{
    append(target, text.as_bytes());
}

/// Append one line of a dict or JSON rendering that holds a list of bytes.
fn put_braced_list(target: &mut Vec<u8>, label: &str, bytes: &Vec<u8>, hex: bool, end: &str)
    ensures
        final(target)@ == old(target)@ + braced_list(label, bytes@, hex, end),
{
    put_lit(target, "    \"");
    put_lit(target, label);
    put_lit(target, "\" : [ ");
    dump_vec(target, bytes, hex, true);
    put_lit(target, " ]");
    put_lit(target, end);
}

/// Append one line of a dict or JSON rendering that holds a number.
fn put_braced_number(target: &mut Vec<u8>, label: &str, value: u64, end: &str)
    ensures
        final(target)@ == old(target)@ + braced_number(label, value as nat, end),
{
    put_lit(target, "    \"");
    put_lit(target, label);
    put_lit(target, "\" : ");
    push_decimal(target, value);
    put_lit(target, end);
}

/// Append one line of a YAML rendering that holds a list of bytes.
fn put_yaml_list(target: &mut Vec<u8>, label: &str, bytes: &Vec<u8>)
    ensures
        final(target)@ == old(target)@ + yaml_list(label, bytes@),
{
    put_lit(target, label);
    put_lit(target, ": [ ");
    dump_vec(target, bytes, false, true);
    put_lit(target, " ]\n");
}

/// Append one line of a YAML rendering that holds a number.
fn put_yaml_number(target: &mut Vec<u8>, label: &str, value: u64)
    ensures
        final(target)@ == old(target)@ + yaml_number(label, value as nat),
{
    put_lit(target, label);
    put_lit(target, ": ");
    push_decimal(target, value);
    put_lit(target, "\n");
}

/// Append one attribute of the XML rendering whose value is a run of bytes.
fn put_xml_bytes(target: &mut Vec<u8>, opening: &str, bytes: &Vec<u8>)
    ensures
        final(target)@ == old(target)@ + xml_bytes(opening, bytes@),
{
    put_lit(target, opening);
    dump_vec(target, bytes, true, false);
}

/// Append one attribute of the XML rendering whose value is a number.
fn put_xml_number(target: &mut Vec<u8>, opening: &str, value: u64)
    ensures
        final(target)@ == old(target)@ + xml_number(opening, value as nat),
{
    put_lit(target, opening);
    push_decimal(target, value);
}

/// A vector that holds the bytes of `data`.
fn bytes_of(data: &[u8]) -> (bytes: Vec<u8>)
    ensures
        bytes@ == data@,
{
    let mut bytes: Vec<u8> = Vec::new();
    append(&mut bytes, data);
    bytes
}

/// The dict rendering when `hex` is set, else the JSON rendering.
fn braced_text(fields: &HeaderFields, md_length: usize, hex: bool) -> (text: Vec<u8>)
    ensures
        text@ == braced(fields@, md_length as nat, hex),
{
    let magic: Vec<u8> = bytes_of(&MAGIC.get_bytes());
    let hash: Vec<u8> = bytes_of(fields.hash.as_slice());
    let mut text: Vec<u8> = Vec::new();
    put_lit(&mut text, "{\n");
    put_braced_list(&mut text, "magic", &magic, hex, ",\n");
    put_braced_number(&mut text, "major", fields.major as u64, ",\n");
    put_braced_number(&mut text, "minor", fields.minor as u64, ",\n");
    put_braced_number(&mut text, "offset", fields.offset as u64, ",\n");
    put_braced_list(&mut text, "hash", &hash, hex, ",\n");
    put_braced_number(&mut text, "key_length", fields.key.len() as u64, ",\n");
    put_braced_list(&mut text, "key", &fields.key, hex, ",\n");
    put_braced_number(&mut text, "md_length", md_length as u64, if hex {
        ",\n"
    } else {
        "\n"
    });
    put_lit(&mut text, "}\n");
    text
}

/// The YAML rendering.
fn yaml_text(fields: &HeaderFields, md_length: usize) -> (text: Vec<u8>)
    ensures
        text@ == yaml(fields@, md_length as nat),
{
    let magic: Vec<u8> = bytes_of(&MAGIC.get_bytes());
    let hash: Vec<u8> = bytes_of(fields.hash.as_slice());
    let mut text: Vec<u8> = Vec::new();
    put_yaml_list(&mut text, "magic", &magic);
    put_yaml_number(&mut text, "major", fields.major as u64);
    put_yaml_number(&mut text, "minor", fields.minor as u64);
    put_yaml_number(&mut text, "offset", fields.offset as u64);
    put_yaml_list(&mut text, "hash", &hash);
    put_yaml_number(&mut text, "key_length", fields.key.len() as u64);
    put_yaml_list(&mut text, "key", &fields.key);
    put_yaml_number(&mut text, "md_length", md_length as u64);
    text
}

/// The XML rendering.
fn xml_text(fields: &HeaderFields, md_length: usize) -> (text: Vec<u8>)
    ensures
        text@ == xml(fields@, md_length as nat),
{
    let magic: Vec<u8> = bytes_of(&MAGIC.get_bytes());
    let hash: Vec<u8> = bytes_of(fields.hash.as_slice());
    let mut text: Vec<u8> = Vec::new();
    put_xml_bytes(&mut text, "<pico magic='0x", &magic);
    put_xml_number(&mut text, "' major='", fields.major as u64);
    put_xml_number(&mut text, "' minor='", fields.minor as u64);
    put_xml_number(&mut text, "' offset='", fields.offset as u64);
    put_xml_bytes(&mut text, "' hash='", &hash);
    put_xml_bytes(&mut text, "' key='", &fields.key);
    put_xml_number(&mut text, "' md_length='", md_length as u64);
    put_lit(&mut text, "' />\n");
    text
}

/// Write the header as text in the given format.
///
/// The text is appended to `target`.  It shows the magic number, the
/// version, the data offset, the hash, the key with its length, and the
/// length of the metadata region.
pub fn render_header(
    target: &mut Vec<u8>,
    fields: &HeaderFields,
    md_length: usize,
    format: &HeaderFormat,
)
    ensures
        final(target)@ == old(target)@ + rendered(fields@, md_length as nat, *format),
{
    let text: Vec<u8> = match format {
        HeaderFormat::DICT => braced_text(fields, md_length, true),
        HeaderFormat::JSON => braced_text(fields, md_length, false),
        HeaderFormat::YAML => yaml_text(fields, md_length),
        HeaderFormat::XML => xml_text(fields, md_length),
    };
    append(target, text.as_slice());
}

} // verus!
