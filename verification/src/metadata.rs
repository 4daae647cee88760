//! Interpretation of a bundle's property-list descriptor.
//!
//! The descriptor is the structured metadata file of the bundle. Of the whole
//! value tree this library reads one thing: whether the top-level value is a
//! dictionary, and, if so, the string under its icon key.

use vstd::prelude::*;

verus! {

#[verifier::external_type_specification]
#[verifier::external_body]
pub struct ExPlistValue(plist::Value);

/// The key under which a bundle declares its icon resource name.
pub open spec fn spec_icon_key() -> Seq<char> {
    "CFBundleIconFile"@
}

/// What this library reads of a parsed property-list value: `None` when the
/// value is not a dictionary; otherwise the mapping of each key of the
/// dictionary to `Some` of its text for string values and to `None` for
/// values of any other type.
pub uninterp spec fn spec_value_doc(v: plist::Value) -> Option<
    Map<Seq<char>, Option<Seq<char>>>,
>;

/// What parsing bytes as a property list yields, as far as this library
/// reads it: `None` when the bytes do not parse, otherwise the view of the
/// parsed value. Parsing is a pure computation on the bytes.
pub uninterp spec fn spec_descriptor_of(bytes: Seq<u8>) -> Option<
    Option<Map<Seq<char>, Option<Seq<char>>>>,
>;

/// Relies on `plist::Value::from_reader`, which parses a property list
/// (binary, XML or ASCII) from a seekable byte stream, or fails on bytes in
/// none of these formats.
#[verifier::external_body]
fn parse_value(bytes: &Vec<u8>) -> (r: Option<plist::Value>)
    ensures
        r is Some <==> spec_descriptor_of(bytes@) is Some,
        r matches Some(v) ==> Some(spec_value_doc(v)) == spec_descriptor_of(bytes@),
{
    plist::Value::from_reader(std::io::Cursor::new(bytes.as_slice())).ok()
}

/// Relies on `plist::Value::as_dictionary`, which tells a dictionary value
/// from a value of any other type.
#[verifier::external_body]
fn value_is_dictionary(v: &plist::Value) -> (r: bool)
    ensures
        r <==> spec_value_doc(*v) is Some,
{
    v.as_dictionary().is_some()
}

/// Relies on `plist::Value::as_dictionary`, on `plist::Dictionary::get`,
/// which looks a key up in a dictionary, and on `plist::Value::as_string`,
/// which tells a string value from a value of any other type.
#[verifier::external_body]
fn dictionary_string(v: &plist::Value, key: &str) -> (r: Option<String>)
    ensures
        spec_value_doc(*v) matches Some(m) ==> ((r is Some) <==> (m.contains_key(key@) && m[key@]
            is Some)),
        spec_value_doc(*v) matches Some(m) && r matches Some(s) ==> Some(s@) == m[key@],
        spec_value_doc(*v) is None ==> r is None,
{
    let s = v.as_dictionary()?.get(key)?.as_string()?;
    Some(s.to_string())
}

/// What a bundle's descriptor declares about the icon resource.
pub enum IconDeclaration {
    /// The descriptor bytes could not be parsed.
    Unreadable,
    /// The descriptor parsed, but its top-level value is not a dictionary.
    NotADictionary,
    /// The descriptor is a dictionary, but the icon key is absent or its
    /// value is not a string: the default icon stands in.
    NoneDeclared,
    /// The declared icon resource base name.
    Declared(String),
}

/// Exact statement of how a declaration is read off a parsed descriptor.
pub open spec fn spec_declaration_of(
    doc: Option<Option<Map<Seq<char>, Option<Seq<char>>>>>,
    r: IconDeclaration,
) -> bool {
    match doc {
        None => r == IconDeclaration::Unreadable,
        Some(None) => r == IconDeclaration::NotADictionary,
        Some(Some(m)) => if m.contains_key(spec_icon_key()) && m[spec_icon_key()] is Some {
            r matches IconDeclaration::Declared(name) && Some(name@) == m[spec_icon_key()]
        } else {
            r == IconDeclaration::NoneDeclared
        },
    }
}

/// Reads the icon declaration out of the bytes of a bundle's descriptor
/// file: the value under the `CFBundleIconFile` key, when the descriptor is
/// a dictionary holding that key with a string value.
pub fn read_icon_declaration(bytes: &Vec<u8>) -> (r: IconDeclaration)
    ensures
        spec_declaration_of(spec_descriptor_of(bytes@), r),
{
    let v = match parse_value(bytes) {
        Some(v) => v,
        None => {
            return IconDeclaration::Unreadable;
        },
    };
    if !value_is_dictionary(&v) {
        return IconDeclaration::NotADictionary;
    }
    match dictionary_string(&v, "CFBundleIconFile") {
        Some(name) => IconDeclaration::Declared(name),
        None => IconDeclaration::NoneDeclared,
    }
}

} // verus!
