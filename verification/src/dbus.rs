//! Reading the bodies of the signals that Avahi's browsers emit.

use vstd::prelude::*;
use zbus::zvariant::serialized::{Context, Data};
use zbus::zvariant::Endian;

verus! {

/// The body of a D-Bus message.
pub struct MessageBody {
    /// The encoded arguments.
    pub bytes: Vec<u8>,
    /// Their signature.
    pub signature: String,
    /// Whether numbers are encoded in big-endian order, rather than little-endian.
    pub big_endian: bool,
}

/// The arguments of a service-type `ItemNew` signal: interface, protocol, type,
/// domain and flags.
pub type TypeItemArguments = (i32, i32, Seq<char>, Seq<char>, u32);

/// The arguments of an instance `ItemNew` or `ItemRemove` signal: interface,
/// protocol, name, type, domain and flags.
pub type InstanceItemArguments = (i32, i32, Seq<char>, Seq<char>, Seq<char>, u32);

/// What D-Bus decoding gives for a body that should hold a [`TypeItemArguments`]:
/// nothing for another signature or for malformed bytes.
pub uninterp spec fn decoded_type_item(
    bytes: Seq<u8>,
    signature: Seq<char>,
    big_endian: bool,
) -> Option<(i32, i32, Seq<char>, Seq<char>, u32)>;

/// What D-Bus decoding gives for a body that should hold an
/// [`InstanceItemArguments`]: nothing for another signature or for malformed bytes.
pub uninterp spec fn decoded_instance_item(
    bytes: Seq<u8>,
    signature: Seq<char>,
    big_endian: bool,
) -> Option<(i32, i32, Seq<char>, Seq<char>, Seq<char>, u32)>;

/// What D-Bus decoding gives for a body that should hold one string: nothing for
/// another signature or for malformed bytes.
pub uninterp spec fn decoded_string(
    bytes: Seq<u8>,
    signature: Seq<char>,
    big_endian: bool,
) -> Option<Seq<char>>;

/// Decodes two numbers, two strings and a number with zvariant's
/// `Data::deserialize_for_dynamic_signature`. A body starts on an 8-byte boundary
/// of its message, so alignment counts from zero.
///
/// What is taken on trust: the result is a function of the bytes, the signature
/// and the byte order alone. How the arguments are encoded is not stated.
#[verifier::external_body]
fn decode_type_item(bytes: &[u8], signature: &str, big_endian: bool) -> (arguments: Option<
    (i32, i32, String, String, u32),
>)
    ensures
        arguments.deep_view() == decoded_type_item(bytes@, signature@, big_endian),
{
    let endian = if big_endian { Endian::Big } else { Endian::Little };
    let data = Data::new(bytes, Context::new_dbus(endian, 0));
    data.deserialize_for_dynamic_signature(signature).ok().map(|decoded| decoded.0)
}

/// Decodes two numbers, three strings and a number with zvariant's
/// `Data::deserialize_for_dynamic_signature`. A body starts on an 8-byte boundary
/// of its message, so alignment counts from zero.
///
/// What is taken on trust: the result is a function of the bytes, the signature
/// and the byte order alone. How the arguments are encoded is not stated.
#[verifier::external_body]
fn decode_instance_item(bytes: &[u8], signature: &str, big_endian: bool) -> (arguments: Option<
    (i32, i32, String, String, String, u32),
>)
    ensures
        arguments.deep_view() == decoded_instance_item(bytes@, signature@, big_endian),
{
    let endian = if big_endian { Endian::Big } else { Endian::Little };
    let data = Data::new(bytes, Context::new_dbus(endian, 0));
    data.deserialize_for_dynamic_signature(signature).ok().map(|decoded| decoded.0)
}

/// Decodes a string with zvariant's `Data::deserialize_for_dynamic_signature`. A
/// body starts on an 8-byte boundary of its message, so alignment counts from zero.
///
/// What is taken on trust: the result is a function of the bytes, the signature
/// and the byte order alone. How a string is encoded is not stated.
#[verifier::external_body]
fn decode_string(bytes: &[u8], signature: &str, big_endian: bool) -> (text: Option<String>)
    ensures
        text.deep_view() == decoded_string(bytes@, signature@, big_endian),
{
    let endian = if big_endian { Endian::Big } else { Endian::Little };
    let data = Data::new(bytes, Context::new_dbus(endian, 0));
    data.deserialize_for_dynamic_signature(signature).ok().map(|decoded| decoded.0)
}

impl MessageBody {
    /// The arguments of a service-type `ItemNew` signal that the body holds, if it
    /// does.
    pub open spec fn type_item(self) -> Option<TypeItemArguments> {
        decoded_type_item(self.bytes@, self.signature@, self.big_endian)
    }

    /// The arguments of an instance signal that the body holds, if it does.
    pub open spec fn instance_item(self) -> Option<InstanceItemArguments> {
        decoded_instance_item(self.bytes@, self.signature@, self.big_endian)
    }

    /// The string that the body holds, if it does.
    pub open spec fn string(self) -> Option<Seq<char>> {
        decoded_string(self.bytes@, self.signature@, self.big_endian)
    }

    /// Reads the arguments of a service-type `ItemNew` signal.
    pub fn read_type_item(&self) -> (arguments: Option<(i32, i32, String, String, u32)>)
        ensures
            arguments.deep_view() == self.type_item(),
            arguments.deep_view() == decoded_type_item(
                self.bytes@,
                self.signature@,
                self.big_endian,
            ),
    {
        decode_type_item(self.bytes.as_slice(), self.signature.as_str(), self.big_endian)
    }

    /// Reads the arguments of an instance `ItemNew` or `ItemRemove` signal.
    pub fn read_instance_item(&self) -> (arguments: Option<
        (i32, i32, String, String, String, u32),
    >)
        ensures
            arguments.deep_view() == self.instance_item(),
            arguments.deep_view() == decoded_instance_item(
                self.bytes@,
                self.signature@,
                self.big_endian,
            ),
    {
        decode_instance_item(self.bytes.as_slice(), self.signature.as_str(), self.big_endian)
    }

    /// Reads the single string of a `Failure` signal.
    pub fn read_string(&self) -> (text: Option<String>)
        ensures
            text.deep_view() == self.string(),
            text.deep_view() == decoded_string(self.bytes@, self.signature@, self.big_endian),
    {
        decode_string(self.bytes.as_slice(), self.signature.as_str(), self.big_endian)
    }
}

/// A body is decoded as it is: its own bytes, by its own signature, in its own byte
/// order.
pub proof fn law_body_decoding(body: MessageBody)
    ensures
        body.type_item() == decoded_type_item(body.bytes@, body.signature@, body.big_endian),
        body.instance_item() == decoded_instance_item(
            body.bytes@,
            body.signature@,
            body.big_endian,
        ),
        body.string() == decoded_string(body.bytes@, body.signature@, body.big_endian),
{
}

} // verus!
