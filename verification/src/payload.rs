//! Message payloads read as JSON.
//!
//! The session hands payloads over byte for byte. A consumer that wants
//! them as JSON values uses a [`DataContainer`]; reading and writing the
//! JSON text is `serde_json`'s work.

use vstd::prelude::*;
use vstd::std_specs::convert::FromSpecImpl;

verus! {

/// `serde_json::Value`: any JSON value. Nothing inside it is visible here.
#[verifier::external_type_specification]
#[verifier::external_body]
pub struct ExJsonValue(serde_json::Value);

/// `serde_json::Error`: why JSON could not be read or written. Nothing
/// inside it is visible here.
#[verifier::external_type_specification]
#[verifier::external_body]
pub struct ExJsonError(serde_json::Error);

/// The value that `serde_json::from_slice` reads from the given bytes, and
/// `None` for bytes that it rejects.
pub uninterp spec fn json_read(bytes: Seq<u8>) -> Option<serde_json::Value>;

/// The bytes that `serde_json::to_vec` writes for the given value, and
/// `None` for a value that it fails on.
pub uninterp spec fn json_written(value: serde_json::Value) -> Option<Seq<u8>>;

/// Calls `serde_json::from_slice` for a `serde_json::Value`. What it reads
/// depends on the bytes alone: the contract gives the value read its name,
/// says that an error comes exactly where nothing is read, and says nothing
/// of what JSON is.
#[verifier::external_body]
fn read_json(bytes: &[u8]) -> (r: Result<serde_json::Value, serde_json::Error>)
    ensures
        match r {
            Ok(v) => json_read(bytes@) == Some(v),
            Err(_) => json_read(bytes@) is None,
        },
{
    serde_json::from_slice(bytes)
}

/// Calls `serde_json::to_vec` on a `serde_json::Value`. What it writes
/// depends on the value alone: the contract gives the bytes written their
/// name and says that an error comes exactly where nothing is written.
#[verifier::external_body]
fn write_json(value: &serde_json::Value) -> (r: Result<Vec<u8>, serde_json::Error>)
    ensures
        match r {
            Ok(bytes) => json_written(*value) == Some(bytes@),
            Err(_) => json_written(*value) is None,
        },
{
    serde_json::to_vec(value)
}

/// A payload as a JSON value.
#[derive(Debug)]
pub struct DataContainer {
    pub data: serde_json::Value,
}

impl DataContainer {
    /// What [`DataContainer::deserialize_message`] makes of what was read:
    /// the value in a container, or the error as it is.
    pub fn from_parsed(parsed: Result<serde_json::Value, serde_json::Error>) -> (r: Result<
        DataContainer,
        serde_json::Error,
    >)
        ensures
            match parsed {
                Ok(v) => r matches Ok(c) && c.data == v,
                Err(e) => r matches Err(x) && x == e,
            },
    {
        match parsed {
            Ok(d) => Ok(DataContainer { data: d }),
            Err(e) => Err(e),
        }
    }

    /// Reads a payload as JSON. Succeeds exactly on the bytes that are read
    /// as a value, with that value.
    pub fn deserialize_message(payload: &[u8]) -> (r: Result<DataContainer, serde_json::Error>)
        ensures
            match json_read(payload@) {
                Some(v) => r matches Ok(c) && c.data == v,
                None => r is Err,
            },
    {
        Self::from_parsed(read_json(payload))
    }

    /// Writes the value as the bytes of a payload. Succeeds exactly on the
    /// values for which bytes are written, with those bytes.
    pub fn serialize_message(input: DataContainer) -> (r: Result<Vec<u8>, serde_json::Error>)
        ensures
            match json_written(input.data) {
                Some(bytes) => r matches Ok(p) && p@ == bytes,
                None => r is Err,
            },
    {
        write_json(&input.data)
    }
}

impl From<serde_json::Value> for DataContainer {
    fn from(value: serde_json::Value) -> (r: DataContainer) {
        DataContainer { data: value }
    }
}

impl FromSpecImpl<serde_json::Value> for DataContainer {
    open spec fn obeys_from_spec() -> bool {
        true
    }

    open spec fn from_spec(value: serde_json::Value) -> DataContainer {
        DataContainer { data: value }
    }
}

} // verus!
