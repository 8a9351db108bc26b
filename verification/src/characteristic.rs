//! GATT characteristic identifiers and the characteristic set of a connected
//! peripheral.

use std::collections::HashMap;
use vstd::prelude::*;

verus! {

/// A 128-bit identifier naming a GATT characteristic: the UUID's bytes packed
/// big-endian, as `uuid::Uuid::as_u128` gives them. Two identifiers are the
/// same exactly when all 128 bits agree.
pub type CharacteristicId = u128;

/// The characteristic that takes the unlock string,
/// `00020005-574f-4f20-5370-6865726f2121`.
pub const ANTI_DOS: CharacteristicId = 0x00020005_574f_4f20_5370_6865726f2121;

/// The characteristic that carries commands and notifications,
/// `00010002-574f-4f20-5370-6865726f2121`.
pub const API_V2: CharacteristicId = 0x00010002_574f_4f20_5370_6865726f2121;

/// The characteristic that controls firmware updates,
/// `00020002-574f-4f20-5370-6865726f2121`.
pub const DFU_CONTROL: CharacteristicId = 0x00020002_574f_4f20_5370_6865726f2121;

/// The text was not a UUID in any form that the parser accepts.
#[derive(Clone, Copy, Debug, PartialEq, Eq, Structural)]
pub enum IdError {
    Malformed,
}

#[verifier::external_type_specification]
#[verifier::external_body]
pub struct ExUuidError(uuid::Error);

/// The 128-bit value that `uuid::Uuid::parse_str` reads from `text`, or `None`
/// where it rejects the text.
pub uninterp spec fn uuid_text_value(text: Seq<char>) -> Option<u128>;

/// Calls `uuid::Uuid::parse_str` and, on success, `uuid::Uuid::as_u128`.
/// Trusted: the outcome depends on the text alone, so it is
/// [`uuid_text_value`] of the text. Nothing is claimed about which texts are
/// accepted.
#[verifier::external_body]
fn parse_uuid(text: &str) -> (result: Result<u128, uuid::Error>)
    ensures
        match result {
            Ok(value) => uuid_text_value(text@) == Some(value),
            Err(_) => uuid_text_value(text@) is None,
        },
{
    match uuid::Uuid::parse_str(text) {
        Ok(id) => Ok(id.as_u128()),
        Err(error) => Err(error),
    }
}

/// The identifier that a parsed UUID text stands for.
pub open spec fn id_from_parsed(parsed: Option<u128>) -> Result<CharacteristicId, IdError> {
    match parsed {
        Some(value) => Ok(value),
        None => Err(IdError::Malformed),
    }
}

/// Turns the parser's outcome into an identifier, or into `Malformed` where
/// the parser rejected the text.
pub fn id_from_outcome(outcome: Result<u128, uuid::Error>) -> (result: Result<
    CharacteristicId,
    IdError,
>)
    ensures
        outcome matches Ok(value) ==> result == Ok::<CharacteristicId, IdError>(value),
        outcome is Err ==> result == Err::<CharacteristicId, IdError>(IdError::Malformed),
{
    match outcome {
        Ok(value) => Ok(value),
        Err(_) => Err(IdError::Malformed),
    }
}

/// Reads an identifier from UUID text such as
/// `00010002-574f-4f20-5370-6865726f2121`.
pub fn parse_characteristic_id(text: &str) -> (result: Result<CharacteristicId, IdError>)
    ensures
        result == id_from_parsed(uuid_text_value(text@)),
{
    id_from_outcome(parse_uuid(text))
}

/// What a characteristic lets a client do.
#[derive(Clone, Copy, Debug, PartialEq, Eq, Structural)]
pub struct Capabilities {
    pub read: bool,
    pub write: bool,
    pub notify: bool,
}

/// The table holds no characteristic with the requested identifier.
#[derive(Clone, Copy, Debug, PartialEq, Eq, Structural)]
pub enum LookupError {
    NotFound,
}

/// The characteristics that a peripheral offers, keyed by identifier.
#[derive(Debug)]
pub struct CharacteristicTable {
    entries: HashMap<CharacteristicId, Capabilities>,
}

impl View for CharacteristicTable {
    type V = Map<CharacteristicId, Capabilities>;

    closed spec fn view(&self) -> Map<CharacteristicId, Capabilities> {
        self.entries@
    }
}

impl Clone for CharacteristicTable {
    fn clone(&self) -> (copy: CharacteristicTable)
        ensures
            copy@ == self@,
    {
        CharacteristicTable { entries: self.entries.clone() }
    }
}

/// Whether `table` holds `id` with the notify capability.
pub open spec fn advertises_notify(
    table: Map<CharacteristicId, Capabilities>,
    id: CharacteristicId,
) -> bool {
    table.contains_key(id) && table[id].notify
}

impl CharacteristicTable {
    /// The empty table.
    pub fn new() -> (table: CharacteristicTable)
        ensures
            table@ == Map::<CharacteristicId, Capabilities>::empty(),
    {
        CharacteristicTable { entries: HashMap::new() }
    }

    /// Records `capabilities` for `id`, replacing what was recorded before.
    pub fn insert(&mut self, id: CharacteristicId, capabilities: Capabilities)
        ensures
            final(self)@ == old(self)@.insert(id, capabilities),
    {
        self.entries.insert(id, capabilities);
    }

    /// The capabilities recorded for `id`, or `NotFound`.
    pub fn lookup(&self, id: CharacteristicId) -> (result: Result<Capabilities, LookupError>)
        ensures
            self@.contains_key(id) ==> result == Ok::<Capabilities, LookupError>(self@[id]),
            !self@.contains_key(id) ==> result == Err::<Capabilities, LookupError>(
                LookupError::NotFound,
            ),
    {
        match self.entries.get(&id) {
            Some(capabilities) => Ok(*capabilities),
            None => Err(LookupError::NotFound),
        }
    }

    /// Whether the table holds `id` with the notify capability.
    pub fn supports_notify(&self, id: CharacteristicId) -> (supported: bool)
        ensures
            supported == advertises_notify(self@, id),
    {
        match self.lookup(id) {
            Ok(capabilities) => capabilities.notify,
            Err(_) => false,
        }
    }
}

} // verus!
