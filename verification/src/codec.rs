//! The byte form of an entry, as the Candid crate writes and reads it, and the
//! rule that decides which entries the store accepts.

use crate::entry::{EntryModel, SkillExchangeEntry};
use vstd::prelude::*;

verus! {

/// The largest byte form that the store accepts for one entry.
pub const MAX_SIZE: usize = 1024;

/// The bytes that Candid writes for an entry, or `None` where it refuses.
pub uninterp spec fn candid_encoding(e: EntryModel) -> Option<Seq<u8>>;

/// The entry that Candid reads from `bytes`, or `None` where it refuses them.
pub uninterp spec fn candid_decoding(bytes: Seq<u8>) -> Option<EntryModel>;

/// `candid::encode_args` on the entry's ten fields in declaration order, as
/// ten arguments: the bytes it writes, or `None` where it reports an error.
/// The result is a function of the entry's value alone.
#[verifier::external_body]
pub(crate) fn encode_entry(e: &SkillExchangeEntry) -> (r: Option<Vec<u8>>)
    ensures
        match r {
            Some(bytes) => candid_encoding(e@) == Some(bytes@),
            None => candid_encoding(e@) is None,
        },
{
    candid::encode_args((
        e.id, e.user_id, &e.title, &e.description, &e.category,
        &e.skills_offered, &e.skills_wanted, &e.location, e.created_at, e.updated_at,
    )).ok()
}

/// `candid::decode_args` for the same ten arguments: the entry made of the
/// values it reads, or `None` where it reports an error. The result is a
/// function of the bytes alone.
#[verifier::external_body]
pub(crate) fn decode_entry(bytes: &Vec<u8>) -> (r: Option<SkillExchangeEntry>)
    ensures
        match r {
            Some(e) => candid_decoding(bytes@) == Some(e@),
            None => candid_decoding(bytes@) is None,
        },
{
    let t: (u64, u64, String, String, String, Vec<String>, Vec<String>, String, u64, Option<u64>) =
        candid::decode_args(bytes).ok()?;
    let (id, user_id, title, description, category) = (t.0, t.1, t.2, t.3, t.4);
    let (skills_offered, skills_wanted, location, created_at, updated_at) = (t.5, t.6, t.7, t.8, t.9);
    Some(
        SkillExchangeEntry {
            id, user_id, title, description, category,
            skills_offered, skills_wanted, location, created_at, updated_at,
        },
    )
}

/// Whether `bytes` are an acceptable stored form of `e`: within the size
/// ceiling, and read back as `e` itself.
pub open spec fn stores_as(e: EntryModel, bytes: Seq<u8>) -> bool {
    bytes.len() <= MAX_SIZE && candid_decoding(bytes) == Some(e)
}

/// Whether the store accepts `e`: it has a byte form, and that form is an
/// acceptable stored form of it.
pub open spec fn storable(e: EntryModel) -> bool {
    match candid_encoding(e) {
        Some(bytes) => stores_as(e, bytes),
        None => false,
    }
}

/// Decides whether `bytes` are an acceptable stored form of `e`, given what
/// reading them back produced.
pub fn accepts(e: &SkillExchangeEntry, bytes: &Vec<u8>, read_back: &Option<SkillExchangeEntry>) -> (r:
    bool)
    ensures
        r == (bytes@.len() <= MAX_SIZE && match read_back {
            Some(back) => back@ == e@,
            None => false,
        }),
{
    if bytes.len() > MAX_SIZE {
        return false;
    }
    match read_back {
        Some(back) => back.same(e),
        None => false,
    }
}

/// The stored form of `e`, if the store accepts it.
pub fn seal(e: &SkillExchangeEntry) -> (r: Option<Vec<u8>>)
    ensures
        r is Some <==> storable(e@),
        r is Some ==> candid_encoding(e@) == Some(r->Some_0@),
{
    match encode_entry(e) {
        Some(bytes) => {
            let read_back = decode_entry(&bytes);
            if accepts(e, &bytes, &read_back) {
                Some(bytes)
            } else {
                None
            }
        },
        None => None,
    }
}

/// The entry stored as `bytes` under `key`: what the bytes read as, provided
/// that entry carries `key` as its id.
pub open spec fn stored_entry(key: u64, bytes: Seq<u8>) -> Option<EntryModel> {
    match candid_decoding(bytes) {
        Some(e) => if e.id == key {
            Some(e)
        } else {
            None
        },
        None => None,
    }
}

/// Decides which entry, if any, is stored under `key`, given what reading the
/// stored bytes produced.
pub fn keyed(key: u64, read: Option<SkillExchangeEntry>) -> (r: Option<SkillExchangeEntry>)
    ensures
        match read {
            Some(e) => if e.id == key {
                r == Some(e)
            } else {
                r is None
            },
            None => r is None,
        },
{
    match read {
        Some(e) => if e.id == key {
            Some(e)
        } else {
            None
        },
        None => None,
    }
}

/// Reads the entry stored as `bytes` under `key`.
pub fn unseal(key: u64, bytes: &Vec<u8>) -> (r: Option<SkillExchangeEntry>)
    ensures
        match r {
            Some(e) => stored_entry(key, bytes@) == Some(e@),
            None => stored_entry(key, bytes@) is None,
        },
{
    keyed(key, decode_entry(bytes))
}

} // verus!
