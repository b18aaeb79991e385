//! The stored cursor: how it is read, and what is written back.

use vstd::prelude::*;
use crate::time::{parse_rfc3339, rfc3339_text, rfc3339_timestamp, to_rfc3339, Timestamp, DAY_SECONDS};

verus! {

/// Why a cursor could not be read or written.
#[derive(Debug, PartialEq, Eq)]
pub enum CursorError {
    /// The stored text is no RFC 3339 date.
    Unreadable,
    /// The instant cannot be represented.
    OutOfRange,
}

/// Where the cursor is stored.
#[derive(Debug, PartialEq, Eq)]
pub struct CursorKey {
    pub table: String,
    pub key_name: String,
    pub key_value: String,
    pub attribute: String,
}

/// One write of the cursor.
#[derive(Debug)]
pub struct CursorWrite {
    pub key: CursorKey,
    pub update_expression: String,
    pub value_name: String,
    pub value: String,
}

/// The place of the cursor in the store, as texts.
pub open spec fn is_cursor_key(key: CursorKey) -> bool {
    &&& key.table@ == "Valihuuto"@
    &&& key.key_name@ == "id"@
    &&& key.key_value@ == "1"@
    &&& key.attribute@ == "lastchecked"@
}

/// The cursor that a cycle works from: the stored one, or one day before
/// `now` where nothing is stored.
pub open spec fn cursor_from(stored: Option<Seq<char>>, now: Timestamp) -> Result<Timestamp, CursorError> {
    match stored {
        Some(text) => match rfc3339_timestamp(text) {
            Some(t) => Ok(t),
            None => Err(CursorError::Unreadable),
        },
        None => if now.secs - DAY_SECONDS >= i64::MIN {
            Ok(now.earlier_by(DAY_SECONDS as int))
        } else {
            Err(CursorError::OutOfRange)
        },
    }
}

/// The view of an optional string slice.
pub open spec fn opt_str(s: Option<&str>) -> Option<Seq<char>> {
    match s {
        Some(t) => Some(t@),
        None => None,
    }
}

/// The place of the cursor in the store.
pub fn cursor_key() -> (r: CursorKey)
    ensures
        is_cursor_key(r),
{
    CursorKey {
        table: "Valihuuto".to_owned(),
        key_name: "id".to_owned(),
        key_value: "1".to_owned(),
        attribute: "lastchecked".to_owned(),
    }
}

/// The cursor to work from, given what the store holds and the present
/// instant: the stored date, or one day before now where nothing is stored.
pub fn get_last_checked_date(stored: Option<&str>, now: &Timestamp) -> (r: Result<Timestamp, CursorError>)
    ensures
        r == cursor_from(opt_str(stored), *now),
{
    match stored {
        Some(text) => match parse_rfc3339(text) {
            Some(t) => Ok(t),
            None => Err(CursorError::Unreadable),
        },
        None => match now.day_before() {
            Some(t) => Ok(t),
            None => Err(CursorError::OutOfRange),
        },
    }
}

/// The write that stores `date` as the cursor: its RFC 3339 text under the
/// cursor's key. An instant that cannot be written is an error.
pub fn update_last_checked_date(date: &Timestamp) -> (r: Result<CursorWrite, CursorError>)
    ensures
        match rfc3339_text(*date) {
            Some(text) => {
                &&& r.is_ok()
                &&& is_cursor_key(r.unwrap().key)
                &&& r.unwrap().update_expression@ == "SET lastchecked = :date"@
                &&& r.unwrap().value_name@ == ":date"@
                &&& r.unwrap().value@ == text
            },
            None => r == Err::<CursorWrite, CursorError>(CursorError::OutOfRange),
        },
{
    match to_rfc3339(date) {
        Some(value) => Ok(
            CursorWrite {
                key: cursor_key(),
                update_expression: "SET lastchecked = :date".to_owned(),
                value_name: ":date".to_owned(),
                value,
            },
        ),
        None => Err(CursorError::OutOfRange),
    }
}

} // verus!
