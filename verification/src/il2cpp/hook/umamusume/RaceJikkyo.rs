//! Replacing the race commentary with its localized text.
use vstd::prelude::*;

use std::collections::HashMap;

verus! {

broadcast use vstd::std_specs::hash::group_hash_axioms;

/// The fields `Id` and `Message` of a commentary entry class, once both are found.
#[derive(Clone, Copy, Debug, PartialEq, Eq, Structural)]
pub struct JikkyoFields {
    pub id_field: usize,
    pub text_field: usize,
}

/// The fields to hook with: both must have been found (non-zero), else the
/// entry class is left alone.
pub fn jikkyo_fields(id_field: usize, text_field: usize) -> (r: Option<JikkyoFields>)
    ensures
        match r {
            Some(f) => id_field != 0 && text_field != 0 && f.id_field == id_field && f.text_field
                == text_field,
            None => id_field == 0 || text_field == 0,
        },
{
    if id_field == 0 || text_field == 0 {
        return None;
    }
    Some(JikkyoFields { id_field, text_field })
}

/// Which hooks `init` installs: the message hooks when the message entry's
/// fields were found, the comment hooks when the comment entry's were.
#[derive(Clone, Copy, Debug, PartialEq, Eq, Structural)]
pub struct JikkyoHooks {
    pub message: Option<JikkyoFields>,
    pub comment: Option<JikkyoFields>,
}

/// The hooks for the message entry (`MasterRaceJikkyoMessage.RaceJikkyoMessage`)
/// and the comment entry (`MasterRaceJikkyoComment.RaceJikkyoComment`), given
/// the fields found in each (zero where the class or field was not found).
pub fn init(
    message_id_field: usize,
    message_text_field: usize,
    comment_id_field: usize,
    comment_text_field: usize,
) -> (r: JikkyoHooks)
    ensures
        r.message is Some <==> (message_id_field != 0 && message_text_field != 0),
        r.message matches Some(f) ==> f.id_field == message_id_field && f.text_field
            == message_text_field,
        r.comment is Some <==> (comment_id_field != 0 && comment_text_field != 0),
        r.comment matches Some(f) ==> f.id_field == comment_id_field && f.text_field
            == comment_text_field,
{
    JikkyoHooks {
        message: jikkyo_fields(message_id_field, message_text_field),
        comment: jikkyo_fields(comment_id_field, comment_text_field),
    }
}

/// The localized text that replaces entry `id` when it is cached, if the
/// localization has one.
pub fn localized_text(dict: &HashMap<i32, String>, id: i32) -> (r: Option<&String>)
    ensures
        match r {
            Some(t) => dict@.contains_key(id) && dict@[id] == *t,
            None => !dict@.contains_key(id),
        },
{
    dict.get(&id)
}

} // verus!
