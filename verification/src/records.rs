use vstd::prelude::*;

use crate::principal::Principal;
use crate::text::byte_len;

verus! {

/// Space reserved for a traits record's name, in bytes.
pub const MAX_NAME_BYTES: usize = 32;

/// Space reserved for a traits record's uri, in bytes.
pub const MAX_URI_BYTES: usize = 200;

/// Space reserved for each field of an emotions record, in bytes.
pub const MAX_EMOTION_BYTES: usize = 100;

/// A personal-traits record: a name and a uri, owned by an authority, with
/// the bump byte its address was derived with.
pub struct PersonalTraits {
    pub name: String,
    pub uri: String,
    pub authority: Principal,
    pub bump: u8,
}

/// The mathematical content of a traits record.
#[verifier::ext_equal]
pub ghost struct TraitsModel {
    pub name: Seq<char>,
    pub uri: Seq<char>,
    pub authority: Seq<u8>,
    pub bump: u8,
}

impl View for PersonalTraits {
    type V = TraitsModel;

    open spec fn view(&self) -> TraitsModel {
        TraitsModel {
            name: self.name@,
            uri: self.uri@,
            authority: self.authority@,
            bump: self.bump,
        }
    }
}

/// Each field of a traits record fits the space reserved for it, and the
/// authority is a full 32-byte identity.
pub open spec fn traits_model_wf(t: TraitsModel) -> bool {
    &&& byte_len(t.name) <= MAX_NAME_BYTES
    &&& byte_len(t.uri) <= MAX_URI_BYTES
    &&& t.authority.len() == 32
}

/// An emotions record: four free-text fields, owned by an authority, with
/// the bump byte its address was derived with.
pub struct Emotions {
    pub who: String,
    pub what: String,
    pub when: String,
    pub why: String,
    pub authority: Principal,
    pub bump: u8,
}

/// The mathematical content of an emotions record.
#[verifier::ext_equal]
pub ghost struct EmotionsModel {
    pub who: Seq<char>,
    pub what: Seq<char>,
    pub when: Seq<char>,
    pub why: Seq<char>,
    pub authority: Seq<u8>,
    pub bump: u8,
}

impl View for Emotions {
    type V = EmotionsModel;

    open spec fn view(&self) -> EmotionsModel {
        EmotionsModel {
            who: self.who@,
            what: self.what@,
            when: self.when@,
            why: self.why@,
            authority: self.authority@,
            bump: self.bump,
        }
    }
}

/// Each field of an emotions record fits the space reserved for it, and the
/// authority is a full 32-byte identity.
pub open spec fn emotions_model_wf(t: EmotionsModel) -> bool {
    &&& byte_len(t.who) <= MAX_EMOTION_BYTES
    &&& byte_len(t.what) <= MAX_EMOTION_BYTES
    &&& byte_len(t.when) <= MAX_EMOTION_BYTES
    &&& byte_len(t.why) <= MAX_EMOTION_BYTES
    &&& t.authority.len() == 32
}

} // verus!
