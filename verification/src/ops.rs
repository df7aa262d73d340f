use vstd::prelude::*;

use crate::pda::{derive_emotions_address, derive_traits_address, emotions_pda, traits_pda};
use crate::principal::Principal;
use crate::records::{
    emotions_model_wf, traits_model_wf, Emotions, EmotionsModel, PersonalTraits, TraitsModel,
    MAX_EMOTION_BYTES, MAX_NAME_BYTES, MAX_URI_BYTES,
};
use crate::store::{store_model_wf, Store, StoreModel};
use crate::text::{blank, byte_len, is_blank, string_byte_len};

verus! {

/// Why an operation was refused. Every error leaves the store unchanged.
#[derive(Clone, Copy, Debug, PartialEq, Eq, Structural)]
pub enum ErrorCode {
    /// The caller is not the authority the operation demands.
    AuthorizationMismatch,
    /// A create found a record already stored at the derived address.
    AlreadyExists,
    /// An update found no record at the derived address.
    NotFound,
    /// A field does not fit its reserved space, a mandatory stored field was
    /// never populated, or no viable address can be derived for the seed.
    ConstraintViolation,
}

/// The request context for creating a person's records: the signing caller
/// and the seed identity the addresses are derived from.
pub struct CreatePersonalTraits {
    pub payer: Principal,
    pub entry_seed: Principal,
}

/// The request context for updating a traits record.
pub struct UpdatePersonalTraits {
    pub payer: Principal,
    pub entry_seed: Principal,
}

/// The request context for updating an emotions record.
pub struct UpdateEmotions {
    pub payer: Principal,
    pub entry_seed: Principal,
}

/// What a create does once the two addresses are derived: refuse an occupied
/// address, refuse oversize fields, otherwise persist a fresh traits record
/// and an empty emotions record under the supplied authority.
pub open spec fn create_person_at(
    m: StoreModel,
    tp: (Seq<u8>, u8),
    ep: (Seq<u8>, u8),
    name: Seq<char>,
    uri: Seq<char>,
    authority: Seq<u8>,
) -> (StoreModel, Result<(), ErrorCode>) {
    if m.traits.contains_key(tp.0) || m.emotions.contains_key(ep.0) {
        (m, Err(ErrorCode::AlreadyExists))
    } else if byte_len(name) > MAX_NAME_BYTES || byte_len(uri) > MAX_URI_BYTES {
        (m, Err(ErrorCode::ConstraintViolation))
    } else {
        (
            StoreModel {
                traits: m.traits.insert(
                    tp.0,
                    TraitsModel { name, uri, authority, bump: tp.1 },
                ),
                emotions: m.emotions.insert(
                    ep.0,
                    EmotionsModel {
                        who: Seq::<char>::empty(),
                        what: Seq::<char>::empty(),
                        when: Seq::<char>::empty(),
                        why: Seq::<char>::empty(),
                        authority,
                        bump: ep.1,
                    },
                ),
            },
            Ok(()),
        )
    }
}

/// The whole create: the caller must be the authority it supplies, both
/// addresses must derive, and then `create_person_at` decides.
pub open spec fn create_person_spec(
    m: StoreModel,
    payer: Seq<u8>,
    seed: Seq<u8>,
    name: Seq<char>,
    uri: Seq<char>,
    authority: Seq<u8>,
) -> (StoreModel, Result<(), ErrorCode>) {
    if payer != authority {
        (m, Err(ErrorCode::AuthorizationMismatch))
    } else {
        match (traits_pda(seed), emotions_pda(seed)) {
            (Some(tp), Some(ep)) => create_person_at(m, tp, ep, name, uri, authority),
            _ => (m, Err(ErrorCode::ConstraintViolation)),
        }
    }
}

/// A traits record after an update: a blank input leaves its field as it
/// was, any other input replaces it; authority and bump never change.
pub open spec fn traits_after_update(t: TraitsModel, name: Seq<char>, uri: Seq<char>) -> TraitsModel {
    TraitsModel {
        name: if is_blank(name) {
            t.name
        } else {
            name
        },
        uri: if is_blank(uri) {
            t.uri
        } else {
            uri
        },
        authority: t.authority,
        bump: t.bump,
    }
}

/// What an update does to the traits record at a derived address: only the
/// stored authority may write, a record whose name was never populated is
/// refused, a field actually being written must fit, and then the record is
/// rewritten by `traits_after_update`.
pub open spec fn update_person_at(
    m: StoreModel,
    payer: Seq<u8>,
    tp: (Seq<u8>, u8),
    name: Seq<char>,
    uri: Seq<char>,
) -> (StoreModel, Result<(), ErrorCode>) {
    if !m.traits.contains_key(tp.0) {
        (m, Err(ErrorCode::NotFound))
    } else {
        let t = m.traits[tp.0];
        if t.authority != payer {
            (m, Err(ErrorCode::AuthorizationMismatch))
        } else if is_blank(t.name) {
            (m, Err(ErrorCode::ConstraintViolation))
        } else if (!is_blank(name) && byte_len(name) > MAX_NAME_BYTES) || (!is_blank(uri)
            && byte_len(uri) > MAX_URI_BYTES) {
            (m, Err(ErrorCode::ConstraintViolation))
        } else {
            (
                StoreModel {
                    traits: m.traits.insert(tp.0, traits_after_update(t, name, uri)),
                    emotions: m.emotions,
                },
                Ok(()),
            )
        }
    }
}

/// The whole traits update: the address must derive, and then
/// `update_person_at` decides.
pub open spec fn update_person_spec(
    m: StoreModel,
    payer: Seq<u8>,
    seed: Seq<u8>,
    name: Seq<char>,
    uri: Seq<char>,
) -> (StoreModel, Result<(), ErrorCode>) {
    match traits_pda(seed) {
        Some(tp) => update_person_at(m, payer, tp, name, uri),
        None => (m, Err(ErrorCode::ConstraintViolation)),
    }
}

/// What an update does to the emotions record at a derived address: only
/// the stored authority may write, each field must fit, and then all four
/// fields are overwritten — blank or empty inputs included.
pub open spec fn update_emotions_at(
    m: StoreModel,
    payer: Seq<u8>,
    ep: (Seq<u8>, u8),
    who: Seq<char>,
    what: Seq<char>,
    when: Seq<char>,
    why: Seq<char>,
) -> (StoreModel, Result<(), ErrorCode>) {
    if !m.emotions.contains_key(ep.0) {
        (m, Err(ErrorCode::NotFound))
    } else {
        let t = m.emotions[ep.0];
        if t.authority != payer {
            (m, Err(ErrorCode::AuthorizationMismatch))
        } else if byte_len(who) > MAX_EMOTION_BYTES || byte_len(what) > MAX_EMOTION_BYTES
            || byte_len(when) > MAX_EMOTION_BYTES || byte_len(why) > MAX_EMOTION_BYTES {
            (m, Err(ErrorCode::ConstraintViolation))
        } else {
            (
                StoreModel {
                    traits: m.traits,
                    emotions: m.emotions.insert(
                        ep.0,
                        EmotionsModel { who, what, when, why, authority: t.authority, bump: t.bump },
                    ),
                },
                Ok(()),
            )
        }
    }
}

/// The whole emotions update: the address must derive, and then
/// `update_emotions_at` decides.
pub open spec fn update_emotions_spec(
    m: StoreModel,
    payer: Seq<u8>,
    seed: Seq<u8>,
    who: Seq<char>,
    what: Seq<char>,
    when: Seq<char>,
    why: Seq<char>,
) -> (StoreModel, Result<(), ErrorCode>) {
    match emotions_pda(seed) {
        Some(ep) => update_emotions_at(m, payer, ep, who, what, when, why),
        None => (m, Err(ErrorCode::ConstraintViolation)),
    }
}

/// Create the two records for a person: a traits record holding the given
/// name and uri, and an emotions record with all four fields empty, both
/// owned by `authority`, at the addresses derived from the context's seed.
pub fn create_person(
    store: &mut Store,
    ctx: &CreatePersonalTraits,
    name: String,
    uri: String,
    authority: Principal,
) -> (r: Result<(), ErrorCode>)
    requires
        old(store).wf(),
    ensures
        final(store).wf(),
        (final(store)@, r) == create_person_spec(
            old(store)@,
            ctx.payer@,
            ctx.entry_seed@,
            name@,
            uri@,
            authority@,
        ),
{
    if !ctx.payer.eq_bytes(&authority) {
        return Err(ErrorCode::AuthorizationMismatch);
    }
    let derived_traits = derive_traits_address(&ctx.entry_seed);
    let derived_emotions = derive_emotions_address(&ctx.entry_seed);
    match (derived_traits, derived_emotions) {
        (Some(tp), Some(ep)) => {
            let (traits_addr, traits_bump) = tp;
            let (emotions_addr, emotions_bump) = ep;
            if store.traits.contains_key(&traits_addr) || store.emotions.contains_key(
                &emotions_addr,
            ) {
                return Err(ErrorCode::AlreadyExists);
            }
            if string_byte_len(&name) > MAX_NAME_BYTES || string_byte_len(&uri) > MAX_URI_BYTES {
                return Err(ErrorCode::ConstraintViolation);
            }
            let record = PersonalTraits { name, uri, authority, bump: traits_bump };
            store.traits.insert_new(traits_addr, record);
            let emotions = Emotions {
                who: String::new(),
                what: String::new(),
                when: String::new(),
                why: String::new(),
                authority,
                bump: emotions_bump,
            };
            store.emotions.insert_new(emotions_addr, emotions);
            proof {
                assert(byte_len(Seq::<char>::empty()) == 0);
                assert(store_model_wf(final(store)@)) by {
                    assert forall|k: Seq<u8>| final(store)@.traits.contains_key(k) implies
                        traits_model_wf(#[trigger] final(store)@.traits[k]) by {
                        if k != traits_addr@ {
                            assert(old(store)@.traits.contains_key(k));
                        }
                    }
                    assert forall|k: Seq<u8>| final(store)@.emotions.contains_key(k) implies
                        emotions_model_wf(#[trigger] final(store)@.emotions[k]) by {
                        if k != emotions_addr@ {
                            assert(old(store)@.emotions.contains_key(k));
                        }
                    }
                }
            }
            Ok(())
        },
        _ => Err(ErrorCode::ConstraintViolation),
    }
}

/// Update the traits record at the address derived from the context's seed:
/// a blank `name` or `uri` is skipped, any other value replaces the stored
/// field. Only the record's stored authority may call this.
pub fn update_person(
    store: &mut Store,
    ctx: &UpdatePersonalTraits,
    name: String,
    uri: String,
) -> (r: Result<(), ErrorCode>)
    requires
        old(store).wf(),
    ensures
        final(store).wf(),
        (final(store)@, r) == update_person_spec(
            old(store)@,
            ctx.payer@,
            ctx.entry_seed@,
            name@,
            uri@,
        ),
{
    let derived = derive_traits_address(&ctx.entry_seed);
    match derived {
        Some(tp) => {
            let (traits_addr, _traits_bump) = tp;
            let stored = match store.traits.get(&traits_addr) {
                Some(record) => record,
                None => {
                    return Err(ErrorCode::NotFound);
                },
            };
            if !stored.authority.eq_bytes(&ctx.payer) {
                return Err(ErrorCode::AuthorizationMismatch);
            }
            if blank(&stored.name) {
                return Err(ErrorCode::ConstraintViolation);
            }
            let skip_name = blank(&name);
            let skip_uri = blank(&uri);
            if (!skip_name && string_byte_len(&name) > MAX_NAME_BYTES) || (!skip_uri
                && string_byte_len(&uri) > MAX_URI_BYTES) {
                return Err(ErrorCode::ConstraintViolation);
            }
            let record = PersonalTraits {
                name: if skip_name {
                    stored.name.clone()
                } else {
                    name
                },
                uri: if skip_uri {
                    stored.uri.clone()
                } else {
                    uri
                },
                authority: stored.authority,
                bump: stored.bump,
            };
            store.traits.replace(&traits_addr, record);
            proof {
                assert(store_model_wf(final(store)@)) by {
                    assert forall|k: Seq<u8>| final(store)@.traits.contains_key(k) implies
                        traits_model_wf(#[trigger] final(store)@.traits[k]) by {
                        if k != traits_addr@ {
                            assert(old(store)@.traits.contains_key(k));
                        } else {
                            assert(traits_model_wf(old(store)@.traits[k]));
                        }
                    }
                    assert forall|k: Seq<u8>| final(store)@.emotions.contains_key(k) implies
                        emotions_model_wf(#[trigger] final(store)@.emotions[k]) by {
                        assert(old(store)@.emotions.contains_key(k));
                    }
                }
            }
            Ok(())
        },
        None => Err(ErrorCode::ConstraintViolation),
    }
}

/// Overwrite all four fields of the emotions record at the address derived
/// from the context's seed — empty inputs are stored like any others. Only
/// the record's stored authority may call this.
pub fn update_emotions(
    store: &mut Store,
    ctx: &UpdateEmotions,
    who: String,
    what: String,
    when: String,
    why: String,
) -> (r: Result<(), ErrorCode>)
    requires
        old(store).wf(),
    ensures
        final(store).wf(),
        (final(store)@, r) == update_emotions_spec(
            old(store)@,
            ctx.payer@,
            ctx.entry_seed@,
            who@,
            what@,
            when@,
            why@,
        ),
{
    let derived = derive_emotions_address(&ctx.entry_seed);
    match derived {
        Some(ep) => {
            let (emotions_addr, _emotions_bump) = ep;
            let stored = match store.emotions.get(&emotions_addr) {
                Some(record) => record,
                None => {
                    return Err(ErrorCode::NotFound);
                },
            };
            if !stored.authority.eq_bytes(&ctx.payer) {
                return Err(ErrorCode::AuthorizationMismatch);
            }
            if string_byte_len(&who) > MAX_EMOTION_BYTES || string_byte_len(&what)
                > MAX_EMOTION_BYTES || string_byte_len(&when) > MAX_EMOTION_BYTES
                || string_byte_len(&why) > MAX_EMOTION_BYTES {
                return Err(ErrorCode::ConstraintViolation);
            }
            let record = Emotions {
                who,
                what,
                when,
                why,
                authority: stored.authority,
                bump: stored.bump,
            };
            store.emotions.replace(&emotions_addr, record);
            proof {
                assert(store_model_wf(final(store)@)) by {
                    assert forall|k: Seq<u8>| final(store)@.emotions.contains_key(k) implies
                        emotions_model_wf(#[trigger] final(store)@.emotions[k]) by {
                        if k != emotions_addr@ {
                            assert(old(store)@.emotions.contains_key(k));
                        } else {
                            assert(emotions_model_wf(old(store)@.emotions[k]));
                        }
                    }
                    assert forall|k: Seq<u8>| final(store)@.traits.contains_key(k) implies
                        traits_model_wf(#[trigger] final(store)@.traits[k]) by {
                        assert(old(store)@.traits.contains_key(k));
                    }
                }
            }
            Ok(())
        },
        None => Err(ErrorCode::ConstraintViolation),
    }
}

} // verus!
