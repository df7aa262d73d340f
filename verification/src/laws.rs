use vstd::prelude::*;

use crate::ops::{
    create_person_at, create_person_spec, update_emotions_at, update_emotions_spec,
    update_person_at, update_person_spec, ErrorCode,
};
use crate::pda::{emotions_pda, traits_pda};
use crate::records::{EmotionsModel, TraitsModel, MAX_EMOTION_BYTES, MAX_URI_BYTES};
use crate::store::StoreModel;
use crate::text::{byte_len, is_blank};

verus! {

/// Creating at an already-occupied address always fails with
/// `AlreadyExists`, and the store is left exactly as it was.
pub proof fn lemma_create_at_occupied(
    m: StoreModel,
    tp: (Seq<u8>, u8),
    ep: (Seq<u8>, u8),
    name: Seq<char>,
    uri: Seq<char>,
    authority: Seq<u8>,
)
    requires
        m.traits.contains_key(tp.0) || m.emotions.contains_key(ep.0),
    ensures
        create_person_at(m, tp, ep, name, uri, authority) == (
            m,
            Result::<(), ErrorCode>::Err(ErrorCode::AlreadyExists),
        ),
{
}

/// Once a create for a seed has succeeded, any further create for the same
/// seed fails with `AlreadyExists` and leaves the store as the first create
/// left it — the addresses derived from the seed are the same both times.
pub proof fn lemma_create_twice_same_seed(
    m: StoreModel,
    payer: Seq<u8>,
    seed: Seq<u8>,
    name: Seq<char>,
    uri: Seq<char>,
    authority: Seq<u8>,
    m2: StoreModel,
    payer2: Seq<u8>,
    name2: Seq<char>,
    uri2: Seq<char>,
    authority2: Seq<u8>,
)
    requires
        create_person_spec(m, payer, seed, name, uri, authority) == (
            m2,
            Result::<(), ErrorCode>::Ok(()),
        ),
        payer2 == authority2,
    ensures
        create_person_spec(m2, payer2, seed, name2, uri2, authority2) == (
            m2,
            Result::<(), ErrorCode>::Err(ErrorCode::AlreadyExists),
        ),
{
    match traits_pda(seed) {
        Some(tp) => {
            assert(m2.traits.contains_key(tp.0));
        },
        None => {
            assert(false);
        },
    }
}

/// An update that supplies a blank name and a usable uri changes the uri
/// alone: the stored name, authority and bump stay, and nothing else in the
/// store moves.
pub proof fn lemma_update_blank_name_keeps_name(
    m: StoreModel,
    payer: Seq<u8>,
    tp: (Seq<u8>, u8),
    name: Seq<char>,
    uri: Seq<char>,
)
    requires
        m.traits.contains_key(tp.0),
        m.traits[tp.0].authority == payer,
        !is_blank(m.traits[tp.0].name),
        is_blank(name),
        !is_blank(uri),
        byte_len(uri) <= MAX_URI_BYTES,
    ensures
        update_person_at(m, payer, tp, name, uri) == (
            StoreModel {
                traits: m.traits.insert(
                    tp.0,
                    TraitsModel {
                        name: m.traits[tp.0].name,
                        uri: uri,
                        authority: m.traits[tp.0].authority,
                        bump: m.traits[tp.0].bump,
                    },
                ),
                emotions: m.emotions,
            },
            Result::<(), ErrorCode>::Ok(()),
        ),
{
}

/// An emotions update that the stored authority makes with fitting fields
/// overwrites all four fields — empty strings included — and keeps the
/// record's authority and bump.
pub proof fn lemma_update_emotions_overwrites(
    m: StoreModel,
    payer: Seq<u8>,
    ep: (Seq<u8>, u8),
    who: Seq<char>,
    what: Seq<char>,
    when: Seq<char>,
    why: Seq<char>,
)
    requires
        m.emotions.contains_key(ep.0),
        m.emotions[ep.0].authority == payer,
        byte_len(who) <= MAX_EMOTION_BYTES,
        byte_len(what) <= MAX_EMOTION_BYTES,
        byte_len(when) <= MAX_EMOTION_BYTES,
        byte_len(why) <= MAX_EMOTION_BYTES,
    ensures
        update_emotions_at(m, payer, ep, who, what, when, why) == (
            StoreModel {
                traits: m.traits,
                emotions: m.emotions.insert(
                    ep.0,
                    EmotionsModel {
                        who,
                        what,
                        when,
                        why,
                        authority: m.emotions[ep.0].authority,
                        bump: m.emotions[ep.0].bump,
                    },
                ),
            },
            Result::<(), ErrorCode>::Ok(()),
        ),
{
}

/// A create whose caller is not the authority it supplies fails with
/// `AuthorizationMismatch` and changes nothing.
pub proof fn lemma_create_wrong_authority(
    m: StoreModel,
    payer: Seq<u8>,
    seed: Seq<u8>,
    name: Seq<char>,
    uri: Seq<char>,
    authority: Seq<u8>,
)
    requires
        payer != authority,
    ensures
        create_person_spec(m, payer, seed, name, uri, authority) == (
            m,
            Result::<(), ErrorCode>::Err(ErrorCode::AuthorizationMismatch),
        ),
{
}

/// A traits update attempted by a principal other than the record's stored
/// authority fails with `AuthorizationMismatch` and leaves the record — and
/// the whole store — unchanged.
pub proof fn lemma_update_person_wrong_authority(
    m: StoreModel,
    payer: Seq<u8>,
    tp: (Seq<u8>, u8),
    name: Seq<char>,
    uri: Seq<char>,
)
    requires
        m.traits.contains_key(tp.0),
        m.traits[tp.0].authority != payer,
    ensures
        update_person_at(m, payer, tp, name, uri) == (
            m,
            Result::<(), ErrorCode>::Err(ErrorCode::AuthorizationMismatch),
        ),
{
}

/// An emotions update attempted by a principal other than the record's
/// stored authority fails with `AuthorizationMismatch` and leaves the store
/// unchanged.
pub proof fn lemma_update_emotions_wrong_authority(
    m: StoreModel,
    payer: Seq<u8>,
    ep: (Seq<u8>, u8),
    who: Seq<char>,
    what: Seq<char>,
    when: Seq<char>,
    why: Seq<char>,
)
    requires
        m.emotions.contains_key(ep.0),
        m.emotions[ep.0].authority != payer,
    ensures
        update_emotions_at(m, payer, ep, who, what, when, why) == (
            m,
            Result::<(), ErrorCode>::Err(ErrorCode::AuthorizationMismatch),
        ),
{
}

/// There is no deletion: however a traits update ends, the set of stored
/// traits addresses is exactly what it was, and no emotions record moves.
pub proof fn lemma_update_person_deletes_nothing(
    m: StoreModel,
    payer: Seq<u8>,
    seed: Seq<u8>,
    name: Seq<char>,
    uri: Seq<char>,
)
    ensures
        update_person_spec(m, payer, seed, name, uri).0.traits.dom() == m.traits.dom(),
        update_person_spec(m, payer, seed, name, uri).0.emotions == m.emotions,
{
    match traits_pda(seed) {
        Some(tp) => {
            assert(update_person_at(m, payer, tp, name, uri).0.traits.dom() =~= m.traits.dom());
        },
        None => {
        },
    }
}

/// There is no deletion: however an emotions update ends, the set of stored
/// emotions addresses is exactly what it was, and no traits record moves.
pub proof fn lemma_update_emotions_deletes_nothing(
    m: StoreModel,
    payer: Seq<u8>,
    seed: Seq<u8>,
    who: Seq<char>,
    what: Seq<char>,
    when: Seq<char>,
    why: Seq<char>,
)
    ensures
        update_emotions_spec(m, payer, seed, who, what, when, why).0.emotions.dom()
            == m.emotions.dom(),
        update_emotions_spec(m, payer, seed, who, what, when, why).0.traits == m.traits,
{
    match emotions_pda(seed) {
        Some(ep) => {
            assert(update_emotions_at(m, payer, ep, who, what, when, why).0.emotions.dom()
                =~= m.emotions.dom());
        },
        None => {
        },
    }
}

} // verus!
