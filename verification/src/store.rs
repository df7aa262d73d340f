use vstd::prelude::*;

use crate::records::{
    emotions_model_wf, traits_model_wf, Emotions, EmotionsModel, PersonalTraits, TraitsModel,
};
use crate::table::Table;

verus! {

/// The full state of the store: what is persisted at each derived address.
#[verifier::ext_equal]
pub ghost struct StoreModel {
    pub traits: Map<Seq<u8>, TraitsModel>,
    pub emotions: Map<Seq<u8>, EmotionsModel>,
}

/// Every persisted record satisfies its field-width invariant.
pub open spec fn store_model_wf(m: StoreModel) -> bool {
    &&& forall|k: Seq<u8>| m.traits.contains_key(k) ==> traits_model_wf(#[trigger] m.traits[k])
    &&& forall|k: Seq<u8>|
        m.emotions.contains_key(k) ==> emotions_model_wf(#[trigger] m.emotions[k])
}

/// The storage substrate: one table of traits records and one of emotions
/// records, each keyed by derived address.
pub struct Store {
    pub traits: Table<PersonalTraits>,
    pub emotions: Table<Emotions>,
}

impl View for Store {
    type V = StoreModel;

    open spec fn view(&self) -> StoreModel {
        StoreModel { traits: self.traits@, emotions: self.emotions@ }
    }
}

impl Store {
    pub open spec fn wf(&self) -> bool {
        &&& self.traits.wf()
        &&& self.emotions.wf()
        &&& store_model_wf(self@)
    }

    /// A store with no records.
    pub fn new() -> (r: Store)
        ensures
            r.wf(),
            r@.traits == Map::<Seq<u8>, TraitsModel>::empty(),
            r@.emotions == Map::<Seq<u8>, EmotionsModel>::empty(),
    {
        Store { traits: Table::new(), emotions: Table::new() }
    }
}

} // verus!
