//! One incarnation of a model on an inference server.

use vstd::prelude::*;

use crate::keyed::OrderedKey;
use crate::text::{same_text, text_rank, Rank};

verus! {

/// The model's name and the sequence number of its incarnation.
#[derive(Debug, Hash)]
pub struct ModelGeneration {
    pub model_id: String,
    pub sequence: u64,
}

/// What a `ModelGeneration` stands for.
#[verifier::ext_equal]
pub struct GenerationId {
    pub model_id: Seq<char>,
    pub sequence: u64,
}

/// Generations are ordered by model name, then by sequence.
pub open spec fn generation_before(a: GenerationId, b: GenerationId) -> bool {
    ||| crate::text::text_before(a.model_id, b.model_id)
    ||| a.model_id == b.model_id && a.sequence < b.sequence
}

impl View for ModelGeneration {
    type V = GenerationId;

    open spec fn view(&self) -> GenerationId {
        GenerationId { model_id: self.model_id@, sequence: self.sequence }
    }
}

impl ModelGeneration {
    pub fn new(model_id: &str, sequence: u64) -> (generation: Self)
        ensures
            generation@ == (GenerationId { model_id: model_id@, sequence }),
    {
        ModelGeneration { model_id: model_id.to_string(), sequence }
    }

    pub fn model_id(&self) -> (model_id: &str)
        ensures
            model_id@ == self@.model_id,
    {
        self.model_id.as_str()
    }

    pub fn sequence(&self) -> (sequence: u64)
        ensures
            sequence == self@.sequence,
    {
        self.sequence
    }

    /// Whether both name the same incarnation of the same model.
    pub fn same(&self, other: &ModelGeneration) -> (same: bool)
        ensures
            same == (self@ == other@),
    {
        self.sequence == other.sequence && same_text(self.model_id.as_str(), other.model_id.as_str())
    }
}

impl Clone for ModelGeneration {
    fn clone(&self) -> (copy: Self)
        ensures
            copy == *self,
    {
        ModelGeneration { model_id: self.model_id.clone(), sequence: self.sequence }
    }
}

impl PartialEq for ModelGeneration {
    fn eq(&self, other: &ModelGeneration) -> (same: bool) {
        self.same(other)
    }
}

impl vstd::std_specs::cmp::PartialEqSpecImpl for ModelGeneration {
    open spec fn obeys_eq_spec() -> bool {
        true
    }

    open spec fn eq_spec(&self, other: &ModelGeneration) -> bool {
        self@ == other@
    }
}

impl Eq for ModelGeneration {

}

impl OrderedKey for ModelGeneration {
    open spec fn before(a: GenerationId, b: GenerationId) -> bool {
        generation_before(a, b)
    }

    proof fn before_irreflexive(a: GenerationId) {
        crate::text::lemma_text_before_irreflexive(a.model_id);
    }

    proof fn before_transitive(a: GenerationId, b: GenerationId, c: GenerationId) {
        if crate::text::text_before(a.model_id, b.model_id) && crate::text::text_before(b.model_id, c.model_id) {
            crate::text::lemma_text_before_transitive(a.model_id, b.model_id, c.model_id);
        }
    }

    fn rank(&self, other: &Self) -> (rank: Rank) {
        match text_rank(self.model_id.as_str(), other.model_id.as_str()) {
            Rank::Before => Rank::Before,
            Rank::After => Rank::After,
            Rank::Same => if self.sequence < other.sequence {
                Rank::Before
            } else if self.sequence == other.sequence {
                Rank::Same
            } else {
                Rank::After
            },
        }
    }

    fn copy_key(&self) -> (key: Self) {
        self.clone()
    }
}

} // verus!
