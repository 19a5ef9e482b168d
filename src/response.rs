use vstd::prelude::*;
use crate::request::{requested_texts, EmbeddingRequest, ServiceError};

verus! {

/// The answer to a successful call: one vector per text, in the order of the
/// texts. The vector type is left to the caller.
pub struct EmbeddingResponse<V> {
    pub vectors: Vec<V>,
}

/// What a call on `n` texts answers once the model has given `outcome`: the
/// model's vectors as they came, when there is one for each text; else the
/// call fails as a whole.
pub open spec fn response_for<V, E>(n: nat, outcome: Result<Vec<V>, E>) -> Result<Seq<V>, ServiceError> {
    match outcome {
        Ok(vs) => if vs@.len() == n {
            Ok(vs@)
        } else {
            Err(ServiceError::EmbeddingFailed)
        },
        Err(_) => Err(ServiceError::EmbeddingFailed),
    }
}

/// What a call answers, from the request and the outcome of the model on the
/// texts it asks for. A refused request never reaches the model.
pub open spec fn handled<V, E>(req: EmbeddingRequest, outcome: Result<Vec<V>, E>) -> Result<Seq<V>, ServiceError> {
    match requested_texts(req) {
        Err(e) => Err(e),
        Ok(ts) => response_for(ts.len(), outcome),
    }
}

/// Builds the answer to a call on `texts` from what the model returned:
/// the vectors in the order the model gave them, or `EmbeddingFailed` when
/// the model failed or gave other than one vector per text.
pub fn finish_embedding<V, E>(texts: &Vec<String>, outcome: Result<Vec<V>, E>) -> (r: Result<EmbeddingResponse<V>, ServiceError>)
    ensures
        r matches Ok(resp) ==> response_for(texts@.len(), outcome) == Ok::<Seq<V>, ServiceError>(resp.vectors@),
        r matches Err(e) ==> response_for(texts@.len(), outcome) == Err::<Seq<V>, ServiceError>(e),
{
    match outcome {
        Ok(vectors) => {
            if vectors.len() == texts.len() {
                Ok(EmbeddingResponse { vectors })
            } else {
                Err(ServiceError::EmbeddingFailed)
            }
        },
        Err(_) => Err(ServiceError::EmbeddingFailed),
    }
}

/// A call whose request names at least one text either fails as a whole or
/// answers with exactly one vector per text, the `i`-th being the one the
/// model gave for the `i`-th text: nothing is dropped, added or reordered.
pub proof fn lemma_one_vector_per_text<V, E>(req: EmbeddingRequest, outcome: Result<Vec<V>, E>)
    requires
        requested_texts(req) is Ok,
    ensures
        handled(req, outcome) matches Ok(vs) ==> {
            &&& vs.len() == requested_texts(req)->Ok_0.len()
            &&& outcome matches Ok(model_vs) && forall|i: int| 0 <= i < vs.len() ==> vs[i] == model_vs@[i]
        },
        handled(req, outcome) matches Err(e) ==> e == ServiceError::EmbeddingFailed,
{
}

} // verus!
