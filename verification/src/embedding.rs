//! The provider-agnostic embedding contract: requests are checked before
//! any vector is made, and the offline mock derives its vectors from a
//! deterministic seed sequence.
use crate::ids::ProjectId;
use crate::text::{contains_control, has_control, text_len, utf8_len};
use vstd::prelude::*;
use vstd::string::StrSliceExecFns;
use vstd::string::StringSliceAdditionalSpecFns;

verus! {

#[derive(Debug, Clone, PartialEq, Eq)]
pub struct EmbeddingInput {
    pub reference: String,
}

#[derive(Debug, Clone)]
pub struct EmbeddingRequest {
    pub project_id: Option<ProjectId>,
    pub trace_id: String,
    pub model: String,
    pub model_version: String,
    pub dimensions: usize,
    pub inputs: Vec<EmbeddingInput>,
    pub budget_available: bool,
    pub cancelled: bool,
}

#[derive(Debug, Clone, Copy, PartialEq, Eq, Structural)]
pub struct EmbeddingPolicy {
    pub max_dimensions: usize,
    pub max_batch: usize,
    pub max_reference_bytes: usize,
}

impl Default for EmbeddingPolicy {
    fn default() -> (r: Self)
        ensures
            r.max_dimensions == 4096,
            r.max_batch == 128,
            r.max_reference_bytes == 256,
    {
        EmbeddingPolicy { max_dimensions: 4096, max_batch: 128, max_reference_bytes: 256 }
    }
}

#[derive(Debug, Clone, Copy, PartialEq, Eq, Structural)]
pub enum EmbeddingError {
    MissingProject,
    MissingTrace,
    InvalidModel,
    InvalidDimensions,
    BatchTooLarge,
    InvalidReference,
    BudgetUnavailable,
    Cancelled,
}

pub open spec fn reference_bad(i: EmbeddingInput, p: EmbeddingPolicy) -> bool {
    i.reference@.len() == 0 || utf8_len(i.reference@) > p.max_reference_bytes || has_control(
        i.reference@,
    )
}

/// Why a request gets no vectors, if it gets none.
pub open spec fn embed_fault(q: EmbeddingRequest, p: EmbeddingPolicy) -> Option<EmbeddingError> {
    if q.project_id is None {
        Some(EmbeddingError::MissingProject)
    } else if q.trace_id@.len() == 0 {
        Some(EmbeddingError::MissingTrace)
    } else if q.model@.len() == 0 || q.model_version@.len() == 0 {
        Some(EmbeddingError::InvalidModel)
    } else if q.dimensions == 0 || q.dimensions > p.max_dimensions {
        Some(EmbeddingError::InvalidDimensions)
    } else if q.inputs@.len() == 0 || q.inputs@.len() > p.max_batch {
        Some(EmbeddingError::BatchTooLarge)
    } else if exists|k: int| 0 <= k < q.inputs@.len() && #[trigger] reference_bad(q.inputs@[k], p) {
        Some(EmbeddingError::InvalidReference)
    } else if !q.budget_available {
        Some(EmbeddingError::BudgetUnavailable)
    } else if q.cancelled {
        Some(EmbeddingError::Cancelled)
    } else {
        None
    }
}

/// The 32-bit FNV-1a state of a byte string.
pub open spec fn fnv32(b: Seq<u8>) -> u32
    decreases b.len(),
{
    if b.len() == 0 {
        2_166_136_261u32
    } else {
        ((fnv32(b.drop_last()) ^ (b.last() as u32)) as u32).wrapping_mul(16_777_619)
    }
}

pub open spec fn rotl5(x: u32) -> u32 {
    ((x << 5u32) | (x >> 27u32)) as u32
}

/// The seed after `n` steps: each adds the step's index and rotates left by
/// five bits.
pub open spec fn seed_after(start: u32, n: nat) -> u32
    decreases n,
{
    if n == 0 {
        start
    } else {
        rotl5(seed_after(start, (n - 1) as nat).wrapping_add((n - 1) as u32))
    }
}

pub struct MockEmbeddingProvider;

impl MockEmbeddingProvider {
    /// Checks a request in order: project, trace, model, dimensions, batch
    /// size, references, budget and cancellation.
    #[verifier::loop_isolation(false)]
    pub fn check(request: &EmbeddingRequest, policy: &EmbeddingPolicy) -> (r: Result<(), EmbeddingError>)
        ensures
            match embed_fault(*request, *policy) {
                Some(e) => r == Err::<(), EmbeddingError>(e),
                None => r is Ok,
            },
    {
        if request.project_id.is_none() {
            return Err(EmbeddingError::MissingProject);
        }
        if request.trace_id.as_str().unicode_len() == 0 {
            return Err(EmbeddingError::MissingTrace);
        }
        if request.model.as_str().unicode_len() == 0 || request.model_version.as_str().unicode_len() == 0 {
            return Err(EmbeddingError::InvalidModel);
        }
        if request.dimensions == 0 || request.dimensions > policy.max_dimensions {
            return Err(EmbeddingError::InvalidDimensions);
        }
        if request.inputs.len() == 0 || request.inputs.len() > policy.max_batch {
            return Err(EmbeddingError::BatchTooLarge);
        }
        let mut k: usize = 0;
        while k < request.inputs.len()
            invariant
                k <= request.inputs@.len(),
                forall|m: int| 0 <= m < k ==> !#[trigger] reference_bad(request.inputs@[m], *policy),
            decreases request.inputs@.len() - k,
        {
            let reference = request.inputs[k].reference.as_str();
            if reference.unicode_len() == 0 || text_len(reference) > policy.max_reference_bytes
                || contains_control(reference) {
                assert(reference_bad(request.inputs@[k as int], *policy));
                return Err(EmbeddingError::InvalidReference);
            }
            k = k + 1;
        }
        if !request.budget_available {
            return Err(EmbeddingError::BudgetUnavailable);
        }
        if request.cancelled {
            return Err(EmbeddingError::Cancelled);
        }
        Ok(())
    }

    /// The seed sequence of a reference's mock vector: one 32-bit seed per
    /// dimension, starting from the reference's FNV-1a state.
    pub fn seeds(reference: &str, dimensions: usize) -> (r: Vec<u32>)
        ensures
            r@.len() == dimensions,
            forall|i: int|
                0 <= i < dimensions ==> #[trigger] r@[i] == seed_after(
                    fnv32(reference.spec_bytes()),
                    (i + 1) as nat,
                ),
    {
        let bytes = reference.as_bytes();
        let mut seed: u32 = 2_166_136_261;
        let mut i: usize = 0;
        assert(bytes@.take(0) =~= Seq::<u8>::empty());
        while i < bytes.len()
            invariant
                i <= bytes@.len(),
                seed == fnv32(bytes@.take(i as int)),
            decreases bytes@.len() - i,
        {
            assert(bytes@.take(i + 1).drop_last() =~= bytes@.take(i as int));
            seed = (seed ^ (bytes[i] as u32)).wrapping_mul(16_777_619);
            i = i + 1;
        }
        assert(bytes@.take(i as int) =~= bytes@);
        let ghost start = seed;
        let mut out: Vec<u32> = Vec::new();
        let mut index: usize = 0;
        while index < dimensions
            invariant
                index <= dimensions,
                out@.len() == index,
                seed == seed_after(start, index as nat),
                forall|j: int| 0 <= j < index ==> #[trigger] out@[j] == seed_after(start, (j + 1) as nat),
            decreases dimensions - index,
        {
            let t = seed.wrapping_add(index as u32);
            seed = (t << 5u32) | (t >> 27u32);
            assert(seed == seed_after(start, (index + 1) as nat));
            out.push(seed);
            index = index + 1;
        }
        out
    }
}

} // verus!
