//! What must hold of two vectors before their similarity is computed, and
//! what is made of the similarity once it is.
use crate::model::scalar::{Single, SINGLE_SIGN};
use vstd::prelude::*;

verus! {

/// Why two vectors have no similarity.
#[derive(Clone, Copy, Debug, PartialEq, Eq, Structural)]
pub enum VectorError {
    /// One of the vectors is empty.
    Empty,
    /// The vectors are not of one length.
    LengthMismatch,
    /// One of the vectors has no direction: its length is zero.
    ZeroVector,
}

/// Whether two vectors can be compared, and if not, why not.
pub open spec fn validity(a: Seq<Single>, b: Seq<Single>) -> Result<(), VectorError> {
    if a.len() == 0 || b.len() == 0 {
        Err(VectorError::Empty)
    } else if a.len() != b.len() {
        Err(VectorError::LengthMismatch)
    } else {
        Ok(())
    }
}

/// Whether two vectors can be compared: neither is empty and they are of
/// one length.
pub open spec fn comparable(a: Seq<Single>, b: Seq<Single>) -> bool {
    a.len() > 0 && b.len() > 0 && a.len() == b.len()
}

/// Whether a number is zero, with either sign.
pub open spec fn is_zero(x: Single) -> bool {
    x.bits == 0 || x.bits == SINGLE_SIGN
}

/// Whether every element of a vector is zero. Such a vector has no
/// direction, and no similarity to any other.
pub open spec fn all_zero(vector: Seq<Single>) -> bool {
    forall|i: int| 0 <= i < vector.len() ==> is_zero(#[trigger] vector[i])
}

/// Whether a similarity can be asked for: the two vectors can be compared,
/// and neither is a vector of zeros.
pub open spec fn measurable(a: Seq<Single>, b: Seq<Single>) -> bool {
    comparable(a, b) && !all_zero(a) && !all_zero(b)
}

/// Whether `arithmetic` can be asked for the similarity of any two vectors
/// for which one can be asked.
pub open spec fn measures<F: Fn(&Vec<Single>, &Vec<Single>) -> Option<Single>>(
    arithmetic: F,
) -> bool {
    forall|a: &Vec<Single>, b: &Vec<Single>|
        measurable(a@, b@) ==> #[trigger] call_requires(arithmetic, (a, b))
}

/// What `arithmetic` makes of two vectors for which a similarity can be
/// asked: the similarity that it gives, or `ZeroVector` where it gives none.
pub open spec fn computed<F: Fn(&Vec<Single>, &Vec<Single>) -> Option<Single>>(
    arithmetic: F,
    a: &Vec<Single>,
    b: &Vec<Single>,
    outcome: Result<Single, VectorError>,
) -> bool {
    match outcome {
        Ok(similarity) => call_ensures(arithmetic, (a, b), Some(similarity)),
        Err(VectorError::ZeroVector) => call_ensures(arithmetic, (a, b), None),
        Err(_) => false,
    }
}

/// Checks on vectors.
pub struct VectorMathHelper;

impl VectorMathHelper {
    /// Whether two vectors can be compared: neither is empty and they are
    /// of one length. The elements are not looked at.
    pub fn can_compare(vec_a: &[Single], vec_b: &[Single]) -> (r: bool)
        ensures
            r == comparable(vec_a@, vec_b@),
    {
        vec_a.len() > 0 && vec_b.len() > 0 && vec_a.len() == vec_b.len()
    }

    /// Whether two vectors can be compared, and if not, why not. The
    /// elements are not looked at.
    pub fn check_vectors(vec_a: &[Single], vec_b: &[Single]) -> (valid: Result<(), VectorError>)
        ensures
            valid == validity(vec_a@, vec_b@),
    {
        if vec_a.len() == 0 || vec_b.len() == 0 {
            Err(VectorError::Empty)
        } else if vec_a.len() != vec_b.len() {
            Err(VectorError::LengthMismatch)
        } else {
            Ok(())
        }
    }

    /// Two vectors that can be compared pass; others may not be handed in.
    /// A caller that has to decide first asks `can_compare` or
    /// `check_vectors`.
    pub fn validate_vectors(vec_a: &[Single], vec_b: &[Single])
        requires
            comparable(vec_a@, vec_b@),
    {
    }

    /// Whether every element of the vector is zero, with either sign.
    pub fn is_zero_vector(vector: &[Single]) -> (r: bool)
        ensures
            r == all_zero(vector@),
    {
        let mut i: usize = 0;
        while i < vector.len()
            invariant
                i <= vector.len(),
                forall|k: int| 0 <= k < i ==> is_zero(#[trigger] vector@[k]),
            decreases vector.len() - i,
        {
            let bits = vector[i].bits;
            if !(bits == 0 || bits == SINGLE_SIGN) {
                assert(!is_zero(vector@[i as int]));
                return false;
            }
            i += 1;
        }
        true
    }

    /// The similarity of two vectors, with `arithmetic` to compute it.
    ///
    /// The vectors have to be comparable, and neither may be a vector of
    /// zeros: there is no similarity to ask for otherwise. `arithmetic` is
    /// asked once, for the two vectors as they came. Where it gives none,
    /// the length of a vector came out as zero in its sums.
    pub fn cosine_similarity<F>(vector_a: &Vec<Single>, vector_b: &Vec<Single>, arithmetic: &F) -> (r:
        Result<Single, VectorError>) where F: Fn(&Vec<Single>, &Vec<Single>) -> Option<Single>
        requires
            measures(*arithmetic),
            comparable(vector_a@, vector_b@),
            !all_zero(vector_a@),
            !all_zero(vector_b@),
        ensures
            computed(*arithmetic, vector_a, vector_b, r),
    {
        VectorMathHelper::validate_vectors(vector_a.as_slice(), vector_b.as_slice());
        match arithmetic(vector_a, vector_b) {
            Some(similarity) => Ok(similarity),
            None => Err(VectorError::ZeroVector),
        }
    }

    /// The similarity of two vectors, with `arithmetic` to compute it, for
    /// a caller that has not checked the vectors.
    ///
    /// Vectors that cannot be compared fail with the reason, and a vector of
    /// zeros fails with `ZeroVector`; `arithmetic` is not asked for either.
    /// All other vectors are handed to `cosine_similarity`.
    pub fn try_cosine_similarity<F>(
        vector_a: &Vec<Single>,
        vector_b: &Vec<Single>,
        arithmetic: &F,
    ) -> (r: Result<Single, VectorError>) where F: Fn(&Vec<Single>, &Vec<Single>) -> Option<Single>
        requires
            measures(*arithmetic),
        ensures
            match validity(vector_a@, vector_b@) {
                Err(e) => r == Err::<Single, VectorError>(e),
                Ok(_) => if all_zero(vector_a@) || all_zero(vector_b@) {
                    r == Err::<Single, VectorError>(VectorError::ZeroVector)
                } else {
                    computed(*arithmetic, vector_a, vector_b, r)
                },
            },
    {
        match VectorMathHelper::check_vectors(vector_a.as_slice(), vector_b.as_slice()) {
            Err(e) => Err(e),
            Ok(_) => {
                if VectorMathHelper::is_zero_vector(vector_a.as_slice())
                    || VectorMathHelper::is_zero_vector(vector_b.as_slice()) {
                    Err(VectorError::ZeroVector)
                } else {
                    VectorMathHelper::cosine_similarity(vector_a, vector_b, arithmetic)
                }
            },
        }
    }
}

} // verus!
