//! A validated-height packaging check.
//!
//! A candidate height is validated once, at construction, to be non-zero;
//! the resulting `ValidatedHeight` carries that guarantee in its type, so
//! the divisibility check against the fixed packaging height needs no
//! further zero check and cannot divide by zero.

use vstd::prelude::*;

verus! {

/// The fixed height of the packaging container.
pub const PACKAGING_HEIGHT: u32 = 1000;

/// A positive height fits exactly when it evenly divides the packaging height.
pub open spec fn spec_fits(h: int) -> bool
    recommends
        h > 0,
{
    PACKAGING_HEIGHT as int % h == 0
}

/// Why a candidate height was rejected before the fit check could run.
#[derive(Debug, Clone, Copy, PartialEq, Eq, Structural)]
pub enum HeightError {
    /// The candidate height was zero; a product needs a positive height.
    ZeroInput,
}

/// A height known, by construction, to be strictly greater than zero.
#[derive(Debug, Clone, Copy)]
pub struct ValidatedHeight {
    height: u32,
}

impl View for ValidatedHeight {
    type V = u32;

    closed spec fn view(&self) -> u32 {
        self.height
    }
}

impl ValidatedHeight {
    #[verifier::type_invariant]
    spec fn positive(self) -> bool {
        self.height > 0
    }

    /// Validates a candidate height: succeeds exactly on non-zero candidates.
    /// This is the single point where zero-ness is checked.
    pub fn construct(candidate: u32) -> (r: Result<ValidatedHeight, HeightError>)
        ensures
            candidate == 0 <==> r is Err,
            r matches Err(e) ==> e == HeightError::ZeroInput,
            r matches Ok(h) ==> h@ == candidate,
    {
        if candidate == 0 {
            Err(HeightError::ZeroInput)
        } else {
            Ok(ValidatedHeight { height: candidate })
        }
    }

    /// The underlying height, always positive.
    pub fn get(&self) -> (r: u32)
        ensures
            r == self@,
            r > 0,
    {
        proof {
            use_type_invariant(&*self);
        }
        self.height
    }
}

/// Decides whether the product fits exactly in the packaging: true exactly
/// when the height evenly divides the packaging height. The height is
/// non-zero by construction, so no runtime zero check is needed here.
pub fn item_fits_exactly_in_packaging(height: ValidatedHeight) -> (r: bool)
    ensures
        r == spec_fits(height@ as int),
{
    PACKAGING_HEIGHT % height.get() == 0
}

/// Validates a candidate height and, when it is valid, decides the fit.
pub fn check_height(candidate: u32) -> (r: Result<bool, HeightError>)
    ensures
        candidate == 0 <==> r is Err,
        r matches Err(e) ==> e == HeightError::ZeroInput,
        r matches Ok(fits) ==> fits == spec_fits(candidate as int),
{
    match ValidatedHeight::construct(candidate) {
        Ok(height) => Ok(item_fits_exactly_in_packaging(height)),
        Err(e) => Err(e),
    }
}

/// The report line for a fit outcome.
pub fn fit_message(fits: bool) -> (r: &'static str)
    ensures
        fits ==> r@ == "product fits in packaging"@,
        !fits ==> r@ == "product does not fit in packaging"@,
{
    if fits {
        "product fits in packaging"
    } else {
        "product does not fit in packaging"
    }
}

/// For every height between one and the packaging height, the fit holds
/// exactly when the height evenly divides the packaging height.
pub proof fn lemma_fits_iff_divides(h: int)
    requires
        1 <= h <= PACKAGING_HEIGHT,
    ensures
        spec_fits(h) <==> PACKAGING_HEIGHT as int % h == 0,
{
}

/// No height greater than the packaging height ever fits: the remainder of
/// the packaging height by a larger height is the packaging height itself.
pub proof fn lemma_taller_than_packaging_never_fits(h: int)
    requires
        h > PACKAGING_HEIGHT,
    ensures
        !spec_fits(h),
{
    vstd::arithmetic::div_mod::lemma_small_mod(PACKAGING_HEIGHT as nat, h as nat);
}

/// Deciding the fit is pure: any two results that
/// `item_fits_exactly_in_packaging` returns for the same validated height
/// are equal.
pub proof fn lemma_fits_is_pure(height: ValidatedHeight, r1: bool, r2: bool)
    requires
        r1 == spec_fits(height@ as int),
        r2 == spec_fits(height@ as int),
    ensures
        r1 == r2,
{
}

} // verus!
