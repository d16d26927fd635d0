//! Render jobs: the request model, the geometry rules that accept or reject
//! a request, and the record that an accepted request becomes.
use vstd::prelude::*;

use crate::filters::{broadband_of, narrowband_of, AstronomicalFilter};
use crate::scalar::{Scalar, MINUS_NINETY_BITS, NINETY_BITS, ZERO_BITS};

verus! {

/// The reference plane of a render, spanned by two basis vectors.
#[derive(Clone, Copy, Debug)]
pub struct FundamentalPlane {
    pub basis: [[Scalar; 3]; 2],
}

/// A request to render a patch of sky.
#[derive(Debug)]
pub struct RenderJob {
    pub email: String,
    pub fov: [Scalar; 2],
    pub image_dimensions: [i32; 2],
    pub fundamental_plane: FundamentalPlane,
    pub observer_position: [Scalar; 3],
    pub latitude: Scalar,
    pub longitude: Scalar,
    pub filters: Vec<AstronomicalFilter>,
}

/// Why a request was not accepted.
#[derive(Clone, Debug)]
pub enum Rejection {
    /// The request does not have the required shape; the text says where.
    Malformed(String),
    /// The latitude, which lies above 90 or below -90 degrees.
    LatitudeOutOfRange(Scalar),
    /// Both components of a field of view with a component at or below zero.
    NonPositiveFieldOfView(Scalar, Scalar),
    /// The two basis vectors are parallel, or one of them is zero.
    ParallelBases,
}

/// What a submission comes to.
#[derive(Clone, Debug)]
pub enum Outcome {
    Accepted,
    Rejected(Rejection),
    ServerError,
}

/// The durable record of an accepted job.
#[derive(Debug)]
pub struct PersistedRenderJob {
    pub id: u128,
    pub created_at: i64,
    pub email: String,
    pub fov_x: Scalar,
    pub fov_y: Scalar,
    pub image_dimension_x: i32,
    pub image_dimension_y: i32,
    pub fundamental_plane_basis_vector_1: Vec<Scalar>,
    pub fundamental_plane_basis_vector_2: Vec<Scalar>,
    pub observer_position: Vec<Scalar>,
    pub latitude: Scalar,
    pub longitude: Scalar,
    pub narrowband_filters: Vec<Scalar>,
    pub broadband_filters: Vec<String>,
    pub image_url: Option<String>,
}

/// The latitude lies above 90 or below -90 degrees.
pub open spec fn latitude_out_of_range(latitude: Scalar) -> bool {
    Scalar { bits: NINETY_BITS }.spec_lt(latitude) || latitude.spec_lt(
        Scalar { bits: MINUS_NINETY_BITS },
    )
}

/// A component of the field of view is at or below zero.
pub open spec fn fov_not_positive(fov: [Scalar; 2]) -> bool {
    fov[0].spec_le(Scalar { bits: ZERO_BITS }) || fov[1].spec_le(Scalar { bits: ZERO_BITS })
}

/// The rules in their order, the first that fails deciding the reason.
/// `cross_norm_squared` is the squared norm of the cross product of the two
/// basis vectors, computed in single precision.
pub open spec fn verdict(latitude: Scalar, fov: [Scalar; 2], cross_norm_squared: Scalar) -> Result<
    (),
    Rejection,
> {
    if latitude_out_of_range(latitude) {
        Err(Rejection::LatitudeOutOfRange(latitude))
    } else if fov_not_positive(fov) {
        Err(Rejection::NonPositiveFieldOfView(fov[0], fov[1]))
    } else if cross_norm_squared.spec_is_zero() {
        Err(Rejection::ParallelBases)
    } else {
        Ok(())
    }
}

impl FundamentalPlane {
    pub fn basis_vec_1(&self) -> (r: Vec<Scalar>)
        ensures
            r@ == self.basis[0]@,
    {
        let v = self.basis[0];
        let r = vec![v[0], v[1], v[2]];
        assert(r@ =~= v@);
        r
    }

    pub fn basis_vec_2(&self) -> (r: Vec<Scalar>)
        ensures
            r@ == self.basis[1]@,
    {
        let v = self.basis[1];
        let r = vec![v[0], v[1], v[2]];
        assert(r@ =~= v@);
        r
    }
}

/// The broad-band filter names of `fs`, in their order in `fs`.
pub open spec fn broadband_names_of(fs: Seq<AstronomicalFilter>) -> Seq<Seq<char>> {
    broadband_of(fs).map_values(|b: crate::filters::BroadBandFilter| b.name_of())
}

impl PersistedRenderJob {
    /// The record holds `job` as it was submitted, under `id` and `created_at`,
    /// with its filters split by kind and no image yet.
    pub open spec fn records(&self, job: &RenderJob, id: u128, created_at: i64) -> bool {
        &&& self.id == id
        &&& self.created_at == created_at
        &&& self.email@ == job.email@
        &&& self.fov_x == job.fov[0]
        &&& self.fov_y == job.fov[1]
        &&& self.image_dimension_x == job.image_dimensions[0]
        &&& self.image_dimension_y == job.image_dimensions[1]
        &&& self.fundamental_plane_basis_vector_1@ == job.fundamental_plane.basis[0]@
        &&& self.fundamental_plane_basis_vector_2@ == job.fundamental_plane.basis[1]@
        &&& self.observer_position@ == job.observer_position@
        &&& self.latitude == job.latitude
        &&& self.longitude == job.longitude
        &&& self.narrowband_filters@ == narrowband_of(job.filters@)
        &&& self.broadband_filters@.len() == broadband_names_of(job.filters@).len()
        &&& forall|i: int|
            0 <= i < self.broadband_filters@.len() ==> #[trigger] self.broadband_filters@[i]@
                == broadband_names_of(job.filters@)[i]
        &&& self.image_url is None
    }
}

impl RenderJob {
    /// What the rules decide for this job.
    pub open spec fn verdict(&self, cross_norm_squared: Scalar) -> Result<(), Rejection> {
        verdict(self.latitude, self.fov, cross_norm_squared)
    }

    /// The wavelengths of the narrow-band filters, in their order.
    pub fn narrowband_filters(&self) -> (r: Vec<Scalar>)
        ensures
            r@ == narrowband_of(self.filters@),
    {
        let mut out: Vec<Scalar> = Vec::new();
        for i in 0..self.filters.len()
            invariant
                out@ == narrowband_of(self.filters@.subrange(0, i as int)),
        {
            assert(self.filters@.subrange(0, i + 1).drop_last() =~= self.filters@.subrange(
                0,
                i as int,
            ));
            if let AstronomicalFilter::NarrowBand(wavelength) = self.filters[i] {
                out.push(wavelength);
            }
        }
        assert(self.filters@.subrange(0, self.filters@.len() as int) =~= self.filters@);
        out
    }

    /// The catalog names of the broad-band filters, in their order.
    pub fn broadband_filters(&self) -> (r: Vec<String>)
        ensures
            r@.len() == broadband_names_of(self.filters@).len(),
            forall|i: int|
                0 <= i < r@.len() ==> #[trigger] r@[i]@ == broadband_names_of(self.filters@)[i],
    {
        let mut out: Vec<String> = Vec::new();
        for i in 0..self.filters.len()
            invariant
                out@.len() == broadband_of(self.filters@.subrange(0, i as int)).len(),
                forall|j: int|
                    0 <= j < out@.len() ==> #[trigger] out@[j]@ == broadband_of(
                        self.filters@.subrange(0, i as int),
                    )[j].name_of(),
        {
            assert(self.filters@.subrange(0, i + 1).drop_last() =~= self.filters@.subrange(
                0,
                i as int,
            ));
            if let AstronomicalFilter::BroadBand(filter) = self.filters[i] {
                out.push(filter.name());
            }
        }
        assert(self.filters@.subrange(0, self.filters@.len() as int) =~= self.filters@);
        out
    }

    /// Checks the rules in order: latitude, field of view, then the basis,
    /// whose cross product has the squared norm `cross_norm_squared`.
    pub fn validate(&self, cross_norm_squared: Scalar) -> (r: Result<(), Rejection>)
        ensures
            r == self.verdict(cross_norm_squared),
    {
        let latitude = self.latitude;
        if Scalar::ninety().lt(&latitude) || latitude.lt(&Scalar::minus_ninety()) {
            Err(Rejection::LatitudeOutOfRange(latitude))
        } else if self.fov[0].le(&Scalar::zero()) || self.fov[1].le(&Scalar::zero()) {
            Err(Rejection::NonPositiveFieldOfView(self.fov[0], self.fov[1]))
        } else if cross_norm_squared.is_zero() {
            Err(Rejection::ParallelBases)
        } else {
            Ok(())
        }
    }

    /// The record of this job under `id` and `created_at`.
    pub fn to_record(&self, id: u128, created_at: i64) -> (r: PersistedRenderJob)
        ensures
            r.records(self, id, created_at),
    {
        PersistedRenderJob {
            id,
            created_at,
            email: self.email.clone(),
            fov_x: self.fov[0],
            fov_y: self.fov[1],
            image_dimension_x: self.image_dimensions[0],
            image_dimension_y: self.image_dimensions[1],
            fundamental_plane_basis_vector_1: self.fundamental_plane.basis_vec_1(),
            fundamental_plane_basis_vector_2: self.fundamental_plane.basis_vec_2(),
            observer_position: {
                let p = self.observer_position;
                let v = vec![p[0], p[1], p[2]];
                assert(v@ =~= p@);
                v
            },
            latitude: self.latitude,
            longitude: self.longitude,
            narrowband_filters: self.narrowband_filters(),
            broadband_filters: self.broadband_filters(),
            image_url: None,
        }
    }
}

/// Validates `job` and, once it passes, makes its record under `id` and
/// `created_at`, ready for the one write that stores it. The caller draws a
/// fresh identifier and reads the clock; `cross_norm_squared` is the squared
/// norm of the cross product of the job's basis vectors.
pub fn submit_render_request(
    job: &RenderJob,
    cross_norm_squared: Scalar,
    id: u128,
    created_at: i64,
) -> (r: Result<PersistedRenderJob, Rejection>)
    ensures
        job.verdict(cross_norm_squared) is Ok <==> r is Ok,
        job.verdict(cross_norm_squared) matches Err(e) ==> (r matches Err(f) && f == e),
        r matches Ok(record) ==> record.records(job, id, created_at),
{
    match job.validate(cross_norm_squared) {
        Ok(()) => Ok(job.to_record(id, created_at)),
        Err(e) => Err(e),
    }
}

/// The outcome of a submission whose record was handed to storage: accepted
/// when the write succeeded, a server error when it failed.
pub fn write_outcome(write_succeeded: bool) -> (r: Outcome)
    ensures
        write_succeeded ==> r is Accepted,
        !write_succeeded ==> r is ServerError,
{
    if write_succeeded {
        Outcome::Accepted
    } else {
        Outcome::ServerError
    }
}


/// A latitude above 90 or below -90 degrees rejects the job, with that
/// latitude as the reason; a latitude within [-90, 90] never fails the
/// latitude rule.
pub proof fn lemma_latitude_rule(job: &RenderJob, cross_norm_squared: Scalar)
    ensures
        latitude_out_of_range(job.latitude) ==> job.verdict(cross_norm_squared) == Err::<(), _>(
            Rejection::LatitudeOutOfRange(job.latitude),
        ),
        (Scalar { bits: MINUS_NINETY_BITS }).spec_le(job.latitude) && job.latitude.spec_le(
            Scalar { bits: NINETY_BITS },
        ) ==> !(job.verdict(cross_norm_squared) matches Err(Rejection::LatitudeOutOfRange(_))),
{
}

/// A field of view with a component at or below zero rejects the job; one
/// with both components above zero never fails the field-of-view rule.
pub proof fn lemma_fov_rule(job: &RenderJob, cross_norm_squared: Scalar)
    ensures
        fov_not_positive(job.fov) ==> job.verdict(cross_norm_squared) is Err,
        (Scalar { bits: ZERO_BITS }).spec_lt(job.fov[0]) && (Scalar { bits: ZERO_BITS }).spec_lt(
            job.fov[1],
        ) ==> !(job.verdict(cross_norm_squared) matches Err(
            Rejection::NonPositiveFieldOfView(_, _),
        )),
{
}

/// Basis vectors whose cross product has a squared norm of exactly zero
/// reject the job; any other squared norm, however small, never fails the
/// basis rule.
pub proof fn lemma_basis_rule(job: &RenderJob, cross_norm_squared: Scalar)
    ensures
        cross_norm_squared.spec_is_zero() ==> job.verdict(cross_norm_squared) is Err,
        !cross_norm_squared.spec_is_zero() ==> !(job.verdict(cross_norm_squared) matches Err(
            Rejection::ParallelBases,
        )),
{
}

/// The verdict depends on the request alone, through its latitude, its field
/// of view and the cross product of its basis: two submissions of the same
/// request meet the same verdict, and so the same reason when rejected.
pub proof fn lemma_verdict_is_repeatable(
    first: &RenderJob,
    second: &RenderJob,
    cross_norm_squared: Scalar,
)
    requires
        first.latitude == second.latitude,
        first.fov == second.fov,
    ensures
        first.verdict(cross_norm_squared) == second.verdict(cross_norm_squared),
{
}

} // verus!
