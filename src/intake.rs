//! Turning a request as it arrives, with any field possibly absent, into a
//! render job.
use vstd::prelude::*;

use crate::filters::{decode_filter_spec, decode_filters, FilterEntry};
use crate::render_job::{FundamentalPlane, Rejection, RenderJob};
use crate::scalar::Scalar;

verus! {

/// A render request as it arrives: each field may be missing, and the
/// filters are not yet classified.
#[derive(Debug)]
pub struct RawRenderJob {
    pub email: Option<String>,
    pub fov: Option<[Scalar; 2]>,
    pub image_dimensions: Option<[i32; 2]>,
    pub fundamental_plane: Option<FundamentalPlane>,
    pub observer_position: Option<[Scalar; 3]>,
    pub latitude: Option<Scalar>,
    pub longitude: Option<Scalar>,
    pub filters: Option<Vec<FilterEntry>>,
}

/// The first required field, in the order of the request model, that the
/// request lacks.
pub open spec fn first_missing(raw: RawRenderJob) -> Option<Seq<char>> {
    if raw.email is None {
        Some("email"@)
    } else if raw.fov is None {
        Some("fov"@)
    } else if raw.image_dimensions is None {
        Some("image_dimensions"@)
    } else if raw.fundamental_plane is None {
        Some("fundamental_plane"@)
    } else if raw.observer_position is None {
        Some("observer_position"@)
    } else if raw.latitude is None {
        Some("latitude"@)
    } else if raw.longitude is None {
        Some("longitude"@)
    } else if raw.filters is None {
        Some("filters"@)
    } else {
        None
    }
}

/// Every filter entry of a request that has its filters is a filter.
pub open spec fn filters_decode(raw: RawRenderJob) -> bool {
    forall|i: int|
        0 <= i < raw.filters->Some_0@.len() ==> #[trigger] decode_filter_spec(
            raw.filters->Some_0@[i],
        ) is Some
}

/// The job holds every field of the request as it came, its filters decoded
/// one for one.
pub open spec fn holds_request(job: RenderJob, raw: RawRenderJob) -> bool {
    &&& raw.email matches Some(e) && job.email@ == e@
    &&& raw.fov == Some(job.fov)
    &&& raw.image_dimensions == Some(job.image_dimensions)
    &&& raw.fundamental_plane == Some(job.fundamental_plane)
    &&& raw.observer_position == Some(job.observer_position)
    &&& raw.latitude == Some(job.latitude)
    &&& raw.longitude == Some(job.longitude)
    &&& raw.filters matches Some(fs) && job.filters@.len() == fs@.len() && forall|i: int|
        0 <= i < fs@.len() ==> decode_filter_spec(fs@[i]) == Some(#[trigger] job.filters@[i])
}

fn missing(field: &str) -> (r: Rejection)
    ensures
        r matches Rejection::Malformed(m) && m@ == field@,
{
    Rejection::Malformed(field.to_owned())
}

/// Decodes a request: a missing field, the first in the order of the model,
/// or a filter entry that is neither a catalog name nor a number makes it
/// malformed, with the name of that field as the text.
pub fn decode(raw: RawRenderJob) -> (r: Result<RenderJob, Rejection>)
    ensures
        first_missing(raw) matches Some(name) ==> (r matches Err(Rejection::Malformed(m)) && m@
            == name),
        first_missing(raw) is None && !filters_decode(raw) ==> (r matches Err(
            Rejection::Malformed(m),
        ) && m@ == "filters"@),
        first_missing(raw) is None && filters_decode(raw) ==> (r matches Ok(job) && holds_request(
            job,
            raw,
        )),
{
    let RawRenderJob {
        email,
        fov,
        image_dimensions,
        fundamental_plane,
        observer_position,
        latitude,
        longitude,
        filters,
    } = raw;
    let email = match email {
        Some(e) => e,
        None => {
            return Err(missing("email"));
        },
    };
    let fov = match fov {
        Some(v) => v,
        None => {
            return Err(missing("fov"));
        },
    };
    let image_dimensions = match image_dimensions {
        Some(v) => v,
        None => {
            return Err(missing("image_dimensions"));
        },
    };
    let fundamental_plane = match fundamental_plane {
        Some(v) => v,
        None => {
            return Err(missing("fundamental_plane"));
        },
    };
    let observer_position = match observer_position {
        Some(v) => v,
        None => {
            return Err(missing("observer_position"));
        },
    };
    let latitude = match latitude {
        Some(v) => v,
        None => {
            return Err(missing("latitude"));
        },
    };
    let longitude = match longitude {
        Some(v) => v,
        None => {
            return Err(missing("longitude"));
        },
    };
    let entries = match filters {
        Some(v) => v,
        None => {
            return Err(missing("filters"));
        },
    };
    let filters = match decode_filters(&entries) {
        Some(fs) => fs,
        None => {
            return Err(missing("filters"));
        },
    };
    Ok(
        RenderJob {
            email,
            fov,
            image_dimensions,
            fundamental_plane,
            observer_position,
            latitude,
            longitude,
            filters,
        },
    )
}

} // verus!
