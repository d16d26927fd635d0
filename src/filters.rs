//! Optical filters: the broad-band catalog, the two filter kinds, the
//! two-branch decoding of a filter entry, and the split of a filter list
//! into its two kinds.
use vstd::prelude::*;

use crate::scalar::Scalar;

verus! {

broadcast use {vstd::seq_lib::group_to_multiset_ensures, vstd::multiset::group_multiset_axioms};

/// A broad-band filter, named from a fixed catalog.
#[allow(non_camel_case_types)]
#[derive(Clone, Copy, Debug, PartialEq, Eq, Structural)]
pub enum BroadBandFilter {
    SDSS_U,
    SDSS_G,
    SDSS_R,
}

/// A filter of a render job: a bare wavelength or a catalog name.
#[derive(Clone, Copy, Debug, PartialEq, Eq, Structural)]
pub enum AstronomicalFilter {
    NarrowBand(Scalar),
    BroadBand(BroadBandFilter),
}

/// One entry of a filter list as it arrives, before it is classified.
#[derive(Debug)]
pub enum FilterEntry {
    Text(String),
    Number(Scalar),
}

impl BroadBandFilter {
    /// The catalog name of the filter.
    pub open spec fn name_of(self) -> Seq<char> {
        match self {
            BroadBandFilter::SDSS_U => "SDSS_U"@,
            BroadBandFilter::SDSS_G => "SDSS_G"@,
            BroadBandFilter::SDSS_R => "SDSS_R"@,
        }
    }

    /// The filter whose catalog name is `name`, if there is one.
    pub open spec fn from_name_spec(name: Seq<char>) -> Option<BroadBandFilter> {
        if name == "SDSS_U"@ {
            Some(BroadBandFilter::SDSS_U)
        } else if name == "SDSS_G"@ {
            Some(BroadBandFilter::SDSS_G)
        } else if name == "SDSS_R"@ {
            Some(BroadBandFilter::SDSS_R)
        } else {
            None
        }
    }

    pub fn name(&self) -> (r: String)
        ensures
            r@ == self.name_of(),
    {
        match self {
            BroadBandFilter::SDSS_U => "SDSS_U".to_owned(),
            BroadBandFilter::SDSS_G => "SDSS_G".to_owned(),
            BroadBandFilter::SDSS_R => "SDSS_R".to_owned(),
        }
    }

    pub fn from_name(name: &str) -> (r: Option<BroadBandFilter>)
        ensures
            r == Self::from_name_spec(name@),
    {
        let name = name.to_owned();
        if name == "SDSS_U".to_owned() {
            Some(BroadBandFilter::SDSS_U)
        } else if name == "SDSS_G".to_owned() {
            Some(BroadBandFilter::SDSS_G)
        } else if name == "SDSS_R".to_owned() {
            Some(BroadBandFilter::SDSS_R)
        } else {
            None
        }
    }
}

/// A catalog name becomes a broad-band filter; a number becomes a
/// narrow-band filter; any other text is not a filter.
pub open spec fn decode_filter_spec(entry: FilterEntry) -> Option<AstronomicalFilter> {
    match entry {
        FilterEntry::Text(s) => match BroadBandFilter::from_name_spec(s@) {
            Some(b) => Some(AstronomicalFilter::BroadBand(b)),
            None => None,
        },
        FilterEntry::Number(w) => Some(AstronomicalFilter::NarrowBand(w)),
    }
}

/// Decodes one filter entry: the catalog name is tried first, then the number.
pub fn decode_filter(entry: &FilterEntry) -> (r: Option<AstronomicalFilter>)
    ensures
        r == decode_filter_spec(*entry),
{
    match entry {
        FilterEntry::Text(s) => match BroadBandFilter::from_name(s.as_str()) {
            Some(b) => Some(AstronomicalFilter::BroadBand(b)),
            None => None,
        },
        FilterEntry::Number(w) => Some(AstronomicalFilter::NarrowBand(*w)),
    }
}

/// Decodes a whole filter list; one entry that is no filter fails the list.
pub fn decode_filters(entries: &Vec<FilterEntry>) -> (r: Option<Vec<AstronomicalFilter>>)
    ensures
        r is Some <==> forall|i: int|
            0 <= i < entries@.len() ==> #[trigger] decode_filter_spec(entries@[i]) is Some,
        r matches Some(fs) ==> fs@.len() == entries@.len() && forall|i: int|
            0 <= i < entries@.len() ==> decode_filter_spec(entries@[i]) == Some(
                #[trigger] fs@[i],
            ),
{
    let mut out: Vec<AstronomicalFilter> = Vec::new();
    for i in 0..entries.len()
        invariant
            out@.len() == i,
            forall|j: int| 0 <= j < i ==> decode_filter_spec(entries@[j]) == Some(#[trigger] out@[j]),
    {
        match decode_filter(&entries[i]) {
            Some(f) => out.push(f),
            None => {
                return None;
            },
        }
    }
    assert forall|i: int| 0 <= i < entries@.len() implies #[trigger] decode_filter_spec(
        entries@[i],
    ) is Some by {
        assert(decode_filter_spec(entries@[i]) == Some(out@[i]));
    }
    Some(out)
}

/// The wavelengths of the narrow-band filters, in their order in `fs`.
pub open spec fn narrowband_of(fs: Seq<AstronomicalFilter>) -> Seq<Scalar>
    decreases fs.len(),
{
    if fs.len() == 0 {
        Seq::empty()
    } else {
        let rest = narrowband_of(fs.drop_last());
        match fs.last() {
            AstronomicalFilter::NarrowBand(w) => rest.push(w),
            AstronomicalFilter::BroadBand(_) => rest,
        }
    }
}

/// The broad-band filters, in their order in `fs`.
pub open spec fn broadband_of(fs: Seq<AstronomicalFilter>) -> Seq<BroadBandFilter>
    decreases fs.len(),
{
    if fs.len() == 0 {
        Seq::empty()
    } else {
        let rest = broadband_of(fs.drop_last());
        match fs.last() {
            AstronomicalFilter::NarrowBand(_) => rest,
            AstronomicalFilter::BroadBand(b) => rest.push(b),
        }
    }
}

pub open spec fn is_narrowband() -> spec_fn(AstronomicalFilter) -> bool {
    |f: AstronomicalFilter| f is NarrowBand
}

pub open spec fn is_broadband() -> spec_fn(AstronomicalFilter) -> bool {
    |f: AstronomicalFilter| f is BroadBand
}

pub open spec fn wavelength() -> spec_fn(AstronomicalFilter) -> Scalar {
    |f: AstronomicalFilter| f->NarrowBand_0
}

pub open spec fn catalog_entry() -> spec_fn(AstronomicalFilter) -> BroadBandFilter {
    |f: AstronomicalFilter| f->BroadBand_0
}

/// The two projections, each tagged again with its kind and put one after
/// the other.
pub open spec fn rejoined(fs: Seq<AstronomicalFilter>) -> Seq<AstronomicalFilter> {
    narrowband_of(fs).map_values(|w: Scalar| AstronomicalFilter::NarrowBand(w)) + broadband_of(
        fs,
    ).map_values(|b: BroadBandFilter| AstronomicalFilter::BroadBand(b))
}

/// Splitting a filter list into its narrow-band wavelengths and its
/// broad-band filters is a stable partition: the two parts, tagged again,
/// hold exactly the filters of the list, and each part keeps the order
/// that its filters had in the list.
pub proof fn lemma_classification_is_stable_partition(fs: Seq<AstronomicalFilter>)
    ensures
        rejoined(fs).to_multiset() =~= fs.to_multiset(),
        narrowband_of(fs) =~= fs.filter(is_narrowband()).map_values(wavelength()),
        broadband_of(fs) =~= fs.filter(is_broadband()).map_values(catalog_entry()),
    decreases fs.len(),
{
    if fs.len() > 0 {
        let init = fs.drop_last();
        let x = fs.last();
        lemma_classification_is_stable_partition(init);
        assert(init.push(x) =~= fs);
        init.lemma_filter_push(x, is_narrowband());
        init.lemma_filter_push(x, is_broadband());
        let a = narrowband_of(init).map_values(|w: Scalar| AstronomicalFilter::NarrowBand(w));
        let b = broadband_of(init).map_values(|b: BroadBandFilter| AstronomicalFilter::BroadBand(b));
        vstd::seq_lib::lemma_multiset_commutative(a, b);
        match x {
            AstronomicalFilter::NarrowBand(w) => {
                assert(narrowband_of(fs).map_values(
                    |w: Scalar| AstronomicalFilter::NarrowBand(w),
                ) =~= a.push(x));
                vstd::seq_lib::lemma_multiset_commutative(a.push(x), b);
            },
            AstronomicalFilter::BroadBand(c) => {
                assert(broadband_of(fs).map_values(
                    |b: BroadBandFilter| AstronomicalFilter::BroadBand(b),
                ) =~= b.push(x));
                vstd::seq_lib::lemma_multiset_commutative(a, b.push(x));
            },
        }
    }
}

} // verus!
