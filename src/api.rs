//! Access to the VATSIM API: the client handle with its data endpoint, the
//! choice of that endpoint, and lookups in the snapshot's code tables.

use vstd::prelude::*;

use crate::models::{ReferenceItem, Status, V3ResponseData};

verus! {

/// reqwest's blocking HTTP client, carried through as an opaque value.
#[verifier::external_type_specification]
#[verifier::external_body]
pub struct ExClient(reqwest::blocking::Client);

/// The label shown for a code: the short label of the first entry of `items`
/// with that code, or `"?"` where none has it.
pub open spec fn label_of(items: Seq<ReferenceItem>, code: i8) -> Seq<char>
    decreases items.len(),
{
    if items.len() == 0 {
        "?"@
    } else if items[0].id == code {
        items[0].short@
    } else {
        label_of(items.drop_first(), code)
    }
}

/// Why the data endpoint could not be chosen.
#[derive(Debug, PartialEq, Eq, Structural)]
pub enum ApiError {
    /// The status document lists no V3 endpoint.
    NoV3Urls,
}

/// Relies on rand's `SliceRandom::choose` with the thread-local generator:
/// `None` exactly for an empty list, else one of its elements.
#[verifier::external_body]
fn choose_any(items: &Vec<String>) -> (r: Option<String>)
    ensures
        r.is_none() <==> items@.len() == 0,
        r.is_some() ==> exists|i: int| 0 <= i < items@.len() && items@[i] == r.unwrap(),
{
    rand::seq::SliceRandom::choose(items.as_slice(), &mut rand::thread_rng()).cloned()
}

/// Pick one of the V3 data endpoints that the status document lists, at
/// random; an error where it lists none.
pub fn choose_v3_url(status: &Status) -> (r: Result<String, ApiError>)
    ensures
        r is Err <==> status.data.v3@.len() == 0,
        r is Err ==> r == Err::<String, ApiError>(ApiError::NoV3Urls),
        r is Ok ==> status.data.v3@.contains(r.unwrap()),
{
    match choose_any(&status.data.v3) {
        Some(url) => Ok(url),
        None => Err(ApiError::NoV3Urls),
    }
}

/// API struct: an HTTP client and the V3 data endpoint it queries.
pub struct Vatsim {
    client: reqwest::blocking::Client,
    v3_url: String,
}

impl Vatsim {
    /// The V3 data endpoint.
    pub closed spec fn endpoint(&self) -> Seq<char> {
        self.v3_url@
    }

    /// Assemble an API handle from a configured client and a data endpoint.
    pub fn from_parts(client: reqwest::blocking::Client, v3_url: String) -> (r: Self)
        ensures
            r.endpoint() == v3_url@,
    {
        Vatsim { client, v3_url }
    }

    /// The HTTP client.
    pub fn client(&self) -> &reqwest::blocking::Client {
        &self.client
    }

    /// The V3 data endpoint.
    pub fn v3_url(&self) -> (r: &String)
        ensures
            r@ == self.endpoint(),
    {
        &self.v3_url
    }

    /// Look up a controller's rating in the data: turns a number into a
    /// label like "S1", "C3", "L1"; `"?"` for a code that the table lacks.
    pub fn controller_rating_lookup(data: &V3ResponseData, rating: i8) -> (r: String)
        ensures
            r@ == label_of(data.ratings@, rating),
    {
        let items = &data.ratings;
        let mut i: usize = 0;
        assert(items@.subrange(0, items@.len() as int) =~= items@);
        while i < items.len()
            invariant
                items == &data.ratings,
                i <= items@.len(),
                label_of(items@, rating) == label_of(items@.subrange(i as int, items@.len() as int), rating),
            decreases items@.len() - i,
        {
            let ghost rest = items@.subrange(i as int, items@.len() as int);
            assert(rest[0] == items@[i as int]);
            if items[i].id == rating {
                let r = items[i].short.clone();
                return r;
            }
            assert(rest.drop_first() =~= items@.subrange(i + 1, items@.len() as int));
            i = i + 1;
        }
        String::from_str("?")
    }
}

} // verus!
