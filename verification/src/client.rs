//! The decoded top-level registry document and its accessors.
//!
//! A [`Crateio`] holds the typed crate metadata plus the document's opaque
//! version entries (and, when present, its keyword entries). Version entries
//! are decoded one at a time, on demand, by a zero-based index into the
//! version sequence; the registry's ordering places the most recent version
//! first, at index 0.

use vstd::prelude::*;

use crate::json::elems_view;
use crate::json::obj_lookup;
use crate::json::opt_array_field;
use crate::json::string_views;
use crate::json::Json;
use crate::json::JsonValue;
use crate::record::crate_data_of;
use crate::record::decode_version;
use crate::record::features_of;
use crate::record::version_of;
use crate::record::version_views;
use crate::record::CrateData;
use crate::record::CrateDataView;
use crate::record::Version;
use crate::record::VersionView;

verus! {

/// The top-level document did not have the expected shape.
#[derive(Debug, Clone, Copy, PartialEq, Eq)]
pub struct DecodeError;

/// The three-way result of decoding one opaque element addressed by index:
/// the decoded record, absence (no element at that index), or a present but
/// ill-shaped element. Absence and decode failure are never conflated.
#[derive(Debug, PartialEq)]
pub enum Decoded<T> {
    Present(T),
    Absent,
    Malformed,
}

impl<T: View> View for Decoded<T> {
    type V = Decoded<T::V>;

    open spec fn view(&self) -> Decoded<T::V> {
        match self {
            Decoded::Present(t) => Decoded::Present(t@),
            Decoded::Absent => Decoded::Absent,
            Decoded::Malformed => Decoded::Malformed,
        }
    }
}

/// The decoded top-level registry document for one crate.
#[derive(Debug, PartialEq)]
pub struct Crateio {
    pub crate_data: CrateData,
    pub keywords: Option<Vec<JsonValue>>,
    pub versions: Vec<JsonValue>,
}

/// The mathematical model of a [`Crateio`].
#[verifier::ext_equal]
pub struct CrateioView {
    pub crate_data: CrateDataView,
    pub keywords: Option<Seq<Json>>,
    pub versions: Seq<Json>,
}

impl View for Crateio {
    type V = CrateioView;

    open spec fn view(&self) -> CrateioView {
        CrateioView {
            crate_data: self.crate_data@,
            keywords: match self.keywords {
                Some(a) => Some(elems_view(a@)),
                None => None,
            },
            versions: elems_view(self.versions@),
        }
    }
}

/// The document model a JSON value decodes to, or `None` when its shape does
/// not match: it must be an object with a `crate` field holding crate
/// metadata, a `versions` field holding an array, and an optional `keywords`
/// array. The elements of `versions` and `keywords` stay opaque here.
pub open spec fn document_of(j: Json) -> Option<CrateioView> {
    match j {
        Json::Object(e) => {
            let crate_data = match obj_lookup(e, "crate"@) {
                Some(cj) => crate_data_of(cj),
                None => None,
            };
            let keywords = opt_array_field(e, "keywords"@);
            let versions = match obj_lookup(e, "versions"@) {
                Some(Json::Array(a)) => Some(a),
                _ => None,
            };
            if crate_data is Some && keywords is Some && versions is Some {
                Some(
                    CrateioView {
                        crate_data: crate_data->0,
                        keywords: keywords->0,
                        versions: versions->0,
                    },
                )
            } else {
                None
            }
        },
        _ => None,
    }
}

/// The decoded version at a zero-based index into the model's version
/// sequence: absent past the end, malformed where the element does not decode.
pub open spec fn version_at(c: CrateioView, id: u64) -> Decoded<VersionView> {
    if c.versions.len() <= id as int {
        Decoded::Absent
    } else {
        match version_of(c.versions[id as int]) {
            Some(vv) => Decoded::Present(vv),
            None => Decoded::Malformed,
        }
    }
}

/// Every version of the model's sequence that decodes, in sequence order;
/// elements that do not decode are passed over.
pub open spec fn decoded_versions(vs: Seq<Json>) -> Seq<VersionView>
    decreases vs.len(),
{
    if vs.len() == 0 {
        Seq::empty()
    } else {
        let init = decoded_versions(vs.drop_last());
        match version_of(vs.last()) {
            Some(vv) => init.push(vv),
            None => init,
        }
    }
}

/// The feature names of the version at a zero-based index: `None` where there
/// is no such version, it does not decode, or it has no feature map.
pub open spec fn features_at(c: CrateioView, id: u64) -> Option<Seq<Seq<char>>> {
    match version_at(c, id) {
        Decoded::Present(vv) => features_of(vv),
        _ => None,
    }
}

impl Crateio {
    /// Decodes a whole JSON tree as the top-level registry document.
    ///
    /// Fails exactly when the document's shape does not match: the typed
    /// crate metadata is validated here, while the version and keyword
    /// entries are stored opaquely for on-demand decoding.
    pub fn from_document(doc: &JsonValue) -> (r: Result<Crateio, DecodeError>)
        ensures
            match r {
                Ok(c) => document_of(doc@) == Some(c@),
                Err(_) => document_of(doc@) is None,
            },
    {
        match doc {
            JsonValue::Object(entries) => {
                let crate_data = match crate::json::lookup_entry(entries, &"crate".to_owned()) {
                    Some(cv) => match crate::record::decode_crate_data(cv) {
                        Some(d) => d,
                        None => {
                            return Err(DecodeError);
                        },
                    },
                    None => {
                        return Err(DecodeError);
                    },
                };
                let keywords = match crate::json::get_opt_array_field(
                    entries,
                    &"keywords".to_owned(),
                ) {
                    Some(o) => o,
                    None => {
                        return Err(DecodeError);
                    },
                };
                let versions = match crate::json::lookup_entry(entries, &"versions".to_owned()) {
                    Some(JsonValue::Array(a)) => crate::json::clone_json_vec(a),
                    _ => {
                        return Err(DecodeError);
                    },
                };
                Ok(Crateio { crate_data, keywords, versions })
            },
            _ => Err(DecodeError),
        }
    }

    /// The crate's typed metadata; always available once the record exists.
    pub fn get_data(&self) -> (r: &CrateData)
        ensures
            r@ == self@.crate_data,
    {
        &self.crate_data
    }

    /// Decodes the version entry at a zero-based index.
    ///
    /// `Absent` where the index is past the end of the version sequence,
    /// `Malformed` where the entry is there but does not decode.
    pub fn get_version(&self, id: u64) -> (r: Decoded<Version>)
        ensures
            r@ == version_at(self@, id),
    {
        if id >= self.versions.len() as u64 {
            return Decoded::Absent;
        }
        match decode_version(&self.versions[id as usize]) {
            Some(v) => Decoded::Present(v),
            None => Decoded::Malformed,
        }
    }

    /// Decodes every version entry, passing over the entries that do not
    /// decode: a best-effort sweep whose result may be shorter than the
    /// stored sequence.
    #[verifier::loop_isolation(false)]
    pub fn get_all_versions(&self) -> (r: Vec<Version>)
        ensures
            version_views(r@) == decoded_versions(self@.versions),
    {
        let ghost vs = elems_view(self.versions@);
        let mut out: Vec<Version> = Vec::new();
        let mut i: usize = 0;
        while i < self.versions.len()
            invariant
                i <= self.versions.len(),
                version_views(out@) == decoded_versions(vs.take(i as int)),
            decreases self.versions.len() - i,
        {
            match decode_version(&self.versions[i]) {
                Some(v) => out.push(v),
                None => (),
            }
            proof {
                assert(vs.take(i + 1).drop_last() =~= vs.take(i as int));
                assert(vs.take(i + 1).last() == vs[i as int]);
                assert(version_views(out@) =~= decoded_versions(vs.take(i + 1)));
            }
            i = i + 1;
        }
        proof {
            assert(vs.take(i as int) =~= vs);
        }
        out
    }

    /// The feature names of the version at a zero-based index; `None` where
    /// there is no such version, it does not decode, or it has no feature map.
    pub fn get_features(&self, id: u64) -> (r: Option<Vec<String>>)
        ensures
            match r {
                Some(ks) => features_at(self@, id) == Some(string_views(ks@)),
                None => features_at(self@, id) is None,
            },
    {
        match self.get_version(id) {
            Decoded::Present(v) => v.get_features(),
            _ => None,
        }
    }

    /// The feature names of the most recent version: the one at index 0.
    pub fn get_last_features(&self) -> (r: Option<Vec<String>>)
        ensures
            match r {
                Some(ks) => features_at(self@, 0) == Some(string_views(ks@)),
                None => features_at(self@, 0) is None,
            },
    {
        self.get_features(0)
    }
}

/// Law: version lookup is pure — two lookups with the same identifier against
/// the same record model decode to the same result, the value both calls'
/// contracts pin down.
pub proof fn lemma_version_lookup_idempotent(
    c: CrateioView,
    id: u64,
    r1: Decoded<VersionView>,
    r2: Decoded<VersionView>,
)
    requires
        r1 == version_at(c, id),
        r2 == version_at(c, id),
    ensures
        r1 == r2,
{
}

/// Law: a lookup past the end of the version sequence is absence, never a
/// present or malformed result.
pub proof fn lemma_version_lookup_out_of_range(c: CrateioView, id: u64)
    requires
        c.versions.len() <= id as int,
    ensures
        version_at(c, id) is Absent,
{
}

/// Law: the best-effort sweep never invents versions — its length is at most
/// the length of the underlying version sequence.
pub proof fn lemma_all_versions_bounded(vs: Seq<Json>)
    ensures
        decoded_versions(vs).len() <= vs.len(),
    decreases vs.len(),
{
    if vs.len() > 0 {
        lemma_all_versions_bounded(vs.drop_last());
    }
}

/// Law: where every element of the version sequence is well-formed, the
/// best-effort sweep is complete — its length equals the sequence's.
pub proof fn lemma_all_versions_complete(vs: Seq<Json>)
    requires
        forall|i: int| 0 <= i < vs.len() ==> version_of(#[trigger] vs[i]) is Some,
    ensures
        decoded_versions(vs).len() == vs.len(),
    decreases vs.len(),
{
    if vs.len() > 0 {
        lemma_all_versions_complete(vs.drop_last());
    }
}

/// Law: for a record with at least one published version, the latest features
/// are a non-empty name sequence or an explicit absence, as long as the first
/// version's feature map, if it is an object at all, names at least one
/// feature. (A present but empty feature map is the one shape that yields an
/// empty sequence, and is left out here.)
pub proof fn lemma_latest_features_shape(c: CrateioView)
    requires
        c.versions.len() > 0,
        (match version_at(c, 0) {
            Decoded::Present(vv) => match vv.features {
                Some(Json::Object(e)) => e.len() > 0,
                _ => true,
            },
            _ => true,
        }),
    ensures
        (match features_at(c, 0) {
            Some(ks) => ks.len() > 0,
            None => true,
        }),
{
}

/// Law: the latest features are the features at index 0 — present exactly
/// when the first element of the version sequence decodes to a version with
/// a feature map.
pub proof fn lemma_latest_features_is_first(c: CrateioView)
    ensures
        features_at(c, 0) == (match version_at(c, 0) {
            Decoded::Present(vv) => features_of(vv),
            _ => None::<Seq<Seq<char>>>,
        }),
{
}

} // verus!
