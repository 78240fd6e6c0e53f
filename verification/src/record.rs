//! Typed records decoded on demand from opaque JSON elements.
//!
//! Each record's decode is specified as a spec function from the ghost JSON
//! model to an optional record view: `None` marks an element whose shape does
//! not match the record. The executable decoders are proved to return exactly
//! what those spec functions say.

use vstd::prelude::*;

use crate::json::bool_field;
use crate::json::entries_view;
use crate::json::get_bool_field;
use crate::json::get_opt_string_field;
use crate::json::get_opt_u64_field;
use crate::json::get_opt_value_field;
use crate::json::get_string_field;
use crate::json::get_u64_field;
use crate::json::obj_keys;
use crate::json::obj_lookup;
use crate::json::opt_json_view;
use crate::json::opt_string_field;
use crate::json::opt_string_view;
use crate::json::opt_u64_field;
use crate::json::opt_value_field;
use crate::json::string_field;
use crate::json::string_views;
use crate::json::u64_field;
use crate::json::Json;
use crate::json::JsonValue;

verus! {

/// The user that published a version.
#[derive(Debug, Clone, PartialEq)]
pub struct Author {
    pub avatar: Option<String>,
    pub id: u64,
    pub login: String,
    pub name: String,
    pub url: String,
}

/// The mathematical model of an [`Author`].
#[verifier::ext_equal]
pub struct AuthorView {
    pub avatar: Option<Seq<char>>,
    pub id: u64,
    pub login: Seq<char>,
    pub name: Seq<char>,
    pub url: Seq<char>,
}

impl View for Author {
    type V = AuthorView;

    open spec fn view(&self) -> AuthorView {
        AuthorView {
            avatar: opt_string_view(self.avatar),
            id: self.id,
            login: self.login@,
            name: self.name@,
            url: self.url@,
        }
    }
}

/// The author a JSON value decodes to, or `None` when its shape does not
/// match: it must be an object with `id` (unsigned integer), `login`, `name`
/// and `url` (strings), and an optional string `avatar`.
pub open spec fn author_of(j: Json) -> Option<AuthorView> {
    match j {
        Json::Object(e) => {
            let avatar = opt_string_field(e, "avatar"@);
            let id = u64_field(e, "id"@);
            let login = string_field(e, "login"@);
            let name = string_field(e, "name"@);
            let url = string_field(e, "url"@);
            if avatar is Some && id is Some && login is Some && name is Some && url is Some {
                Some(
                    AuthorView {
                        avatar: avatar->0,
                        id: id->0,
                        login: login->0,
                        name: name->0,
                        url: url->0,
                    },
                )
            } else {
                None
            }
        },
        _ => None,
    }
}

/// Decodes one JSON value into an [`Author`].
pub(crate) fn decode_author(v: &JsonValue) -> (r: Option<Author>)
    ensures
        match r {
            Some(a) => author_of(v@) == Some(a@),
            None => author_of(v@) is None,
        },
{
    match v {
        JsonValue::Object(entries) => {
            let avatar = match get_opt_string_field(entries, &"avatar".to_owned()) {
                Some(o) => o,
                None => {
                    return None;
                },
            };
            let id = match get_u64_field(entries, &"id".to_owned()) {
                Some(n) => n,
                None => {
                    return None;
                },
            };
            let login = match get_string_field(entries, &"login".to_owned()) {
                Some(s) => s,
                None => {
                    return None;
                },
            };
            let name = match get_string_field(entries, &"name".to_owned()) {
                Some(s) => s,
                None => {
                    return None;
                },
            };
            let url = match get_string_field(entries, &"url".to_owned()) {
                Some(s) => s,
                None => {
                    return None;
                },
            };
            Some(Author { avatar, id, login, name, url })
        },
        _ => None,
    }
}

/// One published version of a crate, decoded on demand from an opaque element
/// of the document's version sequence.
///
/// The feature map is kept as it arrived: only its key set is ever consumed,
/// through [`Version::get_features`].
#[derive(Debug, PartialEq)]
pub struct Version {
    pub checksum: String,
    pub crate_name: String,
    pub crate_size: Option<u64>,
    pub created_at: String,
    pub downloads: u64,
    pub features: Option<JsonValue>,
    pub id: u64,
    pub license: Option<String>,
    pub num: String,
    pub published_by: Author,
    pub rust_version: Option<String>,
    pub updated_at: String,
    pub yanked: bool,
}

/// The mathematical model of a [`Version`].
#[verifier::ext_equal]
pub struct VersionView {
    pub checksum: Seq<char>,
    pub crate_name: Seq<char>,
    pub crate_size: Option<u64>,
    pub created_at: Seq<char>,
    pub downloads: u64,
    pub features: Option<Json>,
    pub id: u64,
    pub license: Option<Seq<char>>,
    pub num: Seq<char>,
    pub published_by: AuthorView,
    pub rust_version: Option<Seq<char>>,
    pub updated_at: Seq<char>,
    pub yanked: bool,
}

impl View for Version {
    type V = VersionView;

    open spec fn view(&self) -> VersionView {
        VersionView {
            checksum: self.checksum@,
            crate_name: self.crate_name@,
            crate_size: self.crate_size,
            created_at: self.created_at@,
            downloads: self.downloads,
            features: opt_json_view(self.features),
            id: self.id,
            license: opt_string_view(self.license),
            num: self.num@,
            published_by: self.published_by@,
            rust_version: opt_string_view(self.rust_version),
            updated_at: self.updated_at@,
            yanked: self.yanked,
        }
    }
}

/// The version record a JSON value decodes to, or `None` when its shape does
/// not match. Required fields: `checksum`, `crate`, `created_at`, `num` and
/// `updated_at` (strings), `downloads` and `id` (unsigned integers), `yanked`
/// (boolean) and `published_by` (an author object). Optional: `crate_size`
/// (unsigned integer), `license` and `rust_version` (strings), and `features`,
/// which is kept whole whatever its shape.
pub open spec fn version_of(j: Json) -> Option<VersionView> {
    match j {
        Json::Object(e) => {
            let checksum = string_field(e, "checksum"@);
            let crate_name = string_field(e, "crate"@);
            let crate_size = opt_u64_field(e, "crate_size"@);
            let created_at = string_field(e, "created_at"@);
            let downloads = u64_field(e, "downloads"@);
            let features = opt_value_field(e, "features"@);
            let id = u64_field(e, "id"@);
            let license = opt_string_field(e, "license"@);
            let num = string_field(e, "num"@);
            let published_by = match obj_lookup(e, "published_by"@) {
                Some(pj) => author_of(pj),
                None => None,
            };
            let rust_version = opt_string_field(e, "rust_version"@);
            let updated_at = string_field(e, "updated_at"@);
            let yanked = bool_field(e, "yanked"@);
            if checksum is Some && crate_name is Some && crate_size is Some && created_at is Some
                && downloads is Some && id is Some && license is Some && num is Some
                && published_by is Some && rust_version is Some && updated_at is Some
                && yanked is Some {
                Some(
                    VersionView {
                        checksum: checksum->0,
                        crate_name: crate_name->0,
                        crate_size: crate_size->0,
                        created_at: created_at->0,
                        downloads: downloads->0,
                        features,
                        id: id->0,
                        license: license->0,
                        num: num->0,
                        published_by: published_by->0,
                        rust_version: rust_version->0,
                        updated_at: updated_at->0,
                        yanked: yanked->0,
                    },
                )
            } else {
                None
            }
        },
        _ => None,
    }
}

/// Decodes one JSON value into a [`Version`].
pub(crate) fn decode_version(v: &JsonValue) -> (r: Option<Version>)
    ensures
        match r {
            Some(ver) => version_of(v@) == Some(ver@),
            None => version_of(v@) is None,
        },
{
    match v {
        JsonValue::Object(entries) => {
            let checksum = match get_string_field(entries, &"checksum".to_owned()) {
                Some(s) => s,
                None => {
                    return None;
                },
            };
            let crate_name = match get_string_field(entries, &"crate".to_owned()) {
                Some(s) => s,
                None => {
                    return None;
                },
            };
            let crate_size = match get_opt_u64_field(entries, &"crate_size".to_owned()) {
                Some(o) => o,
                None => {
                    return None;
                },
            };
            let created_at = match get_string_field(entries, &"created_at".to_owned()) {
                Some(s) => s,
                None => {
                    return None;
                },
            };
            let downloads = match get_u64_field(entries, &"downloads".to_owned()) {
                Some(n) => n,
                None => {
                    return None;
                },
            };
            let features = get_opt_value_field(entries, &"features".to_owned());
            let id = match get_u64_field(entries, &"id".to_owned()) {
                Some(n) => n,
                None => {
                    return None;
                },
            };
            let license = match get_opt_string_field(entries, &"license".to_owned()) {
                Some(o) => o,
                None => {
                    return None;
                },
            };
            let num = match get_string_field(entries, &"num".to_owned()) {
                Some(s) => s,
                None => {
                    return None;
                },
            };
            let published_by = match crate::json::lookup_entry(entries, &"published_by".to_owned())
                {
                Some(pv) => match decode_author(pv) {
                    Some(a) => a,
                    None => {
                        return None;
                    },
                },
                None => {
                    return None;
                },
            };
            let rust_version = match get_opt_string_field(entries, &"rust_version".to_owned()) {
                Some(o) => o,
                None => {
                    return None;
                },
            };
            let updated_at = match get_string_field(entries, &"updated_at".to_owned()) {
                Some(s) => s,
                None => {
                    return None;
                },
            };
            let yanked = match get_bool_field(entries, &"yanked".to_owned()) {
                Some(b) => b,
                None => {
                    return None;
                },
            };
            Some(
                Version {
                    checksum,
                    crate_name,
                    crate_size,
                    created_at,
                    downloads,
                    features,
                    id,
                    license,
                    num,
                    published_by,
                    rust_version,
                    updated_at,
                    yanked,
                },
            )
        },
        _ => None,
    }
}

/// The metadata of a crate: the typed `crate` object of the document.
///
/// The optional `categories` array is kept opaque; its elements are decoded
/// only by [`CrateData::get_categories`].
#[derive(Debug, PartialEq)]
pub struct CrateData {
    pub categories: Option<Vec<JsonValue>>,
    pub created_at: String,
    pub description: Option<String>,
    pub documentation: Option<String>,
    pub downloads: u64,
    pub exact_match: bool,
    pub homepage: Option<String>,
    pub max_stable_version: Option<String>,
    pub max_version: Option<String>,
    pub name: String,
    pub recent_downloads: u64,
    pub repository: Option<String>,
    pub updated_at: String,
}

/// The mathematical model of a [`CrateData`].
#[verifier::ext_equal]
pub struct CrateDataView {
    pub categories: Option<Seq<Json>>,
    pub created_at: Seq<char>,
    pub description: Option<Seq<char>>,
    pub documentation: Option<Seq<char>>,
    pub downloads: u64,
    pub exact_match: bool,
    pub homepage: Option<Seq<char>>,
    pub max_stable_version: Option<Seq<char>>,
    pub max_version: Option<Seq<char>>,
    pub name: Seq<char>,
    pub recent_downloads: u64,
    pub repository: Option<Seq<char>>,
    pub updated_at: Seq<char>,
}

impl View for CrateData {
    type V = CrateDataView;

    open spec fn view(&self) -> CrateDataView {
        CrateDataView {
            categories: match self.categories {
                Some(a) => Some(crate::json::elems_view(a@)),
                None => None,
            },
            created_at: self.created_at@,
            description: opt_string_view(self.description),
            documentation: opt_string_view(self.documentation),
            downloads: self.downloads,
            exact_match: self.exact_match,
            homepage: opt_string_view(self.homepage),
            max_stable_version: opt_string_view(self.max_stable_version),
            max_version: opt_string_view(self.max_version),
            name: self.name@,
            recent_downloads: self.recent_downloads,
            repository: opt_string_view(self.repository),
            updated_at: self.updated_at@,
        }
    }
}

/// The crate metadata a JSON value decodes to, or `None` when its shape does
/// not match. Required fields: `name`, `created_at` and `updated_at`
/// (strings), `downloads` and `recent_downloads` (unsigned integers) and
/// `exact_match` (boolean). Optional strings: `description`, `documentation`,
/// `homepage`, `max_stable_version`, `max_version` and `repository`. Optional
/// array: `categories`, kept opaque.
pub open spec fn crate_data_of(j: Json) -> Option<CrateDataView> {
    match j {
        Json::Object(e) => {
            let categories = crate::json::opt_array_field(e, "categories"@);
            let created_at = string_field(e, "created_at"@);
            let description = opt_string_field(e, "description"@);
            let documentation = opt_string_field(e, "documentation"@);
            let downloads = u64_field(e, "downloads"@);
            let exact_match = bool_field(e, "exact_match"@);
            let homepage = opt_string_field(e, "homepage"@);
            let max_stable_version = opt_string_field(e, "max_stable_version"@);
            let max_version = opt_string_field(e, "max_version"@);
            let name = string_field(e, "name"@);
            let recent_downloads = u64_field(e, "recent_downloads"@);
            let repository = opt_string_field(e, "repository"@);
            let updated_at = string_field(e, "updated_at"@);
            if categories is Some && created_at is Some && description is Some
                && documentation is Some && downloads is Some && exact_match is Some
                && homepage is Some && max_stable_version is Some && max_version is Some
                && name is Some && recent_downloads is Some && repository is Some
                && updated_at is Some {
                Some(
                    CrateDataView {
                        categories: categories->0,
                        created_at: created_at->0,
                        description: description->0,
                        documentation: documentation->0,
                        downloads: downloads->0,
                        exact_match: exact_match->0,
                        homepage: homepage->0,
                        max_stable_version: max_stable_version->0,
                        max_version: max_version->0,
                        name: name->0,
                        recent_downloads: recent_downloads->0,
                        repository: repository->0,
                        updated_at: updated_at->0,
                    },
                )
            } else {
                None
            }
        },
        _ => None,
    }
}

/// Decodes one JSON value into a [`CrateData`].
pub(crate) fn decode_crate_data(v: &JsonValue) -> (r: Option<CrateData>)
    ensures
        match r {
            Some(d) => crate_data_of(v@) == Some(d@),
            None => crate_data_of(v@) is None,
        },
{
    match v {
        JsonValue::Object(entries) => {
            let categories = match crate::json::get_opt_array_field(
                entries,
                &"categories".to_owned(),
            ) {
                Some(o) => o,
                None => {
                    return None;
                },
            };
            let created_at = match get_string_field(entries, &"created_at".to_owned()) {
                Some(s) => s,
                None => {
                    return None;
                },
            };
            let description = match get_opt_string_field(entries, &"description".to_owned()) {
                Some(o) => o,
                None => {
                    return None;
                },
            };
            let documentation = match get_opt_string_field(entries, &"documentation".to_owned()) {
                Some(o) => o,
                None => {
                    return None;
                },
            };
            let downloads = match get_u64_field(entries, &"downloads".to_owned()) {
                Some(n) => n,
                None => {
                    return None;
                },
            };
            let exact_match = match get_bool_field(entries, &"exact_match".to_owned()) {
                Some(b) => b,
                None => {
                    return None;
                },
            };
            let homepage = match get_opt_string_field(entries, &"homepage".to_owned()) {
                Some(o) => o,
                None => {
                    return None;
                },
            };
            let max_stable_version = match get_opt_string_field(
                entries,
                &"max_stable_version".to_owned(),
            ) {
                Some(o) => o,
                None => {
                    return None;
                },
            };
            let max_version = match get_opt_string_field(entries, &"max_version".to_owned()) {
                Some(o) => o,
                None => {
                    return None;
                },
            };
            let name = match get_string_field(entries, &"name".to_owned()) {
                Some(s) => s,
                None => {
                    return None;
                },
            };
            let recent_downloads = match get_u64_field(entries, &"recent_downloads".to_owned()) {
                Some(n) => n,
                None => {
                    return None;
                },
            };
            let repository = match get_opt_string_field(entries, &"repository".to_owned()) {
                Some(o) => o,
                None => {
                    return None;
                },
            };
            let updated_at = match get_string_field(entries, &"updated_at".to_owned()) {
                Some(s) => s,
                None => {
                    return None;
                },
            };
            Some(
                CrateData {
                    categories,
                    created_at,
                    description,
                    documentation,
                    downloads,
                    exact_match,
                    homepage,
                    max_stable_version,
                    max_version,
                    name,
                    recent_downloads,
                    repository,
                    updated_at,
                },
            )
        },
        _ => None,
    }
}

/// The category names of a crate: each element of its category array decoded
/// to a string, a malformed element standing as the empty string; `None` when
/// the document carried no category array at all.
pub open spec fn categories_of(c: CrateDataView) -> Option<Seq<Seq<char>>> {
    match c.categories {
        Some(a) => Some(
            Seq::new(
                a.len(),
                |i: int|
                    if 0 <= i < a.len() {
                        match a[i] {
                            Json::Str(s) => s,
                            _ => Seq::<char>::empty(),
                        }
                    } else {
                        Seq::<char>::empty()
                    },
            ),
        ),
        None => None,
    }
}

impl CrateData {
    /// The crate's category names.
    ///
    /// `None` exactly when the source document had no category field at all;
    /// a present but empty array gives `Some` of an empty vector. An element
    /// that is not a string stands as the empty string, the one documented
    /// substitution this library makes.
    pub fn get_categories(&self) -> (r: Option<Vec<String>>)
        ensures
            match r {
                Some(cs) => categories_of(self@) == Some(string_views(cs@)) && self@.categories
                    is Some,
                None => categories_of(self@) is None && self@.categories is None,
            },
    {
        match &self.categories {
            Some(cats) => {
                let mut out: Vec<String> = Vec::new();
                let mut i: usize = 0;
                while i < cats.len()
                    invariant
                        i <= cats.len(),
                        out@.len() == i,
                        forall|j: int|
                            0 <= j < i ==> #[trigger] out@[j]@ == match crate::json::jview(
                                cats@[j],
                            ) {
                                Json::Str(s) => s,
                                _ => Seq::<char>::empty(),
                            },
                    decreases cats.len() - i,
                {
                    match &cats[i] {
                        JsonValue::Str(s) => out.push(s.clone()),
                        _ => out.push(String::new()),
                    }
                    i = i + 1;
                }
                proof {
                    assert(string_views(out@) =~= categories_of(self@)->0);
                }
                Some(out)
            },
            None => None,
        }
    }
}

/// The models of a sequence of decoded versions.
pub open spec fn version_views(s: Seq<Version>) -> Seq<VersionView> {
    Seq::new(s.len(), |i: int| s[i]@)
}

/// The feature names of a version: the key set of its feature map, in the
/// map's own order, or `None` when the version has no feature map or the map
/// is not an object.
pub open spec fn features_of(v: VersionView) -> Option<Seq<Seq<char>>> {
    match v.features {
        Some(Json::Object(e)) => Some(obj_keys(e)),
        _ => None,
    }
}

impl Version {
    /// The names of this version's features, in the feature map's own order.
    ///
    /// `None` when the version record carried no feature map, or one that is
    /// not an object.
    pub fn get_features(&self) -> (r: Option<Vec<String>>)
        ensures
            match r {
                Some(ks) => features_of(self@) == Some(string_views(ks@)),
                None => features_of(self@) is None,
            },
    {
        match &self.features {
            Some(JsonValue::Object(entries)) => {
                let mut out: Vec<String> = Vec::new();
                let mut i: usize = 0;
                while i < entries.len()
                    invariant
                        i <= entries.len(),
                        out@.len() == i,
                        forall|j: int| 0 <= j < i ==> #[trigger] out@[j]@ == entries@[j].0@,
                    decreases entries.len() - i,
                {
                    let p: &(String, JsonValue) = &entries[i];
                    out.push(p.0.clone());
                    i = i + 1;
                }
                proof {
                    assert(string_views(out@) =~= obj_keys(entries_view(entries@)));
                }
                Some(out)
            },
            _ => None,
        }
    }
}

} // verus!
