//! The catalog's records: their shape, how they are read from the catalog's
//! JSON, and how one record is flattened for the table.

use vstd::prelude::*;
use vstd::string::StringExecFns;
use crate::error::AppError;
use crate::json::Json;
use crate::json::parse_json;
use crate::json::parsed;
use crate::text::join;
use crate::text::joined;
use crate::text::texts;

verus! {

/// The answer of the listing endpoint: every dataset identifier, in the
/// catalog's order.
#[derive(Debug)]
pub struct PackageListResponse {
    pub result: Vec<String>,
}

/// The answer of the detail endpoint: the dataset, or `None` where the
/// catalog knows no such record.
#[derive(Debug)]
pub struct PackageShowResponse {
    pub result: Option<CkanDataset>,
}

/// One dataset as the catalog describes it.
#[derive(Debug)]
pub struct CkanDataset {
    pub id: String,
    pub title: String,
    /// The description; may hold markup.
    pub notes: String,
    pub license_title: String,
    pub organization: CkanOrganization,
    pub metadata_created: String,
    pub metadata_modified: String,
    pub resources: Vec<CkanResource>,
}

/// The organisation that owns a dataset.
#[derive(Debug)]
pub struct CkanOrganization {
    pub title: String,
}

/// One downloadable artifact of a dataset.
#[derive(Debug)]
pub struct CkanResource {
    pub format: Option<String>,
    pub url: Option<String>,
}

/// A resource as plain values.
pub struct ResourceView {
    pub format: Option<Seq<char>>,
    pub url: Option<Seq<char>>,
}

/// A dataset as plain values.
pub struct DatasetView {
    pub id: Seq<char>,
    pub title: Seq<char>,
    pub notes: Seq<char>,
    pub license_title: Seq<char>,
    pub organization: Seq<char>,
    pub metadata_created: Seq<char>,
    pub metadata_modified: Seq<char>,
    pub resources: Seq<ResourceView>,
}

/// The characters of an optional string.
pub open spec fn option_text(s: Option<String>) -> Option<Seq<char>> {
    match s {
        Some(s) => Some(s@),
        None => None,
    }
}

impl View for CkanResource {
    type V = ResourceView;

    open spec fn view(&self) -> ResourceView {
        ResourceView { format: option_text(self.format), url: option_text(self.url) }
    }
}

impl View for CkanDataset {
    type V = DatasetView;

    open spec fn view(&self) -> DatasetView {
        DatasetView {
            id: self.id@,
            title: self.title@,
            notes: self.notes@,
            license_title: self.license_title@,
            organization: self.organization.title@,
            metadata_created: self.metadata_created@,
            metadata_modified: self.metadata_modified@,
            resources: self.resources@.map_values(|r: CkanResource| r@),
        }
    }
}

/// The format labels that are present, in resource order.
pub open spec fn present_formats(resources: Seq<ResourceView>) -> Seq<Seq<char>>
    decreases resources.len(),
{
    if resources.len() == 0 {
        Seq::empty()
    } else {
        let before = present_formats(resources.drop_last());
        match resources.last().format {
            Some(format) => before.push(format),
            None => before,
        }
    }
}

/// The download URLs that are present, in resource order.
pub open spec fn present_urls(resources: Seq<ResourceView>) -> Seq<Seq<char>>
    decreases resources.len(),
{
    if resources.len() == 0 {
        Seq::empty()
    } else {
        let before = present_urls(resources.drop_last());
        match resources.last().url {
            Some(url) => before.push(url),
            None => before,
        }
    }
}

/// The format column of a record: its present format labels joined by a
/// comma and a space.
pub open spec fn flattened_format(resources: Seq<ResourceView>) -> Seq<char> {
    joined(present_formats(resources), ", "@)
}

/// The characters of a JSON string that was found, the empty text for a
/// missing member and for any other value.
pub open spec fn text_or_empty(found: Option<Json>) -> Seq<char> {
    match found {
        Some(Json::Text(s)) => s@,
        _ => Seq::empty(),
    }
}

/// The characters of a JSON string that was found, `None` for a missing
/// member and for any other value.
pub open spec fn text_if_any(found: Option<Json>) -> Option<Seq<char>> {
    match found {
        Some(Json::Text(s)) => Some(s@),
        _ => None,
    }
}

/// The member `key` of a value that was found.
pub open spec fn member_of(found: Option<Json>, key: Seq<char>) -> Option<Json> {
    match found {
        Some(json) => json.field(key),
        None => None,
    }
}

/// The resource that one entry of `resources` describes.
pub open spec fn resource_of(json: Json) -> ResourceView {
    ResourceView {
        format: text_if_any(json.field("format"@)),
        url: text_if_any(json.field("url"@)),
    }
}

/// The resources of a detail payload: one for each entry of the array
/// `resources`, none where that member is missing or no array.
pub open spec fn resources_of(json: Json) -> Seq<ResourceView> {
    match json.field("resources"@) {
        Some(Json::Array(items)) => items@.map_values(|item: Json| resource_of(item)),
        _ => Seq::empty(),
    }
}

/// The dataset that a detail payload describes. A scalar that is missing, or
/// no string, is the empty text.
pub open spec fn dataset_of(json: Json) -> DatasetView {
    DatasetView {
        id: text_or_empty(json.field("id"@)),
        title: text_or_empty(json.field("title"@)),
        notes: text_or_empty(json.field("notes"@)),
        license_title: text_or_empty(json.field("license_title"@)),
        organization: text_or_empty(member_of(json.field("organization"@), "title"@)),
        metadata_created: text_or_empty(json.field("metadata_created"@)),
        metadata_modified: text_or_empty(json.field("metadata_modified"@)),
        resources: resources_of(json),
    }
}

/// What a detail response says: `None` where it is no object, `Some(None)`
/// where `result` is missing or `null`, else the dataset under `result`.
pub open spec fn detail_of(json: Json) -> Option<Option<DatasetView>> {
    if json is Object {
        match json.field("result"@) {
            None => Some(None),
            Some(Json::Null) => Some(None),
            Some(payload) => Some(Some(dataset_of(payload))),
        }
    } else {
        None
    }
}

/// Whether every item is a JSON string.
pub open spec fn all_text(items: Seq<Json>) -> bool {
    forall|i: int| 0 <= i < items.len() ==> (#[trigger] items[i]) is Text
}

/// What a listing response says: the strings under `result`, or `None` where
/// `result` is missing or anything but an array of strings.
pub open spec fn listing_of(json: Json) -> Option<Seq<Seq<char>>> {
    match json.field("result"@) {
        Some(Json::Array(items)) => if all_text(items@) {
            Some(items@.map_values(|item: Json| item.text().unwrap()))
        } else {
            None
        },
        _ => None,
    }
}

/// The message for a listing response of the wrong shape.
pub open spec fn listing_shape_message() -> Seq<char> {
    "expected an object with an array of strings under `result`"@
}

/// The message for a detail response of the wrong shape.
pub open spec fn detail_shape_message() -> Seq<char> {
    "expected an object"@
}

/// The view of an optional dataset.
pub open spec fn option_dataset(dataset: Option<CkanDataset>) -> Option<DatasetView> {
    match dataset {
        Some(dataset) => Some(dataset@),
        None => None,
    }
}

/// The first `max` items of `items` when the sample cap applies, all of them
/// otherwise.
pub open spec fn truncated<T>(items: Seq<T>, test_mode: bool, max: nat) -> Seq<T> {
    if test_mode && max < items.len() {
        items.take(max as int)
    } else {
        items
    }
}

/// Caps a listing at `max` entries in test mode, keeping their order.
/// A listing that is already short enough is returned as it is.
pub fn maybe_truncate_for_test_mode<T: Clone>(items: Vec<T>, test_mode: bool, max: usize) -> (kept: Vec<T>)
    ensures
        kept@ == truncated(items@, test_mode, max as nat),
{
    let mut items = items;
    if test_mode {
        items.truncate(max);
    }
    items
}

/// Flattens the resources of a dataset: the present format labels joined by
/// `", "`, and the present download URLs. A resource without a label adds
/// nothing to the first, one without a URL nothing to the second.
pub fn extract_resource_formats_and_urls(dataset: &CkanDataset) -> (flat: (String, Vec<String>))
    ensures
        flat.0@ == flattened_format(dataset@.resources),
        texts(flat.1@) == present_urls(dataset@.resources),
{
    let ghost resources = dataset@.resources;
    let mut formats: Vec<String> = Vec::new();
    let mut urls: Vec<String> = Vec::new();
    let mut i: usize = 0;
    while i < dataset.resources.len()
        invariant
            i <= dataset.resources.len(),
            resources == dataset@.resources,
            resources.len() == dataset.resources.len(),
            texts(formats@) == present_formats(resources.take(i as int)),
            texts(urls@) == present_urls(resources.take(i as int)),
        decreases dataset.resources.len() - i,
    {
        proof {
            let next = resources.take(i as int + 1);
            assert(next.drop_last() =~= resources.take(i as int));
            assert(next.last() == dataset.resources@[i as int]@);
        }
        let resource = &dataset.resources[i];
        let ghost formats_before = formats@;
        let ghost urls_before = urls@;
        match &resource.format {
            Some(format) => {
                formats.push(format.clone());
                assert(texts(formats@) =~= texts(formats_before).push(format@));
            },
            None => {},
        }
        match &resource.url {
            Some(url) => {
                urls.push(url.clone());
                assert(texts(urls@) =~= texts(urls_before).push(url@));
            },
            None => {},
        }
        i += 1;
    }
    proof {
        assert(resources.take(dataset.resources.len() as int) =~= resources);
    }
    (join(&formats, ", "), urls)
}

/// The string under `key`, or the empty text.
fn string_field(json: &Json, key: &str) -> (text: String)
    ensures
        text@ == text_or_empty(json.field(key@)),
{
    match json.get(key) {
        Some(Json::Text(s)) => s.clone(),
        _ => String::new(),
    }
}

/// The string under `key`, if there is one.
fn optional_string_field(json: &Json, key: &str) -> (text: Option<String>)
    ensures
        option_text(text) == text_if_any(json.field(key@)),
{
    match json.get(key) {
        Some(Json::Text(s)) => Some(s.clone()),
        _ => None,
    }
}

impl CkanResource {
    /// Reads one entry of `resources`.
    pub fn from_json(json: &Json) -> (resource: CkanResource)
        ensures
            resource@ == resource_of(*json),
    {
        CkanResource {
            format: optional_string_field(json, "format"),
            url: optional_string_field(json, "url"),
        }
    }
}

impl CkanOrganization {
    /// Reads the organisation of a detail payload: the string `title` of its
    /// member `organization`, or the empty text.
    pub fn from_json(json: &Json) -> (organization: CkanOrganization)
        ensures
            organization.title@ == text_or_empty(member_of(json.field("organization"@), "title"@)),
    {
        match json.get("organization") {
            Some(inner) => CkanOrganization { title: string_field(inner, "title") },
            None => CkanOrganization { title: String::new() },
        }
    }
}

impl CkanDataset {
    /// Reads a detail payload. Nothing in it is required: what is missing is
    /// empty.
    pub fn from_json(json: &Json) -> (dataset: CkanDataset)
        ensures
            dataset@ == dataset_of(*json),
    {
        let mut resources: Vec<CkanResource> = Vec::new();
        match json.get("resources") {
            Some(Json::Array(items)) => {
                let mut i: usize = 0;
                while i < items.len()
                    invariant
                        i <= items.len(),
                        resources@.len() == i,
                        forall|k: int| 0 <= k < i ==> (#[trigger] resources@[k])@ == resource_of(items@[k]),
                    decreases items.len() - i,
                {
                    resources.push(CkanResource::from_json(&items[i]));
                    i += 1;
                }
                assert(resources@.map_values(|r: CkanResource| r@) =~= items@.map_values(
                    |item: Json| resource_of(item),
                ));
            },
            _ => {
                assert(resources@.map_values(|r: CkanResource| r@) =~= Seq::<ResourceView>::empty());
            },
        }
        CkanDataset {
            id: string_field(json, "id"),
            title: string_field(json, "title"),
            notes: string_field(json, "notes"),
            license_title: string_field(json, "license_title"),
            organization: CkanOrganization::from_json(json),
            metadata_created: string_field(json, "metadata_created"),
            metadata_modified: string_field(json, "metadata_modified"),
            resources,
        }
    }
}

impl PackageShowResponse {
    /// Reads a detail response that is already JSON. Only a response that is
    /// no object is refused; a missing or `null` `result` is a record the
    /// catalog does not have.
    pub fn from_json(json: &Json) -> (r: Result<PackageShowResponse, AppError>)
        ensures
            r is Ok <==> detail_of(*json) is Some,
            r is Ok ==> option_dataset(r.unwrap().result) == detail_of(*json).unwrap(),
            r is Err ==> r.unwrap_err() is SerdeJson && r.unwrap_err().detail()
                == detail_shape_message(),
    {
        match json {
            Json::Object(_) => {},
            _ => {
                return Err(AppError::SerdeJson(String::from_str("expected an object")));
            },
        }
        match json.get("result") {
            None => Ok(PackageShowResponse { result: None }),
            Some(Json::Null) => Ok(PackageShowResponse { result: None }),
            Some(payload) => Ok(PackageShowResponse { result: Some(CkanDataset::from_json(payload)) }),
        }
    }

    /// Reads the body of a detail response.
    pub fn parse(body: &str) -> (r: Result<PackageShowResponse, AppError>)
        ensures
            r is Ok <==> parsed(body@) is Some && detail_of(parsed(body@).unwrap()) is Some,
            r is Ok ==> option_dataset(r.unwrap().result) == detail_of(parsed(body@).unwrap()).unwrap(),
            r is Err ==> r.unwrap_err() is SerdeJson,
            r is Err && parsed(body@) is Some ==> r.unwrap_err().detail() == detail_shape_message(),
    {
        match parse_json(body) {
            Ok(json) => PackageShowResponse::from_json(&json),
            Err(error) => Err(error),
        }
    }
}

impl PackageListResponse {
    /// Reads a listing response that is already JSON. It must be an object
    /// whose `result` is an array of strings.
    pub fn from_json(json: &Json) -> (r: Result<PackageListResponse, AppError>)
        ensures
            r is Ok <==> listing_of(*json) is Some,
            r is Ok ==> texts(r.unwrap().result@) == listing_of(*json).unwrap(),
            r is Err ==> r.unwrap_err() is SerdeJson && r.unwrap_err().detail()
                == listing_shape_message(),
    {
        match json.get("result") {
            Some(Json::Array(items)) => {
                let mut result: Vec<String> = Vec::new();
                let mut i: usize = 0;
                while i < items.len()
                    invariant
                        i <= items.len(),
                        result@.len() == i,
                        json.field("result"@) matches Some(Json::Array(found)) && found@ == items@,
                        forall|k: int| 0 <= k < i ==> (#[trigger] items@[k]) is Text,
                        forall|k: int| 0 <= k < i ==> (#[trigger] result@[k])@ == items@[k].text().unwrap(),
                    decreases items.len() - i,
                {
                    match &items[i] {
                        Json::Text(s) => {
                            result.push(s.clone());
                        },
                        _ => {
                            assert(!(items@[i as int] is Text));
                            return Err(
                                AppError::SerdeJson(
                                    String::from_str(
                                        "expected an object with an array of strings under `result`",
                                    ),
                                ),
                            );
                        },
                    }
                    i += 1;
                }
                assert(texts(result@) =~= items@.map_values(|item: Json| item.text().unwrap()));
                Ok(PackageListResponse { result })
            },
            _ => Err(
                AppError::SerdeJson(
                    String::from_str("expected an object with an array of strings under `result`"),
                ),
            ),
        }
    }

    /// Reads the body of a listing response.
    pub fn parse(body: &str) -> (r: Result<PackageListResponse, AppError>)
        ensures
            r is Ok <==> parsed(body@) is Some && listing_of(parsed(body@).unwrap()) is Some,
            r is Ok ==> texts(r.unwrap().result@) == listing_of(parsed(body@).unwrap()).unwrap(),
            r is Err ==> r.unwrap_err() is SerdeJson,
            r is Err && parsed(body@) is Some ==> r.unwrap_err().detail() == listing_shape_message(),
    {
        match parse_json(body) {
            Ok(json) => PackageListResponse::from_json(&json),
            Err(error) => Err(error),
        }
    }
}

} // verus!
