//! One record from request to outcome: the URL that is asked for, and what
//! the catalog's answer comes to.

use vstd::prelude::*;
use vstd::string::StringExecFns;
use crate::ckan::CkanDataset;
use crate::ckan::DatasetView;
use crate::ckan::PackageListResponse;
use crate::ckan::PackageShowResponse;
use crate::ckan::detail_of;
use crate::ckan::detail_shape_message;
use crate::ckan::listing_shape_message;
use crate::ckan::extract_resource_formats_and_urls;
use crate::ckan::flattened_format;
use crate::ckan::listing_of;
use crate::ckan::maybe_truncate_for_test_mode;
use crate::ckan::present_urls;
use crate::ckan::truncated;
use crate::config::Config;
use crate::error::AppError;
use crate::json::Json;
use crate::json::parse_json;
use crate::json::parsed;
use crate::markup::has_tag;
use crate::markup::lemma_stripped_has_no_tag;
use crate::markup::strip_markup;
use crate::markup::without_tags;
use crate::text::decimal;
use crate::text::decimal_text;
use crate::text::texts;

verus! {

/// One record as the table shows it: cleaned and flattened.
#[derive(Debug)]
pub struct DatasetMetadata {
    pub id: String,
    pub title: String,
    /// The description, without markup.
    pub description: String,
    pub license: String,
    pub organization: String,
    pub created: String,
    pub modified: String,
    /// The format labels of the resources, joined by `", "`.
    pub format: String,
}

/// A record of the table as plain values.
pub struct MetadataView {
    pub id: Seq<char>,
    pub title: Seq<char>,
    pub description: Seq<char>,
    pub license: Seq<char>,
    pub organization: Seq<char>,
    pub created: Seq<char>,
    pub modified: Seq<char>,
    pub format: Seq<char>,
}

impl View for DatasetMetadata {
    type V = MetadataView;

    open spec fn view(&self) -> MetadataView {
        MetadataView {
            id: self.id@,
            title: self.title@,
            description: self.description@,
            license: self.license@,
            organization: self.organization@,
            created: self.created@,
            modified: self.modified@,
            format: self.format@,
        }
    }
}

/// What fetching one identifier came to.
#[derive(Debug)]
pub enum FetchOutcome {
    /// The record and its download URLs.
    Found(DatasetMetadata, Vec<String>),
    /// The catalog has no such record.
    NotFound,
    /// The request or its answer failed; the text says why.
    Failed(String),
}

/// An outcome as plain values.
pub enum OutcomeView {
    Found(MetadataView, Seq<Seq<char>>),
    NotFound,
    Failed(Seq<char>),
}

impl View for FetchOutcome {
    type V = OutcomeView;

    open spec fn view(&self) -> OutcomeView {
        match self {
            FetchOutcome::Found(record, urls) => OutcomeView::Found(record@, texts(urls@)),
            FetchOutcome::NotFound => OutcomeView::NotFound,
            FetchOutcome::Failed(reason) => OutcomeView::Failed(reason@),
        }
    }
}

/// What came back for one detail request.
#[derive(Debug)]
pub enum DetailReply {
    /// No answer: the request failed or ran into its timeout.
    Unanswered(String),
    /// An answer with its status code and body.
    Answered { status: u16, body: String },
}

/// The record of the table that a dataset is flattened to.
pub open spec fn normalized(dataset: DatasetView) -> MetadataView {
    MetadataView {
        id: dataset.id,
        title: dataset.title,
        description: without_tags(dataset.notes),
        license: dataset.license_title,
        organization: dataset.organization,
        created: dataset.metadata_created,
        modified: dataset.metadata_modified,
        format: flattened_format(dataset.resources),
    }
}

/// Whether a status code stands for success: 200 to 299.
pub open spec fn success(status: u16) -> bool {
    200 <= status < 300
}

/// The reason given for an answer with a status that is no success.
pub open spec fn status_reason(status: u16) -> Seq<char> {
    "HTTP status "@ + decimal_text(status as nat)
}

/// The outcome of what a detail response says.
pub open spec fn detail_outcome(detail: Option<Option<DatasetView>>) -> OutcomeView {
    match detail {
        None => OutcomeView::Failed("Serde JSON error: "@ + detail_shape_message()),
        Some(None) => OutcomeView::NotFound,
        Some(Some(dataset)) => OutcomeView::Found(normalized(dataset), present_urls(dataset.resources)),
    }
}

/// The description of a record that was found holds no tag, whatever the
/// catalog answered.
pub proof fn lemma_found_description_is_clean(detail: Option<Option<DatasetView>>)
    ensures
        detail_outcome(detail) matches OutcomeView::Found(record, _) ==> !has_tag(record.description),
{
    if let Some(Some(dataset)) = detail {
        lemma_stripped_has_no_tag(dataset.notes);
    }
}

impl DatasetMetadata {
    /// Flattens a dataset into its record and its download URLs. The
    /// description loses its markup, so the record's description holds no tag.
    pub fn from_dataset(dataset: &CkanDataset) -> (flat: (DatasetMetadata, Vec<String>))
        ensures
            flat.0@ == normalized(dataset@),
            texts(flat.1@) == present_urls(dataset@.resources),
            !has_tag(flat.0@.description),
    {
        let (format, urls) = extract_resource_formats_and_urls(dataset);
        let record = DatasetMetadata {
            id: dataset.id.clone(),
            title: dataset.title.clone(),
            description: strip_markup(dataset.notes.as_str()),
            license: dataset.license_title.clone(),
            organization: dataset.organization.title.clone(),
            created: dataset.metadata_created.clone(),
            modified: dataset.metadata_modified.clone(),
            format,
        };
        (record, urls)
    }
}

/// Whether a status code stands for success.
pub fn is_success(status: u16) -> (b: bool)
    ensures
        b == success(status),
{
    200 <= status && status < 300
}

/// The URL that is asked for the detail of `dataset_id`: the detail endpoint
/// with the identifier behind it, as it is.
pub fn detail_url(config: &Config, dataset_id: &str) -> (url: String)
    ensures
        url@ == config.ckan_api_base_url@ + "/package_show?id="@ + dataset_id@,
{
    config.dataset_metadata_url().concat(dataset_id)
}

/// The outcome of a detail response that is already JSON: a failure where it
/// is no object, `NotFound` where `result` is missing or `null`, else the
/// flattened record.
pub fn outcome_of_payload(json: &Json) -> (outcome: FetchOutcome)
    ensures
        outcome@ == detail_outcome(detail_of(*json)),
{
    match PackageShowResponse::from_json(json) {
        Ok(response) => match response.result {
            Some(dataset) => {
                let (record, urls) = DatasetMetadata::from_dataset(&dataset);
                FetchOutcome::Found(record, urls)
            },
            None => FetchOutcome::NotFound,
        },
        Err(error) => FetchOutcome::Failed(error.message()),
    }
}

/// What a reply to a detail request comes to. No answer, and an answer whose
/// status is no success, fail with that as the reason. A body that is not
/// JSON fails too. Any other body is read as `outcome_of_payload` reads it.
pub fn outcome_of_reply(reply: &DetailReply) -> (outcome: FetchOutcome)
    ensures
        match *reply {
            DetailReply::Unanswered(reason) => outcome@ == OutcomeView::Failed(reason@),
            DetailReply::Answered { status, body } => if !success(status) {
                outcome@ == OutcomeView::Failed(status_reason(status))
            } else {
                match parsed(body@) {
                    Some(json) => outcome@ == detail_outcome(detail_of(json)),
                    None => outcome@ is Failed && "Serde JSON error: "@.is_prefix_of(
                        outcome@->Failed_0,
                    ),
                }
            },
        },
{
    match reply {
        DetailReply::Unanswered(reason) => FetchOutcome::Failed(reason.clone()),
        DetailReply::Answered { status, body } => {
            if !is_success(*status) {
                let code: usize = *status as usize;
                FetchOutcome::Failed(String::from_str("HTTP status ").concat(decimal(code).as_str()))
            } else {
                match parse_json(body.as_str()) {
                    Ok(json) => outcome_of_payload(&json),
                    Err(error) => FetchOutcome::Failed(error.message()),
                }
            }
        },
    }
}

/// The identifiers that a run works on, from the body of the listing
/// response: all that it lists, or in test mode the first
/// `test_mode_dataset_limit` of them. A body that is not JSON, or not an
/// object with an array of strings under `result`, is an error.
pub fn dataset_ids_from_listing(config: &Config, body: &str, test_mode: bool) -> (r: Result<
    Vec<String>,
    AppError,
>)
    ensures
        r is Ok <==> parsed(body@) is Some && listing_of(parsed(body@).unwrap()) is Some,
        r is Ok ==> texts(r.unwrap()@) == truncated(
            listing_of(parsed(body@).unwrap()).unwrap(),
            test_mode,
            config.test_mode_dataset_limit as nat,
        ),
        r is Err ==> r.unwrap_err() is SerdeJson,
        r is Err && parsed(body@) is Some ==> r.unwrap_err().detail() == listing_shape_message(),
{
    match PackageListResponse::parse(body) {
        Ok(response) => {
            let ghost listed = response.result@;
            let kept = maybe_truncate_for_test_mode(
                response.result,
                test_mode,
                config.test_mode_dataset_limit,
            );
            assert(texts(kept@) =~= truncated(
                texts(listed),
                test_mode,
                config.test_mode_dataset_limit as nat,
            ));
            Ok(kept)
        },
        Err(error) => Err(error),
    }
}

} // verus!
