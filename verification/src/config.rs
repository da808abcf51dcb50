//! The settings of a run, made once from what the environment says and
//! handed to every component.

use vstd::prelude::*;
use vstd::string::StringExecFns;
use crate::error::AppError;
use crate::text::blank;
use crate::text::is_blank;

verus! {

/// The settings of a run.
#[derive(Debug, Clone)]
pub struct Config {
    /// The base URL of the catalog's API.
    pub ckan_api_base_url: String,
    /// The bucket that receives the table.
    pub bucket_name: String,
    /// The name or path of the file the table is written to.
    pub csv_file: String,
    /// How many detail requests may be under way at once.
    pub concurrency_limit: usize,
    /// The timeout of one request, in seconds.
    pub http_timeout_secs: u64,
    /// How many datasets a run in test mode takes.
    pub test_mode_dataset_limit: usize,
    /// The region to fall back on where the environment names none.
    pub aws_region: String,
}

/// What the process environment holds of the variables a run reads, each as
/// it was found.
#[derive(Debug)]
pub struct Environment {
    pub ckan_api_base_url: Option<String>,
    pub bucket_name: Option<String>,
    pub csv_file: Option<String>,
    pub concurrency_limit: Option<String>,
    pub http_timeout_secs: Option<String>,
    pub test_mode_dataset_limit: Option<String>,
    pub aws_region: Option<String>,
    /// Whether the run takes place inside the function service, where only
    /// `/tmp` can be written to.
    pub in_lambda: bool,
}

/// The number that `str::parse::<usize>` reads from `text`, if it reads one.
pub uninterp spec fn parsed_usize(text: Seq<char>) -> Option<usize>;

/// The number that `str::parse::<u64>` reads from `text`, if it reads one.
pub uninterp spec fn parsed_u64(text: Seq<char>) -> Option<u64>;

pub open spec fn default_base_url() -> Seq<char> {
    "https://ckan.publishing.service.gov.uk/api/action"@
}

pub open spec fn default_bucket_name() -> Seq<char> {
    "gov-data-lucky4some.com"@
}

pub open spec fn default_csv_file() -> Seq<char> {
    "DataGovUK_Datasets.csv"@
}

pub open spec fn default_region() -> Seq<char> {
    "us-east-1"@
}

pub const DEFAULT_CONCURRENCY_LIMIT: usize = 10;

pub const DEFAULT_HTTP_TIMEOUT_SECS: u64 = 10;

pub const DEFAULT_TEST_MODE_DATASET_LIMIT: usize = 20;

/// The value of a variable, or `default` where it is not set.
pub open spec fn value_or(value: Option<String>, default: Seq<char>) -> Seq<char> {
    match value {
        Some(value) => value@,
        None => default,
    }
}

/// The number in a variable, or `default` where it is not set or no number.
pub open spec fn usize_or(value: Option<String>, default: usize) -> usize {
    match value {
        Some(value) => match parsed_usize(value@) {
            Some(n) => n,
            None => default,
        },
        None => default,
    }
}

/// The number in a variable, or `default` where it is not set or no number.
pub open spec fn u64_or(value: Option<String>, default: u64) -> u64 {
    match value {
        Some(value) => match parsed_u64(value@) {
            Some(n) => n,
            None => default,
        },
        None => default,
    }
}

/// The path of the output file: the file's name, under `/tmp/` inside the
/// function service.
pub open spec fn csv_path(name: Seq<char>, in_lambda: bool) -> Seq<char> {
    if in_lambda {
        "/tmp/"@ + name
    } else {
        name
    }
}

/// `str::parse` at `usize`.
#[verifier::external_body]
fn parse_usize(text: &str) -> (n: Option<usize>)
    ensures
        n == parsed_usize(text@),
{
    text.parse::<usize>().ok()
}

/// `str::parse` at `u64`.
#[verifier::external_body]
fn parse_u64(text: &str) -> (n: Option<u64>)
    ensures
        n == parsed_u64(text@),
{
    text.parse::<u64>().ok()
}

fn text_or(value: &Option<String>, default: &str) -> (text: String)
    ensures
        text@ == value_or(*value, default@),
{
    match value {
        Some(value) => value.clone(),
        None => String::from_str(default),
    }
}

fn number_or(value: &Option<String>, default: usize) -> (n: usize)
    ensures
        n == usize_or(*value, default),
{
    match value {
        Some(value) => match parse_usize(value.as_str()) {
            Some(n) => n,
            None => default,
        },
        None => default,
    }
}

fn seconds_or(value: &Option<String>, default: u64) -> (n: u64)
    ensures
        n == u64_or(*value, default),
{
    match value {
        Some(value) => match parse_u64(value.as_str()) {
            Some(n) => n,
            None => default,
        },
        None => default,
    }
}

impl Default for Environment {
    /// An environment in which none of the variables is set.
    fn default() -> (env: Environment)
        ensures
            env.ckan_api_base_url is None,
            env.bucket_name is None,
            env.csv_file is None,
            env.concurrency_limit is None,
            env.http_timeout_secs is None,
            env.test_mode_dataset_limit is None,
            env.aws_region is None,
            !env.in_lambda,
    {
        Environment {
            ckan_api_base_url: None,
            bucket_name: None,
            csv_file: None,
            concurrency_limit: None,
            http_timeout_secs: None,
            test_mode_dataset_limit: None,
            aws_region: None,
            in_lambda: false,
        }
    }
}

impl Config {
    /// The settings that `env` asks for: each variable's value where it is
    /// set, its default where it is not. A number that cannot be read gives
    /// way to its default too.
    pub fn new(env: &Environment) -> (config: Config)
        ensures
            config.ckan_api_base_url@ == value_or(env.ckan_api_base_url, default_base_url()),
            config.bucket_name@ == value_or(env.bucket_name, default_bucket_name()),
            config.csv_file@ == csv_path(value_or(env.csv_file, default_csv_file()), env.in_lambda),
            config.concurrency_limit == usize_or(env.concurrency_limit, DEFAULT_CONCURRENCY_LIMIT),
            config.http_timeout_secs == u64_or(env.http_timeout_secs, DEFAULT_HTTP_TIMEOUT_SECS),
            config.test_mode_dataset_limit == usize_or(
                env.test_mode_dataset_limit,
                DEFAULT_TEST_MODE_DATASET_LIMIT,
            ),
            config.aws_region@ == value_or(env.aws_region, default_region()),
    {
        Config {
            ckan_api_base_url: text_or(
                &env.ckan_api_base_url,
                "https://ckan.publishing.service.gov.uk/api/action",
            ),
            bucket_name: text_or(&env.bucket_name, "gov-data-lucky4some.com"),
            csv_file: Config::get_csv_file(&env.csv_file, env.in_lambda),
            concurrency_limit: number_or(&env.concurrency_limit, DEFAULT_CONCURRENCY_LIMIT),
            http_timeout_secs: seconds_or(&env.http_timeout_secs, DEFAULT_HTTP_TIMEOUT_SECS),
            test_mode_dataset_limit: number_or(
                &env.test_mode_dataset_limit,
                DEFAULT_TEST_MODE_DATASET_LIMIT,
            ),
            aws_region: text_or(&env.aws_region, "us-east-1"),
        }
    }

    /// The path of the output file. Inside the function service it lies under
    /// `/tmp/`, the one directory that can be written to there.
    pub fn get_csv_file(name: &Option<String>, in_lambda: bool) -> (path: String)
        ensures
            path@ == csv_path(value_or(*name, default_csv_file()), in_lambda),
    {
        let name = text_or(name, "DataGovUK_Datasets.csv");
        if in_lambda {
            String::from_str("/tmp/").concat(name.as_str())
        } else {
            name
        }
    }

    /// The message of the first setting that is at fault, in the order base
    /// URL, bucket, file, concurrency limit; `None` where all are in order.
    pub open spec fn first_fault(&self) -> Option<Seq<char>> {
        if blank(self.ckan_api_base_url@) {
            Some("CKAN API base URL must not be empty"@)
        } else if blank(self.bucket_name@) {
            Some("S3 bucket name must not be empty"@)
        } else if blank(self.csv_file@) {
            Some("CSV file name must not be empty"@)
        } else if self.concurrency_limit == 0 {
            Some("Concurrency limit must be greater than zero"@)
        } else {
            None
        }
    }

    /// Whether the settings can be run with.
    pub open spec fn valid(&self) -> bool {
        self.first_fault() is None
    }

    /// Checks the settings. A base URL, bucket or file name that is empty or
    /// all white space, and a concurrency limit of zero, are refused with the
    /// error `Config`.
    pub fn validate(&self) -> (r: Result<(), AppError>)
        ensures
            r is Ok <==> self.valid(),
            r is Err ==> r.unwrap_err() is Config && Some(r.unwrap_err().detail())
                == self.first_fault(),
    {
        if is_blank(self.ckan_api_base_url.as_str()) {
            return Err(AppError::Config(String::from_str("CKAN API base URL must not be empty")));
        }
        if is_blank(self.bucket_name.as_str()) {
            return Err(AppError::Config(String::from_str("S3 bucket name must not be empty")));
        }
        if is_blank(self.csv_file.as_str()) {
            return Err(AppError::Config(String::from_str("CSV file name must not be empty")));
        }
        if self.concurrency_limit == 0 {
            return Err(
                AppError::Config(String::from_str("Concurrency limit must be greater than zero")),
            );
        }
        Ok(())
    }

    /// The URL of the listing endpoint.
    pub fn dataset_list_url(&self) -> (url: String)
        ensures
            url@ == self.ckan_api_base_url@ + "/package_list"@,
    {
        self.ckan_api_base_url.clone().concat("/package_list")
    }

    /// The URL of the detail endpoint, up to the identifier that is put
    /// behind it.
    pub fn dataset_metadata_url(&self) -> (url: String)
        ensures
            url@ == self.ckan_api_base_url@ + "/package_show?id="@,
    {
        self.ckan_api_base_url.clone().concat("/package_show?id=")
    }
}

} // verus!
