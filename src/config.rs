use vstd::prelude::*;

verus! {

/// Settings handed to the storage backends. The layer reads none of them; it
/// only compares configurations by value.
#[derive(Debug, Clone)]
pub struct IOConfig {
    pub s3_region: Option<String>,
    pub s3_endpoint_url: Option<String>,
    pub s3_anonymous: bool,
    pub azure_storage_account: Option<String>,
    pub gcs_project_id: Option<String>,
    pub http_user_agent: Option<String>,
}

pub open spec fn opt_view(o: Option<String>) -> Option<Seq<char>> {
    match o {
        Some(s) => Some(s@),
        None => None,
    }
}

pub struct IOConfigView {
    pub s3_region: Option<Seq<char>>,
    pub s3_endpoint_url: Option<Seq<char>>,
    pub s3_anonymous: bool,
    pub azure_storage_account: Option<Seq<char>>,
    pub gcs_project_id: Option<Seq<char>>,
    pub http_user_agent: Option<Seq<char>>,
}

impl View for IOConfig {
    type V = IOConfigView;

    open spec fn view(&self) -> IOConfigView {
        IOConfigView {
            s3_region: opt_view(self.s3_region),
            s3_endpoint_url: opt_view(self.s3_endpoint_url),
            s3_anonymous: self.s3_anonymous,
            azure_storage_account: opt_view(self.azure_storage_account),
            gcs_project_id: opt_view(self.gcs_project_id),
            http_user_agent: opt_view(self.http_user_agent),
        }
    }
}

fn opt_str_equals(a: &Option<String>, b: &Option<String>) -> (r: bool)
    ensures
        r == (opt_view(*a) == opt_view(*b)),
{
    match (a, b) {
        (Some(x), Some(y)) => crate::router::str_equals(x.as_str(), y.as_str()),
        (None, None) => true,
        _ => false,
    }
}

impl IOConfig {
    /// A configuration with every setting left unset.
    pub fn new() -> (r: IOConfig)
        ensures
            r@ == (IOConfigView {
                s3_region: None,
                s3_endpoint_url: None,
                s3_anonymous: false,
                azure_storage_account: None,
                gcs_project_id: None,
                http_user_agent: None,
            }),
    {
        IOConfig {
            s3_region: None,
            s3_endpoint_url: None,
            s3_anonymous: false,
            azure_storage_account: None,
            gcs_project_id: None,
            http_user_agent: None,
        }
    }

    /// Whether two configurations hold the same settings.
    pub fn same_as(&self, other: &IOConfig) -> (r: bool)
        ensures
            r == (self@ == other@),
    {
        opt_str_equals(&self.s3_region, &other.s3_region)
            && opt_str_equals(&self.s3_endpoint_url, &other.s3_endpoint_url)
            && self.s3_anonymous == other.s3_anonymous
            && opt_str_equals(&self.azure_storage_account, &other.azure_storage_account)
            && opt_str_equals(&self.gcs_project_id, &other.gcs_project_id)
            && opt_str_equals(&self.http_user_agent, &other.http_user_agent)
    }
}

} // verus!
