//! The registrar: tells the service that uploaded objects exist and
//! attaches them, with their metadata, to a dataset.

use vstd::prelude::*;
use crate::checksum::Checksum;
use crate::request::{ApiCall, Method, RequestType, entries};

verus! {

/// The metadata that registers one stored object with a dataset.
#[derive(Debug, Clone)]
pub struct DirectUploadBody {
    pub categories: Vec<String>,
    pub checksum: Option<Checksum>,
    pub description: Option<String>,
    pub directory_label: Option<String>,
    pub file_name: Option<String>,
    pub mime_type: Option<String>,
    pub restrict: Option<bool>,
    pub storage_identifier: Option<String>,
}

/// The endpoint that registers one object.
pub const REGISTER_PATH: &'static str = "/api/datasets/:persistentId/add";

/// The endpoint that registers several objects at once.
pub const REGISTER_MANY_PATH: &'static str = "/api/datasets/:persistentId/addFiles";

/// The form field that carries the JSON metadata.
pub const METADATA_FIELD: &'static str = "jsonData";

/// `r` posts `json` as the only form field to `path`, for dataset `pid`.
pub open spec fn is_registration_call(
    r: ApiCall,
    path: Seq<char>,
    pid: Seq<char>,
    json: Seq<char>,
) -> bool {
    &&& r.method == Method::POST
    &&& r.path@ == path
    &&& r.parameters is Some
    &&& r.parameters.unwrap()@.len() == 1
    &&& r.parameters.unwrap()@[0].0@ == "persistentId"@
    &&& r.parameters.unwrap()@[0].1@ == pid
    &&& r.context matches RequestType::Multipart { bodies, files, callbacks }
    &&& entries(bodies).len() == 1
    &&& entries(bodies)[0].0@ == METADATA_FIELD@
    &&& entries(bodies)[0].1@ == json
    &&& files is None
    &&& callbacks is None
}

fn registration_call(path: &str, pid: &str, json: String) -> (r: ApiCall)
    ensures
        is_registration_call(r, path@, pid@, json@),
{
    let mut parameters: Vec<(String, String)> = Vec::new();
    parameters.push((String::from_str("persistentId"), pid.to_owned()));
    let mut bodies: Vec<(String, String)> = Vec::new();
    bodies.push((String::from_str(METADATA_FIELD), json));
    ApiCall {
        method: Method::POST,
        path: path.to_owned(),
        parameters: Some(parameters),
        context: RequestType::Multipart { bodies: Some(bodies), files: None, callbacks: None },
    }
}

/// The call that registers one object, given its metadata as JSON.
pub fn register_file_call(pid: &str, json: String) -> (r: ApiCall)
    ensures
        is_registration_call(r, REGISTER_PATH@, pid@, json@),
{
    registration_call(REGISTER_PATH, pid, json)
}

/// The call that registers a batch of objects, given the JSON array of
/// their metadata.
pub fn register_multiple_files_call(pid: &str, json: String) -> (r: ApiCall)
    ensures
        is_registration_call(r, REGISTER_MANY_PATH@, pid@, json@),
{
    registration_call(REGISTER_MANY_PATH, pid, json)
}

} // verus!
