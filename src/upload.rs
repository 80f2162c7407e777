//! Uploads through the service itself: a file sent as a multipart form to
//! a dataset, or in place of an existing file, with its metadata as JSON.

use vstd::prelude::*;
use crate::callback::CallbackFun;
use crate::identifier::Identifier;
use crate::register::METADATA_FIELD;
use crate::request::{ApiCall, Method, RequestType, entries};
use crate::text::{signed_decimal, to_signed_decimal};

verus! {

/// The form field that carries the file.
pub const FILE_FIELD: &'static str = "file";

/// `context` sends the file at `fpath` as the field `file`, with `json` as
/// the field `jsonData` when there is metadata.
pub open spec fn is_file_form(context: RequestType, fpath: Seq<char>, json: Option<String>) -> bool {
    &&& context matches RequestType::Multipart { bodies, files, .. }
    &&& entries(files).len() == 1
    &&& files is Some
    &&& entries(files)[0].0@ == FILE_FIELD@
    &&& entries(files)[0].1@ == fpath
    &&& match json {
        None => bodies is None,
        Some(j) => {
            &&& bodies is Some
            &&& entries(bodies).len() == 1
            &&& entries(bodies)[0].0@ == METADATA_FIELD@
            &&& entries(bodies)[0].1@ == j@
        },
    }
}

fn file_form(
    fpath: String,
    json: Option<String>,
    callbacks: Option<Vec<(String, CallbackFun)>>,
) -> (r: RequestType)
    ensures
        is_file_form(r, fpath@, json),
        r matches RequestType::Multipart { callbacks: cbs, .. } && cbs == callbacks,
{
    let mut files: Vec<(String, String)> = Vec::new();
    files.push((String::from_str(FILE_FIELD), fpath));
    let bodies = match json {
        Some(j) => {
            let mut b: Vec<(String, String)> = Vec::new();
            b.push((String::from_str(METADATA_FIELD), j));
            Some(b)
        },
        None => None,
    };
    RequestType::Multipart { bodies, files: Some(files), callbacks }
}

/// The path that adds a file to the dataset `id`.
pub open spec fn dataset_add_path(id: Identifier) -> Seq<char> {
    match id {
        Identifier::PersistentId(_) => "api/datasets/:persistentId/add"@,
        Identifier::Id(n) => "api/datasets/"@ + signed_decimal(n as int) + "/add"@,
    }
}

/// The call that uploads the file at `fpath` to the dataset `id`, with
/// optional metadata `json`, reporting progress to `callback`. A persistent
/// id goes in the query; a numeric id in the path.
pub fn upload_file_to_dataset_call(
    id: &Identifier,
    fpath: String,
    json: Option<String>,
    callback: Option<CallbackFun>,
) -> (r: ApiCall)
    ensures
        r.method == Method::POST,
        r.path@ == dataset_add_path(*id),
        match id {
            Identifier::PersistentId(p) => r.parameters matches Some(ps) && ps@.len() == 1
                && ps@[0].0@ == "persistentId"@ && ps@[0].1@ == p@,
            Identifier::Id(_) => r.parameters is None,
        },
        is_file_form(r.context, fpath@, json),
        r.context matches RequestType::Multipart { callbacks, .. } && match callback {
            Some(c) => callbacks matches Some(cbs) && cbs@.len() == 1 && cbs@[0].0@ == FILE_FIELD@
                && cbs@[0].1 == c,
            None => callbacks is None,
        },
{
    let callbacks = match callback {
        Some(c) => {
            let mut v: Vec<(String, CallbackFun)> = Vec::new();
            v.push((String::from_str(FILE_FIELD), c));
            Some(v)
        },
        None => None,
    };
    let context = file_form(fpath, json, callbacks);
    match id {
        Identifier::PersistentId(p) => {
            let mut parameters: Vec<(String, String)> = Vec::new();
            parameters.push((String::from_str("persistentId"), p.clone()));
            ApiCall {
                method: Method::POST,
                path: String::from_str("api/datasets/:persistentId/add"),
                parameters: Some(parameters),
                context,
            }
        },
        Identifier::Id(n) => {
            let mut path = String::from_str("api/datasets/");
            let digits = to_signed_decimal(*n);
            path.append(digits.as_str());
            path.append("/add");
            ApiCall { method: Method::POST, path, parameters: None, context }
        },
    }
}

/// The call that replaces the file `id` by the file at `fpath`, with
/// optional metadata `json`, reporting progress to `callbacks`.
pub fn replace_file_call(
    id: &str,
    fpath: String,
    json: Option<String>,
    callbacks: Option<Vec<(String, CallbackFun)>>,
) -> (r: ApiCall)
    ensures
        r.method == Method::POST,
        r.path@ == "api/files/"@ + id@ + "/replace"@,
        r.parameters is None,
        is_file_form(r.context, fpath@, json),
        r.context matches RequestType::Multipart { callbacks: cbs, .. } && cbs == callbacks,
{
    let mut path = String::from_str("api/files/");
    path.append(id);
    path.append("/replace");
    ApiCall { method: Method::POST, path, parameters: None, context: file_form(fpath, json, callbacks) }
}

} // verus!
