//! Request shapes and the policy that turns a shape into a concrete body:
//! no body, a JSON text, or a multipart form of text fields and streamed
//! file fields, each file bound to its own progress sink.

use vstd::prelude::*;
use crate::callback::CallbackFun;
use crate::text::{last_segment, last_segment_of};

verus! {

/// The shape of a request body.
pub enum RequestType {
    /// No body.
    Plain,
    /// A serialised JSON document, sent with a JSON content type.
    JSON { body: String },
    /// A multipart form: named text fields, named file fields (by path),
    /// and the progress sink of each file field, by field name.
    Multipart {
        bodies: Option<Vec<(String, String)>>,
        files: Option<Vec<(String, String)>>,
        callbacks: Option<Vec<(String, CallbackFun)>>,
    },
}

/// One part of a multipart form.
pub enum FormPart {
    Text { name: String, value: String },
    /// A file streamed from `path`, announced as `file_name` with the given
    /// content type, reporting progress to `callback`.
    File {
        name: String,
        path: String,
        file_name: String,
        content_type: String,
        callback: Option<CallbackFun>,
    },
}

/// A concrete body.
pub enum RequestBody {
    Empty,
    Text(String),
    Form(Vec<FormPart>),
}

/// The headers and body a request shape stands for.
pub struct RequestPlan {
    pub headers: Vec<(String, String)>,
    pub body: RequestBody,
}

/// HTTP methods used against the service.
#[derive(Debug, Clone, Copy, PartialEq, Eq, Structural)]
pub enum Method {
    GET,
    POST,
    PUT,
    DELETE,
    PATCH,
}

/// A call to the service: method, path below the base address, query
/// parameters and body shape.
pub struct ApiCall {
    pub method: Method,
    pub path: String,
    pub parameters: Option<Vec<(String, String)>>,
    pub context: RequestType,
}

/// The content type of a file part.
pub const FILE_CONTENT_TYPE: &'static str = "application/octet-stream";

/// The sink registered for field `name`: the last entry under that name.
pub open spec fn callback_for(cbs: Seq<(String, CallbackFun)>, name: Seq<char>) -> Option<
    CallbackFun,
>
    decreases cbs.len(),
{
    if cbs.len() == 0 {
        None
    } else if cbs.last().0@ == name {
        Some(cbs.last().1)
    } else {
        callback_for(cbs.drop_last(), name)
    }
}

/// The entries of an optional list, none when it is absent.
pub open spec fn entries<T>(v: Option<Vec<T>>) -> Seq<T> {
    match v {
        Some(v) => v@,
        None => Seq::empty(),
    }
}

/// `p` is the text part for the field `kv`.
pub open spec fn is_text_part(p: FormPart, kv: (String, String)) -> bool {
    p matches FormPart::Text { name, value } && name@ == kv.0@ && value@ == kv.1@
}

/// `p` is the file part for the field `kv`, bound to its sink in `cbs`.
pub open spec fn is_file_part(
    p: FormPart,
    kv: (String, String),
    cbs: Seq<(String, CallbackFun)>,
) -> bool {
    p matches FormPart::File { name, path, file_name, content_type, callback } && name@ == kv.0@
        && path@ == kv.1@ && file_name@ == last_segment(kv.1@) && content_type@
        == FILE_CONTENT_TYPE@ && callback == callback_for(cbs, kv.0@)
}

/// The form of a multipart shape: all text fields in order, then all file
/// fields in order.
pub open spec fn is_form_of(
    parts: Seq<FormPart>,
    texts: Seq<(String, String)>,
    files: Seq<(String, String)>,
    cbs: Seq<(String, CallbackFun)>,
) -> bool {
    &&& parts.len() == texts.len() + files.len()
    &&& forall|i: int| 0 <= i < texts.len() ==> is_text_part(parts[i], texts[i])
    &&& forall|j: int| 0 <= j < files.len() ==> is_file_part(parts[texts.len() + j], files[j], cbs)
}

fn find_callback(cbs: &Vec<(String, CallbackFun)>, name: &String) -> (r: Option<CallbackFun>)
    ensures
        r == callback_for(cbs@, name@),
{
    let mut found: Option<CallbackFun> = None;
    let mut i: usize = 0;
    while i < cbs.len()
        invariant
            i <= cbs@.len(),
            found == callback_for(cbs@.subrange(0, i as int), name@),
        decreases cbs@.len() - i,
    {
        proof {
            assert(cbs@.subrange(0, i + 1).drop_last() =~= cbs@.subrange(0, i as int));
        }
        if cbs[i].0 == *name {
            found = Some(cbs[i].1.share());
        }
        i += 1;
    }
    assert(cbs@.subrange(0, cbs@.len() as int) =~= cbs@);
    found
}

fn copy_string(s: &String) -> (r: String)
    ensures
        r@ == s@,
{
    s.clone()
}

fn build_form(
    bodies: &Option<Vec<(String, String)>>,
    files: &Option<Vec<(String, String)>>,
    callbacks: &Option<Vec<(String, CallbackFun)>>,
) -> (r: Vec<FormPart>)
    ensures
        is_form_of(r@, entries(*bodies), entries(*files), entries(*callbacks)),
{
    let mut parts: Vec<FormPart> = Vec::new();
    if let Some(bodies) = bodies {
        let mut i: usize = 0;
        while i < bodies.len()
            invariant
                i <= bodies@.len(),
                parts@.len() == i,
                forall|k: int| 0 <= k < i ==> is_text_part(parts@[k], bodies@[k]),
            decreases bodies@.len() - i,
        {
            let part = FormPart::Text {
                name: copy_string(&bodies[i].0),
                value: copy_string(&bodies[i].1),
            };
            parts.push(part);
            i += 1;
        }
    }
    let ghost texts = entries(*bodies);
    assert(parts@.len() == texts.len());
    let no_callbacks: Vec<(String, CallbackFun)> = Vec::new();
    let cbs = match callbacks {
        Some(c) => c,
        None => &no_callbacks,
    };
    assert(cbs@ == entries(*callbacks)) by {
        if callbacks is None {
            assert(cbs@ =~= Seq::<(String, CallbackFun)>::empty());
        }
    }
    if let Some(files) = files {
        let mut j: usize = 0;
        while j < files.len()
            invariant
                j <= files@.len(),
                texts == entries(*bodies),
                cbs@ == entries(*callbacks),
                parts@.len() == texts.len() + j,
                forall|k: int| 0 <= k < texts.len() ==> is_text_part(parts@[k], texts[k]),
                forall|k: int|
                    0 <= k < j ==> is_file_part(parts@[texts.len() + k], files@[k], cbs@),
            decreases files@.len() - j,
        {
            let path = &files[j].1;
            let part = FormPart::File {
                name: copy_string(&files[j].0),
                path: copy_string(path),
                file_name: last_segment_of(path.as_str()).to_owned(),
                content_type: FILE_CONTENT_TYPE.to_owned(),
                callback: find_callback(cbs, &files[j].0),
            };
            parts.push(part);
            j += 1;
        }
    }
    parts
}

impl RequestType {
    /// The headers and body this shape stands for. A JSON shape carries its
    /// text and a JSON content type; a multipart shape becomes a form whose
    /// file parts are streamed when the request is sent.
    pub fn to_plan(&self) -> (r: RequestPlan)
        ensures
            match self {
                RequestType::Plain => r.headers@.len() == 0 && r.body is Empty,
                RequestType::JSON { body } => {
                    &&& r.headers@.len() == 1
                    &&& r.headers@[0].0@ == "Content-Type"@
                    &&& r.headers@[0].1@ == "application/json"@
                    &&& r.body matches RequestBody::Text(t) && t@ == body@
                },
                RequestType::Multipart { bodies, files, callbacks } => {
                    &&& r.headers@.len() == 0
                    &&& r.body matches RequestBody::Form(parts) && is_form_of(
                        parts@,
                        entries(*bodies),
                        entries(*files),
                        entries(*callbacks),
                    )
                },
            },
    {
        match self {
            RequestType::Plain => RequestPlan { headers: Vec::new(), body: RequestBody::Empty },
            RequestType::JSON { body } => {
                let mut headers: Vec<(String, String)> = Vec::new();
                headers.push(
                    (String::from_str("Content-Type"), String::from_str("application/json")),
                );
                RequestPlan { headers, body: RequestBody::Text(copy_string(body)) }
            },
            RequestType::Multipart { bodies, files, callbacks } => {
                RequestPlan {
                    headers: Vec::new(),
                    body: RequestBody::Form(build_form(bodies, files, callbacks)),
                }
            },
        }
    }
}

} // verus!
