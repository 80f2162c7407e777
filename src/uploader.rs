//! The object uploader and the upload orchestrator. Each file goes through
//! `Init -> TicketRequested -> SinglePartUpload -> ChecksumPending ->
//! ReadyToRegister`, or ends in `Failed`; the caller performs each action
//! the machine asks for and hands back what came of it. A batch is
//! registered only when every file of it is ready.

use vstd::prelude::*;
use crate::checksum::Checksum;
use crate::error::TransferError;
use crate::register::DirectUploadBody;
use crate::request::ApiCall;
use crate::response::Response;
use crate::text::{decimal, last_segment, to_decimal};
use crate::tickets::{
    TicketResponse,
    UploadTarget,
    is_ticket_call,
    process_ticket,
    ticket_outcome_ok,
    ticket_request,
};

verus! {

/// The final component of a Unix path, as `Path::file_name` finds it: the
/// text after the last `/`, where empty and `.` components at the end are
/// skipped; a final `..`, or no component at all, gives none.
pub open spec fn file_name_of(path: Seq<char>) -> Option<Seq<char>>
    decreases path.len(),
{
    let seg = last_segment(path);
    if seg.len() == 0 || seg == "."@ {
        if seg.len() < path.len() {
            file_name_of(path.subrange(0, path.len() - seg.len() - 1))
        } else {
            None
        }
    } else if seg == ".."@ {
        None
    } else {
        Some(seg)
    }
}

#[verifier::external_body]
fn path_file_name(path: &str) -> (r: Option<String>)
    ensures
        r is Some <==> file_name_of(path@) is Some,
        r is Some ==> r.unwrap()@ == file_name_of(path@).unwrap(),
{
    match std::path::Path::new(path).file_name() {
        Some(n) => Some(n.to_string_lossy().into_owned()),
        None => None,
    }
}

/// The name a file is registered under: the last component of its path.
pub fn get_file_name(filepath: &str) -> (r: Option<String>)
    ensures
        r is Some <==> file_name_of(filepath@) is Some,
        r is Some ==> r.unwrap()@ == file_name_of(filepath@).unwrap(),
{
    path_file_name(filepath)
}

/// A PUT of a file's bytes to its storage address.
#[derive(Debug, Clone)]
pub struct PutRequest {
    pub url: String,
    pub headers: Vec<(String, String)>,
}

/// The tag that marks an object as not yet registered.
pub const STORAGE_TAGGING: &'static str = "dv-state=temp";

/// `p` stores a file of `size` bytes at the target's address.
pub open spec fn is_put_for(p: PutRequest, target: UploadTarget, size: u64) -> bool {
    &&& p.url@ == target.url@
    &&& p.headers@.len() == 2
    &&& p.headers@[0].0@ == "x-amz-tagging"@
    &&& p.headers@[0].1@ == STORAGE_TAGGING@
    &&& p.headers@[1].0@ == "Content-Length"@
    &&& p.headers@[1].1@ == decimal(size as nat)
}

/// The PUT that stores a file of `size` bytes at the target: its address,
/// the byte length and the tag of an unregistered object. No query and no
/// API key go with it: the address carries its own authorisation.
pub fn put_request(target: &UploadTarget, size: u64) -> (r: PutRequest)
    ensures
        is_put_for(r, *target, size),
{
    let mut headers: Vec<(String, String)> = Vec::new();
    headers.push((String::from_str("x-amz-tagging"), String::from_str(STORAGE_TAGGING)));
    headers.push((String::from_str("Content-Length"), to_decimal(size)));
    PutRequest { url: target.url.clone(), headers }
}

/// `done` carries the metadata the caller supplied in `given`.
pub open spec fn keeps_metadata(done: DirectUploadBody, given: DirectUploadBody) -> bool {
    &&& done.categories == given.categories
    &&& done.description == given.description
    &&& done.directory_label == given.directory_label
    &&& done.mime_type == given.mime_type
    &&& done.restrict == given.restrict
}

/// `done` is `given` completed with what the upload produced.
pub open spec fn is_completed(
    done: DirectUploadBody,
    given: DirectUploadBody,
    checksum: Checksum,
    file_name: Option<String>,
    storage_identifier: Option<String>,
) -> bool {
    &&& keeps_metadata(done, given)
    &&& done.checksum == Some(checksum)
    &&& done.file_name == file_name
    &&& done.storage_identifier == storage_identifier
}

/// Fills in the checksum, file name and storage identifier of a
/// registration body, keeping the metadata the caller supplied.
pub fn complete_body(
    body: DirectUploadBody,
    checksum: Checksum,
    file_name: Option<String>,
    storage_identifier: Option<String>,
) -> (r: DirectUploadBody)
    ensures
        is_completed(r, body, checksum, file_name, storage_identifier),
{
    DirectUploadBody { checksum: Some(checksum), file_name, storage_identifier, ..body }
}

/// Where one file's transfer stands.
#[derive(Debug, Clone, Copy, PartialEq, Eq, Structural)]
pub enum UploadStage {
    Init,
    TicketRequested,
    SinglePartUpload,
    ChecksumPending,
    ReadyToRegister,
    Failed,
}

/// What came of the last action.
pub enum UploadEvent {
    /// The file's length was read.
    Started { size: u64 },
    /// The ticket request was answered, or could not be made.
    TicketAnswered(Result<Response<TicketResponse>, TransferError>),
    /// The PUT finished.
    PutCompleted(Result<(), TransferError>),
    /// The checksum of the local file was computed.
    ChecksumComputed(Result<Checksum, TransferError>),
}

/// What to do next.
pub enum UploadAction {
    RequestTicket(ApiCall),
    Put(PutRequest),
    ComputeChecksum,
    /// The registration body is complete.
    Ready,
    /// The transfer failed; nothing more is to be done for this file.
    Abort,
    /// The event does not belong to the current stage and was dropped.
    Ignored,
}

/// One file's transfer.
pub struct FileUpload {
    stage: UploadStage,
    pid: String,
    file_name: Option<String>,
    size: u64,
    body: DirectUploadBody,
    given: Ghost<DirectUploadBody>,
    target: Option<UploadTarget>,
    error: Option<TransferError>,
}

impl FileUpload {
    pub closed spec fn stage(&self) -> UploadStage {
        self.stage
    }

    /// The dataset the file goes to.
    pub closed spec fn pid(&self) -> Seq<char> {
        self.pid@
    }

    /// The name the file is registered under.
    pub closed spec fn file_name(&self) -> Option<String> {
        self.file_name
    }

    /// The file's length, once known.
    pub closed spec fn size(&self) -> u64 {
        self.size
    }

    /// The registration body as the caller supplied it.
    pub closed spec fn given(&self) -> DirectUploadBody {
        self.given@
    }

    /// The registration body as it stands.
    pub closed spec fn body(&self) -> DirectUploadBody {
        self.body
    }

    /// The destination from the ticket, once there is one.
    pub closed spec fn target(&self) -> Option<UploadTarget> {
        self.target
    }

    /// Why the transfer failed, once it has.
    pub closed spec fn error(&self) -> Option<TransferError> {
        self.error
    }

    pub closed spec fn wf(&self) -> bool {
        &&& keeps_metadata(self.body, self.given@)
        &&& (self.stage == UploadStage::Failed <==> self.error is Some)
        &&& (self.stage == UploadStage::SinglePartUpload || self.stage
            == UploadStage::ChecksumPending) ==> self.target is Some
        &&& self.stage == UploadStage::ReadyToRegister ==> self.body.checksum is Some
    }

    /// A transfer of one file to the dataset `pid`, to be registered under
    /// `file_name` with the metadata in `body`.
    pub fn new(pid: &str, file_name: Option<String>, body: DirectUploadBody) -> (r: FileUpload)
        ensures
            r.wf(),
            r.stage() == UploadStage::Init,
            r.pid() == pid@,
            r.file_name() == file_name,
            r.given() == body,
            r.body() == body,
            r.target() is None,
    {
        let ghost given = body;
        FileUpload {
            stage: UploadStage::Init,
            pid: pid.to_owned(),
            file_name,
            size: 0,
            body,
            given: Ghost(given),
            target: None,
            error: None,
        }
    }

    pub fn stage_now(&self) -> (r: UploadStage)
        ensures
            r == self.stage(),
    {
        self.stage
    }

    fn fail(&mut self, e: TransferError) -> (a: UploadAction)
        requires
            old(self).wf(),
        ensures
            final(self).wf(),
            final(self).stage() == UploadStage::Failed,
            final(self).error() == Some(e),
            final(self).given() == old(self).given(),
            final(self).body() == old(self).body(),
            final(self).pid() == old(self).pid(),
            final(self).file_name() == old(self).file_name(),
            final(self).size() == old(self).size(),
            a is Abort,
    {
        self.stage = UploadStage::Failed;
        self.error = Some(e);
        UploadAction::Abort
    }

    /// Moves the transfer on by one event and says what to do next.
    pub fn handle(&mut self, event: UploadEvent) -> (a: UploadAction)
        requires
            old(self).wf(),
        ensures
            final(self).wf(),
            final(self).given() == old(self).given(),
            final(self).pid() == old(self).pid(),
            final(self).file_name() == old(self).file_name(),
            match (old(self).stage(), event) {
                (UploadStage::Init, UploadEvent::Started { size }) => {
                    &&& final(self).stage() == UploadStage::TicketRequested
                    &&& final(self).size() == size
                    &&& a matches UploadAction::RequestTicket(c) && is_ticket_call(
                        c,
                        old(self).pid(),
                        size,
                    )
                },
                (UploadStage::TicketRequested, UploadEvent::TicketAnswered(Ok(answer))) => {
                    &&& final(self).size() == old(self).size()
                    &&& if final(self).stage() == UploadStage::SinglePartUpload {
                        &&& ticket_outcome_ok(answer, Ok(final(self).target().unwrap()))
                        &&& a matches UploadAction::Put(p) && is_put_for(
                            p,
                            final(self).target().unwrap(),
                            old(self).size(),
                        )
                    } else {
                        &&& final(self).stage() == UploadStage::Failed
                        &&& ticket_outcome_ok(answer, Err(final(self).error().unwrap()))
                        &&& a is Abort
                    }
                },
                (UploadStage::TicketRequested, UploadEvent::TicketAnswered(Err(e))) => {
                    &&& final(self).stage() == UploadStage::Failed
                    &&& final(self).error() == Some(e)
                    &&& a is Abort
                },
                (UploadStage::SinglePartUpload, UploadEvent::PutCompleted(Ok(()))) => {
                    &&& final(self).stage() == UploadStage::ChecksumPending
                    &&& final(self).target() == old(self).target()
                    &&& a is ComputeChecksum
                },
                (UploadStage::SinglePartUpload, UploadEvent::PutCompleted(Err(e))) => {
                    &&& final(self).stage() == UploadStage::Failed
                    &&& final(self).error() == Some(e)
                    &&& a is Abort
                },
                (UploadStage::ChecksumPending, UploadEvent::ChecksumComputed(Ok(c))) => {
                    &&& final(self).stage() == UploadStage::ReadyToRegister
                    &&& is_completed(
                        final(self).body(),
                        old(self).given(),
                        c,
                        old(self).file_name(),
                        old(self).target().unwrap().storage_identifier,
                    )
                    &&& a is Ready
                },
                (UploadStage::ChecksumPending, UploadEvent::ChecksumComputed(Err(e))) => {
                    &&& final(self).stage() == UploadStage::Failed
                    &&& final(self).error() == Some(e)
                    &&& a is Abort
                },
                _ => {
                    &&& final(self).stage() == old(self).stage()
                    &&& final(self).body() == old(self).body()
                    &&& final(self).target() == old(self).target()
                    &&& final(self).error() == old(self).error()
                    &&& a is Ignored
                },
            },
    {
        match event {
            UploadEvent::Started { size } => {
                if self.stage != UploadStage::Init {
                    return UploadAction::Ignored;
                }
                self.stage = UploadStage::TicketRequested;
                self.size = size;
                UploadAction::RequestTicket(ticket_request(self.pid.as_str(), size))
            },
            UploadEvent::TicketAnswered(answer) => {
                if self.stage != UploadStage::TicketRequested {
                    return UploadAction::Ignored;
                }
                match answer {
                    Err(e) => self.fail(e),
                    Ok(answer) => {
                        match process_ticket(answer) {
                            Err(e) => self.fail(e),
                            Ok(target) => {
                                let put = put_request(&target, self.size);
                                self.stage = UploadStage::SinglePartUpload;
                                self.target = Some(target);
                                UploadAction::Put(put)
                            },
                        }
                    },
                }
            },
            UploadEvent::PutCompleted(result) => {
                if self.stage != UploadStage::SinglePartUpload {
                    return UploadAction::Ignored;
                }
                match result {
                    Err(e) => self.fail(e),
                    Ok(()) => {
                        self.stage = UploadStage::ChecksumPending;
                        UploadAction::ComputeChecksum
                    },
                }
            },
            UploadEvent::ChecksumComputed(result) => {
                if self.stage != UploadStage::ChecksumPending {
                    return UploadAction::Ignored;
                }
                match result {
                    Err(e) => self.fail(e),
                    Ok(checksum) => {
                        let storage_identifier = match &self.target {
                            Some(t) => t.storage_identifier.clone(),
                            None => None,
                        };
                        let mut given = empty_body();
                        std::mem::swap(&mut given, &mut self.body);
                        self.body = complete_body(
                            given,
                            checksum,
                            self.file_name.clone(),
                            storage_identifier,
                        );
                        self.stage = UploadStage::ReadyToRegister;
                        UploadAction::Ready
                    },
                }
            },
        }
    }
}

impl FileUpload {
    /// A transfer that has not started, of the file `file_name` to the
    /// dataset `pid` with the metadata `body`.
    pub open spec fn is_fresh(
        &self,
        pid: Seq<char>,
        file_name: Option<String>,
        body: DirectUploadBody,
    ) -> bool {
        &&& self.wf()
        &&& self.stage() == UploadStage::Init
        &&& self.pid() == pid
        &&& self.file_name() == file_name
        &&& self.given() == body
    }

    /// What the transfer came to: the completed registration body, or why
    /// it failed.
    pub fn into_outcome(self) -> (r: Result<DirectUploadBody, TransferError>)
        requires
            self.wf(),
            self.stage() == UploadStage::ReadyToRegister || self.stage() == UploadStage::Failed,
        ensures
            self.stage() == UploadStage::ReadyToRegister ==> r == Ok::<
                DirectUploadBody,
                TransferError,
            >(self.body()),
            self.stage() == UploadStage::Failed ==> r == Err::<DirectUploadBody, TransferError>(
                self.error().unwrap(),
            ),
            r matches Ok(b) ==> keeps_metadata(b, self.given()) && b.checksum is Some,
    {
        match self.error {
            Some(e) => Err(e),
            None => Ok(self.body),
        }
    }
}

/// Sets up one transfer per file: file `i` goes to the dataset `pid` under
/// the name `file_names[i]`, with the metadata `bodies[i]`. Bodies beyond
/// the files are not used.
pub fn start_batch(
    pid: &str,
    file_names: Vec<Option<String>>,
    bodies: Vec<DirectUploadBody>,
) -> (r: Vec<FileUpload>)
    requires
        file_names@.len() <= bodies@.len(),
    ensures
        r@.len() == file_names@.len(),
        forall|i: int|
            0 <= i < r@.len() ==> #[trigger] r@[i].is_fresh(pid@, file_names@[i], bodies@[i]),
{
    let n = file_names.len();
    let mut names = file_names;
    let mut rest = bodies;
    let mut uploads: Vec<FileUpload> = Vec::new();
    let mut i: usize = 0;
    while i < n
        invariant
            n == file_names@.len() <= bodies@.len(),
            i <= n,
            names@ == file_names@.subrange(i as int, n as int),
            rest@ == bodies@.subrange(i as int, bodies@.len() as int),
            uploads@.len() == i,
            forall|k: int|
                0 <= k < i ==> #[trigger] uploads@[k].is_fresh(pid@, file_names@[k], bodies@[k]),
        decreases n - i,
    {
        assert(names@[0] == file_names@[i as int]);
        assert(rest@[0] == bodies@[i as int]);
        let name = names.remove(0);
        let body = rest.remove(0);
        let upload = FileUpload::new(pid, name, body);
        uploads.push(upload);
        proof {
            assert(names@ =~= file_names@.subrange(i + 1, n as int));
            assert(rest@ =~= bodies@.subrange(i + 1, bodies@.len() as int));
        }
        i += 1;
    }
    uploads
}

/// Gathers the outcomes of a batch in order. The batch succeeds only if
/// every file succeeded; otherwise the first failure, in file order, is the
/// batch's failure and nothing is to be registered. Objects that other
/// files of a failed batch already stored are left unregistered; nothing
/// here deletes them.
pub fn collect_bodies(results: Vec<Result<DirectUploadBody, TransferError>>) -> (r: Result<
    Vec<DirectUploadBody>,
    TransferError,
>)
    ensures
        r is Ok <==> forall|i: int| 0 <= i < results@.len() ==> results@[i] is Ok,
        r matches Ok(v) ==> v@.len() == results@.len() && forall|i: int|
            0 <= i < results@.len() ==> results@[i] == Ok::<DirectUploadBody, TransferError>(
                v@[i],
            ),
        r matches Err(e) ==> exists|k: int|
            0 <= k < results@.len() && results@[k] == Err::<DirectUploadBody, TransferError>(e)
                && forall|j: int| 0 <= j < k ==> results@[j] is Ok,
{
    let n = results.len();
    let mut rest = results;
    let mut out: Vec<DirectUploadBody> = Vec::new();
    let mut i: usize = 0;
    while i < n
        invariant
            n == results@.len(),
            i <= n,
            rest@ == results@.subrange(i as int, n as int),
            out@.len() == i,
            forall|k: int|
                0 <= k < i ==> results@[k] == Ok::<DirectUploadBody, TransferError>(out@[k]),
        decreases n - i,
    {
        let next = rest.remove(0);
        proof {
            assert(results@[i as int] == next);
            assert(rest@ =~= results@.subrange(i + 1, n as int));
        }
        match next {
            Ok(b) => out.push(b),
            Err(e) => {
                return Err(e);
            },
        }
        i += 1;
    }
    Ok(out)
}

/// A registered batch carries, for each file in the caller's order, the
/// categories, description, directory label, MIME type and restriction the
/// caller supplied for that file.
pub proof fn lemma_batch_keeps_metadata(
    given: Seq<DirectUploadBody>,
    results: Seq<Result<DirectUploadBody, TransferError>>,
    batch: Seq<DirectUploadBody>,
)
    requires
        results.len() == given.len(),
        forall|i: int|
            0 <= i < results.len() ==> (#[trigger] results[i] matches Ok(b) ==> keeps_metadata(
                b,
                given[i],
            )),
        batch.len() == results.len(),
        forall|i: int|
            0 <= i < results.len() ==> results[i] == Ok::<DirectUploadBody, TransferError>(
                batch[i],
            ),
    ensures
        forall|i: int| 0 <= i < batch.len() ==> keeps_metadata(#[trigger] batch[i], given[i]),
{
    assert forall|i: int| 0 <= i < batch.len() implies keeps_metadata(
        #[trigger] batch[i],
        given[i],
    ) by {
        assert(results[i] == Ok::<DirectUploadBody, TransferError>(batch[i]));
    }
}

fn empty_body() -> DirectUploadBody {
    DirectUploadBody {
        categories: Vec::new(),
        checksum: None,
        description: None,
        directory_label: None,
        file_name: None,
        mime_type: None,
        restrict: None,
        storage_identifier: None,
    }
}

} // verus!
