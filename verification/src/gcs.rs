//! Artifact storage: where a rendered file goes, what is recorded of it, and
//! the requests that carry out uploads, downloads and deletions.

use vstd::prelude::*;
use vstd::string::*;
use crate::checksum::{checksum_text, sha256_hex};
use crate::ident::{uuid_text, Uuid};
use crate::text::{
    chain_message,
    chained,
    clone_bytes,
    concat2,
    decimal_int,
    push_decimal_i64,
    texts,
};

verus! {

/// Seconds for which a retrieval link stays valid: fifteen minutes.
pub const SIGNED_URL_EXPIRY_SECS: u64 = 900;

/// The bucket that holds the artifacts.
pub open spec fn bucket_text() -> Seq<char> {
    "mcxtest-attachments"@
}

/// Rendered artifact ready for upload.
#[derive(Debug, Clone)]
pub struct RenderedFile {
    pub format: String,
    pub content_type: String,
    pub file_name: String,
    pub data: Vec<u8>,
    pub rendering_duration_ms: i32,
    pub page_count: Option<i32>,
}

/// What is recorded of an uploaded file.
#[derive(Debug, Clone)]
pub struct UploadResult {
    pub gcs_path: String,
    pub file_size: i64,
    pub sha256_checksum: String,
    pub format: String,
    pub content_type: String,
    pub file_name: String,
    pub rendering_duration_ms: i32,
    pub page_count: Option<i32>,
}

/// A simple upload of one object: its bucket, name, content type, length and
/// bytes.
#[derive(Debug, Clone)]
pub struct UploadRequest {
    pub bucket: String,
    pub object_name: String,
    pub content_type: String,
    pub content_length: u64,
    pub data: Vec<u8>,
}

/// An upload that has been prepared and not yet carried out: the request to
/// send, and what to record once it has succeeded.
#[derive(Debug, Clone)]
pub struct PendingUpload {
    pub request: UploadRequest,
    pub result: UploadResult,
}

/// A request for a time-limited link that downloads one object as an
/// attachment.
#[derive(Debug, Clone)]
pub struct SignedUrlRequest {
    pub bucket: String,
    pub object: String,
    pub method: String,
    pub expires_secs: u64,
    pub query_parameters: Vec<(String, String)>,
}

/// A request to delete one object.
#[derive(Debug, Clone)]
pub struct DeleteRequest {
    pub bucket: String,
    pub object: String,
}

/// The holder of the bucket's name, from which all storage requests are made.
#[derive(Debug, Clone)]
pub struct DocumentStorage {
    pub bucket: String,
}

/// The object path of a file:
/// `{tenant_id}/documents/{project_id}/{document_id}/{file_name}`.
pub open spec fn object_path_text(
    tenant_id: Uuid,
    project_id: i64,
    document_id: i64,
    file_name: Seq<char>,
) -> Seq<char> {
    uuid_text(tenant_id.bits) + "/documents/"@ + decimal_int(project_id as int) + "/"@
        + decimal_int(document_id as int) + "/"@ + file_name
}

/// The recorded size of a file of `len` bytes: its length, or the largest size
/// that can be recorded if the length is beyond it.
pub open spec fn recorded_size(len: nat) -> i64 {
    if len > i64::MAX {
        i64::MAX
    } else {
        len as i64
    }
}

/// The content disposition that makes a download an attachment of the name.
pub open spec fn attachment_disposition(file_name: Seq<char>) -> Seq<char> {
    "attachment; filename=\""@ + file_name + "\""@
}

/// What is said when the upload of a file to a path fails for a cause.
pub open spec fn upload_failure_text(
    file_name: Seq<char>,
    gcs_path: Seq<char>,
    cause: Seq<char>,
) -> Seq<char> {
    chained("Failed to upload "@ + file_name + " to GCS path "@ + gcs_path, cause)
}

/// What is said when the upload of a file to a path fails for a cause.
pub fn upload_failure_message(file_name: &str, gcs_path: &str, cause: &str) -> (message: String)
    ensures
        message@ == upload_failure_text(file_name@, gcs_path@, cause@),
{
    let mut context = String::from_str("Failed to upload ");
    context.append(file_name);
    context.append(" to GCS path ");
    context.append(gcs_path);
    chain_message(context.as_str(), cause)
}

impl PendingUpload {
    /// The request uploads exactly the file's bytes to the file's object path,
    /// and the result records that path, the size and checksum of those bytes,
    /// a checksum of sixty-four hexadecimal digits, and the file's own
    /// description unchanged.
    pub open spec fn prepared_for(
        self,
        bucket: Seq<char>,
        tenant_id: Uuid,
        project_id: i64,
        document_id: i64,
        file: RenderedFile,
    ) -> bool {
        let path = object_path_text(tenant_id, project_id, document_id, file.file_name@);
        &&& self.request.bucket@ == bucket
        &&& self.request.object_name@ == path
        &&& self.request.content_type@ == file.content_type@
        &&& self.request.content_length == file.data@.len()
        &&& self.request.data@ == file.data@
        &&& self.result.gcs_path@ == path
        &&& self.result.file_size == recorded_size(file.data@.len())
        &&& self.result.sha256_checksum@ == checksum_text(file.data@)
        &&& self.result.sha256_checksum@.len() == 64
        &&& self.result.format@ == file.format@
        &&& self.result.content_type@ == file.content_type@
        &&& self.result.file_name@ == file.file_name@
        &&& self.result.rendering_duration_ms == file.rendering_duration_ms
        &&& self.result.page_count == file.page_count
    }

    /// Settles the upload once the transfer has ended: the prepared result if
    /// it succeeded, and otherwise the cause with the file and path before it.
    pub fn complete(self, outcome: Result<(), String>) -> (settled: Result<UploadResult, String>)
        ensures
            match outcome {
                Ok(_) => settled == Ok::<UploadResult, String>(self.result),
                Err(cause) => settled.is_err() && settled.unwrap_err()@ == upload_failure_text(
                    self.result.file_name@,
                    self.result.gcs_path@,
                    cause@,
                ),
            },
    {
        match outcome {
            Ok(_) => Ok(self.result),
            Err(cause) => Err(
                upload_failure_message(
                    self.result.file_name.as_str(),
                    self.result.gcs_path.as_str(),
                    cause.as_str(),
                ),
            ),
        }
    }
}

impl DocumentStorage {
    /// The storage of the service's bucket.
    pub fn new() -> (storage: DocumentStorage)
        ensures
            storage.bucket@ == bucket_text(),
    {
        DocumentStorage { bucket: String::from_str("mcxtest-attachments") }
    }

    /// Build the object path: `{tenant_id}/documents/{project_id}/{document_id}/{filename}`
    pub fn object_path(tenant_id: Uuid, project_id: i64, document_id: i64, file_name: &str) -> (path:
        String)
        ensures
            path@ == object_path_text(tenant_id, project_id, document_id, file_name@),
    {
        let mut path = tenant_id.to_text();
        path.append("/documents/");
        push_decimal_i64(&mut path, project_id);
        path.append("/");
        push_decimal_i64(&mut path, document_id);
        path.append("/");
        path.append(file_name);
        path
    }

    /// Prepares the upload of one rendered file: computes its object path and
    /// the checksum of the exact bytes that the request carries.
    pub fn upload_artifact(
        &self,
        tenant_id: Uuid,
        project_id: i64,
        document_id: i64,
        file: &RenderedFile,
    ) -> (pending: PendingUpload)
        ensures
            pending.prepared_for(self.bucket@, tenant_id, project_id, document_id, *file),
    {
        let gcs_path = Self::object_path(
            tenant_id,
            project_id,
            document_id,
            file.file_name.as_str(),
        );
        let length: u64 = file.data.len() as u64;
        let file_size: i64 = if length > 0x7fff_ffff_ffff_ffff {
            i64::MAX
        } else {
            length as i64
        };
        let sha256_checksum = sha256_hex(&file.data);
        PendingUpload {
            request: UploadRequest {
                bucket: self.bucket.clone(),
                object_name: gcs_path.clone(),
                content_type: file.content_type.clone(),
                content_length: length,
                data: clone_bytes(&file.data),
            },
            result: UploadResult {
                gcs_path,
                file_size,
                sha256_checksum,
                format: file.format.clone(),
                content_type: file.content_type.clone(),
                file_name: file.file_name.clone(),
                rendering_duration_ms: file.rendering_duration_ms,
                page_count: file.page_count,
            },
        }
    }

    /// Prepares the uploads of all rendered files of a document, one for each
    /// file and in the files' order.
    pub fn upload_all_artifacts(
        &self,
        tenant_id: Uuid,
        project_id: i64,
        document_id: i64,
        files: &Vec<RenderedFile>,
    ) -> (pending: Vec<PendingUpload>)
        ensures
            pending@.len() == files@.len(),
            forall|i: int|
                0 <= i < files@.len() ==> (#[trigger] pending@[i]).prepared_for(
                    self.bucket@,
                    tenant_id,
                    project_id,
                    document_id,
                    files@[i],
                ),
    {
        let mut pending: Vec<PendingUpload> = Vec::new();
        let mut i: usize = 0;
        while i < files.len()
            invariant
                i <= files@.len(),
                pending@.len() == i,
                forall|k: int|
                    0 <= k < i ==> (#[trigger] pending@[k]).prepared_for(
                        self.bucket@,
                        tenant_id,
                        project_id,
                        document_id,
                        files@[k],
                    ),
            decreases files@.len() - i,
        {
            let one = self.upload_artifact(tenant_id, project_id, document_id, &files[i]);
            pending.push(one);
            i += 1;
        }
        pending
    }

    /// The request for a link that downloads the object as an attachment named
    /// `file_name` and expires after fifteen minutes.
    pub fn generate_signed_url(&self, gcs_path: &str, file_name: &str) -> (request:
        SignedUrlRequest)
        ensures
            request.bucket@ == self.bucket@,
            request.object@ == gcs_path@,
            request.method@ == "GET"@,
            request.expires_secs == SIGNED_URL_EXPIRY_SECS,
            request.query_parameters@.len() == 1,
            request.query_parameters@[0].0@ == "response-content-disposition"@,
            request.query_parameters@[0].1@ == attachment_disposition(file_name@),
    {
        let mut disposition = String::from_str("attachment; filename=\"");
        disposition.append(file_name);
        disposition.append("\"");
        let mut query_parameters: Vec<(String, String)> = Vec::new();
        query_parameters.push((String::from_str("response-content-disposition"), disposition));
        SignedUrlRequest {
            bucket: self.bucket.clone(),
            object: String::from_str(gcs_path),
            method: String::from_str("GET"),
            expires_secs: SIGNED_URL_EXPIRY_SECS,
            query_parameters,
        }
    }

    /// What is said when no link could be made for a path.
    pub fn signed_url_failure(gcs_path: &str, cause: &str) -> (message: String)
        ensures
            message@ == chained("Failed to generate signed URL for "@ + gcs_path@, cause@),
    {
        let context = concat2("Failed to generate signed URL for ", gcs_path);
        chain_message(context.as_str(), cause)
    }

    /// The request that deletes a single object.
    pub fn delete_object(&self, gcs_path: &str) -> (request: DeleteRequest)
        ensures
            request.bucket@ == self.bucket@,
            request.object@ == gcs_path@,
    {
        DeleteRequest { bucket: self.bucket.clone(), object: String::from_str(gcs_path) }
    }

    /// What is said when an object could not be deleted.
    pub fn delete_failure(gcs_path: &str, cause: &str) -> (message: String)
        ensures
            message@ == chained("Failed to delete GCS object "@ + gcs_path@, cause@),
    {
        let context = concat2("Failed to delete GCS object ", gcs_path);
        chain_message(context.as_str(), cause)
    }

    /// The requests that delete all objects of a document: one for every path,
    /// in the paths' order, none depending on how another fares.
    pub fn delete_objects(&self, gcs_paths: &Vec<String>) -> (requests: Vec<DeleteRequest>)
        ensures
            requests@.len() == gcs_paths@.len(),
            forall|i: int|
                0 <= i < gcs_paths@.len() ==> (#[trigger] requests@[i]).bucket@ == self.bucket@
                    && requests@[i].object@ == gcs_paths@[i]@,
    {
        let mut requests: Vec<DeleteRequest> = Vec::new();
        let mut i: usize = 0;
        while i < gcs_paths.len()
            invariant
                i <= gcs_paths@.len(),
                requests@.len() == i,
                forall|k: int|
                    0 <= k < i ==> (#[trigger] requests@[k]).bucket@ == self.bucket@
                        && requests@[k].object@ == gcs_paths@[k]@,
            decreases gcs_paths@.len() - i,
        {
            let one = self.delete_object(gcs_paths[i].as_str());
            requests.push(one);
            i += 1;
        }
        requests
    }
}

/// Why the upload at a position did not succeed, if it did not: the cause of
/// its failure, or that it has no outcome because it was not attempted.
pub open spec fn upload_cause(outcomes: Seq<Result<(), String>>, i: int) -> Option<Seq<char>> {
    if 0 <= i < outcomes.len() {
        match outcomes[i] {
            Ok(_) => None,
            Err(cause) => Some(cause@),
        }
    } else {
        Some("upload was not attempted"@)
    }
}

/// What a bulk upload comes to: all or nothing. If every upload succeeded,
/// the results of all, one for each prepared upload and in the same order.
/// Else the failure of the first upload that did not succeed, whatever
/// became of the uploads after it, and no result at all.
pub open spec fn uploads_settled(
    pending: Seq<PendingUpload>,
    outcomes: Seq<Result<(), String>>,
    settled: Result<Vec<UploadResult>, String>,
) -> bool {
    match settled {
        Ok(results) => {
            &&& results@.len() == pending.len()
            &&& forall|i: int|
                0 <= i < pending.len() ==> upload_cause(outcomes, i).is_none()
                    && #[trigger] results@[i] == pending[i].result
        },
        Err(message) => exists|i: int|
            {
                &&& 0 <= i < pending.len()
                &&& #[trigger] upload_cause(outcomes, i).is_some()
                &&& forall|k: int| 0 <= k < i ==> (#[trigger] upload_cause(outcomes, k)).is_none()
                &&& message@ == upload_failure_text(
                    pending[i].result.file_name@,
                    pending[i].result.gcs_path@,
                    upload_cause(outcomes, i).unwrap(),
                )
            },
    }
}

/// The items of a list in the opposite order.
fn reversed<T>(items: Vec<T>) -> (ordered: Vec<T>)
    ensures
        ordered@ == items@.reverse(),
{
    let mut items = items;
    let ghost all = items@;
    let mut ordered: Vec<T> = Vec::new();
    while items.len() > 0
        invariant
            items@.len() <= all.len(),
            items@ == all.subrange(0, items@.len() as int),
            ordered@.len() + items@.len() == all.len(),
            forall|k: int| 0 <= k < ordered@.len() ==> ordered@[k] == all[all.len() - 1 - k],
        decreases items@.len(),
    {
        let last = items.pop();
        assert(items@ =~= all.subrange(0, items@.len() as int));
        match last {
            Some(item) => {
                ordered.push(item);
            },
            None => {},
        }
    }
    assert(ordered@ =~= all.reverse());
    ordered
}

/// Reads the outcomes of a bulk upload, one for each prepared upload in
/// order: all or nothing. The results of all uploads if every one succeeded;
/// else the failure of the first that did not, and no partial list.
pub fn upload_report(pending: Vec<PendingUpload>, outcomes: &Vec<Result<(), String>>) -> (settled:
    Result<Vec<UploadResult>, String>)
    ensures
        uploads_settled(pending@, outcomes@, settled),
{
    let mut i: usize = 0;
    while i < pending.len()
        invariant
            i <= pending@.len(),
            forall|k: int| 0 <= k < i ==> (#[trigger] upload_cause(outcomes@, k)).is_none(),
        decreases pending@.len() - i,
    {
        if i < outcomes.len() {
            match &outcomes[i] {
                Ok(_) => {},
                Err(cause) => {
                    let message = upload_failure_message(
                        pending[i].result.file_name.as_str(),
                        pending[i].result.gcs_path.as_str(),
                        cause.as_str(),
                    );
                    assert(upload_cause(outcomes@, i as int).is_some());
                    return Err(message);
                },
            }
        } else {
            let message = upload_failure_message(
                pending[i].result.file_name.as_str(),
                pending[i].result.gcs_path.as_str(),
                "upload was not attempted",
            );
            assert(upload_cause(outcomes@, i as int).is_some());
            return Err(message);
        }
        i += 1;
    }
    let ghost all = pending@;
    let mut pending = pending;
    let mut collected: Vec<UploadResult> = Vec::new();
    while pending.len() > 0
        invariant
            pending@.len() <= all.len(),
            pending@ == all.subrange(0, pending@.len() as int),
            collected@.len() + pending@.len() == all.len(),
            forall|k: int|
                0 <= k < collected@.len() ==> collected@[k] == all[all.len() - 1 - k].result,
        decreases pending@.len(),
    {
        let last = pending.pop();
        assert(pending@ =~= all.subrange(0, pending@.len() as int));
        match last {
            Some(upload) => {
                collected.push(upload.result);
            },
            None => {},
        }
    }
    let results = reversed(collected);
    assert forall|i: int| 0 <= i < all.len() implies #[trigger] results@[i] == all[i].result by {
        assert(results@[i] == collected@[all.len() - 1 - i]);
    }
    Ok(results)
}

/// What is reported of a bulk deletion: for every object whose deletion
/// failed, in the paths' order, what is said of the failure.
pub open spec fn deletion_warnings(
    paths: Seq<String>,
    outcomes: Seq<Result<(), String>>,
) -> Seq<Seq<char>>
    recommends
        paths.len() == outcomes.len(),
    decreases paths.len(),
{
    if paths.len() == 0 || outcomes.len() == 0 {
        Seq::empty()
    } else {
        let rest = deletion_warnings(paths.drop_last(), outcomes.drop_last());
        match outcomes.last() {
            Ok(_) => rest,
            Err(cause) => rest.push(
                chained("Failed to delete GCS object "@ + paths.last()@, cause@),
            ),
        }
    }
}

/// Reads the outcomes of a bulk deletion, one for each path; a path without
/// an outcome was not attempted and is passed over. The deletion as a whole
/// never fails: what could not be deleted is reported, one warning for each
/// failure, and is left to reconciliation.
pub fn delete_report(paths: &Vec<String>, outcomes: &Vec<Result<(), String>>) -> (warnings: Vec<
    String,
>)
    ensures
        ({
            let n = if paths@.len() <= outcomes@.len() {
                paths@.len() as int
            } else {
                outcomes@.len() as int
            };
            texts(warnings@) == deletion_warnings(
                paths@.subrange(0, n),
                outcomes@.subrange(0, n),
            )
        }),
{
    let n = if paths.len() <= outcomes.len() {
        paths.len()
    } else {
        outcomes.len()
    };
    let mut warnings: Vec<String> = Vec::new();
    let mut i: usize = 0;
    while i < n
        invariant
            i <= n,
            n <= paths@.len(),
            n <= outcomes@.len(),
            texts(warnings@) == deletion_warnings(
                paths@.subrange(0, i as int),
                outcomes@.subrange(0, i as int),
            ),
        decreases n - i,
    {
        proof {
            assert(paths@.subrange(0, i + 1).drop_last() =~= paths@.subrange(0, i as int));
            assert(outcomes@.subrange(0, i + 1).drop_last() =~= outcomes@.subrange(0, i as int));
        }
        match &outcomes[i] {
            Ok(_) => {},
            Err(cause) => {
                let ghost said = warnings@;
                let warning = DocumentStorage::delete_failure(paths[i].as_str(), cause.as_str());
                warnings.push(warning);
                assert(texts(warnings@) =~= texts(said).push(warning@));
            },
        }
        i += 1;
    }
    warnings
}

/// Two uploads of the same bytes record the same checksum, whatever the file
/// is called and wherever it goes.
pub proof fn lemma_checksum_of_same_bytes(
    first: PendingUpload,
    second: PendingUpload,
    bucket: Seq<char>,
    tenant_a: Uuid,
    project_a: i64,
    document_a: i64,
    file_a: RenderedFile,
    tenant_b: Uuid,
    project_b: i64,
    document_b: i64,
    file_b: RenderedFile,
)
    requires
        first.prepared_for(bucket, tenant_a, project_a, document_a, file_a),
        second.prepared_for(bucket, tenant_b, project_b, document_b, file_b),
        file_a.data@ == file_b.data@,
    ensures
        first.result.sha256_checksum@ == second.result.sha256_checksum@,
        first.result.sha256_checksum@ == checksum_text(first.request.data@),
{
}

} // verus!
