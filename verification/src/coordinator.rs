//! The publish coordinator: `Received → Validated → Classified →
//! Encoded → Uploaded → Committed`, with terminal `Rejected` (client
//! error, no side effects) and `Orphaned` (object stored, record
//! missing).
//!
//! Everything up to the upload is pure and lives in
//! [`publish_prepare`]. The two external effects — the object-store
//! `put` and the metadata insert — are performed by the surrounding
//! application, which feeds each result back into the `conclude_*`
//! functions here; those decide the outcome and uphold the core
//! consistency contract: a meme record never references an object key
//! that was not stored first.

use crate::config::PipelineConfig;
use crate::errors::{CommitError, PublishError, StoreError};
use crate::keygen::{make_object_key, object_key_spec, TimeParts};
use crate::sniff::{sniff, sniff_spec, SniffedFormat};
use crate::transcode::{transcode, transcode_spec, TargetFormat};
use vstd::prelude::*;
use vstd::string::StringExecFns;

verus! {

/// The durable entity a successful publish creates. The relational
/// store assigns `id` and `createdAt` on insert; the pipeline never
/// mutates a record after creation.
#[derive(Debug)]
pub struct MemeRecord {
    /// Fully qualified public URL of the stored object.
    pub image_url: String,
    /// Opaque identifier of the uploading user, if one was resolved.
    pub created_by: Option<String>,
    /// Starts at zero; likes are a collaborator's business.
    pub like_count: u32,
}

/// A payload that passed validation, classification and encoding, and
/// is ready for the object-store `put`.
#[derive(Debug)]
pub struct PreparedUpload {
    /// Object key, unique with overwhelming probability.
    pub key: String,
    /// The bytes to store: the original payload (animated) or the
    /// re-encoded raster.
    pub bytes: Vec<u8>,
    /// Format the bytes are stored under.
    pub format: TargetFormat,
    /// Canonical MIME type sent with the upload.
    pub content_type: String,
    /// Public URL the record will reference.
    pub image_url: String,
}

/// Ghost image of a `PreparedUpload`.
pub struct PreparedView {
    pub key: Seq<char>,
    pub bytes: Seq<u8>,
    pub format: TargetFormat,
    pub content_type: Seq<char>,
    pub image_url: Seq<char>,
}

impl PreparedUpload {
    pub open spec fn view_spec(self) -> PreparedView {
        PreparedView {
            key: self.key@,
            bytes: self.bytes@,
            format: self.format,
            content_type: self.content_type@,
            image_url: self.image_url@,
        }
    }
}

/// `https://<bucket>.<host>/<key>`: the one canonical URL shape, used
/// everywhere a stored object is referenced.
pub open spec fn image_url_spec(host: Seq<char>, bucket: Seq<char>, key: Seq<char>) -> Seq<char> {
    "https://"@ + bucket + "."@ + host + "/"@ + key
}

/// Render the public URL for a key under this configuration.
pub fn make_image_url(cfg: &PipelineConfig, key: &String) -> (url: String)
    ensures
        url@ == image_url_spec(cfg.bucket_public_host@, cfg.bucket_name@, key@),
{
    let mut url = String::from_str("https://");
    url.append(cfg.bucket_name.as_str());
    url.append(".");
    url.append(cfg.bucket_public_host.as_str());
    url.append("/");
    url.append(key.as_str());
    proof {
        assert(url@ =~= image_url_spec(cfg.bucket_public_host@, cfg.bucket_name@, key@));
    }
    url
}

pub open spec fn opt_bytes_view(p: Option<Vec<u8>>) -> Option<Seq<u8>> {
    match p {
        Option::Some(v) => Option::Some(v@),
        Option::None => Option::None,
    }
}

/// What preparation yields for a payload: the validation, sniffing,
/// transcoding and naming policy, as one function of the inputs.
pub open spec fn prepare_spec(
    cfg: PipelineConfig,
    payload: Option<Seq<u8>>,
    parts: TimeParts,
) -> Result<PreparedView, PublishError> {
    match payload {
        Option::None => Err(PublishError::MissingFile),
        Option::Some(p) => {
            if p.len() > cfg.max_payload_bytes {
                Err(PublishError::PayloadTooLarge)
            } else {
                match transcode_spec(p, cfg.quality) {
                    Err(e) => Err(e),
                    Ok(enc) => {
                        let key = object_key_spec(parts, enc.1.extension_spec());
                        Ok(
                            PreparedView {
                                key: key,
                                bytes: enc.0,
                                format: enc.1,
                                content_type: enc.1.mime_spec(),
                                image_url: image_url_spec(
                                    cfg.bucket_public_host@,
                                    cfg.bucket_name@,
                                    key,
                                ),
                            },
                        )
                    },
                }
            }
        },
    }
}

/// Run every pure stage of the pipeline: extract-or-reject, size
/// check (first, before any decode work), classification, conditional
/// re-encoding, key generation and URL construction.
pub fn publish_prepare(cfg: &PipelineConfig, payload: Option<Vec<u8>>, parts: &TimeParts) -> (r:
    Result<PreparedUpload, PublishError>)
    requires
        cfg.wf(),
    ensures
        prepare_spec(*cfg, opt_bytes_view(payload), *parts) matches Ok(v) ==> (r matches Ok(u)
            && u.view_spec() == v),
        prepare_spec(*cfg, opt_bytes_view(payload), *parts) matches Err(e) ==> r == Err::<
            PreparedUpload,
            PublishError,
        >(e),
        r matches Err(e) ==> (e == PublishError::MissingFile || e == PublishError::PayloadTooLarge
            || e == PublishError::InvalidMediaFormat),
{
    let data = match payload {
        Option::None => {
            return Err(PublishError::MissingFile);
        },
        Option::Some(d) => d,
    };
    if data.len() > cfg.max_payload_bytes {
        return Err(PublishError::PayloadTooLarge);
    }
    let format = sniff(&data);
    let enc = match transcode(data, format, cfg.quality) {
        Err(e) => {
            return Err(e);
        },
        Ok(m) => m,
    };
    let ext = enc.format.extension();
    let key = make_object_key(parts, ext);
    let content_type = enc.format.content_type();
    let image_url = make_image_url(cfg, &key);
    let upload = PreparedUpload { key, bytes: enc.bytes, format: enc.format, content_type, image_url };
    proof {
        assert(upload.view_spec() == prepare_spec(
            *cfg,
            opt_bytes_view(payload),
            *parts,
        ).unwrap());
    }
    Ok(upload)
}

/// Every way one publish attempt can end.
pub enum PublishOutcome {
    /// Terminal success: object stored, record committed.
    Committed { record: MemeRecord },
    /// Client-caused rejection; nothing was stored or inserted.
    Rejected { error: PublishError },
    /// The object-store `put` failed; nothing was inserted, and the
    /// store is responsible for not having persisted the failed
    /// attempt.
    StorageFailed { error: PublishError },
    /// `put` succeeded but the insert failed: the object sits in the
    /// bucket with no referencing row, reported for out-of-band
    /// reconciliation rather than deleted inline.
    Orphaned { key: String, error: PublishError },
}

impl PublishOutcome {
    /// Whether this outcome created a durable meme record.
    pub open spec fn has_record(self) -> bool {
        self is Committed
    }

    /// The keys this outcome reports as orphaned for the operator.
    pub open spec fn orphan_report(self) -> Seq<Seq<char>> {
        match self {
            PublishOutcome::Orphaned { key, .. } => seq![key@],
            _ => Seq::empty(),
        }
    }

    /// HTTP status of the response: 201 on success, otherwise the
    /// classified error's status.
    pub open spec fn status_code_spec(self) -> u16 {
        match self {
            PublishOutcome::Committed { .. } => 201,
            PublishOutcome::Rejected { error } => error.status_code_spec(),
            PublishOutcome::StorageFailed { error } => error.status_code_spec(),
            PublishOutcome::Orphaned { error, .. } => error.status_code_spec(),
        }
    }

    /// The generic client-facing message; internal detail stays in the
    /// server-side log.
    pub open spec fn client_message_spec(self) -> Seq<char> {
        match self {
            PublishOutcome::Committed { .. } => "Upload successful"@,
            PublishOutcome::Rejected { error } => error.client_message_spec(),
            PublishOutcome::StorageFailed { error } => error.client_message_spec(),
            PublishOutcome::Orphaned { error, .. } => error.client_message_spec(),
        }
    }

    /// The HTTP response for this outcome.
    pub fn response(&self) -> (r: (u16, String))
        ensures
            r.0 == self.status_code_spec(),
            r.1@ == self.client_message_spec(),
    {
        match self {
            PublishOutcome::Committed { .. } => (201, String::from_str("Upload successful")),
            PublishOutcome::Rejected { error } => (error.status_code(), error.client_message()),
            PublishOutcome::StorageFailed { error } => (
                error.status_code(),
                error.client_message(),
            ),
            PublishOutcome::Orphaned { error, .. } => (
                error.status_code(),
                error.client_message(),
            ),
        }
    }
}

/// Conclude a run that failed before any side effect: one of the
/// client-caused rejections.
pub fn conclude_rejection(error: PublishError) -> (o: PublishOutcome)
    requires
        error == PublishError::MissingFile || error == PublishError::PayloadTooLarge || error
            == PublishError::InvalidMediaFormat,
    ensures
        o == (PublishOutcome::Rejected { error }),
        !o.has_record(),
        o.orphan_report() == Seq::<Seq<char>>::empty(),
{
    PublishOutcome::Rejected { error }
}

/// Conclude a run whose object-store `put` failed. No record is ever
/// created on this path: the system is left with no dangling metadata.
/// The store error's detail is the caller's to log.
pub fn conclude_put_failure(_upload: PreparedUpload, _store_error: StoreError) -> (o:
    PublishOutcome)
    ensures
        o == (PublishOutcome::StorageFailed { error: PublishError::StorageUnavailable }),
        !o.has_record(),
        o.orphan_report() == Seq::<Seq<char>>::empty(),
{
    PublishOutcome::StorageFailed { error: PublishError::StorageUnavailable }
}

/// The record value the metadata insert commits for a prepared upload:
/// its public URL, the resolved uploader, and a like count of zero.
pub fn make_record(upload: &PreparedUpload, created_by: Option<String>) -> (r: MemeRecord)
    ensures
        r.image_url@ == upload.image_url@,
        r.created_by == created_by,
        r.like_count == 0,
{
    MemeRecord { image_url: upload.image_url.clone(), created_by, like_count: 0 }
}

/// Conclude a run whose `put` succeeded, from the result of the
/// metadata insert attempted with `record`. On failure the object is
/// already durable, so its key is reported as orphaned — exactly once
/// — rather than deleted inline: a compensating delete is itself
/// fallible and is left to out-of-band reconciliation.
pub fn conclude_commit(
    upload: PreparedUpload,
    record: MemeRecord,
    insert: Result<(), CommitError>,
) -> (o: PublishOutcome)
    requires
        record.image_url@ == upload.image_url@,
    ensures
        insert is Ok ==> o == (PublishOutcome::Committed { record }),
        insert is Err ==> (o matches PublishOutcome::Orphaned { key, error } && key@ == upload.key@
            && error == PublishError::MetadataCommitFailed),
        o.has_record() <==> insert is Ok,
        insert is Ok ==> o.orphan_report() == Seq::<Seq<char>>::empty(),
        insert is Err ==> o.orphan_report() =~= seq![upload.key@],
{
    match insert {
        Ok(()) => PublishOutcome::Committed { record },
        Err(_) => PublishOutcome::Orphaned {
            key: upload.key,
            error: PublishError::MetadataCommitFailed,
        },
    }
}

/// Ghost image of one whole run: which effects happened and what was
/// reported.
pub struct OutcomeView {
    /// Whether the coordinator reached the `put` call at all.
    pub put_attempted: bool,
    /// Whether a meme record was created.
    pub record_created: bool,
    /// Keys reported as orphaned.
    pub orphans: Seq<Seq<char>>,
    /// HTTP status reported to the client.
    pub status: u16,
}

/// The coordinator's policy as one function: given what preparation
/// yielded and how each external collaborator answered, what the run
/// does and reports. `put_ok` and `insert_ok` are only meaningful on
/// the paths where the corresponding call is attempted.
pub open spec fn coordinator_spec(
    prep: Result<PreparedView, PublishError>,
    put_ok: bool,
    insert_ok: bool,
) -> OutcomeView {
    match prep {
        Err(e) => OutcomeView {
            put_attempted: false,
            record_created: false,
            orphans: Seq::empty(),
            status: e.status_code_spec(),
        },
        Ok(v) => {
            if !put_ok {
                OutcomeView {
                    put_attempted: true,
                    record_created: false,
                    orphans: Seq::empty(),
                    status: PublishError::StorageUnavailable.status_code_spec(),
                }
            } else if insert_ok {
                OutcomeView {
                    put_attempted: true,
                    record_created: true,
                    orphans: Seq::empty(),
                    status: 201,
                }
            } else {
                OutcomeView {
                    put_attempted: true,
                    record_created: false,
                    orphans: seq![v.key],
                    status: PublishError::MetadataCommitFailed.status_code_spec(),
                }
            }
        },
    }
}

/// A meme record is only ever created after the object store confirmed
/// the upload: a record never references a key that was not stored.
pub proof fn lemma_record_implies_stored(
    prep: Result<PreparedView, PublishError>,
    put_ok: bool,
    insert_ok: bool,
)
    ensures
        coordinator_spec(prep, put_ok, insert_ok).record_created ==> (prep is Ok && put_ok),
{
}

/// If the object-store `put` fails, no meme record exists afterward
/// and nothing is reported as orphaned.
pub proof fn lemma_put_failure_no_record(prep: Result<PreparedView, PublishError>, insert_ok: bool)
    ensures
        !coordinator_spec(prep, false, insert_ok).record_created,
        coordinator_spec(prep, false, insert_ok).orphans == Seq::<Seq<char>>::empty(),
{
}

/// If `put` succeeds but the metadata insert fails, the key of the
/// failed attempt appears in the orphan report exactly once.
pub proof fn lemma_orphan_reported_once(v: PreparedView)
    ensures
        coordinator_spec(Ok(v), true, false).orphans =~= seq![v.key],
        coordinator_spec(Ok(v), true, false).orphans.len() == 1,
        coordinator_spec(Ok(v), true, false).orphans[0] == v.key,
{
}

/// End to end through preparation: an animated payload within the
/// size bound is prepared for storage byte-for-byte identical to the
/// input, under the animated format's canonical content type.
pub proof fn lemma_animated_stored_unchanged(cfg: PipelineConfig, p: Seq<u8>, parts: TimeParts)
    requires
        sniff_spec(p) == SniffedFormat::Animated,
        p.len() <= cfg.max_payload_bytes,
    ensures
        prepare_spec(cfg, Option::Some(p), parts) matches Ok(v) && v.bytes == p && v.content_type
            == "image/gif"@,
{
}

/// The response contract: the client sees 201 exactly when a record
/// was committed, and a 4xx (client-caused) status only on runs that
/// never reached the object store.
pub proof fn lemma_response_classification(
    prep: Result<PreparedView, PublishError>,
    put_ok: bool,
    insert_ok: bool,
)
    ensures
        coordinator_spec(prep, put_ok, insert_ok).status == 201 <==> coordinator_spec(
            prep,
            put_ok,
            insert_ok,
        ).record_created,
        (coordinator_spec(prep, put_ok, insert_ok).status == 400 || coordinator_spec(
            prep,
            put_ok,
            insert_ok,
        ).status == 413) ==> !coordinator_spec(prep, put_ok, insert_ok).put_attempted,
{
}

/// A payload over the configured maximum is rejected with 413 before
/// any decode work, whatever its bytes would decode to, and the object
/// store is never called.
pub proof fn lemma_oversized_rejected(
    cfg: PipelineConfig,
    p: Seq<u8>,
    parts: TimeParts,
    put_ok: bool,
    insert_ok: bool,
)
    requires
        p.len() > cfg.max_payload_bytes,
    ensures
        prepare_spec(cfg, Option::Some(p), parts) == Err::<PreparedView, PublishError>(
            PublishError::PayloadTooLarge,
        ),
        !coordinator_spec(prepare_spec(cfg, Option::Some(p), parts), put_ok, insert_ok)
            .put_attempted,
        coordinator_spec(prepare_spec(cfg, Option::Some(p), parts), put_ok, insert_ok).status
            == 413,
{
}

} // verus!
