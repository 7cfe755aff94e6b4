//! The publisher: provisions one storage container, makes it publicly
//! readable, and uploads a set of local files to it as objects, idempotently.
//!
//! The storage service itself stands behind the [`StorageClient`] capability
//! trait; the decisions around it — error classification, the public-read
//! policy document, object keying and the fail-fast step order — are the
//! verified logic of this module.

use std::str::FromStr;
use vstd::prelude::*;

use crate::text::{base_name, base_name_spec};

verus! {

/// An error from the publisher, carrying the message shown to the caller.
#[derive(Debug)]
pub struct UploadError {
    pub message: String,
}

/// The outcome of one container-creation call: created, already owned by
/// the caller (the one downgraded error), or failed with the service's
/// message.
#[derive(Debug)]
pub enum CreateBucketOutcome {
    Created,
    AlreadyOwnedByCaller,
    Failed(String),
}

/// The capability set the publisher needs from the storage service.
/// Production code binds it to a real client, tests to an in-memory
/// recorder; nothing is assumed of what the service answers.
pub trait StorageClient {
    /// Attempts to create the named container in the given region.
    fn create_bucket(&mut self, bucket: &str, region: &str) -> (r: CreateBucketOutcome);

    /// Attaches the given policy document to the container.
    fn put_bucket_policy(&mut self, bucket: &str, policy: &str) -> (r: Result<(), String>);

    /// Writes one object under the given key.
    fn put_object(&mut self, bucket: &str, key: &str, body: &[u8]) -> (r: Result<(), String>);
}

/// One local file to publish: its path and its full contents.
pub struct FileEntry {
    pub path: String,
    pub body: Vec<u8>,
}

/// The steps of one upload run, in order; any step's fatal error moves the
/// run to `Failed` and aborts what remains.
#[derive(Clone, Copy, Debug, PartialEq, Eq, Structural)]
pub enum UploadState {
    Idle,
    ContainerEnsured,
    PolicyPublic,
    Done,
    Failed,
}

/// The state after one step: forward on success, `Failed` on any error.
pub open spec fn next_state(s: UploadState, step_ok: bool) -> UploadState {
    if !step_ok {
        UploadState::Failed
    } else {
        match s {
            UploadState::Idle => UploadState::ContainerEnsured,
            UploadState::ContainerEnsured => UploadState::PolicyPublic,
            UploadState::PolicyPublic => UploadState::Done,
            UploadState::Done => UploadState::Done,
            UploadState::Failed => UploadState::Failed,
        }
    }
}

/// Moves the upload state machine one step.
pub fn advance(s: UploadState, step_ok: bool) -> (r: UploadState)
    ensures
        r == next_state(s, step_ok),
{
    if !step_ok {
        UploadState::Failed
    } else {
        match s {
            UploadState::Idle => UploadState::ContainerEnsured,
            UploadState::ContainerEnsured => UploadState::PolicyPublic,
            UploadState::PolicyPublic => UploadState::Done,
            UploadState::Done => UploadState::Done,
            UploadState::Failed => UploadState::Failed,
        }
    }
}

/// Whether the storage backend recognizes a region name.  Named for the
/// client library's region parser, whose answer depends on the name alone.
pub uninterp spec fn region_accepted(name: Seq<char>) -> bool;

/// Relies on `rusoto_core::Region::from_str`: parses a region name against
/// the fixed list of regions the backend serves, and fails on any other.
#[verifier::external_body]
fn region_is_known(name: &str) -> (r: bool)
    ensures
        r == region_accepted(name@),
{
    rusoto_core::Region::from_str(name).is_ok()
}

/// The public-read policy document for a container: anonymous read on every
/// object under it.
pub open spec fn policy_json_of(bucket: Seq<char>) -> Seq<char> {
    "{\"Version\":\"2012-10-17\",\"Statement\":[{\"Sid\":\"AddPerm\",\"Effect\":\"Allow\",\"Principal\":\"*\",\"Action\":[\"s3:GetObject\"],\"Resource\":[\"arn:aws:s3:::"@
        + bucket + "/*\"]}]}"@
}

/// Writes the public-read policy document for the named container.
pub fn bucket_policy_json(bucket: &str) -> (r: String)
    ensures
        r@ == policy_json_of(bucket@),
{
    let mut r =
        "{\"Version\":\"2012-10-17\",\"Statement\":[{\"Sid\":\"AddPerm\",\"Effect\":\"Allow\",\"Principal\":\"*\",\"Action\":[\"s3:GetObject\"],\"Resource\":[\"arn:aws:s3:::".to_owned();
    r.append(bucket);
    r.append("/*\"]}]}");
    r
}

/// Classifies a container-creation outcome: created and already-owned both
/// count as success, so a re-run is safe; any other failure is fatal and
/// carries the service's message.
pub fn classify_create_outcome(outcome: &CreateBucketOutcome) -> (r: Result<(), UploadError>)
    ensures
        match outcome {
            CreateBucketOutcome::Created => r is Ok,
            CreateBucketOutcome::AlreadyOwnedByCaller => r is Ok,
            CreateBucketOutcome::Failed(m) => r matches Err(e) && e.message@
                == "Failed to create bucket: "@ + m@,
        },
{
    match outcome {
        CreateBucketOutcome::Created => Ok(()),
        CreateBucketOutcome::AlreadyOwnedByCaller => Ok(()),
        CreateBucketOutcome::Failed(m) => {
            let mut message = "Failed to create bucket: ".to_owned();
            message.append(m.as_str());
            Err(UploadError { message })
        },
    }
}

/// The error for one failed object write, with the service's message.
pub fn object_upload_error(detail: &str) -> (r: UploadError)
    ensures
        r.message@ == "Failed to upload file: "@ + detail@,
{
    let mut message = "Failed to upload file: ".to_owned();
    message.append(detail);
    UploadError { message }
}

/// The error for a rejected policy write, with the service's message.
pub fn policy_failure_error(detail: &str) -> (r: UploadError)
    ensures
        r.message@ == "Failed to set bucket policy: "@ + detail@,
{
    let mut message = "Failed to set bucket policy: ".to_owned();
    message.append(detail);
    UploadError { message }
}

/// The base URL of a container: its bucket and region spliced into the
/// service's public host name.
pub open spec fn base_url_of(bucket: Seq<char>, region: Seq<char>) -> Seq<char> {
    "https://"@ + bucket + ".s3-"@ + region + ".amazonaws.com"@
}

/// The object map after the publisher writes the given files over an
/// initial store: each file's contents under its base-name key, in input
/// order, later writes over earlier ones.
pub open spec fn objects_after_upload(
    initial: Map<Seq<char>, Seq<u8>>,
    files: Seq<FileEntry>,
) -> Map<Seq<char>, Seq<u8>>
    decreases files.len(),
{
    if files.len() == 0 {
        initial
    } else {
        objects_after_upload(
            initial.insert(base_name_spec(files.first().path@), files.first().body@),
            files.drop_first(),
        )
    }
}

/// The contents the last file with the given key would leave there, if any.
pub open spec fn last_body_for(files: Seq<FileEntry>, key: Seq<char>) -> Option<Seq<u8>>
    decreases files.len(),
{
    if files.len() == 0 {
        None
    } else {
        let rest = last_body_for(files.drop_first(), key);
        if rest is Some {
            rest
        } else if base_name_spec(files.first().path@) == key {
            Some(files.first().body@)
        } else {
            None
        }
    }
}

proof fn lemma_objects_after_upload_pointwise(
    initial: Map<Seq<char>, Seq<u8>>,
    files: Seq<FileEntry>,
    key: Seq<char>,
)
    ensures
        match last_body_for(files, key) {
            Some(v) => objects_after_upload(initial, files).dom().contains(key)
                && objects_after_upload(initial, files)[key] == v,
            None => (objects_after_upload(initial, files).dom().contains(key)
                <==> initial.dom().contains(key)) && (initial.dom().contains(key)
                ==> objects_after_upload(initial, files)[key] == initial[key]),
        },
    decreases files.len(),
{
    if files.len() > 0 {
        let stepped = initial.insert(base_name_spec(files.first().path@), files.first().body@);
        lemma_objects_after_upload_pointwise(stepped, files.drop_first(), key);
    }
}

/// Publishing the same file set twice leaves the container exactly as one
/// run leaves it: one object per distinct file name, holding the contents
/// of the last file carrying that name.
pub proof fn lemma_upload_idempotent(initial: Map<Seq<char>, Seq<u8>>, files: Seq<FileEntry>)
    ensures
        objects_after_upload(objects_after_upload(initial, files), files) == objects_after_upload(
            initial,
            files,
        ),
{
    let once = objects_after_upload(initial, files);
    let twice = objects_after_upload(once, files);
    assert forall|key: Seq<char>| #[trigger]
        twice.dom().contains(key) <==> once.dom().contains(key) by {
        lemma_objects_after_upload_pointwise(initial, files, key);
        lemma_objects_after_upload_pointwise(once, files, key);
    }
    assert forall|key: Seq<char>| once.dom().contains(key) implies #[trigger] twice[key]
        == once[key] by {
        lemma_objects_after_upload_pointwise(initial, files, key);
        lemma_objects_after_upload_pointwise(once, files, key);
    }
    assert(twice =~= once);
}

/// The publisher: a storage client bound to one region and one container
/// name.
pub struct S3Uploader<C: StorageClient> {
    pub client: C,
    pub region: String,
    pub bucket_name: String,
}

impl<C: StorageClient> S3Uploader<C> {
    /// Binds a client to a region and container name, rejecting a region
    /// the storage backend does not recognize.
    pub fn new(client: C, region: &str, bucket_name: &str) -> (r: Result<
        S3Uploader<C>,
        UploadError,
    >)
        ensures
            match r {
                Ok(u) => region_accepted(region@) && u.region@ == region@ && u.bucket_name@
                    == bucket_name@,
                Err(e) => !region_accepted(region@) && e.message@ == "Invalid region: "@
                    + region@,
            },
    {
        if region_is_known(region) {
            Ok(
                S3Uploader {
                    client,
                    region: region.to_owned(),
                    bucket_name: bucket_name.to_owned(),
                },
            )
        } else {
            let mut message = "Invalid region: ".to_owned();
            message.append(region);
            Err(UploadError { message })
        }
    }

    /// The public base URL of the container; no network call.
    pub fn base_url(&self) -> (r: String)
        ensures
            r@ == base_url_of(self.bucket_name@, self.region@),
    {
        let mut r = "https://".to_owned();
        r.append(self.bucket_name.as_str());
        r.append(".s3-");
        r.append(self.region.as_str());
        r.append(".amazonaws.com");
        r
    }

    /// The public URL of a file uploaded from the given path: the base URL
    /// and the file's own name, deliberately unescaped.
    pub fn url_for_file(&self, file: &str) -> (r: String)
        ensures
            r@ == base_url_of(self.bucket_name@, self.region@) + seq!['/'] + base_name_spec(
                file@,
            ),
    {
        proof {
            reveal_strlit("/");
            assert("/"@ =~= seq!['/']);
        }
        let mut r = self.base_url();
        r.append("/");
        let name = base_name(file);
        r.append(name.as_str());
        r
    }

    /// Ensures the container exists: asks the service to create it and
    /// classifies the outcome, downgrading already-owned to success.  An
    /// error is always the creation error, with the service's reason.
    fn create_bucket(&mut self) -> (r: Result<(), UploadError>)
        ensures
            final(self).region@ == old(self).region@,
            final(self).bucket_name@ == old(self).bucket_name@,
            r matches Err(e) ==> exists|reason: Seq<char>|
                e.message@ == "Failed to create bucket: "@ + reason,
    {
        let outcome = self.client.create_bucket(self.bucket_name.as_str(), self.region.as_str());
        classify_create_outcome(&outcome)
    }

    /// Attaches the public-read policy to the container; a failure here is
    /// fatal, since an unreadable container would silently break the feed.
    /// An error is always the policy error, with the service's reason.
    fn make_bucket_public(&mut self) -> (r: Result<(), UploadError>)
        ensures
            final(self).region@ == old(self).region@,
            final(self).bucket_name@ == old(self).bucket_name@,
            r matches Err(e) ==> exists|reason: Seq<char>|
                e.message@ == "Failed to set bucket policy: "@ + reason,
    {
        let policy = bucket_policy_json(self.bucket_name.as_str());
        match self.client.put_bucket_policy(self.bucket_name.as_str(), policy.as_str()) {
            Ok(_) => Ok(()),
            Err(detail) => Err(policy_failure_error(detail.as_str())),
        }
    }

    /// Writes each file, in input order, as an object keyed by its base
    /// name; the first failure aborts the remaining writes.  An empty set
    /// always succeeds; an error is always an object-write error, with the
    /// service's reason.
    #[verifier::loop_isolation(false)]
    fn upload_files(&mut self, files: &Vec<FileEntry>) -> (r: Result<(), UploadError>)
        ensures
            final(self).region@ == old(self).region@,
            final(self).bucket_name@ == old(self).bucket_name@,
            files@.len() == 0 ==> r is Ok,
            r matches Err(e) ==> exists|reason: Seq<char>|
                e.message@ == "Failed to upload file: "@ + reason,
    {
        let mut i: usize = 0;
        while i < files.len()
            invariant
                i <= files@.len(),
                self.region@ == old(self).region@,
                self.bucket_name@ == old(self).bucket_name@,
            decreases files@.len() - i,
        {
            let key = base_name(files[i].path.as_str());
            let outcome = self.client.put_object(
                self.bucket_name.as_str(),
                key.as_str(),
                files[i].body.as_slice(),
            );
            match outcome {
                Ok(_) => {},
                Err(detail) => {
                    return Err(object_upload_error(detail.as_str()));
                },
            }
            i = i + 1;
        }
        Ok(())
    }

    /// Publishes the given files: ensures the container, makes it public,
    /// then uploads every file, strictly in that order, stopping at the
    /// first fatal error.  Safe to re-run: an already-owned container
    /// counts as success and object writes are keyed by file name.  No
    /// error is swallowed: whatever the service answered, an error carries
    /// exactly one of the three steps' messages, with the service's reason.
    pub fn upload(&mut self, files: Vec<FileEntry>) -> (r: Result<(), UploadError>)
        ensures
            final(self).region@ == old(self).region@,
            final(self).bucket_name@ == old(self).bucket_name@,
            r matches Err(e) ==> ({
                ||| exists|reason: Seq<char>|
                    e.message@ == "Failed to create bucket: "@ + reason
                ||| exists|reason: Seq<char>|
                    e.message@ == "Failed to set bucket policy: "@ + reason
                ||| exists|reason: Seq<char>|
                    e.message@ == "Failed to upload file: "@ + reason
            }),
    {
        let mut state = UploadState::Idle;
        let step = self.create_bucket();
        state = advance(state, step.is_ok());
        match step {
            Ok(_) => {},
            Err(e) => {
                assert(state is Failed);
                return Err(e);
            },
        }
        assert(state is ContainerEnsured);
        let step = self.make_bucket_public();
        state = advance(state, step.is_ok());
        match step {
            Ok(_) => {},
            Err(e) => {
                assert(state is Failed);
                return Err(e);
            },
        }
        assert(state is PolicyPublic);
        let step = self.upload_files(&files);
        state = advance(state, step.is_ok());
        match step {
            Ok(_) => {},
            Err(e) => {
                assert(state is Failed);
                return Err(e);
            },
        }
        assert(state is Done);
        Ok(())
    }
}

} // verus!
