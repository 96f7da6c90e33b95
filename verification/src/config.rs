//! Pipeline configuration, loaded once at startup and passed in
//! explicitly — the pipeline reads no global state at request time.

use vstd::prelude::*;
use vstd::string::{StrSliceExecFns, StringExecFns};

verus! {

/// Everything the publish pipeline needs to know. Store credentials,
/// region and endpoint belong to the object store client that the
/// surrounding application constructs; they never enter the pipeline.
pub struct PipelineConfig {
    /// Host under which stored objects are publicly readable, without
    /// a scheme; public URLs are `https://<bucket>.<host>/<key>`.
    pub bucket_public_host: String,
    /// Bucket objects are uploaded into.
    pub bucket_name: String,
    /// Largest accepted payload, in bytes; anything larger is rejected
    /// before any decode work.
    pub max_payload_bytes: usize,
    /// Lossy re-encoding quality, clamped into 0..=100 at load time.
    pub quality: u8,
    /// How many feed rows one page pulls; read by the feed
    /// collaborators, carried here so configuration loads in one place.
    pub memes_pull_limit: i64,
}

impl PipelineConfig {
    /// Quality was clamped when the configuration was built.
    pub open spec fn wf(self) -> bool {
        self.quality <= 100
    }

    /// Build a configuration, clamping the quality into 0..=100.
    pub fn new(
        bucket_public_host: String,
        bucket_name: String,
        max_payload_bytes: usize,
        quality: u8,
        memes_pull_limit: i64,
    ) -> (c: Self)
        ensures
            c.wf(),
            c.bucket_public_host@ == bucket_public_host@,
            c.bucket_name@ == bucket_name@,
            c.max_payload_bytes == max_payload_bytes,
            c.quality == if quality > 100 {
                100u8
            } else {
                quality
            },
            c.memes_pull_limit == memes_pull_limit,
    {
        let q: u8 = if quality > 100 {
            100
        } else {
            quality
        };
        PipelineConfig {
            bucket_public_host,
            bucket_name,
            max_payload_bytes,
            quality: q,
            memes_pull_limit,
        }
    }
}

/// The public host hidden in a configured bucket endpoint: the
/// endpoint with its mandatory `https://` scheme removed, or nothing
/// when the scheme is missing and the configuration must be refused.
pub open spec fn public_host_spec(endpoint: Seq<char>) -> Option<Seq<char>> {
    if endpoint.len() >= 8 && endpoint.subrange(0, 8) == "https://"@ {
        Option::Some(endpoint.subrange(8, endpoint.len() as int))
    } else {
        Option::None
    }
}

/// Derive the public host from a bucket endpoint of the shape
/// `https://<host>`.
pub fn public_host_of_endpoint(endpoint: &str) -> (r: Option<String>)
    ensures
        r matches Some(h) ==> public_host_spec(endpoint@) == Option::Some(h@),
        r is None ==> public_host_spec(endpoint@) is None,
{
    proof {
        reveal_strlit("https://");
    }
    let n: usize = endpoint.unicode_len();
    if n < 8 {
        return None;
    }
    if endpoint.get_char(0) != 'h' || endpoint.get_char(1) != 't' || endpoint.get_char(2) != 't'
        || endpoint.get_char(3) != 'p' || endpoint.get_char(4) != 's' || endpoint.get_char(5)
        != ':' || endpoint.get_char(6) != '/' || endpoint.get_char(7) != '/' {
        proof {
            assert(endpoint@.subrange(0, 8) != "https://"@) by {
                assert(endpoint@.subrange(0, 8)[0] == endpoint@[0]);
                assert(endpoint@.subrange(0, 8)[1] == endpoint@[1]);
                assert(endpoint@.subrange(0, 8)[2] == endpoint@[2]);
                assert(endpoint@.subrange(0, 8)[3] == endpoint@[3]);
                assert(endpoint@.subrange(0, 8)[4] == endpoint@[4]);
                assert(endpoint@.subrange(0, 8)[5] == endpoint@[5]);
                assert(endpoint@.subrange(0, 8)[6] == endpoint@[6]);
                assert(endpoint@.subrange(0, 8)[7] == endpoint@[7]);
            }
        }
        return None;
    }
    let tail = endpoint.substring_char(8, n);
    proof {
        assert(endpoint@.subrange(0, 8) =~= "https://"@);
    }
    Some(String::from_str(tail))
}

} // verus!
