//! Structured platform-error information and its two GraphQL wire forms.
//!
//! `PlatformErrorInfo` is the canonical client representation; the response
//! form arrives as a list of key/value entries, and the input form is sent as
//! a list ordered by key.
use crate::string_map::{map_of_pairs, pairs_view, sorted_keys, PairView, StringMap};
use vstd::prelude::*;

verus! {

/// The error codes the platform reports.
#[derive(Clone, Copy, Debug, PartialEq, Eq, Structural)]
pub enum PlatformErrorCode {
    /// A resource the request needs is not available.
    ResourceUnavailable,
    /// A code this client does not know.
    Unknown,
}

/// Canonical client representation of structured platform-error information.
///
/// GraphQL exposes separate output and input object types for this data. This
/// type provides the stable representation used between those wire boundaries.
pub struct PlatformErrorInfo {
    pub code: PlatformErrorCode,
    pub retryable: bool,
    pub metadata: StringMap,
    pub debug: Option<String>,
}

/// GraphQL output-side representation of [`PlatformErrorInfo`].
pub struct PlatformErrorInfoResponse {
    pub code: PlatformErrorCode,
    pub retryable: bool,
    pub metadata: Vec<PlatformErrorMetadataResponse>,
    pub debug: Option<String>,
}

/// One metadata entry of a response.
pub struct PlatformErrorMetadataResponse {
    pub key: String,
    pub value: String,
}

/// GraphQL input-side representation of [`PlatformErrorInfo`].
pub struct PlatformErrorInput {
    pub code: PlatformErrorCode,
    pub retryable: bool,
    pub metadata: Vec<PlatformErrorMetadataInput>,
    /// Left out of the serialized input when absent.
    pub debug: Option<String>,
}

/// One metadata entry of an input.
pub struct PlatformErrorMetadataInput {
    pub key: String,
    pub value: String,
}

/// The entries of a response, as character-sequence pairs.
pub open spec fn response_pairs(m: Seq<PlatformErrorMetadataResponse>) -> Seq<PairView> {
    m.map_values(|e: PlatformErrorMetadataResponse| (e.key@, e.value@))
}

/// The entries of an input, as character-sequence pairs.
pub open spec fn input_pairs(m: Seq<PlatformErrorMetadataInput>) -> Seq<PairView> {
    m.map_values(|e: PlatformErrorMetadataInput| (e.key@, e.value@))
}

impl PlatformErrorInfo {
    /// Information with the given code and retryability, no metadata and no
    /// debug text.
    pub fn new(code: PlatformErrorCode, retryable: bool) -> (r: Self)
        ensures
            r.code == code,
            r.retryable == retryable,
            r.metadata@ == Map::<Seq<char>, Seq<char>>::empty(),
            r.debug.is_none(),
    {
        PlatformErrorInfo { code, retryable, metadata: StringMap::new(), debug: None }
    }

    /// Decodes a response. The metadata entries are inserted in the order
    /// they arrive, so of two entries with one key the later one wins.
    pub fn from_response(response: PlatformErrorInfoResponse) -> (r: Self)
        ensures
            r.code == response.code,
            r.retryable == response.retryable,
            r.metadata@ == map_of_pairs(response_pairs(response.metadata@)),
            r.debug == response.debug,
    {
        let PlatformErrorInfoResponse { code, retryable, metadata: entries, debug } = response;
        let ghost all = response_pairs(entries@);
        let mut metadata = StringMap::new();
        let mut n: usize = 0;
        while n < entries.len()
            invariant
                all == response_pairs(entries@),
                n <= entries.len(),
                metadata@ == map_of_pairs(all.take(n as int)),
            decreases entries.len() - n,
        {
            let key = entries[n].key.clone();
            let value = entries[n].value.clone();
            proof {
                assert(all.take(n + 1).drop_last() =~= all.take(n as int));
                assert(all[n as int] == (key@, value@));
            }
            metadata.insert(key, value);
            n = n + 1;
        }
        assert(all.take(n as int) =~= all);
        PlatformErrorInfo { code, retryable, metadata, debug }
    }
}

impl Clone for PlatformErrorInfo {
    fn clone(&self) -> (r: Self)
        ensures
            r.code == self.code,
            r.retryable == self.retryable,
            r.metadata@ == self.metadata@,
            r.metadata.pairs() == self.metadata.pairs(),
            r.debug == self.debug,
    {
        let debug = match &self.debug {
            Some(d) => Some(d.clone()),
            None => None,
        };
        PlatformErrorInfo {
            code: self.code,
            retryable: self.retryable,
            metadata: self.metadata.clone(),
            debug,
        }
    }
}

impl PlatformErrorInput {
    /// Encodes information for sending: one entry per key, in increasing key
    /// order.
    pub fn from_info(info: PlatformErrorInfo) -> (r: Self)
        ensures
            r.code == info.code,
            r.retryable == info.retryable,
            input_pairs(r.metadata@) == info.metadata.pairs(),
            sorted_keys(input_pairs(r.metadata@)),
            map_of_pairs(input_pairs(r.metadata@)) == info.metadata@,
            r.debug == info.debug,
    {
        let PlatformErrorInfo { code, retryable, metadata, debug } = info;
        let entries = metadata.entries();
        let ghost p = metadata.pairs();
        let mut out: Vec<PlatformErrorMetadataInput> = Vec::new();
        let mut i: usize = 0;
        while i < entries.len()
            invariant
                pairs_view(entries@) == p,
                i <= entries.len(),
                input_pairs(out@) == p.take(i as int),
            decreases entries.len() - i,
        {
            let key = entries[i].0.clone();
            let value = entries[i].1.clone();
            let ghost prev = out@;
            assert(input_pairs(prev).len() == prev.len());
            assert(prev.len() == i);
            assert(p[i as int] == (key@, value@));
            out.push(PlatformErrorMetadataInput { key, value });
            proof {
                assert(out@[i as int].key@ == key@);
                assert(input_pairs(out@)[i as int] == p[i as int]);
                assert(input_pairs(out@) =~= p.take(i + 1));
            }
            i = i + 1;
        }
        assert(p.take(i as int) =~= p);
        PlatformErrorInput { code, retryable, metadata: out, debug }
    }
}

} // verus!
