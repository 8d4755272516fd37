use vstd::prelude::*;

use crate::config::IOConfig;
use crate::error::{is_retryable_spec, Error};
use crate::router::{outcome_of, parse_url, route_spec, starts_with, SourceType};

verus! {

/// A half-open byte range `[start, end)` of an object.
#[derive(Debug, Clone, Copy, PartialEq, Eq, Structural)]
pub struct ByteRange {
    pub start: usize,
    pub end: usize,
}

/// The file formats a listing can be narrowed to.
#[derive(Debug, Clone, Copy, PartialEq, Eq, Structural)]
pub enum FileFormat {
    Parquet,
    Csv,
    Json,
}

/// What a listing reports of one file.
#[derive(Debug, Clone)]
pub struct FileMetadata {
    pub filepath: String,
    pub size: Option<u64>,
}

/// What a read needs to be issued again: the backend, the path as the caller
/// gave it, and the byte range.
#[derive(Debug, Clone)]
pub struct StreamingRetryParams {
    pub source: SourceType,
    pub input: String,
    pub range: Option<ByteRange>,
}

/// The result of a read: the chunks of its byte stream in order, each one
/// either bytes or the failure that ended the stream, and what is needed to
/// issue the read again.
pub struct GetResult {
    pub chunks: Vec<Result<Vec<u8>, Error>>,
    pub retry: Option<StreamingRetryParams>,
}

/// The operations every storage backend offers.
pub trait ObjectSource {
    fn get(&self, path: &str, range: Option<ByteRange>) -> Result<GetResult, Error>;

    fn put(&self, path: &str, data: Vec<u8>) -> Result<(), Error>;

    fn get_size(&self, path: &str) -> Result<usize, Error>;

    fn glob(
        &self,
        pattern: &str,
        fanout_limit: Option<usize>,
        page_size: Option<i32>,
        limit: Option<usize>,
        file_format: Option<FileFormat>,
    ) -> Result<Vec<FileMetadata>, Error>;
}

/// Builds the backend client for one kind of source from a configuration;
/// this may itself talk to the network, e.g. to find credentials.
pub trait SourceFactory<S> {
    fn make_source(&mut self, kind: SourceType, config: &IOConfig) -> Result<S, Error>;
}

/// The bytes of a stream: its chunks joined, up to the first failure, which
/// is then the outcome.
pub open spec fn collect_spec(chunks: Seq<Result<Vec<u8>, Error>>) -> Result<Seq<u8>, Error>
    decreases chunks.len(),
{
    if chunks.len() == 0 {
        Ok(Seq::empty())
    } else {
        match collect_spec(chunks.drop_last()) {
            Err(e) => Err(e),
            Ok(acc) => match chunks.last() {
                Ok(b) => Ok(acc + b@),
                Err(e) => Err(e),
            },
        }
    }
}

pub open spec fn bytes_view(r: Result<Vec<u8>, Error>) -> Result<Seq<u8>, Error> {
    match r {
        Ok(b) => Ok(b@),
        Err(e) => Err(e),
    }
}

/// The outcome of a read issued again after a transient failure.
pub open spec fn retried_outcome(again: Result<GetResult, Error>) -> Result<Seq<u8>, Error> {
    match again {
        Ok(g) => collect_spec(g.chunks@),
        Err(e) => Err(e),
    }
}

/// Once a stream has failed, every longer prefix fails the same way.
proof fn lemma_collect_failure_sticks(chunks: Seq<Result<Vec<u8>, Error>>, k: int, j: int)
    requires
        0 <= k <= j <= chunks.len(),
        collect_spec(chunks.take(k)) is Err,
    ensures
        collect_spec(chunks.take(j)) == collect_spec(chunks.take(k)),
    decreases j - k,
{
    if j > k {
        lemma_collect_failure_sticks(chunks, k, j - 1);
        assert(chunks.take(j).drop_last() == chunks.take(j - 1));
    }
}

fn append_bytes(acc: &mut Vec<u8>, b: &Vec<u8>)
    ensures
        final(acc)@ == old(acc)@ + b@,
{
    let mut i: usize = 0;
    while i < b.len()
        invariant
            i <= b@.len(),
            acc@ == old(acc)@ + b@.subrange(0, i as int),
        decreases b@.len() - i,
    {
        acc.push(b[i]);
        assert(b@.subrange(0, i + 1) == b@.subrange(0, i as int).push(b@[i as int]));
        i = i + 1;
    }
    assert(b@.subrange(0, b@.len() as int) == b@);
}

/// Drains a stream into one buffer, stopping at the first failure.
pub fn collect_chunks(stream: Vec<Result<Vec<u8>, Error>>) -> (r: Result<Vec<u8>, Error>)
    ensures
        bytes_view(r) == collect_spec(stream@),
{
    let ghost all = stream@;
    let mut chunks = stream;
    let mut acc: Vec<u8> = Vec::new();
    let mut i: usize = 0;
    assert(all.take(0).len() == 0);
    while i < chunks.len()
        invariant
            chunks@ == all,
            all == stream@,
            i <= all.len(),
            collect_spec(all.take(i as int)) == Ok::<Seq<u8>, Error>(acc@),
        decreases all.len() - i,
    {
        assert(all.take(i + 1).drop_last() == all.take(i as int));
        assert(all.take(i + 1).last() == all[i as int]);
        if chunks[i].is_err() {
            let failed = chunks.remove(i);
            proof {
                assert(failed == all[i as int]);
                assert(collect_spec(all.take(i + 1)) == Err::<Seq<u8>, Error>(failed->Err_0));
                lemma_collect_failure_sticks(all, i + 1, all.len() as int);
                assert(all.take(all.len() as int) == all);
                assert(collect_spec(all) == Err::<Seq<u8>, Error>(failed->Err_0));
            }
            match failed {
                Err(e) => {
                    return Err(e);
                },
                Ok(_) => {
                    return Ok(acc);
                },
            }
        }
        match &chunks[i] {
            Ok(b) => append_bytes(&mut acc, b),
            Err(_) => {},
        }
        i = i + 1;
    }
    assert(all.take(all.len() as int) == all);
    Ok(acc)
}

/// The outcome of a read that was issued again: the bytes of the new stream,
/// or the failure of the new read.
pub fn finish_retry(again: Result<GetResult, Error>) -> (r: Result<Vec<u8>, Error>)
    ensures
        bytes_view(r) == retried_outcome(again),
{
    match again {
        Ok(g) => collect_chunks(g.chunks),
        Err(e) => Err(e),
    }
}

/// The outcome of draining a stream that may be retried once: its bytes, or,
/// after a transient failure, the outcome of the read issued again (`again`);
/// any other failure is final.
pub open spec fn read_with_one_retry(
    first: Seq<Result<Vec<u8>, Error>>,
    again: Result<GetResult, Error>,
) -> Result<Seq<u8>, Error> {
    match collect_spec(first) {
        Ok(b) => Ok(b),
        Err(e) => if is_retryable_spec(e) {
            retried_outcome(again)
        } else {
            Err(e)
        },
    }
}

/// A stream that fails once with a transient error, and whose second read
/// delivers its bytes, yields those bytes: the caller never sees the first
/// failure. When the second read fails too, that failure is what the caller
/// sees.
pub proof fn lemma_one_retry(first: Seq<Result<Vec<u8>, Error>>, again: Result<GetResult, Error>)
    requires
        collect_spec(first) is Err,
        is_retryable_spec(collect_spec(first)->Err_0),
    ensures
        again is Ok && collect_spec(again->Ok_0.chunks@) is Ok ==> read_with_one_retry(first, again)
            == collect_spec(again->Ok_0.chunks@),
        again is Ok && collect_spec(again->Ok_0.chunks@) is Err ==> read_with_one_retry(first, again)
            == collect_spec(again->Ok_0.chunks@),
        again is Err ==> read_with_one_retry(first, again) == Err::<Seq<u8>, Error>(again->Err_0),
{
}

/// A failure that is not transient is never retried, whatever a second read
/// would give.
pub proof fn lemma_no_retry_on_permanent_failure(
    first: Seq<Result<Vec<u8>, Error>>,
    again: Result<GetResult, Error>,
)
    requires
        collect_spec(first) is Err,
        !is_retryable_spec(collect_spec(first)->Err_0),
    ensures
        read_with_one_retry(first, again) == collect_spec(first),
{
}

impl GetResult {
    /// A result holding the given stream, with nothing to retry it by.
    pub fn from_chunks(chunks: Vec<Result<Vec<u8>, Error>>) -> (r: GetResult)
        ensures
            r.chunks@ == chunks@,
            r.retry is None,
    {
        GetResult { chunks, retry: None }
    }

    /// The same result, to be retried with `params`.
    pub fn with_retry(self, params: StreamingRetryParams) -> (r: GetResult)
        ensures
            r.chunks@ == self.chunks@,
            r.retry == Some(params),
    {
        GetResult { chunks: self.chunks, retry: Some(params) }
    }

    /// Drains the stream into one buffer. When the stream fails and
    /// `retry_target` names a backend of `client`, the read is issued once
    /// more against that backend, with the same path and range, and the
    /// outcome of that second read (`finish_retry`) is returned; otherwise the
    /// first outcome is returned.
    pub fn bytes<S: ObjectSource, F: SourceFactory<S>>(self, client: &IOClient<S, F>) -> (r: Result<
        Vec<u8>,
        Error,
    >)
        ensures
            collect_spec(self.chunks@) is Ok ==> bytes_view(r) == collect_spec(self.chunks@),
            collect_spec(self.chunks@) is Err && !client.retries(
                collect_spec(self.chunks@)->Err_0,
                self.retry,
            ) ==> bytes_view(r) == collect_spec(self.chunks@),
    {
        let retry = self.retry;
        let first = collect_chunks(self.chunks);
        match first {
            Ok(b) => Ok(b),
            Err(e) => match client.retry_target(&e, &retry) {
                None => Err(e),
                Some(i) => {
                    let params = retry.unwrap();
                    let again = client.sources[i].1.get(params.input.as_str(), params.range);
                    finish_retry(again)
                },
            },
        }
    }
}

/// The backend clients built so far for one configuration, at most one for
/// each kind of source, and the factory that builds them.
pub struct IOClient<S, F> {
    pub sources: Vec<(SourceType, S)>,
    pub config: IOConfig,
    pub factory: F,
}

/// Whether routing `input` fails whatever the environment holds: it is not a
/// `~/` path and its URL does not route.
pub open spec fn unroutable(input: Seq<char>) -> bool {
    !starts_with(input, "~/"@) && !(route_spec(input) is Routed)
}

/// `r` is the router's refusal of `input`: the error that routing it gives.
pub open spec fn refused_by_router<T>(input: Seq<char>, r: Result<T, Error>) -> bool {
    r is Err && outcome_of(Err::<(SourceType, String), Error>(r->Err_0)) == route_spec(input)
}

/// The outcome of a download once the read has been settled.
pub open spec fn download_outcome(fetched: Result<Seq<u8>, Error>, raise_error_on_failure: bool) -> Result<
    Option<Seq<u8>>,
    Error,
> {
    match fetched {
        Ok(b) => Ok(Some(b)),
        Err(e) => if raise_error_on_failure {
            Err(e)
        } else {
            Ok(None)
        },
    }
}

pub open spec fn opt_bytes_view(r: Result<Option<Vec<u8>>, Error>) -> Result<Option<Seq<u8>>, Error> {
    match r {
        Ok(Some(b)) => Ok(Some(b@)),
        Ok(None) => Ok(None),
        Err(e) => Err(e),
    }
}

/// A download's result from the outcome of its read: the bytes, or on failure
/// either the error (when raising) or nothing.
pub fn settle_download(fetched: Result<Vec<u8>, Error>, raise_error_on_failure: bool) -> (r: Result<
    Option<Vec<u8>>,
    Error,
>)
    ensures
        opt_bytes_view(r) == download_outcome(bytes_view(fetched), raise_error_on_failure),
{
    match fetched {
        Ok(bytes) => Ok(Some(bytes)),
        Err(err) => if raise_error_on_failure {
            Err(err)
        } else {
            Ok(None)
        },
    }
}

/// An upload's result from the outcome of its write: the destination, or the
/// error.
pub fn settle_upload(written: Result<(), Error>, dest: String) -> (r: Result<Option<String>, Error>)
    ensures
        written is Ok ==> r is Ok && r->Ok_0 is Some && r->Ok_0->Some_0@ == dest@,
        written is Err ==> r == Err::<Option<String>, Error>(written->Err_0),
{
    match written {
        Ok(()) => Ok(Some(dest)),
        Err(err) => Err(err),
    }
}

impl<S: ObjectSource, F: SourceFactory<S>> IOClient<S, F> {
    pub open spec fn kinds(&self) -> Seq<SourceType> {
        self.sources@.map_values(|p: (SourceType, S)| p.0)
    }

    pub open spec fn has_kind(&self, kind: SourceType) -> bool {
        self.kinds().contains(kind)
    }

    /// At most one backend client for each kind.
    pub open spec fn wf(&self) -> bool {
        self.kinds().no_duplicates()
    }

    /// A client for `config` with no backend client built yet.
    pub fn new(config: IOConfig, factory: F) -> (r: IOClient<S, F>)
        ensures
            r.wf(),
            r.sources@.len() == 0,
            r.config@ == config@,
            r.factory == factory,
    {
        IOClient { sources: Vec::new(), config, factory }
    }

    /// Where the backend client of `kind` is kept, if one was built.
    pub fn find_source(&self, kind: SourceType) -> (r: Option<usize>)
        ensures
            r is Some <==> self.has_kind(kind),
            r is Some ==> r->Some_0 < self.sources@.len() && self.sources@[r->Some_0 as int].0
                == kind,
    {
        let mut i: usize = 0;
        while i < self.sources.len()
            invariant
                i <= self.sources@.len(),
                forall|j: int| 0 <= j < i ==> self.sources@[j].0 != kind,
            decreases self.sources@.len() - i,
        {
            if self.sources[i].0 == kind {
                assert(self.kinds()[i as int] == kind);
                return Some(i);
            }
            i = i + 1;
        }
        proof {
            if self.has_kind(kind) {
                let j = choose|j: int| 0 <= j < self.kinds().len() && self.kinds()[j] == kind;
                assert(self.sources@[j].0 == kind);
            }
        }
        None
    }

    /// Whether a stream that failed with `failure` is read once more: the
    /// failure is transient, the result carries retry parameters, and this
    /// client holds their backend.
    pub open spec fn retries(&self, failure: Error, retry: Option<StreamingRetryParams>) -> bool {
        is_retryable_spec(failure) && retry is Some && self.has_kind(retry->Some_0.source)
    }

    /// Where the backend that reads a failed stream again is kept, exactly
    /// when `retries` holds.
    pub fn retry_target(&self, failure: &Error, retry: &Option<StreamingRetryParams>) -> (r: Option<
        usize,
    >)
        ensures
            r is Some <==> self.retries(*failure, *retry),
            r is Some ==> r->Some_0 < self.sources@.len() && self.sources@[r->Some_0 as int].0
                == retry->Some_0.source,
    {
        if !failure.is_retryable() {
            return None;
        }
        match retry {
            None => None,
            Some(params) => self.find_source(params.source),
        }
    }

    /// The backend client of `kind`, built by the factory on first use and
    /// reused after that: once a kind has a client, asking for it again builds
    /// nothing and changes nothing.
    pub fn get_source(&mut self, kind: SourceType) -> (r: Result<usize, Error>)
        requires
            old(self).wf(),
        ensures
            final(self).wf(),
            final(self).config == old(self).config,
            r is Ok ==> r->Ok_0 < final(self).sources@.len() && final(self).sources@[r->Ok_0 as int].0
                == kind,
            old(self).has_kind(kind) ==> r is Ok && final(self).sources@ == old(self).sources@
                && final(self).factory == old(self).factory,
            !old(self).has_kind(kind) && r is Ok ==> final(self).sources@.len() == old(self).sources@.len() + 1 && final(self).sources@.drop_last() == old(self).sources@
                && r->Ok_0 == old(self).sources@.len(),
            !old(self).has_kind(kind) && r is Err ==> final(self).sources@ == old(self).sources@,
    {
        match self.find_source(kind) {
            Some(i) => Ok(i),
            None => {
                let made = self.factory.make_source(kind, &self.config);
                match made {
                    Ok(source) => {
                        let ghost before = self.sources@;
                        self.sources.push((kind, source));
                        proof {
                            assert(self.sources@.drop_last() == before);
                            assert(self.kinds() == before.map_values(|p: (SourceType, S)| p.0).push(
                                kind,
                            ));
                        }
                        Ok(self.sources.len() - 1)
                    },
                    Err(e) => Err(e),
                }
            },
        }
    }

    /// Routes `input` and hands the listing to its backend.
    pub fn glob(
        &mut self,
        input: String,
        fanout_limit: Option<usize>,
        page_size: Option<i32>,
        limit: Option<usize>,
        file_format: Option<FileFormat>,
    ) -> (r: Result<Vec<FileMetadata>, Error>)
        requires
            old(self).wf(),
        ensures
            final(self).wf(),
            unroutable(input@) ==> refused_by_router(input@, r) && *final(self) == *old(self),
            r is Ok && !starts_with(input@, "~/"@) ==> route_spec(input@) is Routed && final(self).has_kind(route_spec(input@)->Routed_0),
    {
        let routed = parse_url(input.as_str());
        let (kind, _) = match routed {
            Ok(p) => p,
            Err(e) => return Err(e),
        };
        let i = self.get_source(kind)?;
        proof {
            assert(self.kinds()[i as int] == kind);
        }
        self.sources[i].1.glob(input.as_str(), fanout_limit, page_size, limit, file_format)
    }

    /// Routes `input`, reads it from its backend, and attaches what is needed
    /// to issue the read again if the stream later fails.
    pub fn single_url_get(&mut self, input: String, range: Option<ByteRange>) -> (r: Result<
        GetResult,
        Error,
    >)
        requires
            old(self).wf(),
        ensures
            final(self).wf(),
            unroutable(input@) ==> refused_by_router(input@, r) && *final(self) == *old(self),
            r is Ok ==> r->Ok_0.retry is Some && r->Ok_0.retry->Some_0.input@ == input@
                && r->Ok_0.retry->Some_0.range == range && final(self).has_kind(
                r->Ok_0.retry->Some_0.source,
            ),
            r is Ok && !starts_with(input@, "~/"@) ==> route_spec(input@) is Routed && route_spec(
                input@,
            )->Routed_0 == r->Ok_0.retry->Some_0.source,
    {
        let routed = parse_url(input.as_str());
        let (kind, path) = match routed {
            Ok(p) => p,
            Err(e) => return Err(e),
        };
        let i = self.get_source(kind)?;
        proof {
            assert(self.kinds()[i as int] == kind);
        }
        let got = self.sources[i].1.get(path.as_str(), range)?;
        Ok(got.with_retry(StreamingRetryParams { source: kind, input, range }))
    }

    /// Routes `dest` and writes `data` there. Writes are not retried.
    pub fn single_url_put(&mut self, dest: &str, data: Vec<u8>) -> (r: Result<(), Error>)
        requires
            old(self).wf(),
        ensures
            final(self).wf(),
            unroutable(dest@) ==> refused_by_router(dest@, r) && *final(self) == *old(self),
            r is Ok && !starts_with(dest@, "~/"@) ==> route_spec(dest@) is Routed && final(self).has_kind(route_spec(dest@)->Routed_0),
    {
        let routed = parse_url(dest);
        let (kind, path) = match routed {
            Ok(p) => p,
            Err(e) => return Err(e),
        };
        let i = self.get_source(kind)?;
        proof {
            assert(self.kinds()[i as int] == kind);
        }
        self.sources[i].1.put(path.as_str(), data)
    }

    /// Routes `input` and asks its backend for the object's size.
    pub fn single_url_get_size(&mut self, input: String) -> (r: Result<usize, Error>)
        requires
            old(self).wf(),
        ensures
            final(self).wf(),
            unroutable(input@) ==> refused_by_router(input@, r) && *final(self) == *old(self),
            r is Ok && !starts_with(input@, "~/"@) ==> route_spec(input@) is Routed && final(self).has_kind(route_spec(input@)->Routed_0),
    {
        let routed = parse_url(input.as_str());
        let (kind, path) = match routed {
            Ok(p) => p,
            Err(e) => return Err(e),
        };
        let i = self.get_source(kind)?;
        proof {
            assert(self.kinds()[i as int] == kind);
        }
        self.sources[i].1.get_size(path.as_str())
    }

    /// Downloads one entry of a batch. No path means no result and no work;
    /// a failed read gives the error when `raise_error_on_failure` holds and
    /// no result otherwise. `index` only locates the entry for diagnostics.
    pub fn single_url_download(
        &mut self,
        index: usize,
        input: Option<String>,
        raise_error_on_failure: bool,
    ) -> (r: Result<Option<Vec<u8>>, Error>)
        requires
            old(self).wf(),
        ensures
            final(self).wf(),
            input is None ==> (r matches Ok(None)) && *final(self) == *old(self),
            !raise_error_on_failure ==> r is Ok,
            r is Err ==> raise_error_on_failure,
            input is Some && unroutable(input->Some_0@) ==> *final(self) == *old(self) && (
            if raise_error_on_failure {
                refused_by_router(input->Some_0@, r)
            } else {
                r matches Ok(None)
            }),
    {
        match input {
            None => Ok(None),
            Some(input) => {
                let fetched = match self.single_url_get(input, None) {
                    Ok(res) => res.bytes(self),
                    Err(err) => Err(err),
                };
                settle_download(fetched, raise_error_on_failure)
            },
        }
    }

    /// Uploads one entry of a batch. No data means no result and no work; on
    /// success the destination is returned, and a failure is always passed on.
    pub fn single_url_upload(&mut self, index: usize, dest: String, data: Option<Vec<u8>>) -> (r:
        Result<Option<String>, Error>)
        requires
            old(self).wf(),
        ensures
            final(self).wf(),
            data is None ==> (r matches Ok(None)) && *final(self) == *old(self),
            data is Some && r is Ok ==> r->Ok_0 is Some && r->Ok_0->Some_0@ == dest@,
            data is Some && unroutable(dest@) ==> refused_by_router(dest@, r) && *final(self) == *old(self),
    {
        match data {
            None => Ok(None),
            Some(data) => {
                let written = self.single_url_put(dest.as_str(), data);
                settle_upload(written, dest)
            },
        }
    }
}

} // verus!
