use std::cell::{Cell, RefCell};
use std::collections::HashMap;
use std::rc::Rc;

use daft_io::client::{
    collect_chunks, finish_retry, settle_download, settle_upload, ByteRange, FileFormat, FileMetadata,
    GetResult, IOClient, ObjectSource, SourceFactory, StreamingRetryParams,
};
use daft_io::config::IOConfig;
use daft_io::error::Error;
use daft_io::router::SourceType;

/// Shared state of the in-memory backends, so the test can look inside.
#[derive(Default)]
struct Store {
    objects: RefCell<HashMap<String, Vec<u8>>>,
    calls: Cell<usize>,
    /// Read failures still to inject into streams, each with its kind.
    stream_failures: RefCell<Vec<Error>>,
    fail_open: Cell<bool>,
    fail_put: Cell<bool>,
}

struct MemSource {
    store: Rc<Store>,
}

impl ObjectSource for MemSource {
    fn get(&self, path: &str, range: Option<ByteRange>) -> Result<GetResult, Error> {
        self.store.calls.set(self.store.calls.get() + 1);
        if self.store.fail_open.get() {
            return Err(Error::NotFound { path: path.to_string(), source: "missing".to_string() });
        }
        let data = match self.store.objects.borrow().get(path) {
            Some(d) => d.clone(),
            None => return Err(Error::NotFound { path: path.to_string(), source: "missing".to_string() }),
        };
        let data = match range {
            Some(r) => data[r.start..r.end].to_vec(),
            None => data,
        };
        let half = data.len() / 2;
        let mut chunks = vec![Ok(data[..half].to_vec())];
        let mut failures = self.store.stream_failures.borrow_mut();
        if failures.is_empty() {
            chunks.push(Ok(data[half..].to_vec()));
        } else {
            chunks.push(Err(failures.remove(0)));
        }
        Ok(GetResult::from_chunks(chunks))
    }

    fn put(&self, path: &str, data: Vec<u8>) -> Result<(), Error> {
        self.store.calls.set(self.store.calls.get() + 1);
        if self.store.fail_put.get() {
            return Err(Error::UnableToWriteToFile { path: path.to_string(), source: "disk full".to_string() });
        }
        self.store.objects.borrow_mut().insert(path.to_string(), data);
        Ok(())
    }

    fn get_size(&self, path: &str) -> Result<usize, Error> {
        self.store.calls.set(self.store.calls.get() + 1);
        match self.store.objects.borrow().get(path) {
            Some(d) => Ok(d.len()),
            None => Err(Error::UnableToDetermineSize { path: path.to_string() }),
        }
    }

    fn glob(
        &self,
        pattern: &str,
        _fanout_limit: Option<usize>,
        _page_size: Option<i32>,
        limit: Option<usize>,
        _file_format: Option<FileFormat>,
    ) -> Result<Vec<FileMetadata>, Error> {
        self.store.calls.set(self.store.calls.get() + 1);
        let prefix = pattern.trim_end_matches('*');
        let mut out: Vec<FileMetadata> = self
            .store
            .objects
            .borrow()
            .iter()
            .filter(|(k, _)| k.starts_with(prefix))
            .map(|(k, v)| FileMetadata { filepath: k.clone(), size: Some(v.len() as u64) })
            .collect();
        out.sort_by(|a, b| a.filepath.cmp(&b.filepath));
        if let Some(n) = limit {
            out.truncate(n);
        }
        Ok(out)
    }
}

struct CountingFactory {
    store: Rc<Store>,
    built: Rc<Cell<usize>>,
    fail: bool,
}

impl SourceFactory<MemSource> for CountingFactory {
    fn make_source(&mut self, kind: SourceType, _config: &IOConfig) -> Result<MemSource, Error> {
        self.built.set(self.built.get() + 1);
        if self.fail {
            return Err(Error::UnableToCreateClient { store: kind, source: "no credentials".to_string() });
        }
        Ok(MemSource { store: self.store.clone() })
    }
}

fn client(fail: bool) -> (IOClient<MemSource, CountingFactory>, Rc<Store>, Rc<Cell<usize>>) {
    let store = Rc::new(Store::default());
    let built = Rc::new(Cell::new(0));
    let factory = CountingFactory { store: store.clone(), built: built.clone(), fail };
    (IOClient::new(IOConfig::new(), factory), store, built)
}

fn read_timeout() -> Error {
    Error::ReadTimeout { path: "s3://b/k".to_string(), source: "slow".to_string() }
}

#[test]
fn backend_is_built_once_per_kind() {
    let (mut c, _store, built) = client(false);
    for _ in 0..8 {
        let i = c.get_source(SourceType::S3).unwrap();
        assert_eq!(c.sources[i].0, SourceType::S3);
    }
    assert_eq!(built.get(), 1);
    c.get_source(SourceType::GCS).unwrap();
    c.get_source(SourceType::GCS).unwrap();
    assert_eq!(built.get(), 2);
    assert_eq!(c.sources.len(), 2);
    assert_eq!(c.find_source(SourceType::Http), None);
}

#[test]
fn failed_construction_is_not_cached() {
    let (mut c, _store, built) = client(true);
    assert!(matches!(c.get_source(SourceType::AzureBlob), Err(Error::UnableToCreateClient { .. })));
    assert!(c.get_source(SourceType::AzureBlob).is_err());
    assert_eq!(built.get(), 2);
    assert!(c.sources.is_empty());
}

#[test]
fn put_then_get_returns_the_same_bytes() {
    let (mut c, _store, _) = client(false);
    let data = b"hello object store".to_vec();
    c.single_url_put("s3://bucket/key", data.clone()).unwrap();
    let got = c.single_url_get("s3://bucket/key".to_string(), None).unwrap();
    assert_eq!(got.bytes(&c).unwrap(), data);
    assert_eq!(c.single_url_get_size("s3://bucket/key".to_string()).unwrap(), data.len());
}

#[test]
fn ranged_get_reads_the_range() {
    let (mut c, _store, _) = client(false);
    c.single_url_put("gs://b/k", b"0123456789".to_vec()).unwrap();
    let got = c.single_url_get("gs://b/k".to_string(), Some(ByteRange { start: 2, end: 6 })).unwrap();
    let params = got.retry.clone().unwrap();
    assert_eq!(params.source, SourceType::GCS);
    assert_eq!(params.input, "gs://b/k");
    assert_eq!(params.range, Some(ByteRange { start: 2, end: 6 }));
    assert_eq!(got.bytes(&c).unwrap(), b"2345".to_vec());
}

#[test]
fn get_size_of_missing_object_fails() {
    let (mut c, _store, _) = client(false);
    assert!(matches!(
        c.single_url_get_size("s3://b/none".to_string()),
        Err(Error::UnableToDetermineSize { .. })
    ));
}

#[test]
fn unroutable_paths_fail_before_any_backend_work() {
    let (mut c, store, built) = client(false);
    assert!(matches!(c.single_url_put("ftp://x", vec![1]), Err(Error::NotImplementedSource { .. })));
    assert!(c.single_url_get("ftp://x".to_string(), None).is_err());
    assert!(c.glob("ftp://x/*".to_string(), None, None, None, None).is_err());
    assert_eq!(built.get(), 0);
    assert_eq!(store.calls.get(), 0);
}

#[test]
fn glob_is_delegated() {
    let (mut c, _store, _) = client(false);
    c.single_url_put("s3://b/a.parquet", vec![1, 2]).unwrap();
    c.single_url_put("s3://b/b.parquet", vec![3]).unwrap();
    c.single_url_put("s3://c/z.parquet", vec![4]).unwrap();
    let files = c.glob("s3://b/*".to_string(), None, Some(100), None, Some(FileFormat::Parquet)).unwrap();
    let names: Vec<String> = files.iter().map(|f| f.filepath.clone()).collect();
    assert_eq!(names, vec!["s3://b/a.parquet".to_string(), "s3://b/b.parquet".to_string()]);
    assert_eq!(files[0].size, Some(2));
    let limited = c.glob("s3://b/*".to_string(), None, None, Some(1), None).unwrap();
    assert_eq!(limited.len(), 1);
}

#[test]
fn transient_stream_failure_is_retried_once() {
    let (mut c, store, _) = client(false);
    c.single_url_put("s3://b/k", b"abcdef".to_vec()).unwrap();
    store.stream_failures.borrow_mut().push(read_timeout());
    let got = c.single_url_get("s3://b/k".to_string(), None).unwrap();
    let before = store.calls.get();
    assert_eq!(got.bytes(&c).unwrap(), b"abcdef".to_vec());
    assert_eq!(store.calls.get(), before + 1);
}

#[test]
fn two_transient_failures_surface() {
    let (mut c, store, _) = client(false);
    c.single_url_put("s3://b/k", b"abcdef".to_vec()).unwrap();
    store.stream_failures.borrow_mut().push(read_timeout());
    store.stream_failures.borrow_mut().push(Error::SocketError { path: "s3://b/k".to_string(), source: "reset".to_string() });
    let got = c.single_url_get("s3://b/k".to_string(), None).unwrap();
    assert!(matches!(got.bytes(&c), Err(Error::SocketError { .. })));
}

#[test]
fn permanent_stream_failure_is_not_retried() {
    let (mut c, store, _) = client(false);
    c.single_url_put("s3://b/k", b"abcdef".to_vec()).unwrap();
    store.stream_failures.borrow_mut().push(Error::Unauthorized {
        store: SourceType::S3,
        path: "s3://b/k".to_string(),
        source: "denied".to_string(),
    });
    let got = c.single_url_get("s3://b/k".to_string(), None).unwrap();
    let before = store.calls.get();
    assert!(matches!(got.bytes(&c), Err(Error::Unauthorized { .. })));
    assert_eq!(store.calls.get(), before);
}

#[test]
fn stream_without_retry_parameters_is_not_retried() {
    let (c, _store, _) = client(false);
    let g = GetResult::from_chunks(vec![Ok(vec![1]), Err(read_timeout())]);
    assert!(matches!(g.bytes(&c), Err(Error::ReadTimeout { .. })));
}

#[test]
fn download_of_nothing_does_nothing() {
    let (mut c, store, built) = client(false);
    assert_eq!(c.single_url_download(0, None, true).unwrap(), None);
    assert_eq!(c.single_url_download(1, None, false).unwrap(), None);
    assert_eq!(store.calls.get(), 0);
    assert_eq!(built.get(), 0);
}

#[test]
fn failed_download_becomes_null_or_error() {
    let (mut c, store, _) = client(false);
    store.fail_open.set(true);
    assert_eq!(c.single_url_download(3, Some("s3://b/k".to_string()), false).unwrap(), None);
    assert!(matches!(
        c.single_url_download(3, Some("s3://b/k".to_string()), true),
        Err(Error::NotFound { .. })
    ));
    assert_eq!(c.single_url_download(4, Some("ftp://x".to_string()), false).unwrap(), None);
    assert!(c.single_url_download(4, Some("ftp://x".to_string()), true).is_err());
}

#[test]
fn successful_download_returns_bytes() {
    let (mut c, _store, _) = client(false);
    c.single_url_put("hf://d/x", vec![9, 8, 7]).unwrap();
    assert_eq!(c.single_url_download(0, Some("hf://d/x".to_string()), true).unwrap(), Some(vec![9, 8, 7]));
}

#[test]
fn upload_of_nothing_does_nothing() {
    let (mut c, store, built) = client(false);
    assert_eq!(c.single_url_upload(0, "s3://b/k".to_string(), None).unwrap(), None);
    assert_eq!(store.calls.get(), 0);
    assert_eq!(built.get(), 0);
}

#[test]
fn upload_returns_destination_or_error() {
    let (mut c, store, _) = client(false);
    assert_eq!(
        c.single_url_upload(0, "s3://b/k".to_string(), Some(vec![1, 2])).unwrap(),
        Some("s3://b/k".to_string())
    );
    assert_eq!(store.objects.borrow().get("s3://b/k"), Some(&vec![1, 2]));
    store.fail_put.set(true);
    assert!(matches!(
        c.single_url_upload(1, "s3://b/k".to_string(), Some(vec![3])),
        Err(Error::UnableToWriteToFile { .. })
    ));
}

#[test]
fn chunks_are_joined_until_a_failure() {
    assert_eq!(collect_chunks(vec![Ok(vec![1, 2]), Ok(vec![]), Ok(vec![3])]).unwrap(), vec![1, 2, 3]);
    assert_eq!(collect_chunks(vec![]).unwrap(), Vec::<u8>::new());
    let r = collect_chunks(vec![Ok(vec![1]), Err(read_timeout()), Err(Error::NotAFile { path: "x".to_string() })]);
    assert!(matches!(r, Err(Error::ReadTimeout { .. })));
}

#[test]
fn retried_read_outcome() {
    assert_eq!(finish_retry(Ok(GetResult::from_chunks(vec![Ok(vec![5, 6])]))).unwrap(), vec![5, 6]);
    assert!(matches!(finish_retry(Err(read_timeout())), Err(Error::ReadTimeout { .. })));
}

#[test]
fn settling_batch_results() {
    assert_eq!(settle_download(Ok(vec![1]), false).unwrap(), Some(vec![1]));
    assert_eq!(settle_download(Err(read_timeout()), false).unwrap(), None);
    assert!(settle_download(Err(read_timeout()), true).is_err());
    assert_eq!(settle_upload(Ok(()), "d".to_string()).unwrap(), Some("d".to_string()));
    assert!(matches!(settle_upload(Err(read_timeout()), "d".to_string()), Err(Error::ReadTimeout { .. })));
}

#[test]
fn retry_parameters_are_attached() {
    let g = GetResult::from_chunks(vec![Ok(vec![1])]);
    assert!(g.retry.is_none());
    let p = StreamingRetryParams { source: SourceType::Http, input: "http://h/x".to_string(), range: None };
    let g = g.with_retry(p);
    assert_eq!(g.retry.unwrap().source, SourceType::Http);
}

#[test]
fn unroutable_batch_entries_give_the_routers_error() {
    let (mut c, store, built) = client(false);
    assert_eq!(c.single_url_download(0, Some("ftp://x".to_string()), false).unwrap(), None);
    match c.single_url_download(0, Some("ftp://x".to_string()), true) {
        Err(Error::NotImplementedSource { store }) => assert_eq!(store, "ftp"),
        other => panic!("unexpected {other:?}"),
    }
    match c.single_url_upload(3, "ftp://x".to_string(), Some(b"a".to_vec())) {
        Err(Error::NotImplementedSource { store }) => assert_eq!(store, "ftp"),
        other => panic!("unexpected {other:?}"),
    }
    match c.single_url_get_size("ftp://x".to_string()) {
        Err(Error::NotImplementedSource { store }) => assert_eq!(store, "ftp"),
        other => panic!("unexpected {other:?}"),
    }
    assert_eq!(built.get(), 0);
    assert_eq!(store.calls.get(), 0);
    assert!(c.sources.is_empty());
}

#[test]
fn retry_decision() {
    let (mut c, _store, _) = client(false);
    let params = Some(StreamingRetryParams { source: SourceType::S3, input: "s3://b/k".to_string(), range: None });
    assert_eq!(c.retry_target(&read_timeout(), &params), None);
    let i = c.get_source(SourceType::S3).unwrap();
    assert_eq!(c.retry_target(&read_timeout(), &params), Some(i));
    assert_eq!(c.retry_target(&read_timeout(), &None), None);
    let not_found = Error::NotFound { path: "s3://b/k".to_string(), source: "gone".to_string() };
    assert_eq!(c.retry_target(&not_found, &params), None);
}
