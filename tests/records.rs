use zinharo::{
    decode_cap, encode_cap, parse_timestamp, unpack_wordlist, wordlist_source, RawJob, RawReport,
    Timestamp, WordlistSource, ZinharoError, ZinharoHash, ZinharoQueuedJob,
};
use std::io::Read;

#[test]
fn base64_round_trip() {
    let empty: Vec<u8> = vec![];
    assert_eq!(encode_cap(&empty), "");
    assert_eq!(decode_cap(&encode_cap(&empty)).unwrap(), empty);
    let bytes: Vec<u8> = vec![0, 1, 2, 250, 255, 128, 64];
    assert_eq!(decode_cap(&encode_cap(&bytes)).unwrap(), bytes);
}

#[test]
fn base64_known_values() {
    assert_eq!(encode_cap(&b"hello".to_vec()), "aGVsbG8=");
    assert_eq!(decode_cap("aGVsbG8=").unwrap(), b"hello".to_vec());
    assert!(matches!(decode_cap("!!!"), Err(ZinharoError::InvalidResponse)));
}

#[test]
fn timestamps_normalise_to_utc() {
    assert_eq!(parse_timestamp("1970-01-01T00:00:00Z").unwrap(), Timestamp { secs: 0, nanos: 0 });
    assert_eq!(
        parse_timestamp("1996-12-19T16:39:57-08:00").unwrap(),
        Timestamp { secs: 851042397, nanos: 0 }
    );
    assert_eq!(
        parse_timestamp("2020-01-01T00:00:00.5Z").unwrap(),
        Timestamp { secs: 1577836800, nanos: 500000000 }
    );
    assert!(matches!(parse_timestamp("yesterday"), Err(ZinharoError::InvalidResponse)));
}

#[test]
fn queued_job_decodes() {
    let job = ZinharoQueuedJob::decode("BAUrS4Y=", 12, "1970-01-01T00:01:00+00:00").unwrap();
    assert_eq!(job.cap, vec![4, 5, 43, 75, 134]);
    assert_eq!(job.id, 12);
    assert_eq!(job.created, Timestamp { secs: 60, nanos: 0 });
    assert!(matches!(
        ZinharoQueuedJob::decode("@@", 12, "1970-01-01T00:01:00Z"),
        Err(ZinharoError::InvalidResponse)
    ));
    assert!(matches!(
        ZinharoQueuedJob::decode("BAUrS4Y=", 12, "noon"),
        Err(ZinharoError::InvalidResponse)
    ));
}

#[test]
fn queued_job_from_decoded() {
    let t = Timestamp { secs: 5, nanos: 1 };
    let job = ZinharoQueuedJob::from_decoded(Some(vec![1, 2]), 3, Some(t)).unwrap();
    assert_eq!(job.cap, vec![1, 2]);
    assert_eq!(job.created, t);
    assert!(ZinharoQueuedJob::from_decoded(None, 3, Some(t)).is_err());
    assert!(ZinharoQueuedJob::from_decoded(Some(vec![]), 3, None).is_err());
}

#[test]
fn add_cap() {
    let my_cap: Vec<u8> = vec![4, 5, 43, 75, 134];
    let sent = encode_cap(&my_cap);
    assert_eq!(sent, "BAUrS4Y=");
    let hash = ZinharoHash::from_parts(
        Vec::clone(&my_cap),
        77,
        "2021-03-04T05:06:07Z",
        &vec![],
        &vec![],
    )
    .unwrap();

    assert_eq!(my_cap, hash.cap); // should be same after upload
}

#[test]
fn hash_records_attach_to_capture() {
    let jobs = vec![RawJob {
        id: 1,
        password: "hunter2".to_string(),
        client_id: 10,
        created: "1970-01-01T00:00:10Z".to_string(),
    }];
    let reports = vec![
        RawReport { id: 2, info: None, client_id: 11, created: "1970-01-01T00:00:20Z".to_string() },
        RawReport {
            id: 3,
            info: Some("why".to_string()),
            client_id: 12,
            created: "1970-01-01T01:00:00+01:00".to_string(),
        },
    ];
    let hash = ZinharoHash::from_parts(vec![9], 42, "1970-01-01T00:00:01Z", &jobs, &reports).unwrap();
    assert_eq!(hash.id, 42);
    assert_eq!(hash.created, Timestamp { secs: 1, nanos: 0 });
    assert_eq!(hash.jobs.len(), 1);
    assert_eq!(hash.jobs[0].password, "hunter2");
    assert_eq!(hash.jobs[0].hash_id, 42);
    assert_eq!(hash.jobs[0].created, Timestamp { secs: 10, nanos: 0 });
    assert_eq!(hash.reports.len(), 2);
    assert_eq!(hash.reports[0].info, None);
    assert_eq!(hash.reports[1].info, Some("why".to_string()));
    assert_eq!(hash.reports[1].hash_id, 42);
    assert_eq!(hash.reports[1].created, Timestamp { secs: 0, nanos: 0 });
}

#[test]
fn hash_with_bad_timestamp_is_invalid() {
    let jobs = vec![RawJob { id: 1, password: "p".to_string(), client_id: 1, created: "bad".to_string() }];
    let r = ZinharoHash::from_parts(vec![], 1, "1970-01-01T00:00:01Z", &jobs, &vec![]);
    assert!(matches!(r, Err(ZinharoError::InvalidResponse)));
    let r = ZinharoHash::from_parts(vec![], 1, "bad", &vec![], &vec![]);
    assert!(matches!(r, Err(ZinharoError::InvalidResponse)));
}

#[test]
fn wordlist_decompresses() {
    let plain = b"password\n123456\nletmein\n".to_vec();
    let mut enc = bzip2::read::BzEncoder::new(&plain[..], bzip2::Compression::default());
    let mut compressed = Vec::new();
    enc.read_to_end(&mut compressed).unwrap();
    assert_eq!(unpack_wordlist(&compressed).unwrap(), plain);
    assert!(matches!(unpack_wordlist(&b"not bzip2".to_vec()), Err(ZinharoError::InvalidResponse)));
}

#[test]
fn wordlist_fetched_at_most_once() {
    let mut on_disk = false;
    let mut downloads = 0;
    for _ in 0..2 {
        if wordlist_source(on_disk) == WordlistSource::Download {
            downloads += 1;
            on_disk = true;
        }
    }
    assert_eq!(downloads, 1);
    assert_eq!(wordlist_source(true), WordlistSource::Cached);
}
