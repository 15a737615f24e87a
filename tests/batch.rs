use flip::batch::{tally, Batch, Failure, Outcome};
use flip::convert::ConvertError;

fn ok(output: &str) -> Outcome {
    Outcome::Success { output: output.as_bytes().to_vec(), elapsed_micros: 5 }
}

fn failed(source: &str) -> Outcome {
    Outcome::Failure { source: source.as_bytes().to_vec(), failure: Failure::Convert(ConvertError::Decode) }
}

#[test]
fn empty_batch_counts_nothing() {
    let batch = Batch::new();
    let summary = batch.summary(12);
    assert_eq!(summary.count, 0);
    assert_eq!(summary.elapsed_micros, 12);
    assert!(batch.deletions(true).is_empty());
}

#[test]
fn tally_counts_successes_and_failures() {
    let sources: Vec<Vec<u8>> = vec![b"a.png".to_vec(), b"b.png".to_vec(), b"c.png".to_vec()];
    let outcomes = vec![ok("a.gif"), failed("b.png"), ok("c.gif")];
    let batch = tally(&sources, &outcomes);
    assert_eq!(batch.matched, 3);
    assert_eq!(batch.summary(0).count, 2);
    assert_eq!(batch.candidates, vec![b"a.png".to_vec(), b"c.png".to_vec()]);
}

#[test]
fn destroy_deletes_only_succeeded_sources() {
    let mut batch = Batch::new();
    batch.record(b"good.png".to_vec(), &ok("good.gif"));
    batch.record(b"bad.png".to_vec(), &failed("bad.png"));
    assert_eq!(batch.matched, 2);
    assert_eq!(batch.summary(0).count, 1);
    assert_eq!(batch.deletions(true), vec![b"good.png".to_vec()]);
}

#[test]
fn without_destroy_nothing_is_deleted() {
    let mut batch = Batch::new();
    batch.record(b"good.png".to_vec(), &ok("good.gif"));
    batch.record(b"worse.png".to_vec(), &Outcome::Failure {
        source: b"worse.png".to_vec(),
        failure: Failure::Write,
    });
    assert_eq!(batch.summary(0).count, 1);
    assert!(batch.deletions(false).is_empty());
}
