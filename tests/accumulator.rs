use archer::accumulator::ChunkAccumulator;
use archer::completion::CompletionStatus;

fn s(x: &str) -> String {
    x.to_string()
}

#[test]
fn replaced_chunk_keeps_first_seen_position() {
    let mut acc = ChunkAccumulator::new();
    assert!(acc.accept(s("msg"), s("A"), s("one ")));
    assert!(acc.accept(s("msg"), s("B"), s("two ")));
    assert!(acc.accept(s("msg"), s("A"), s("ONE ")));
    assert!(acc.accept(s("msg"), s("C"), s("three")));
    assert_eq!(acc.content(), "ONE two three");
}

#[test]
fn done_freezes_the_text() {
    let mut acc = ChunkAccumulator::new();
    acc.accept(s("msg"), s("1"), s("Hel"));
    acc.accept(s("msg"), s("2"), s("lo"));
    assert_eq!(acc.status(), CompletionStatus::Processing);
    assert!(!acc.accept(s("done"), s("3"), s("")));
    assert!(acc.is_done());
    assert_eq!(acc.status(), CompletionStatus::Succeeded);
    assert!(!acc.accept(s("msg"), s("4"), s(" world")));
    assert!(!acc.accept(s("msg"), s("1"), s("Bye")));
    assert_eq!(acc.content(), "Hello");
}

#[test]
fn empty_accumulator_shows_nothing() {
    let acc = ChunkAccumulator::new();
    assert_eq!(acc.content(), "");
    assert!(!acc.is_done());
}
