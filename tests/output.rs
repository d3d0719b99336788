use rain_staging::output::{
    DataLocation, DataObjectId, Output, OutputError, OutputState, StageOp, WriteOutcome,
    WRITER_SPILL_LIMIT,
};

fn id() -> DataObjectId {
    DataObjectId { session_id: 3, id: 7 }
}

fn fresh() -> Output {
    Output::new(id(), Some("out".to_string()), "/stage/output-3-7".to_string(), 0)
}

#[test]
fn untouched_output_reports_empty_memory() {
    let (spec, cached) = fresh().into_output_spec();
    assert!(!cached);
    assert!(!spec.cache_hint);
    assert!(spec.label.is_none());
    assert_eq!(spec.id, id());
    assert!(spec.attributes.entries.is_empty());
    match spec.location {
        DataLocation::Memory(v) => assert!(v.is_empty()),
        other => panic!("unexpected location {:?}", other),
    }
}

#[test]
fn staging_checks_source_kind() {
    let o = fresh();
    assert_eq!(o.stage_directory(false), Err(OutputError::NotADirectory));
    assert_eq!(o.stage_file(false), Err(OutputError::NotAFile));
    assert_eq!(o.stage_directory(true), Ok(()));
    assert_eq!(o.stage_file(true), Ok(()));
}

#[test]
fn staging_twice_fails() {
    let mut o = fresh();
    assert_eq!(o.stage_file(true), Ok(()));
    o.commit_stage();
    assert_eq!(o.stage_file(true), Err(OutputError::AlreadyStaged(StageOp::File)));
    assert_eq!(o.stage_directory(true), Err(OutputError::AlreadyStaged(StageOp::Directory)));
    assert_eq!(o.stage_input(id()), Err(OutputError::AlreadyStaged(StageOp::Input)));
    assert_eq!(o.get_writer().err(), Some(OutputError::WriterUnavailable));
    let (spec, _) = o.into_output_spec();
    match spec.location {
        DataLocation::Path(p) => assert_eq!(p, "/stage/output-3-7"),
        other => panic!("unexpected location {:?}", other),
    }
}

#[test]
fn staging_after_writer_fails() {
    let mut o = fresh();
    let w = o.get_writer().unwrap();
    o.finish_writing(w);
    assert!(matches!(o.state, OutputState::MemBacked(_)));
    assert_eq!(o.stage_file(true), Err(OutputError::AlreadyStaged(StageOp::File)));
    assert_eq!(o.stage_input(id()), Err(OutputError::AlreadyStaged(StageOp::Input)));
}

#[test]
fn pass_through_output() {
    let mut o = fresh();
    let other = DataObjectId { session_id: 3, id: 1 };
    assert_eq!(o.stage_input(other), Ok(()));
    assert_eq!(o.get_writer().err(), Some(OutputError::WriterUnavailable));
    let (spec, _) = o.into_output_spec();
    assert!(matches!(spec.location, DataLocation::OtherObject(x) if x == other));
}

#[test]
fn spill_at_threshold_scenario() {
    assert_eq!(WRITER_SPILL_LIMIT, 262144);
    let mut o = fresh();
    let mut w = o.get_writer().unwrap();
    let a: Vec<u8> = (0..200000u32).map(|i| (i % 251) as u8).collect();
    let b: Vec<u8> = (0..100000u32).map(|i| (i % 13) as u8).collect();
    assert!(!w.needs_spill(a.len()));
    assert!(matches!(w.write(&a), WriteOutcome::Memory));
    assert!(!w.is_file_backed());
    assert!(w.needs_spill(b.len()));
    assert!(matches!(w.write(&b), WriteOutcome::Spill));
    assert!(!w.is_file_backed());
    let mut file = w.ensure_file_based().unwrap().to_vec();
    file.extend_from_slice(&b);
    w.commit_spill(&b);
    assert!(w.is_file_backed());
    assert_eq!(file.len(), 300000);
    let mut expected = a.clone();
    expected.extend_from_slice(&b);
    assert_eq!(file, expected);
    o.finish_writing(w);
    let (spec, _) = o.into_output_spec();
    assert!(matches!(spec.location, DataLocation::Path(_)));
}

#[test]
fn reaching_the_limit_exactly_stays_in_memory() {
    let mut o = fresh();
    let mut w = o.get_writer().unwrap();
    let a = vec![1u8; WRITER_SPILL_LIMIT - 10];
    assert!(matches!(w.write(&a), WriteOutcome::Memory));
    assert!(matches!(w.write(&[2u8; 10]), WriteOutcome::Memory));
    assert!(!w.is_file_backed());
    assert!(matches!(w.write(&[3u8]), WriteOutcome::Spill));
    assert_eq!(w.ensure_file_based().unwrap().len(), WRITER_SPILL_LIMIT);
    w.commit_spill(&[3u8]);
    assert!(w.is_file_backed());
}

#[test]
fn spilled_writer_never_returns_to_memory() {
    let mut o = fresh();
    let mut w = o.get_writer().unwrap();
    let big = vec![0u8; WRITER_SPILL_LIMIT + 1];
    assert!(matches!(w.write(&big), WriteOutcome::Spill));
    assert_eq!(w.ensure_file_based(), Some(&[][..]));
    w.commit_spill(&big);
    for _ in 0..3 {
        assert!(matches!(w.write(&[1u8, 2, 3]), WriteOutcome::File));
        assert!(w.is_file_backed());
    }
    assert!(w.flush());
    o.finish_writing(w);
    let w = o.get_writer().unwrap();
    assert!(w.is_file_backed());
}

#[test]
fn ensure_file_based_moves_memory_once() {
    let mut o = fresh();
    let mut w = o.get_writer().unwrap();
    assert!(!w.flush());
    assert!(matches!(w.write(b"hello"), WriteOutcome::Memory));
    assert_eq!(w.ensure_file_based(), Some(&b"hello"[..]));
    assert!(!w.is_file_backed());
    w.convert_to_file();
    assert!(w.is_file_backed());
    assert_eq!(w.ensure_file_based(), None);
}

#[test]
fn cleanup_removes_only_file_artifacts() {
    let mut o = fresh();
    o.attributes.entries.push(("k".to_string(), "v".to_string()));
    let mut w = o.get_writer().unwrap();
    w.write(b"abc");
    o.finish_writing(w);
    assert!(!o.cleanup_failed_task());
    assert!(matches!(o.state, OutputState::Empty));
    assert!(o.attributes.entries.is_empty());

    assert!(!o.cleanup_failed_task());

    o.commit_stage();
    o.attributes.entries.push(("k".to_string(), "v".to_string()));
    assert!(o.cleanup_failed_task());
    assert!(matches!(o.state, OutputState::Empty));
    assert!(o.attributes.entries.is_empty());

    let mut w = o.get_writer().unwrap();
    assert!(w.ensure_file_based().is_some());
    w.convert_to_file();
    o.finish_writing(w);
    assert!(o.cleanup_failed_task());
    assert!(matches!(o.state, OutputState::Empty));

    assert_eq!(o.stage_input(id()), Ok(()));
    assert!(!o.cleanup_failed_task());
}

#[test]
fn spill_not_committed_stays_in_memory() {
    let mut o = fresh();
    let mut w = o.get_writer().unwrap();
    let a = vec![5u8; 200000];
    assert!(matches!(w.write(&a), WriteOutcome::Memory));
    assert!(matches!(w.write(&vec![6u8; 100000]), WriteOutcome::Spill));
    assert!(!w.is_file_backed());
    assert_eq!(w.ensure_file_based(), Some(&a[..]));
    o.finish_writing(w);
    match &o.state {
        OutputState::MemBacked(v) => assert_eq!(v, &a),
        other => panic!("unexpected state {:?}", other),
    }
}

#[test]
fn calls_while_writer_is_out_fail() {
    let mut o = fresh();
    let w = o.get_writer().unwrap();
    assert!(o.writing);
    assert_eq!(o.stage_file(true), Err(OutputError::AlreadyStaged(StageOp::File)));
    assert_eq!(o.stage_directory(true), Err(OutputError::AlreadyStaged(StageOp::Directory)));
    assert_eq!(o.stage_input(id()), Err(OutputError::AlreadyStaged(StageOp::Input)));
    assert_eq!(o.get_writer().err(), Some(OutputError::WriterInUse));
    o.finish_writing(w);
    assert!(!o.writing);
    assert!(o.get_writer().is_ok());
}
