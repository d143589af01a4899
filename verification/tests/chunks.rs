use audio_recorder_manager::chunks::{AudioChunk, ChunkError, ChunkLedger, ConcatPlan, DEFAULT_CHUNK_DURATION_SECS};

fn chunk(i: u32) -> AudioChunk {
    AudioChunk {
        chunk_index: i,
        loopback_path: format!("chunk_{}_loopback.wav", i),
        mic_path: format!("chunk_{}_mic.wav", i),
        output_path: format!("chunk_{}.m4a", i),
        loopback_has_audio: true,
        mic_has_audio: false,
    }
}

#[test]
fn chunks_kept_in_index_order() {
    let mut l = ChunkLedger::new();
    l.submit_chunk(&chunk(0));
    l.submit_chunk(&chunk(1));
    l.submit_chunk(&chunk(2));
    assert_eq!(l.total_chunks(), 3);
    assert_eq!(l.take_pending(), vec![0, 1, 2]);
    l.add_completed_chunk(2, "c2.m4a".to_string());
    l.add_completed_chunk(0, "c0.m4a".to_string());
    l.add_completed_chunk(1, "c1.m4a".to_string());
    assert_eq!(l.total_chunks(), 3);
    match l.concat_plan() {
        Ok(ConcatPlan::Concatenate(ps)) => assert_eq!(ps, vec!["c0.m4a", "c1.m4a", "c2.m4a"]),
        _ => panic!("expected a concatenation"),
    }
}

#[test]
fn single_and_no_chunk() {
    let mut l = ChunkLedger::new();
    assert!(matches!(l.concat_plan(), Err(ChunkError::NoChunks)));
    assert_eq!(ChunkError::NoChunks.to_string(), "No chunks to concatenate");
    l.add_completed_chunk(4, "only.m4a".to_string());
    match l.concat_plan() {
        Ok(ConcatPlan::MoveSingle(p)) => assert_eq!(p, "only.m4a"),
        _ => panic!("expected a move"),
    }
    assert_eq!(DEFAULT_CHUNK_DURATION_SECS, 300);
}

#[test]
fn equal_indexes_keep_arrival_order() {
    let mut l = ChunkLedger::new();
    l.add_completed_chunk(1, "first".to_string());
    l.add_completed_chunk(0, "zero".to_string());
    l.add_completed_chunk(1, "second".to_string());
    match l.concat_plan() {
        Ok(ConcatPlan::Concatenate(ps)) => assert_eq!(ps, vec!["zero", "first", "second"]),
        _ => panic!("expected a concatenation"),
    }
}
