use screen_demo_lib::delivery::{chunk_count, get_video_chunk, whole_artifact, DeliveryError};
use screen_demo_lib::CHUNK_SIZE;

#[test]
fn chunk_count_rounds_up() {
    assert_eq!(chunk_count(0), 0);
    assert_eq!(chunk_count(1), 1);
    assert_eq!(chunk_count(CHUNK_SIZE as u64 - 1), 1);
    assert_eq!(chunk_count(CHUNK_SIZE as u64), 1);
    assert_eq!(chunk_count(CHUNK_SIZE as u64 + 1), 2);
    assert_eq!(chunk_count(3 * CHUNK_SIZE as u64), 3);
}

#[test]
fn chunk_zero_of_a_small_file_is_its_encoding() {
    // The canonical base64 of "hello": the call reaches the real encoder.
    let data = b"hello";
    let chunk = get_video_chunk(data, 0).unwrap();
    assert_eq!(chunk, "aGVsbG8=");
}

#[test]
fn chunk_past_the_end_is_out_of_bounds() {
    let data = b"hello";
    assert_eq!(get_video_chunk(data, 1).unwrap_err(), DeliveryError::OutOfBounds);
    assert_eq!(get_video_chunk(data, 1000).unwrap_err(), DeliveryError::OutOfBounds);
    let empty: [u8; 0] = [];
    assert_eq!(get_video_chunk(&empty, 0).unwrap_err(), DeliveryError::OutOfBounds);
}

#[test]
fn chunks_window_the_file_and_retrieval_is_idempotent() {
    // One full chunk plus one trailing zero byte.
    let data = vec![0u8; CHUNK_SIZE + 1];
    assert_eq!(chunk_count(data.len() as u64), 2);
    let first = get_video_chunk(&data, 0).unwrap();
    // 4 characters for every 3 input bytes, rounded up.
    assert_eq!(first.len(), 4 * ((CHUNK_SIZE + 2) / 3));
    let second = get_video_chunk(&data, 1).unwrap();
    // The second window holds the single zero byte.
    assert_eq!(second, "AA==");
    // Asking again returns the same data.
    assert_eq!(get_video_chunk(&data, 0).unwrap(), first);
    assert_eq!(get_video_chunk(&data, 1).unwrap(), second);
    assert!(get_video_chunk(&data, 2).is_err());
}

#[test]
fn whole_artifact_copies_everything_or_refuses_empty() {
    let empty: [u8; 0] = [];
    assert_eq!(whole_artifact(&empty).unwrap_err(), DeliveryError::EmptyFile);
    let data = b"abc\x00def";
    assert_eq!(whole_artifact(data).unwrap(), data.to_vec());
}
