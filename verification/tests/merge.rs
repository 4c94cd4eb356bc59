use opcua_client::merge::{merge_any_chunks, merge_chunks};
use opcua_client::message::{ChunkInfo, MessageChunkWithChunkInfo, MessageIsFinalType};

fn chunk(sequence_number: u32, data: &[u8]) -> MessageChunkWithChunkInfo {
    MessageChunkWithChunkInfo {
        header: ChunkInfo {
            is_final: MessageIsFinalType::Intermediate,
            sequence_number,
            request_id: 1,
        },
        data_with_header: data.to_vec(),
    }
}

fn merged(chunks: Vec<MessageChunkWithChunkInfo>) -> Vec<Vec<u8>> {
    merge_chunks(chunks).into_iter().map(|c| c.data).collect()
}

#[test]
fn a_single_chunk_is_the_message() {
    assert_eq!(merged(vec![chunk(17, &[1, 2])]), vec![vec![1, 2]]);
}

#[test]
fn chunks_are_sorted() {
    let arrived = vec![chunk(12, &[3]), chunk(10, &[1]), chunk(11, &[2])];
    assert_eq!(merged(arrived), vec![vec![1], vec![2], vec![3]]);
}

#[test]
fn the_first_of_two_duplicates_is_kept() {
    let arrived = vec![chunk(10, &[1]), chunk(11, &[2]), chunk(10, &[9]), chunk(12, &[3])];
    assert_eq!(merged(arrived), vec![vec![1], vec![2], vec![3]]);
}

#[test]
fn chunks_after_a_gap_are_dropped() {
    let arrived = vec![chunk(10, &[1]), chunk(12, &[3]), chunk(13, &[4])];
    assert_eq!(merged(arrived), vec![vec![1]]);
}

#[test]
fn the_highest_number_has_no_successor() {
    let arrived = vec![chunk(u32::MAX, &[2]), chunk(u32::MAX - 1, &[1]), chunk(u32::MAX, &[7])];
    let ret: Vec<Vec<u8>> = merge_any_chunks(arrived).into_iter().map(|c| c.data).collect();
    assert_eq!(ret, vec![vec![1], vec![2]]);
    assert_eq!(merged(vec![chunk(u32::MAX, &[1])]), vec![vec![1]]);
    let wrapped = vec![chunk(u32::MAX, &[1]), chunk(0, &[2])];
    assert_eq!(merged(wrapped), vec![vec![2]]);
}
