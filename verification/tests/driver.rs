use trtllm::driver::{collect_batch, next_action, Action};
use trtllm::error::ErrorKind;
use trtllm::executor::{Executor, ResponseIterator};
use trtllm::plugins::PluginsReady;
use trtllm::request::Request;
use trtllm::response::{Response, VecTokens};
use trtllm::tensor::ModelType;

fn batch_of(responses: Vec<Response>) -> ResponseIterator {
    let plugins = PluginsReady::confirm(true).unwrap();
    let mut ex = Executor::open(&plugins, "/models/engine", ModelType::DecoderOnly, Ok(())).unwrap();
    let mut req = Request::new(&[1, 2, 3], 32);
    let id = ex.enqueue_request(&mut req, Ok(1)).unwrap();
    ex.await_responses(id, Ok(responses)).unwrap()
}

fn decoded(is_final: bool, slots: Vec<Vec<u32>>) -> Response {
    Response::decoded(trtllm::response::Result {
        is_final,
        output_token_ids: slots.into_iter().map(|v| VecTokens { v }).collect(),
    })
}

fn plain(collected: &[VecTokens]) -> Vec<Vec<u32>> {
    collected.iter().map(|t| t.v.clone()).collect()
}

#[test]
fn nothing_ready_means_wait() {
    assert_eq!(next_action(0), Action::Wait);
    assert_eq!(next_action(1), Action::Retrieve);
    assert_eq!(next_action(usize::MAX), Action::Retrieve);
}

#[test]
fn collect_reads_a_whole_batch_without_last_result() {
    let mut it = batch_of(vec![
        decoded(false, vec![vec![1], vec![10]]),
        decoded(false, vec![vec![2, 3]]),
    ]);
    let mut collected = vec![VecTokens { v: vec![0] }];
    assert_eq!(collect_batch(&mut it, &mut collected).unwrap(), false);
    assert_eq!(plain(&collected), vec![vec![0], vec![1], vec![10], vec![2, 3]]);
    assert_eq!(it.remaining(), 0);
}

#[test]
fn collect_stops_behind_the_last_result() {
    let mut it = batch_of(vec![
        decoded(false, vec![vec![1]]),
        decoded(true, vec![vec![2]]),
        decoded(false, vec![vec![3]]),
    ]);
    let mut collected = Vec::new();
    assert_eq!(collect_batch(&mut it, &mut collected).unwrap(), true);
    assert_eq!(plain(&collected), vec![vec![1], vec![2]]);
    assert_eq!(it.remaining(), 1);
}

#[test]
fn collect_stops_at_a_response_that_cannot_be_read() {
    let mut it = batch_of(vec![
        decoded(false, vec![vec![1]]),
        Response::malformed("truncated".to_string()),
        decoded(true, vec![vec![3]]),
    ]);
    let mut collected = Vec::new();
    let e = match collect_batch(&mut it, &mut collected) {
        Ok(_) => panic!("an error was expected"),
        Err(e) => e,
    };
    assert_eq!(e.kind, ErrorKind::ExtractionError);
    assert_eq!(e.message, "Failed to get result from response: truncated");
    assert_eq!(plain(&collected), vec![vec![1]]);
    assert_eq!(it.remaining(), 1);
    assert_eq!(collect_batch(&mut it, &mut collected).unwrap(), true);
    assert_eq!(plain(&collected), vec![vec![1], vec![3]]);
}

#[test]
fn collect_on_an_empty_batch_reads_nothing() {
    let mut it = batch_of(Vec::new());
    let mut collected = Vec::new();
    assert_eq!(collect_batch(&mut it, &mut collected).unwrap(), false);
    assert!(collected.is_empty());
}
