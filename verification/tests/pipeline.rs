//! One request's whole path through the core: queued, batched, decoded by a
//! scripted shard, routed to its channel, and collected into a response.

use tgi_router::infer::collect_stream;
use tgi_router::queue::Queue;
use tgi_router::scheduler::{events_for_generation, Generation};
use tgi_router::types::{FinishReason, GeneratedText, PrefillToken, Token};

fn tok(id: u32, text: &str) -> Token {
    Token { id, text: text.to_string(), logprob_milli: -250, special: false }
}

#[test]
fn queued_request_flows_to_a_complete_response() {
    let mut q = Queue::new(false);
    let id = q.append(1, 3, 0);
    let batch = q.next_batch(None, None, 1000, 1000).expect("one entry fits easily");
    assert_eq!(batch.request_ids, vec![id]);
    assert_eq!(batch.max_tokens, 4);

    // The shards answer the prefill pass with the prompt token, then a
    // decode step carrying two speculated tokens, the second terminal.
    let prefill = Generation {
        request_id: id,
        prefill_tokens: Some(vec![PrefillToken {
            id: 11,
            text: "hello".to_string(),
            logprob_milli: -10,
        }]),
        tokens: vec![tok(1, " world")],
        top_tokens: vec![Vec::new()],
        generated_text: None,
    };
    let decode = Generation {
        request_id: id,
        prefill_tokens: None,
        tokens: vec![tok(2, " again"), tok(3, "!")],
        top_tokens: vec![Vec::new(), Vec::new()],
        generated_text: Some(GeneratedText {
            text: " world again!".to_string(),
            generated_tokens: 3,
            finish_reason: FinishReason::EndOfSequenceToken,
            seed: Some(0),
        }),
    };

    let mut items = Vec::new();
    for ev in events_for_generation(prefill, 7, 2) {
        items.push(Ok(ev));
    }
    for ev in events_for_generation(decode, 7, 2) {
        items.push(Ok(ev));
    }

    let resp = collect_stream(items, 1).expect("the stream ended properly");
    assert_eq!(resp.prefill.len(), 1);
    assert_eq!(resp.prefill[0].text, "hello");
    assert_eq!(resp.tokens.len(), 3);
    assert_eq!(resp.tokens.len() as u32, resp.generated_text.generated_tokens);
    assert_eq!(resp.generated_text.text, " world again!");
    assert_eq!(resp.generated_text.finish_reason, FinishReason::EndOfSequenceToken);
    assert_eq!(resp.start_ms, 7);
    assert_eq!(resp.queued_ms, 2);
    assert_eq!(q.len(), 0);
}
