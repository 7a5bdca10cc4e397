use kadena::engine::{
    classify, resume, run_parser_apdu, settle, ChunkParser, OutOfBand, Outcome, Parsed,
};
use kadena::failure::Failure;
use kadena::output::OutputBuffer;

fn buffer(bytes: &[u8]) -> OutputBuffer {
    let mut out = OutputBuffer::new();
    assert!(out.append(bytes));
    out
}

/// Expects `total` bytes over any number of chunks, then leaves `result`.
struct Counting {
    total: usize,
    result: Vec<u8>,
}

impl ChunkParser for Counting {
    type State = usize;

    fn init(&self) -> usize {
        0
    }

    fn parse<'a>(&self, seen: usize, chunk: &'a [u8]) -> Parsed<'a, usize> {
        let missing = self.total - seen;
        if chunk.len() < missing {
            Parsed {
                state: seen + chunk.len(),
                result: None,
                answer: Err((None, &chunk[chunk.len()..])),
            }
        } else {
            Parsed {
                state: self.total,
                result: Some(buffer(&self.result)),
                answer: Ok(&chunk[missing..]),
            }
        }
    }
}

/// Rejects whatever it is given.
struct Rejecting;

impl ChunkParser for Rejecting {
    type State = ();

    fn init(&self) {}

    fn parse<'a>(&self, _state: (), chunk: &'a [u8]) -> Parsed<'a, ()> {
        Parsed { state: (), result: None, answer: Err((Some(OutOfBand::Reject), chunk)) }
    }
}

/// Reads one byte and stops, without finishing and without saying why.
struct Stalling;

impl ChunkParser for Stalling {
    type State = u32;

    fn init(&self) -> u32 {
        0
    }

    fn parse<'a>(&self, calls: u32, chunk: &'a [u8]) -> Parsed<'a, u32> {
        Parsed { state: calls + 1, result: None, answer: Err((None, &chunk[1..])) }
    }
}

/// Claims to be done with the whole chunk but leaves no result.
struct Silent;

impl ChunkParser for Silent {
    type State = ();

    fn init(&self) {}

    fn parse<'a>(&self, _state: (), chunk: &'a [u8]) -> Parsed<'a, ()> {
        Parsed { state: (), result: None, answer: Ok(&chunk[chunk.len()..]) }
    }
}

/// Records the state and the chunk it is handed, and asks for more.
struct Recording {
    start: Vec<u8>,
}

impl ChunkParser for Recording {
    type State = Vec<u8>;

    fn init(&self) -> Vec<u8> {
        self.start.clone()
    }

    fn parse<'a>(&self, mut seen: Vec<u8>, chunk: &'a [u8]) -> Parsed<'a, Vec<u8>> {
        seen.extend_from_slice(chunk);
        Parsed { state: seen, result: None, answer: Err((None, &[])) }
    }
}

fn parsed<'a>(
    state: u8,
    answer: Result<&'a [u8], (Option<OutOfBand>, &'a [u8])>,
    result: Option<OutputBuffer>,
) -> Parsed<'a, u8> {
    Parsed { state, result, answer }
}

#[test]
fn classify_reads_a_rejection() {
    let rest = [1u8, 2];
    assert_eq!(classify(&Err((Some(OutOfBand::Reject), &rest[..]))), Outcome::Reject);
    assert_eq!(classify(&Err((Some(OutOfBand::Reject), &rest[..0]))), Outcome::Reject);
}

#[test]
fn classify_reads_a_request_for_more() {
    assert_eq!(classify(&Err((None, &[][..]))), Outcome::NeedMore);
}

#[test]
fn classify_reads_a_stop_inside_the_chunk() {
    let rest = [9u8];
    assert_eq!(classify(&Err((None, &rest[..]))), Outcome::NotFullyConsumed);
}

#[test]
fn classify_reads_completion_and_counts_what_is_left() {
    let rest = [1u8, 2, 3];
    assert_eq!(classify(&Ok(&rest[..0])), Outcome::Complete { trailing: 0 });
    assert_eq!(classify(&Ok(&rest[..])), Outcome::Complete { trailing: 3 });
}

#[test]
fn settle_on_rejection_drops_the_parse_and_fails() {
    let rest = [1u8];
    let step = settle(parsed(7, Err((Some(OutOfBand::Reject), &rest[..])), None));
    assert_eq!(step.state, None);
    assert_eq!(step.reply, Err(Failure::Unknown));
}

#[test]
fn settle_on_rejection_ignores_a_result() {
    let step = settle(parsed(7, Err((Some(OutOfBand::Reject), &[][..])), Some(buffer(&[1, 2]))));
    assert_eq!(step.state, None);
    assert_eq!(step.reply, Err(Failure::Unknown));
}

#[test]
fn settle_on_need_more_keeps_the_parse_and_acknowledges_without_bytes() {
    let step = settle(parsed(7, Err((None, &[][..])), None));
    assert_eq!(step.state, Some(7));
    assert_eq!(step.reply, Ok(OutputBuffer::new()));
}

#[test]
fn settle_on_need_more_sends_no_early_result() {
    let step = settle(parsed(7, Err((None, &[][..])), Some(buffer(&[5, 5]))));
    assert_eq!(step.state, Some(7));
    assert_eq!(step.reply, Ok(OutputBuffer::new()));
}

#[test]
fn settle_on_a_stop_inside_the_chunk_drops_the_parse_and_fails() {
    let rest = [1u8, 2];
    let step = settle(parsed(7, Err((None, &rest[..])), None));
    assert_eq!(step.state, None);
    assert_eq!(step.reply, Err(Failure::Unknown));
}

#[test]
fn settle_on_clean_completion_hands_over_the_result() {
    let step = settle(parsed(7, Ok(&[][..]), Some(buffer(&[0xaa, 0xbb, 0xcc]))));
    assert_eq!(step.state, None);
    assert_eq!(step.reply, Ok(buffer(&[0xaa, 0xbb, 0xcc])));
}

#[test]
fn settle_on_completion_without_result_fails_and_drops_the_parse() {
    let step = settle(parsed(7, Ok(&[][..]), None));
    assert_eq!(step.state, None);
    assert_eq!(step.reply, Err(Failure::Unknown));
}

#[test]
fn settle_on_completion_with_trailing_bytes_fails_even_with_a_result() {
    let rest = [0u8];
    let step = settle(parsed(7, Ok(&rest[..]), Some(buffer(&[1]))));
    assert_eq!(step.state, None);
    assert_eq!(step.reply, Err(Failure::Unknown));
    let step = settle(parsed(7, Ok(&rest[..]), None));
    assert_eq!(step.state, None);
    assert_eq!(step.reply, Err(Failure::Unknown));
}

#[test]
fn only_need_more_leaves_a_parse_in_progress() {
    let rest = [1u8];
    let answers: Vec<Result<&[u8], (Option<OutOfBand>, &[u8])>> = vec![
        Err((Some(OutOfBand::Reject), &rest[..])),
        Err((Some(OutOfBand::Reject), &rest[..0])),
        Err((None, &rest[..0])),
        Err((None, &rest[..])),
        Ok(&rest[..0]),
        Ok(&rest[..]),
    ];
    for answer in answers {
        for with_result in [false, true] {
            let destination = if with_result { Some(buffer(&[1, 2, 3])) } else { None };
            let outcome = classify(&answer);
            let step = settle(parsed(0, answer, destination));
            assert_eq!(step.state.is_some(), outcome == Outcome::NeedMore);
        }
    }
}

#[test]
fn resume_goes_on_from_the_state_in_progress() {
    let parser = Counting { total: 10, result: vec![] };
    let mut slot = Some(4usize);
    assert_eq!(resume(&mut slot, &parser), 4);
    assert_eq!(slot, None);
}

#[test]
fn resume_begins_anew_where_nothing_is_in_progress() {
    let parser = Recording { start: vec![42] };
    let mut slot = None;
    assert_eq!(resume(&mut slot, &parser), vec![42]);
    assert_eq!(slot, None);
}

#[test]
fn the_parser_is_handed_the_whole_chunk_and_the_state_in_progress() {
    let parser = Recording { start: vec![0] };
    let mut slot = None;
    assert_eq!(run_parser_apdu(&mut slot, &parser, &[1, 2, 3]), Ok(OutputBuffer::new()));
    assert_eq!(slot, Some(vec![0, 1, 2, 3]));
    assert_eq!(run_parser_apdu(&mut slot, &parser, &[4, 5]), Ok(OutputBuffer::new()));
    assert_eq!(slot, Some(vec![0, 1, 2, 3, 4, 5]));
}

#[test]
fn a_parse_over_two_chunks_is_acknowledged_and_then_answered() {
    let parser = Counting { total: 300, result: vec![0x11, 0x22, 0x33] };
    let mut slot = None;
    assert_eq!(run_parser_apdu(&mut slot, &parser, &[0; 150]), Ok(OutputBuffer::new()));
    assert_eq!(slot, Some(150));
    assert_eq!(run_parser_apdu(&mut slot, &parser, &[0; 150]), Ok(buffer(&[0x11, 0x22, 0x33])));
    assert_eq!(slot, None);
}

#[test]
fn a_parse_in_one_chunk_is_answered_at_once() {
    let parser = Counting { total: 4, result: vec![9, 8, 7] };
    let mut slot = None;
    assert_eq!(run_parser_apdu(&mut slot, &parser, &[1, 2, 3, 4]), Ok(buffer(&[9, 8, 7])));
    assert_eq!(slot, None);
}

#[test]
fn a_result_of_128_bytes_is_handed_over_whole() {
    let parser = Counting { total: 1, result: vec![0x5a; 128] };
    let mut slot = None;
    let reply = run_parser_apdu(&mut slot, &parser, &[1]).unwrap();
    assert_eq!(reply.as_slice(), &[0x5a; 128]);
}

#[test]
fn over_long_input_fails_and_ends_the_parse() {
    let parser = Counting { total: 4, result: vec![9] };
    let mut slot = Some(2);
    assert_eq!(run_parser_apdu(&mut slot, &parser, &[1, 2, 3]), Err(Failure::Unknown));
    assert_eq!(slot, None);
}

#[test]
fn a_rejection_fails_and_ends_the_parse() {
    let mut slot = Some(());
    assert_eq!(run_parser_apdu(&mut slot, &Rejecting, &[1, 2, 3]), Err(Failure::Unknown));
    assert_eq!(slot, None);
    assert_eq!(run_parser_apdu(&mut slot, &Rejecting, &[1]), Err(Failure::Unknown));
    assert_eq!(slot, None);
}

#[test]
fn a_parser_that_stalls_fails_and_ends_the_parse() {
    let mut slot = Some(3);
    assert_eq!(run_parser_apdu(&mut slot, &Stalling, &[1, 2, 3]), Err(Failure::Unknown));
    assert_eq!(slot, None);
}

#[test]
fn a_parser_that_stalls_on_the_last_byte_is_asking_for_more() {
    let mut slot = None;
    assert_eq!(run_parser_apdu(&mut slot, &Stalling, &[1]), Ok(OutputBuffer::new()));
    assert_eq!(slot, Some(1));
}

#[test]
fn a_parser_that_finishes_without_result_fails_and_ends_the_parse() {
    let mut slot = Some(());
    assert_eq!(run_parser_apdu(&mut slot, &Silent, &[1, 2]), Err(Failure::Unknown));
    assert_eq!(slot, None);
}
