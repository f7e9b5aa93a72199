use signaling::greeting::GreetingBuffer;
use signaling::transfer::{
    numbered_file_name, offer_answer, sanitize_file_name, size_allowed, OfferAnswer, ReceiveSession,
    ReceiveStep, TransferError, TransferMessage, MAX_FILE_SIZE,
};

fn meta(id: &str, name: &str, size: u64, sha: &str) -> TransferMessage {
    TransferMessage::Metadata {
        id: id.to_string(),
        name: name.to_string(),
        size,
        sha256: sha.to_string(),
        mime: None,
    }
}

#[test]
fn sanitize_keeps_safe_characters() {
    assert_eq!(sanitize_file_name("report-v1_final.pdf"), "report-v1_final.pdf");
    assert_eq!(sanitize_file_name("a b.txt"), "a b.txt");
}

#[test]
fn sanitize_takes_last_component_and_replaces() {
    assert_eq!(sanitize_file_name("../../etc/passwd"), "passwd");
    assert_eq!(sanitize_file_name("dir/we!rd*na:me.txt"), "we_rd_na_me.txt");
    assert_eq!(sanitize_file_name("naïve.txt"), "na_ve.txt");
}

#[test]
fn sanitize_trims_and_falls_back() {
    assert_eq!(sanitize_file_name("  padded.txt  "), "padded.txt");
    assert_eq!(sanitize_file_name("   "), "file");
    assert_eq!(sanitize_file_name(""), "file");
    assert_eq!(sanitize_file_name(".."), "file");
    assert_eq!(sanitize_file_name("/"), "file");
    assert_eq!(sanitize_file_name(".. "), "file");
    assert_eq!(sanitize_file_name(" . "), "file");
    assert_eq!(sanitize_file_name("..."), "...");
}

#[test]
fn numbered_names() {
    assert_eq!(numbered_file_name("report.pdf", 1), "report (1).pdf");
    assert_eq!(numbered_file_name("archive.tar.gz", 2), "archive.tar (2).gz");
    assert_eq!(numbered_file_name("notes", 3), "notes (3)");
    assert_eq!(numbered_file_name(".hidden", 12), ".hidden (12)");
}

#[test]
fn offer_answers() {
    let id = "t1".to_string();
    assert_eq!(offer_answer(&TransferMessage::Accept { id: id.clone() }, &id), OfferAnswer::Accepted);
    assert_eq!(offer_answer(&TransferMessage::Accept { id: "t2".to_string() }, &id), OfferAnswer::Pending);
    assert_eq!(
        offer_answer(&TransferMessage::Reject { id: id.clone(), reason: None }, &id),
        OfferAnswer::Rejected { reason: "rejected".to_string() }
    );
    assert_eq!(
        offer_answer(&TransferMessage::Cancel { id: id.clone(), reason: Some("bye".to_string()) }, &id),
        OfferAnswer::Cancelled { reason: "bye".to_string() }
    );
    assert_eq!(offer_answer(&TransferMessage::Eof { id: id.clone() }, &id), OfferAnswer::Pending);
    assert!(size_allowed(MAX_FILE_SIZE));
    assert!(!size_allowed(MAX_FILE_SIZE + 1));
}

#[test]
fn receive_happy_path() {
    let mut s = ReceiveSession::new();
    assert_eq!(
        s.on_message(&meta("t1", "../x y?.bin", 5, "abc")),
        ReceiveStep::Start { id: "t1".to_string(), temp_name: "t1.x y_.bin.tmp".to_string() }
    );
    assert_eq!(s.on_message(&TransferMessage::Chunk { data: vec![1, 2, 3] }), ReceiveStep::Write);
    assert_eq!(s.on_message(&TransferMessage::Accept { id: "t1".to_string() }), ReceiveStep::Wait);
    assert_eq!(s.on_message(&TransferMessage::Chunk { data: vec![4, 5] }), ReceiveStep::Done);
    assert_eq!(s.received, 5);
    assert_eq!(s.finish(&"abc".to_string()), Ok(Some("x y_.bin".to_string())));
    assert_eq!(s.finish(&"abd".to_string()), Err(TransferError::IntegrityCheckFailed));
}

#[test]
fn receive_refuses_large_and_handles_cancel() {
    let mut s = ReceiveSession::new();
    assert_eq!(
        s.on_message(&meta("big", "f", MAX_FILE_SIZE + 1, "")),
        ReceiveStep::RejectTooLarge { id: "big".to_string() }
    );
    assert!(s.incoming.is_none());
    assert_eq!(s.on_message(&TransferMessage::Chunk { data: vec![1] }), ReceiveStep::Wait);
    assert_eq!(s.received, 0);
    s.on_message(&meta("t1", "f", 10, "h"));
    assert_eq!(s.on_message(&TransferMessage::Cancel { id: "other".to_string(), reason: None }), ReceiveStep::Wait);
    assert_eq!(s.on_message(&TransferMessage::Cancel { id: "t1".to_string(), reason: None }), ReceiveStep::Cancelled);
}

#[test]
fn receive_early_eof_is_size_mismatch() {
    let mut s = ReceiveSession::new();
    s.on_message(&meta("t1", "f", 10, "h"));
    s.on_message(&TransferMessage::Chunk { data: vec![0; 4] });
    assert_eq!(s.on_message(&TransferMessage::Eof { id: "zz".to_string() }), ReceiveStep::Wait);
    assert_eq!(s.on_message(&TransferMessage::Eof { id: "t1".to_string() }), ReceiveStep::Done);
    assert_eq!(s.finish(&"h".to_string()), Err(TransferError::SizeMismatch));
    assert_eq!(ReceiveSession::new().finish(&"h".to_string()), Ok(None));
}

#[test]
fn greet_buffer_commands() {
    let mut b = GreetingBuffer::new();
    assert_eq!(b.greet("__consume__".to_string()), "");
    assert_eq!(b.greet("__list__".to_string()), "");
    assert_eq!(b.greet("Ann".to_string()), "Ann!");
    assert_eq!(b.greet("Bo".to_string()), "Bo!");
    assert_eq!(b.greet("__list__".to_string()), "Bo!|||Ann!");
    assert_eq!(b.greet("__consume__".to_string()), "Bo!");
    assert_eq!(b.greet("__list__".to_string()), "Ann!");
}

#[test]
fn greet_buffer_keeps_ten() {
    let mut b = GreetingBuffer::new();
    for i in 0..12 {
        b.greet(format!("n{}", i));
    }
    let listed = b.greet("__list__".to_string());
    let parts: Vec<&str> = listed.split("|||").collect();
    assert_eq!(parts.len(), 10);
    assert_eq!(parts[0], "n11!");
    assert_eq!(parts[9], "n2!");
}
