use file_backup_service::announce::{
    acknowledgment_message, check_name, compose_announcement, decode_message, is_acknowledgment,
    is_name_byte, parse_announcement, read_announcement, rejection_message,
};
use file_backup_service::archive::{select_pipeline, Pipeline, SourceKind, TransferRequest};
use file_backup_service::connection::Connection;
use file_backup_service::copier::{ChunkedCopier, CopyAction, CopyEvent, Endpoint};
use file_backup_service::dispatcher::{DispatchAction, DispatchEvent, DispatchPhase, Dispatcher};
use file_backup_service::error::TransferError;
use file_backup_service::naming::Timestamp;
use file_backup_service::receiver::{ReceiverAction, ReceiverEvent, ReceiverPhase, ReceiverSession};
use file_backup_service::sender::{SenderAction, SenderEvent, SenderPhase, SenderSession};

fn noon() -> Timestamp {
    Timestamp { year: 2025, month: 11, day: 30, hour: 12, minute: 0, second: 7 }
}

fn announced(message: &str) -> ReceiverEvent {
    ReceiverEvent::Message { bytes: message.as_bytes().to_vec(), received_at: noon() }
}

fn receiver() -> ReceiverSession {
    ReceiverSession::new(String::from("10.0.0.5"), String::from("/srv/backups/"))
}

#[test]
fn connection_owns_its_stream() {
    let connection = Connection::new(vec![1u8, 2, 3]);
    assert_eq!(connection.stream, vec![1u8, 2, 3]);
}

#[test]
fn name_bytes_are_letters_digits_dot_underscore_hyphen() {
    for b in 0..=255u8 {
        let expected = b.is_ascii_alphanumeric() || b == b'.' || b == b'_' || b == b'-';
        assert_eq!(is_name_byte(b), expected, "byte {}", b);
    }
}

#[test]
fn names_are_checked_against_the_pattern() {
    assert!(check_name("backup.tar.gz"));
    assert!(check_name("a"));
    assert!(check_name("..."));
    assert!(check_name("-_-"));
    assert!(!check_name(""));
    assert!(!check_name("a/b"));
    assert!(!check_name("a b"));
    assert!(!check_name("a\0"));
    assert!(!check_name("naïve"));
    assert!(!check_name("a:b"));
}

#[test]
fn announcement_wraps_the_name() {
    assert_eq!(compose_announcement("backup.tar.gz"), "filename:backup.tar.gz:filename");
    assert_eq!(compose_announcement(""), "filename::filename");
}

#[test]
fn announcement_is_read_back_as_the_name() {
    for name in ["a", "backup.tar.gz", "filename", "x.filename", "A_b-9.gz"] {
        let message = compose_announcement(name);
        assert_eq!(parse_announcement(&message), Ok(String::from(name)));
        assert_eq!(read_announcement(message.into_bytes()), Ok(String::from(name)));
    }
    for name in ["", "a/b", "..\\x", "a b", "ü"] {
        let message = compose_announcement(name);
        assert_eq!(parse_announcement(&message), Err(TransferError::Validation));
    }
}

#[test]
fn messages_that_are_not_utf8_are_a_validation_error() {
    assert_eq!(decode_message(vec![0xff, 0xfe]), Err(TransferError::Validation));
    assert_eq!(decode_message(vec![0xc3]), Err(TransferError::Validation));
    assert_eq!(decode_message(vec![0xc3, 0xa9]), Ok(String::from("é")));
    assert_eq!(decode_message(Vec::new()), Ok(String::new()));
    let mut bytes = b"filename:a".to_vec();
    bytes.push(0x80);
    bytes.extend_from_slice(b":filename");
    assert_eq!(read_announcement(bytes), Err(TransferError::Validation));
}

#[test]
fn only_the_two_bytes_of_ok_acknowledge() {
    assert!(is_acknowledgment(b"OK"));
    assert!(is_acknowledgment(acknowledgment_message().as_bytes()));
    assert!(!is_acknowledgment(rejection_message().as_bytes()));
    for response in [&b""[..], b"O", b"ok", b"Ok", b"OK\n", b" OK", b"OKOK", b"KO", b"NO"] {
        assert!(!is_acknowledgment(response));
    }
    assert_eq!(acknowledgment_message(), "OK");
    assert_eq!(rejection_message(), "Invalid message");
}

#[test]
fn archive_name_tells_file_from_directory() {
    let file = TransferRequest::new("notes.txt", false);
    assert_eq!(file.announced_name, "notes.txt.gz");
    assert!(!file.is_directory);
    assert_eq!(file.pipeline(), Pipeline::CompressedFile);
    let tree = TransferRequest::new("test_files", true);
    assert_eq!(tree.announced_name, "test_files.tar.gz");
    assert!(tree.is_directory);
    assert_eq!(tree.pipeline(), Pipeline::CompressedTree);
}

#[test]
fn only_files_and_directories_are_sent() {
    assert_eq!(select_pipeline(SourceKind::File), Ok(Pipeline::CompressedFile));
    assert_eq!(select_pipeline(SourceKind::Directory), Ok(Pipeline::CompressedTree));
    assert_eq!(select_pipeline(SourceKind::Other), Err(TransferError::Filesystem));
}

#[test]
fn errors_describe_themselves() {
    assert_eq!(TransferError::Validation.describe(), "Invalid message");
    let all = [
        TransferError::Transport,
        TransferError::Validation,
        TransferError::Codec,
        TransferError::Filesystem,
        TransferError::Handshake,
    ];
    for (i, a) in all.iter().enumerate() {
        assert!(!a.describe().is_empty());
        for b in &all[i + 1..] {
            assert_ne!(a.describe(), b.describe());
        }
    }
}

#[test]
fn receiver_accepts_acknowledges_then_stores() {
    let mut session = receiver();
    assert_eq!(session.action(), ReceiverAction::ReadAnnouncement);
    assert_eq!(session.phase, ReceiverPhase::AwaitAnnounce);

    let action = session.step(announced("filename:backup.tar.gz:filename"));
    assert_eq!(action, ReceiverAction::Send { message: String::from("OK") });
    assert_eq!(session.phase, ReceiverPhase::AckOk);

    let action = session.step(ReceiverEvent::Sent);
    assert_eq!(
        action,
        ReceiverAction::Store {
            path: String::from("/srv/backups/11302025_120007__10.0.0.5__backup.tar.gz"),
        }
    );
    assert_eq!(session.phase, ReceiverPhase::Streaming);

    let action = session.step(ReceiverEvent::Stored { total_bytes: 1_048_577 });
    assert_eq!(action, ReceiverAction::Shutdown { outcome: Ok(1_048_577) });
    assert_eq!(session.phase, ReceiverPhase::Done { total_bytes: 1_048_577 });
}

#[test]
fn receiver_rejects_traversal_and_builds_no_path() {
    let mut session = receiver();
    let action = session.step(announced("filename:../../etc/passwd:filename"));
    assert_eq!(action, ReceiverAction::Send { message: String::from("Invalid message") });
    assert_eq!(session.phase, ReceiverPhase::AckError);
    assert_eq!(session.destination, "");

    let action = session.step(ReceiverEvent::Sent);
    assert_eq!(action, ReceiverAction::Shutdown { outcome: Err(TransferError::Validation) });
    assert_eq!(session.phase, ReceiverPhase::Closed { error: TransferError::Validation });
    assert_eq!(session.destination, "");
}

#[test]
fn receiver_reports_validation_even_if_the_rejection_is_lost() {
    let mut session = receiver();
    session.step(ReceiverEvent::Message { bytes: vec![0xff], received_at: noon() });
    assert_eq!(session.phase, ReceiverPhase::AckError);
    let action = session.step(ReceiverEvent::Failed { error: TransferError::Transport });
    assert_eq!(action, ReceiverAction::Shutdown { outcome: Err(TransferError::Validation) });
}

#[test]
fn receiver_closes_on_failure_in_every_phase() {
    let mut reading = receiver();
    assert_eq!(
        reading.step(ReceiverEvent::Failed { error: TransferError::Transport }),
        ReceiverAction::Shutdown { outcome: Err(TransferError::Transport) }
    );

    let mut acknowledging = receiver();
    acknowledging.step(announced("filename:a:filename"));
    assert_eq!(
        acknowledging.step(ReceiverEvent::Failed { error: TransferError::Transport }),
        ReceiverAction::Shutdown { outcome: Err(TransferError::Transport) }
    );

    let mut storing = receiver();
    storing.step(announced("filename:a:filename"));
    storing.step(ReceiverEvent::Sent);
    assert_eq!(
        storing.step(ReceiverEvent::Failed { error: TransferError::Filesystem }),
        ReceiverAction::Shutdown { outcome: Err(TransferError::Filesystem) }
    );
    assert_eq!(storing.phase, ReceiverPhase::Closed { error: TransferError::Filesystem });
}

#[test]
fn receiver_never_stores_before_the_acknowledgment_is_out() {
    let mut early = receiver();
    assert_eq!(
        early.step(ReceiverEvent::Sent),
        ReceiverAction::Shutdown { outcome: Err(TransferError::Transport) }
    );

    let mut skipping = receiver();
    skipping.step(announced("filename:a:filename"));
    assert_eq!(
        skipping.step(ReceiverEvent::Stored { total_bytes: 10 }),
        ReceiverAction::Shutdown { outcome: Err(TransferError::Transport) }
    );

    let mut twice = receiver();
    twice.step(announced("filename:a:filename"));
    assert_eq!(
        twice.step(announced("filename:b:filename")),
        ReceiverAction::Shutdown { outcome: Err(TransferError::Transport) }
    );
}

#[test]
fn an_ended_receiver_stays_ended() {
    let mut session = receiver();
    session.step(announced("filename:a:filename"));
    session.step(ReceiverEvent::Sent);
    session.step(ReceiverEvent::Stored { total_bytes: 3 });
    let ended = session.clone();
    for event in [
        announced("filename:b:filename"),
        ReceiverEvent::Sent,
        ReceiverEvent::Stored { total_bytes: 9 },
        ReceiverEvent::Failed { error: TransferError::Transport },
    ] {
        assert_eq!(session.step(event), ReceiverAction::Shutdown { outcome: Ok(3) });
        assert_eq!(session, ended);
    }
}

#[test]
fn a_message_received_now_carries_a_calendar_time() {
    let event = ReceiverEvent::received_now(b"filename:a:filename".to_vec());
    match event {
        ReceiverEvent::Message { bytes, received_at } => {
            assert_eq!(bytes, b"filename:a:filename");
            assert!((1..=12).contains(&received_at.month));
            assert!((1..=31).contains(&received_at.day));
            assert!(received_at.hour <= 23);
            assert!(received_at.minute <= 59);
            assert!(received_at.second <= 59);
            assert!(received_at.year >= 2024);
        }
        other => panic!("not a message: {:?}", other),
    }
}

#[test]
fn sender_announces_waits_then_streams() {
    let mut session = SenderSession::new(TransferRequest::new("test_files", true));
    assert_eq!(
        session.action(),
        SenderAction::Send { message: String::from("filename:test_files.tar.gz:filename") }
    );
    assert_eq!(session.step(SenderEvent::Sent), SenderAction::ReadResponse);
    assert_eq!(session.phase, SenderPhase::AwaitAck);
    assert_eq!(
        session.step(SenderEvent::Response { bytes: b"OK".to_vec() }),
        SenderAction::Stream { pipeline: Pipeline::CompressedTree }
    );
    assert_eq!(session.phase, SenderPhase::Streaming);
    assert_eq!(
        session.step(SenderEvent::Streamed { total_bytes: 42 }),
        SenderAction::Shutdown { outcome: Ok(42) }
    );
    assert_eq!(session.phase, SenderPhase::Done { total_bytes: 42 });
    assert_eq!(session.step(SenderEvent::Sent), SenderAction::Shutdown { outcome: Ok(42) });
}

#[test]
fn sender_gives_up_on_any_answer_but_ok() {
    for answer in [&b"Invalid message"[..], b"", b"ok", b"OK\n", b"OK ", b"\xff"] {
        let mut session = SenderSession::new(TransferRequest::new("a.txt", false));
        session.step(SenderEvent::Sent);
        assert_eq!(
            session.step(SenderEvent::Response { bytes: answer.to_vec() }),
            SenderAction::Shutdown { outcome: Err(TransferError::Handshake) }
        );
        assert_eq!(session.phase, SenderPhase::Failed { error: TransferError::Handshake });
        assert_eq!(
            session.step(SenderEvent::Response { bytes: b"OK".to_vec() }),
            SenderAction::Shutdown { outcome: Err(TransferError::Handshake) }
        );
    }
}

#[test]
fn sender_never_streams_before_the_answer() {
    let mut early = SenderSession::new(TransferRequest::new("a.txt", false));
    assert_eq!(
        early.step(SenderEvent::Response { bytes: b"OK".to_vec() }),
        SenderAction::Shutdown { outcome: Err(TransferError::Transport) }
    );
    let mut skipping = SenderSession::new(TransferRequest::new("a.txt", false));
    skipping.step(SenderEvent::Sent);
    assert_eq!(
        skipping.step(SenderEvent::Streamed { total_bytes: 1 }),
        SenderAction::Shutdown { outcome: Err(TransferError::Transport) }
    );
    let mut failing = SenderSession::new(TransferRequest::new("a.txt", false));
    failing.step(SenderEvent::Sent);
    failing.step(SenderEvent::Response { bytes: b"OK".to_vec() });
    assert_eq!(
        failing.step(SenderEvent::Failed { error: TransferError::Codec }),
        SenderAction::Shutdown { outcome: Err(TransferError::Codec) }
    );
}

#[test]
fn dispatcher_serves_every_connection_and_survives_its_units() {
    let mut dispatcher = Dispatcher::new(String::from("/srv/backups/"));
    let served = dispatcher.step(DispatchEvent::Accepted { peer_ip: String::from("10.0.0.5") });
    assert_eq!(
        served,
        DispatchAction::Serve {
            session: ReceiverSession::new(String::from("10.0.0.5"), String::from("/srv/backups/")),
        }
    );
    for outcome in [
        Ok(0),
        Ok(77),
        Err(TransferError::Transport),
        Err(TransferError::Validation),
        Err(TransferError::Codec),
        Err(TransferError::Filesystem),
        Err(TransferError::Handshake),
    ] {
        assert_eq!(dispatcher.step(DispatchEvent::UnitEnded { outcome }), DispatchAction::Accept);
        assert_eq!(dispatcher.phase, DispatchPhase::Accepting);
    }
    assert_eq!(
        dispatcher.step(DispatchEvent::AcceptFailed),
        DispatchAction::Stop { error: TransferError::Transport }
    );
    assert_eq!(
        dispatcher.step(DispatchEvent::Accepted { peer_ip: String::from("10.0.0.6") }),
        DispatchAction::Stop { error: TransferError::Transport }
    );
    assert_eq!(dispatcher.phase, DispatchPhase::Stopped { error: TransferError::Transport });
}

#[test]
fn simultaneous_peers_with_one_name_get_two_files() {
    let mut dispatcher = Dispatcher::new(String::from("/srv/backups"));
    let mut paths = Vec::new();
    for peer in ["10.0.0.5", "10.0.0.6"] {
        let action = dispatcher.step(DispatchEvent::Accepted { peer_ip: String::from(peer) });
        let mut session = match action {
            DispatchAction::Serve { session } => session,
            other => panic!("not served: {:?}", other),
        };
        session.step(announced("filename:backup.tar.gz:filename"));
        match session.step(ReceiverEvent::Sent) {
            ReceiverAction::Store { path } => paths.push(path),
            other => panic!("not stored: {:?}", other),
        }
    }
    assert_eq!(paths[0], "/srv/backups/11302025_120007__10.0.0.5__backup.tar.gz");
    assert_eq!(paths[1], "/srv/backups/11302025_120007__10.0.0.6__backup.tar.gz");
    assert_ne!(paths[0], paths[1]);
}

/// Moves `payload` through a copier in chunks of `chunk_size`.
fn relay(payload: &[u8], chunk_size: usize, from: Endpoint, to: Endpoint) -> (Vec<u8>, Result<u64, TransferError>) {
    let mut copier = ChunkedCopier::new(from, to, chunk_size);
    let mut buffer = vec![0u8; chunk_size];
    let mut taken = 0usize;
    let mut sink = Vec::new();
    let mut action = copier.action();
    loop {
        let event = match action {
            CopyAction::Read { max } => {
                let count = max.min(payload.len() - taken);
                buffer[..count].copy_from_slice(&payload[taken..taken + count]);
                taken += count;
                CopyEvent::Read { count }
            }
            CopyAction::Write { from, to } => {
                sink.extend_from_slice(&buffer[from..to]);
                CopyEvent::Wrote { count: to - from }
            }
            CopyAction::Flush => CopyEvent::Flushed,
            CopyAction::Finish { total_bytes } => return (sink, Ok(total_bytes)),
            CopyAction::Abort { error } => return (sink, Err(error)),
        };
        action = copier.step(event);
    }
}

#[test]
fn a_whole_transfer_delivers_the_archive_unchanged() {
    let archive: Vec<u8> = (0..100_000u32).map(|i| (i % 251) as u8).collect();
    let mut sender = SenderSession::new(TransferRequest::new("photos", true));
    let mut receiver = ReceiverSession::new(String::from("192.168.1.20"), String::from("/backups"));

    let announcement = match sender.action() {
        SenderAction::Send { message } => message,
        other => panic!("sender does not announce: {:?}", other),
    };
    assert_eq!(sender.step(SenderEvent::Sent), SenderAction::ReadResponse);
    assert_eq!(receiver.action(), ReceiverAction::ReadAnnouncement);

    let answer = match receiver.step(ReceiverEvent::Message {
        bytes: announcement.into_bytes(),
        received_at: noon(),
    }) {
        ReceiverAction::Send { message } => message,
        other => panic!("receiver does not answer: {:?}", other),
    };
    let path = match receiver.step(ReceiverEvent::Sent) {
        ReceiverAction::Store { path } => path,
        other => panic!("receiver does not store: {:?}", other),
    };
    assert_eq!(path, "/backups/11302025_120007__192.168.1.20__photos.tar.gz");

    let pipeline = match sender.step(SenderEvent::Response { bytes: answer.into_bytes() }) {
        SenderAction::Stream { pipeline } => pipeline,
        other => panic!("sender does not stream: {:?}", other),
    };
    assert_eq!(pipeline, Pipeline::CompressedTree);

    let (on_channel, sent) = relay(&archive, 15_360, Endpoint::Codec, Endpoint::Channel);
    let (in_file, stored) = relay(&on_channel, 15_360, Endpoint::Channel, Endpoint::File);
    assert_eq!(sent, Ok(100_000));
    assert_eq!(stored, Ok(100_000));
    assert_eq!(in_file, archive);

    assert_eq!(
        sender.step(SenderEvent::Streamed { total_bytes: sent.unwrap() }),
        SenderAction::Shutdown { outcome: Ok(100_000) }
    );
    assert_eq!(
        receiver.step(ReceiverEvent::Stored { total_bytes: stored.unwrap() }),
        ReceiverAction::Shutdown { outcome: Ok(100_000) }
    );
}

#[test]
fn a_rejected_transfer_ends_on_both_sides() {
    let mut sender = SenderSession::new(TransferRequest::new("my photos", true));
    let mut receiver = ReceiverSession::new(String::from("192.168.1.20"), String::from("/backups"));
    let announcement = match sender.action() {
        SenderAction::Send { message } => message,
        other => panic!("sender does not announce: {:?}", other),
    };
    sender.step(SenderEvent::Sent);
    let answer = match receiver.step(ReceiverEvent::Message {
        bytes: announcement.into_bytes(),
        received_at: noon(),
    }) {
        ReceiverAction::Send { message } => message,
        other => panic!("receiver does not answer: {:?}", other),
    };
    assert_eq!(
        receiver.step(ReceiverEvent::Sent),
        ReceiverAction::Shutdown { outcome: Err(TransferError::Validation) }
    );
    assert_eq!(
        sender.step(SenderEvent::Response { bytes: answer.into_bytes() }),
        SenderAction::Shutdown { outcome: Err(TransferError::Handshake) }
    );
}
