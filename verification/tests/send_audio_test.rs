use yt_dl_service::chunk_audio::{plan_chunks, ChunkError};
use yt_dl_service::send_audio::{
    is_success_status, part_title, Delivery, DeliveryAction, DeliveryEvent, DeliveryPhase,
    SendOutcome,
};

#[test]
fn test_is_success_status() {
    assert!(is_success_status(200));
    assert!(is_success_status(204));
    assert!(is_success_status(299));
    assert!(!is_success_status(199));
    assert!(!is_success_status(300));
    assert!(!is_success_status(404));
    assert!(!is_success_status(500));
}

#[test]
fn test_part_title() {
    assert_eq!(part_title("Song Title", 1, 3), "Song Title (Part 1/3)");
    assert_eq!(part_title("Song Title", 3, 3), "Song Title (Part 3/3)");
    assert_eq!(part_title("", 2, 10), " (Part 2/10)");
}

#[test]
fn test_delivery_small_file_sent_whole_and_deleted() {
    let mut d = Delivery::new(String::from("./f.mp3"), String::from("T"));
    let a = d.step(DeliveryEvent::SourceSize(10 * 1024 * 1024));
    match a {
        DeliveryAction::SendFile {
            path,
            title,
            delete_after,
        } => {
            assert_eq!(path, "./f.mp3");
            assert_eq!(title, "T");
            assert!(delete_after);
        }
        _ => panic!("expected a single send of the whole file"),
    }
    let a = d.step(DeliveryEvent::SendFinished(SendOutcome::Success));
    assert!(matches!(a, DeliveryAction::Report));
    assert!(matches!(d.phase, DeliveryPhase::Finished));
}

#[test]
fn test_delivery_chunked_sequence() {
    let mut d = Delivery::new(String::from("./f.mp3"), String::from("T"));
    let a = d.step(DeliveryEvent::SourceSize(110 * 1024 * 1024));
    assert!(matches!(a, DeliveryAction::SplitSource));

    let chunks = plan_chunks(110 * 1024 * 1024, ".", "f.mp3");
    let a = d.step(DeliveryEvent::SplitOk(chunks));
    match a {
        DeliveryAction::SendFile {
            path,
            title,
            delete_after,
        } => {
            assert_eq!(path, "./1_f.mp3");
            assert_eq!(title, "T (Part 1/3)");
            assert!(!delete_after);
        }
        _ => panic!("expected the first chunk send"),
    }

    // A rejected send must not stop the later chunks
    let a = d.step(DeliveryEvent::SendFinished(SendOutcome::EndpointRejection));
    match a {
        DeliveryAction::SendFile {
            path,
            title,
            delete_after,
        } => {
            assert_eq!(path, "./2_f.mp3");
            assert_eq!(title, "T (Part 2/3)");
            assert!(!delete_after);
        }
        _ => panic!("expected the second chunk send"),
    }

    let a = d.step(DeliveryEvent::SendFinished(SendOutcome::Success));
    match a {
        DeliveryAction::SendFile { path, title, .. } => {
            assert_eq!(path, "./3_f.mp3");
            assert_eq!(title, "T (Part 3/3)");
        }
        _ => panic!("expected the third chunk send"),
    }

    // After the last send attempt, every chunk is removed in order
    let a = d.step(DeliveryEvent::SendFinished(SendOutcome::TransportFailure));
    match a {
        DeliveryAction::RemoveFile { path } => assert_eq!(path, "./1_f.mp3"),
        _ => panic!("expected removal of the first chunk"),
    }

    // A failed removal must not stop the later removals
    let a = d.step(DeliveryEvent::RemoveFinished(false));
    match a {
        DeliveryAction::RemoveFile { path } => assert_eq!(path, "./2_f.mp3"),
        _ => panic!("expected removal of the second chunk"),
    }

    let a = d.step(DeliveryEvent::RemoveFinished(true));
    match a {
        DeliveryAction::RemoveFile { path } => assert_eq!(path, "./3_f.mp3"),
        _ => panic!("expected removal of the third chunk"),
    }

    // The source file goes last, once per job
    let a = d.step(DeliveryEvent::RemoveFinished(true));
    match a {
        DeliveryAction::RemoveFile { path } => assert_eq!(path, "./f.mp3"),
        _ => panic!("expected removal of the source file"),
    }

    let a = d.step(DeliveryEvent::RemoveFinished(true));
    assert!(matches!(a, DeliveryAction::Report));
    assert!(matches!(d.phase, DeliveryPhase::Finished));
}

#[test]
fn test_delivery_split_failure_falls_back_to_whole_file() {
    let mut d = Delivery::new(String::from("./f.mp3"), String::from("T"));
    let a = d.step(DeliveryEvent::SourceSize(60 * 1024 * 1024));
    assert!(matches!(a, DeliveryAction::SplitSource));

    let a = d.step(DeliveryEvent::SplitFailed(ChunkError::Io(String::from(
        "read failed",
    ))));
    match a {
        DeliveryAction::SendFile {
            path,
            title,
            delete_after,
        } => {
            assert_eq!(path, "./f.mp3");
            assert_eq!(title, "T");
            assert!(delete_after);
        }
        _ => panic!("expected the fallback single send"),
    }

    let a = d.step(DeliveryEvent::SendFinished(SendOutcome::EndpointRejection));
    assert!(matches!(a, DeliveryAction::Report));
    assert!(matches!(d.phase, DeliveryPhase::Finished));
}

#[test]
fn test_delivery_stat_failure_stops_the_job() {
    let mut d = Delivery::new(String::from("./f.mp3"), String::from("T"));
    let a = d.step(DeliveryEvent::SourceStatFailed);
    assert!(matches!(a, DeliveryAction::Report));
    assert!(matches!(d.phase, DeliveryPhase::Finished));
}
