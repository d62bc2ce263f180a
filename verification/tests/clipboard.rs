use nodavo_agent::clipboard_port::{
    local_size_valid, received_valid, AppliedClipboard, ClipboardPortError, ClipboardWatch,
    LocalClipboardChange, LocalRepresentation, ReceiveBuffers,
};
use nodavo_agent::clipboard_runtime::{
    clipboard_grants, effective_grants, port_answered, select_representation, ClipboardCall,
    ClipboardConfig, ClipboardEffect, ClipboardMessage, ClipboardOffer, ClipboardPortOutcome,
    ClipboardRun, ClipboardRuntimeError, ClipboardStep, ContentHash, PeerClipboardGrants,
    PeerClipboardRuntime, PlatformKinds, PortAnswer, RepresentationKey, RepresentationKind,
    RepresentationMeta,
};
use nodavo_agent::grants::Capability;
use nodavo_agent::identifiers::{DeviceId, SessionId};
use nodavo_agent::secret::discard;
use nodavo_agent::text::is_utf8;

const MAX_CLIPBOARD_CHUNK_BYTES: usize = 65_536;

fn a_device() -> DeviceId {
    DeviceId::new([1; 32])
}

fn b_device() -> DeviceId {
    DeviceId::new([2; 32])
}

fn kinds() -> PlatformKinds {
    PlatformKinds {
        text: true,
        html: false,
        png: false,
        bmp: false,
    }
}

fn text_key(hash: ContentHash) -> RepresentationKey {
    RepresentationKey {
        origin: a_device(),
        revision: 1,
        kind: RepresentationKind::Utf8Text,
        hash,
    }
}

fn config(
    local_device: DeviceId,
    peer_device: DeviceId,
    local_grants: PeerClipboardGrants,
    peer_capabilities: Capability,
) -> ClipboardConfig {
    ClipboardConfig {
        local_device,
        peer_device,
        session_id: SessionId::new([8; 16]),
        grant_epoch: 1,
        local_grants,
        peer_capabilities,
    }
}

/// Runs to the end; every effect for the platform is handed to `execute`, and
/// what comes back of it goes on.
fn run_to_end(
    runtime: &mut PeerClipboardRuntime,
    mut run: ClipboardRun,
    mut request: impl FnMut(u64, RepresentationKind) -> Vec<ClipboardEffect>,
    mut execute: impl FnMut(ClipboardEffect) -> Vec<ClipboardEffect>,
) -> Vec<ClipboardMessage> {
    loop {
        match run.step(runtime, &kinds()).unwrap() {
            ClipboardStep::Continue => {}
            ClipboardStep::RequestRemote { revision, kind } => {
                run.extend(request(revision, kind));
            }
            ClipboardStep::Execute { effect, .. } => run.extend(execute(effect)),
            ClipboardStep::Finished => return run.into_messages(),
        }
    }
}

#[test]
fn two_peers_stream_bounded_content_with_independent_grants() {
    let content = vec![0x5a; MAX_CLIPBOARD_CHUNK_BYTES + 17];
    let hash = ContentHash { high: 7, low: 9 };
    let key = text_key(hash);
    let meta = RepresentationMeta {
        kind: RepresentationKind::Utf8Text,
        byte_len: u64::try_from(content.len()).unwrap(),
        hash,
    };
    let mut a = PeerClipboardRuntime::new(config(
        a_device(),
        b_device(),
        PeerClipboardGrants {
            allow_peer_read: true,
            allow_peer_write: false,
        },
        Capability::clipboard_write_only(),
    ));
    let mut b = PeerClipboardRuntime::new(config(
        b_device(),
        a_device(),
        PeerClipboardGrants {
            allow_peer_read: false,
            allow_peer_write: true,
        },
        Capability::clipboard_read_only(),
    ));
    let mut watch = ClipboardWatch::new();
    let observation = watch
        .observe_content(
            1,
            vec![LocalRepresentation {
                kind: RepresentationKind::Utf8Text,
                bytes: content.clone(),
                hash,
            }],
            false,
        )
        .unwrap()
        .unwrap();
    assert_eq!(
        observation.change,
        LocalClipboardChange::Content(vec![meta])
    );
    let mut buffers = ReceiveBuffers::new();

    let offered = vec![ClipboardEffect::SendOffer {
        offer: ClipboardOffer::Content {
            origin: a_device(),
            revision: 1,
            representations: vec![meta],
        },
    }];
    assert!(a.polls());
    let run = a.polled(Some(offered)).unwrap();
    let offer = run_to_end(&mut a, run, |_, _| Vec::new(), |_| Vec::new())
        .pop()
        .unwrap();

    let Ok(ClipboardCall::ReceiveOffer { offer }) = b.receive(offer) else {
        panic!("an offer was sent")
    };
    let run = ClipboardRun::start(vec![ClipboardEffect::RemoteOfferAvailable { offer }]);
    let request = run_to_end(
        &mut b,
        run,
        |revision, kind| {
            assert_eq!((revision, kind), (1, RepresentationKind::Utf8Text));
            vec![ClipboardEffect::SendRequest { key }]
        },
        |_| Vec::new(),
    )
    .pop()
    .unwrap();

    let Ok(ClipboardCall::ReceiveRequest { revision, .. }) = a.receive(request) else {
        panic!("a request was sent")
    };
    assert_eq!(revision, 1);
    let read = |effect: ClipboardEffect| match effect {
        ClipboardEffect::ReadLocalChunk {
            key,
            offset,
            max_bytes,
        } => {
            let bytes = watch
                .read_local_chunk(key, offset, max_bytes, MAX_CLIPBOARD_CHUNK_BYTES)
                .unwrap()
                .unwrap();
            let next = offset + u64::try_from(bytes.len()).unwrap();
            let mut effects = vec![ClipboardEffect::SendChunk { key, offset, bytes }];
            if next < u64::try_from(MAX_CLIPBOARD_CHUNK_BYTES + 17).unwrap() {
                effects.push(ClipboardEffect::ReadLocalChunk {
                    key,
                    offset: next,
                    max_bytes: MAX_CLIPBOARD_CHUNK_BYTES,
                });
            }
            effects
        }
        _ => panic!("only reading is asked for"),
    };
    let run = ClipboardRun::start(vec![ClipboardEffect::ReadLocalChunk {
        key,
        offset: 0,
        max_bytes: MAX_CLIPBOARD_CHUNK_BYTES,
    }]);
    let first = run_to_end(&mut a, run, |_, _| Vec::new(), read);
    assert!(matches!(
        first.as_slice(),
        [ClipboardMessage::Chunk { bytes, .. }] if bytes.len() == MAX_CLIPBOARD_CHUNK_BYTES
    ));
    buffers
        .begin_receive(
            key,
            u64::try_from(content.len()).unwrap(),
            1_048_576,
            &kinds(),
        )
        .unwrap();
    for message in first {
        let Ok(ClipboardCall::ReceiveChunk { key, offset, bytes }) = b.receive(message) else {
            panic!("a chunk was sent")
        };
        buffers.write_receive_chunk(key, offset, &bytes).unwrap();
    }
    let run = a.polled(None).unwrap();
    let final_chunk = run_to_end(&mut a, run, |_, _| Vec::new(), read);
    assert!(matches!(
        final_chunk.as_slice(),
        [ClipboardMessage::Chunk { bytes, .. }] if bytes.len() == 17
    ));
    for message in final_chunk {
        let Ok(ClipboardCall::ReceiveChunk { key, offset, bytes }) = b.receive(message) else {
            panic!("a chunk was sent")
        };
        buffers.write_receive_chunk(key, offset, &bytes).unwrap();
    }
    let (received, whole) = buffers.commit_receive(key).unwrap();
    assert!(whole);
    assert_eq!(received, content);
}

#[test]
fn grants_are_what_both_sides_allow() {
    let local = clipboard_grants(Capability::clipboard_read_only());
    assert!(local.allow_peer_read);
    assert!(!local.allow_peer_write);
    let effective = effective_grants(local, Capability::empty());
    assert!(!effective.allow_peer_write);
}

#[test]
fn messages_without_a_grant_are_refused() {
    let mut b = PeerClipboardRuntime::new(config(
        b_device(),
        a_device(),
        PeerClipboardGrants {
            allow_peer_read: false,
            allow_peer_write: false,
        },
        Capability::empty(),
    ));
    assert!(matches!(
        b.receive(ClipboardMessage::Unknown),
        Err(ClipboardRuntimeError::Protocol)
    ));
}

#[test]
fn text_is_preferred_among_what_is_supported() {
    let hash = ContentHash { high: 1, low: 2 };
    let offer = ClipboardOffer::Content {
        origin: a_device(),
        revision: 5,
        representations: vec![
            RepresentationMeta {
                kind: RepresentationKind::Png,
                byte_len: 3,
                hash,
            },
            RepresentationMeta {
                kind: RepresentationKind::Utf8Text,
                byte_len: 3,
                hash,
            },
        ],
    };
    assert_eq!(
        select_representation(&offer, &kinds()),
        Some((5, RepresentationKind::Utf8Text))
    );
    let cleared = ClipboardOffer::Cleared {
        origin: a_device(),
        revision: 5,
    };
    assert_eq!(select_representation(&cleared, &kinds()), None);
}

#[test]
fn platform_answers_are_passed_on() {
    let key = text_key(ContentHash { high: 1, low: 2 });
    assert!(matches!(
        port_answered(ClipboardPortOutcome::Failed, 4),
        PortAnswer::CancelRevision { revision: 4 }
    ));
    assert!(matches!(
        port_answered(ClipboardPortOutcome::RemoteApplied { key }, 4),
        PortAnswer::FinishRemoteApply { key: applied } if applied == key
    ));
}

#[test]
fn received_parts_have_to_fit_each_other() {
    let key = text_key(ContentHash { high: 1, low: 2 });
    let mut buffers = ReceiveBuffers::new();
    buffers.begin_receive(key, 3, 10, &kinds()).unwrap();
    assert_eq!(
        buffers.write_receive_chunk(key, 1, &vec![1]),
        Err(ClipboardPortError::Platform)
    );
    buffers.abort_receive(key);
    assert!(buffers.commit_receive(key).is_none());
    assert!(buffers.begin_receive(key, 11, 10, &kinds()).is_err());
    let content = vec![b'o', b'k'];
    assert!(received_valid(&content, true, true, RepresentationKind::Utf8Text).is_ok());
    assert!(received_valid(&content, true, false, RepresentationKind::Utf8Text).is_err());
    assert!(received_valid(&content, false, true, RepresentationKind::Utf8Text).is_err());
    assert!(local_size_valid(RepresentationKind::Utf8Text, 11, 10).is_err());
}

#[test]
fn what_was_applied_here_is_recognized() {
    let mut watch = ClipboardWatch::new();
    let marker = AppliedClipboard::Cleared {
        origin: b_device(),
        revision: 3,
    };
    watch.mark_applied(7, marker);
    let observation = watch
        .observe(7, Some(LocalClipboardChange::Cleared))
        .unwrap();
    assert_eq!(observation.applied, Some(marker));
    assert!(!watch.changed(7));
    assert!(watch.changed(8));
}

#[test]
fn given_up_content_is_gone() {
    assert!(discard(vec![1, 2, 3]).is_empty());
}

#[test]
fn the_end_of_a_session_voids_what_was_deferred() {
    let grants = PeerClipboardGrants {
        allow_peer_read: true,
        allow_peer_write: true,
    };
    let mut runtime = PeerClipboardRuntime::new(config(
        a_device(),
        b_device(),
        grants,
        Capability {
            remote_input: false,
            clipboard_read: true,
            clipboard_write: true,
            file_transfer: false,
        },
    ));
    let run = runtime.disconnect(Vec::new());
    assert!(run.into_messages().is_empty());
    assert!(runtime.polled(None).is_none());
}

#[test]
fn a_run_numbers_without_a_gap_and_keeps_the_rest() {
    let both = PeerClipboardGrants {
        allow_peer_read: true,
        allow_peer_write: true,
    };
    let capabilities = Capability {
        remote_input: false,
        clipboard_read: true,
        clipboard_write: true,
        file_transfer: false,
    };
    let key = text_key(ContentHash { high: 1, low: 2 });
    let read = |offset| ClipboardEffect::ReadLocalChunk {
        key,
        offset,
        max_bytes: 4,
    };
    let abort = |revision| ClipboardEffect::SendAbort {
        revision,
        reason: 1,
    };
    let mut runtime =
        PeerClipboardRuntime::new(config(a_device(), b_device(), both, capabilities));
    let run = ClipboardRun::start(vec![
        ClipboardEffect::SendRequest { key },
        ClipboardEffect::SendChunk {
            key,
            offset: 0,
            bytes: vec![1],
        },
        abort(5),
        read(1),
        abort(6),
    ]);
    let messages = run_to_end(
        &mut runtime,
        run,
        |_, _| Vec::new(),
        |_| panic!("no chunk is read after a chunk"),
    );
    let sequences: Vec<u64> = messages
        .iter()
        .map(|message| match message {
            ClipboardMessage::Request { meta, .. }
            | ClipboardMessage::Chunk { meta, .. }
            | ClipboardMessage::Abort { meta, .. } => meta.sequence,
            _ => panic!("unexpected message"),
        })
        .collect();
    assert_eq!(sequences, [1, 2, 3]);

    let next = runtime.polled(None).unwrap();
    let mut asked = Vec::new();
    run_to_end(&mut runtime, next, |_, _| Vec::new(), |effect| {
        asked.push(effect);
        Vec::new()
    });
    assert_eq!(asked, [read(1)]);
    let last = runtime.polled(None).unwrap();
    let messages = run_to_end(&mut runtime, last, |_, _| Vec::new(), |_| Vec::new());
    assert!(matches!(
        messages.as_slice(),
        [ClipboardMessage::Abort { meta, revision: 6, .. }] if meta.sequence == 4
    ));
    assert!(runtime.polled(None).is_none());
}

#[test]
fn received_text_has_to_be_utf8() {
    let broken = vec![b'a', 0xff];
    for kind in [RepresentationKind::Utf8Text, RepresentationKind::Html] {
        assert_eq!(
            received_valid(&broken, true, true, kind),
            Err(ClipboardPortError::Platform)
        );
        assert_eq!(
            received_valid(&"\u{e4}\u{20ac}\u{1f980}".into(), true, true, kind),
            Ok(())
        );
        assert_eq!(received_valid(&Vec::new(), true, true, kind), Ok(()));
    }
    for kind in [RepresentationKind::Png, RepresentationKind::Bmp] {
        assert_eq!(received_valid(&broken, true, true, kind), Ok(()));
    }
    assert_eq!(
        received_valid(&broken, true, true, RepresentationKind::FileList),
        Err(ClipboardPortError::Unsupported)
    );
}

#[test]
fn texts_are_told_from_other_bytes_as_the_standard_library_does() {
    let edges = [
        0x00, 0x41, 0x7f, 0x80, 0x8f, 0x90, 0x9f, 0xa0, 0xbf, 0xc0, 0xc1, 0xc2, 0xdf, 0xe0, 0xe1,
        0xec, 0xed, 0xee, 0xef, 0xf0, 0xf1, 0xf3, 0xf4, 0xf5, 0xf7, 0xf8, 0xff,
    ];
    let agree = |bytes: Vec<u8>| {
        assert_eq!(is_utf8(&bytes), String::from_utf8(bytes.clone()).is_ok());
    };
    agree(Vec::new());
    for first in 0..=u8::MAX {
        agree(vec![first]);
        for second in 0..=u8::MAX {
            agree(vec![first, second]);
        }
    }
    for first in edges {
        for second in edges {
            for third in edges {
                agree(vec![first, second, third]);
                for fourth in edges {
                    agree(vec![first, second, third, fourth]);
                    agree(vec![0x41, first, second, third, fourth]);
                }
            }
        }
    }
}
