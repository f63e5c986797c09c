use ctf_server::session::{
    challenge_dependencies, challenge_namespace, solution_dependencies, solution_namespace,
    Address, Command, Directive, Entry, Event, Identity, ObjectRef, Session, SessionError, Stage,
};
use ctf_server::wire::{challenge_message, solution_payload, token_message, SOLUTION_BUFFER_LEN};

fn address(last: u8) -> Address {
    let mut bytes = [0u8; 32];
    bytes[0] = 0x12;
    bytes[31] = last;
    Address { bytes }
}

fn address_hex(last: u8) -> String {
    format!("12{}{:02x}", "0".repeat(60), last)
}

fn module_bytes(len: usize) -> Vec<u8> {
    let mut m = vec![0xA1, 0x1C, 0xEB, 0x0B];
    while m.len() < len {
        m.push((m.len() % 251) as u8 + 1);
    }
    m
}

fn text(d: &Directive) -> Option<String> {
    d.message.as_ref().map(|m| String::from_utf8(m.clone()).unwrap())
}

fn is_error(d: &Directive, e: SessionError) -> bool {
    matches!(&d.command, Command::Finish { outcome: Err(x) } if *x == e)
}

/// Drives a session up to the point where it waits for the client's module.
fn session_awaiting(token: Option<&str>, challenge: Address) -> Session {
    let mut s = Session::new(token.map(|t| t.as_bytes().to_vec()));
    let d = Session::initial_directive();
    assert!(matches!(d.command, Command::InitBackend));
    let d = s.step(Event::Ready);
    assert!(matches!(d.command, Command::Inspect { object: ObjectRef { sequence: 0, index: 0 } }));
    let d = s.step(Event::Found);
    assert!(matches!(d.command, Command::DeployChallenge { sender: Identity::Challenger }));
    let d = s.step(Event::Deployed { address: challenge });
    assert!(d.message.is_none());
    assert!(matches!(d.command, Command::ReadSolution { max_len: 2000 }));
    s
}

#[test]
fn full_session_reveals_token() {
    let mut s = session_awaiting(Some("flag{abc}"), address(0xab));
    let mut messages: Vec<String> = Vec::new();

    let module = module_bytes(1200);
    let d = s.step(Event::Received { data: module.clone() });
    messages.push(text(&d).unwrap());
    match &d.command {
        Command::DeploySolution { payload, sender } => {
            assert_eq!(*sender, Identity::Solver);
            assert_eq!(payload.len(), 2000);
            assert_eq!(&payload[..1200], &module[..]);
            assert!(payload[1200..].iter().all(|b| *b == 0));
        }
        other => panic!("unexpected command {:?}", other),
    }

    let d = s.step(Event::Deployed { address: address(0xcd) });
    messages.push(text(&d).unwrap());
    match &d.command {
        Command::Invoke { call } => {
            assert_eq!(call.address.bytes, address(0xab).bytes);
            assert_eq!(call.entry, Entry::ChallengeCreate);
            assert_eq!(call.argument, ObjectRef { sequence: 2, index: 2 });
            assert_eq!(call.sender, Identity::Challenger);
        }
        other => panic!("unexpected command {:?}", other),
    }

    let d = s.step(Event::Called);
    assert!(matches!(d.command, Command::Inspect { object: ObjectRef { sequence: 2, index: 0 } }));
    let d = s.step(Event::Found);
    assert!(matches!(d.command, Command::Inspect { object: ObjectRef { sequence: 2, index: 1 } }));
    let d = s.step(Event::Found);
    assert!(matches!(d.command, Command::Inspect { object: ObjectRef { sequence: 2, index: 2 } }));
    let d = s.step(Event::Found);
    assert!(d.message.is_none());
    match &d.command {
        Command::Invoke { call } => {
            assert_eq!(call.address.bytes, address(0xcd).bytes);
            assert_eq!(call.entry, Entry::SolutionSolve);
            assert_eq!(call.argument, ObjectRef { sequence: 4, index: 0 });
            assert_eq!(call.sender, Identity::Solver);
        }
        other => panic!("unexpected command {:?}", other),
    }

    let d = s.step(Event::Called);
    match &d.command {
        Command::Invoke { call } => {
            assert_eq!(call.address.bytes, address(0xab).bytes);
            assert_eq!(call.entry, Entry::ChallengeIsSolved);
            assert_eq!(call.argument, ObjectRef { sequence: 4, index: 0 });
            assert_eq!(call.sender, Identity::Solver);
        }
        other => panic!("unexpected command {:?}", other),
    }

    let d = s.step(Event::Called);
    messages.push(text(&d).unwrap());
    assert!(matches!(d.command, Command::Finish { outcome: Ok(()) }));
    assert_eq!(s.stage, Stage::Done);

    assert_eq!(
        messages,
        vec![
            format!("[SERVER] challenge modules published at: {}", address_hex(0xab)),
            format!("[SERVER] Solution published at {}", address_hex(0xcd)),
            "[SERVER] Congrats, flag: flag{abc}".to_string(),
        ]
    );
}

#[test]
fn missing_token_gives_notice() {
    let mut s = session_awaiting(None, address(1));
    s.step(Event::Received { data: module_bytes(64) });
    s.step(Event::Deployed { address: address(2) });
    s.step(Event::Called);
    s.step(Event::Found);
    s.step(Event::Found);
    s.step(Event::Found);
    s.step(Event::Called);
    let d = s.step(Event::Called);
    assert_eq!(text(&d).unwrap(), "[SERVER] Flag not found, please contact admin");
    assert!(matches!(d.command, Command::Finish { outcome: Ok(()) }));
}

#[test]
fn garbage_solution_ends_after_challenge_line() {
    let mut s = session_awaiting(Some("T"), address(7));
    let d = s.step(Event::Received { data: b"not a module at all".to_vec() });
    assert_eq!(
        text(&d).unwrap(),
        format!("[SERVER] challenge modules published at: {}", address_hex(7))
    );
    assert!(is_error(&d, SessionError::SolutionDeployFailed));
    assert_eq!(s.stage, Stage::Done);
    let d = s.step(Event::Deployed { address: address(8) });
    assert!(d.message.is_none());
}

#[test]
fn empty_solution_fails_without_deploying() {
    let mut s = session_awaiting(Some("T"), address(7));
    let d = s.step(Event::Received { data: Vec::new() });
    assert!(is_error(&d, SessionError::SolutionDeployFailed));
    assert_eq!(s.stage, Stage::Done);
}

#[test]
fn challenge_deploy_failure_never_reads() {
    for (event, error) in [
        (Event::Rejected, SessionError::ChallengeDeployFailed),
        (Event::Failed, SessionError::ChallengeDeployFailed),
        (Event::Missing, SessionError::ArtifactNotFound),
        (Event::Corrupt, SessionError::ChallengeDeployFailed),
    ] {
        let mut s = Session::new(None);
        s.step(Event::Ready);
        s.step(Event::Found);
        let d = s.step(event);
        assert_eq!(text(&d).unwrap(), "[SERVER] Error publishing module");
        assert!(is_error(&d, error));
        let d = s.step(Event::Received { data: module_bytes(10) });
        assert!(!matches!(d.command, Command::ReadSolution { .. }));
        assert!(d.message.is_none());
    }
}

#[test]
fn early_failures_are_silent() {
    let mut s = Session::new(None);
    let d = s.step(Event::Failed);
    assert!(d.message.is_none());
    assert!(is_error(&d, SessionError::BackendInitFailed));

    let mut s = Session::new(None);
    s.step(Event::Ready);
    let d = s.step(Event::Missing);
    assert!(d.message.is_none());
    assert!(is_error(&d, SessionError::BaselineInvalid));

    let mut s = session_awaiting(None, address(3));
    let d = s.step(Event::Failed);
    assert!(d.message.is_none());
    assert!(is_error(&d, SessionError::SolutionReadFailed));
}

#[test]
fn solution_deploy_failures() {
    let mut s = session_awaiting(None, address(3));
    s.step(Event::Received { data: module_bytes(8) });
    let d = s.step(Event::Rejected);
    assert_eq!(text(&d).unwrap(), "[SERVER] Error publishing module");
    assert!(is_error(&d, SessionError::SolutionDeployFailed));

    let mut s = session_awaiting(None, address(3));
    s.step(Event::Received { data: module_bytes(8) });
    let d = s.step(Event::Corrupt);
    assert!(d.message.is_none());
    assert!(is_error(&d, SessionError::SolutionDeployFailed));
}

#[test]
fn later_failures_are_silent() {
    let expected = [
        SessionError::ProvisionFailed,
        SessionError::StateSanityFailed,
        SessionError::StateSanityFailed,
        SessionError::StateSanityFailed,
        SessionError::SolveInvocationFailed,
        SessionError::VerificationFailed,
    ];
    let successes = [Event::Called, Event::Found, Event::Found, Event::Found, Event::Called];
    for (k, error) in expected.iter().enumerate() {
        let mut s = session_awaiting(Some("T"), address(3));
        s.step(Event::Received { data: module_bytes(8) });
        s.step(Event::Deployed { address: address(4) });
        for e in successes.iter().take(k) {
            let e = match e {
                Event::Called => Event::Called,
                _ => Event::Found,
            };
            s.step(e);
        }
        let d = s.step(Event::Failed);
        assert!(d.message.is_none());
        assert!(is_error(&d, *error), "step {}", k);
        assert_eq!(s.stage, Stage::Done);
    }
}

#[test]
fn two_sessions_keep_their_own_addresses() {
    let mut a = session_awaiting(Some("T"), address(0x10));
    let mut b = session_awaiting(Some("T"), address(0x20));
    let da = a.step(Event::Received { data: module_bytes(32) });
    let db = b.step(Event::Received { data: module_bytes(32) });
    assert_eq!(
        text(&da).unwrap(),
        format!("[SERVER] challenge modules published at: {}", address_hex(0x10))
    );
    assert_eq!(
        text(&db).unwrap(),
        format!("[SERVER] challenge modules published at: {}", address_hex(0x20))
    );
    assert_eq!(a.challenge.unwrap().bytes, address(0x10).bytes);
    assert_eq!(b.challenge.unwrap().bytes, address(0x20).bytes);
}

#[test]
fn payload_is_padded_and_cut() {
    let p = solution_payload(&[1, 2, 3]);
    assert_eq!(p.len(), SOLUTION_BUFFER_LEN);
    assert_eq!(&p[..3], &[1, 2, 3]);
    assert!(p[3..].iter().all(|b| *b == 0));
    let long: Vec<u8> = (0..2500u32).map(|i| (i % 200) as u8 + 1).collect();
    let p = solution_payload(&long);
    assert_eq!(p, long[..2000].to_vec());
}

#[test]
fn address_rendering() {
    let bytes: Vec<u8> = (0..32u8).collect();
    let m = challenge_message(&bytes);
    assert_eq!(
        String::from_utf8(m).unwrap(),
        "[SERVER] challenge modules published at: \
         000102030405060708090a0b0c0d0e0f101112131415161718191a1b1c1d1e1f"
    );
    assert_eq!(token_message(&Some(b"X".to_vec())), b"[SERVER] Congrats, flag: X".to_vec());
}

#[test]
fn identity_and_entry_names() {
    assert_eq!(Identity::Challenger.name(), "challenger");
    assert_eq!(Identity::Solver.name(), "solver");
    assert_eq!(Entry::ChallengeCreate.module_name(), "challenge");
    assert_eq!(Entry::ChallengeCreate.function_name(), "create");
    assert_eq!(Entry::SolutionSolve.module_name(), "solution");
    assert_eq!(Entry::SolutionSolve.function_name(), "solve");
    assert_eq!(Entry::ChallengeIsSolved.function_name(), "is_solved");
}

#[test]
fn deployment_namespaces_and_dependencies() {
    assert_eq!(challenge_namespace(), "challenge");
    assert_eq!(solution_namespace(), "solution");
    assert!(challenge_dependencies().is_empty());
    assert_eq!(solution_dependencies(), vec!["challenge".to_string()]);
    assert!(ObjectRef { sequence: 0, index: 0 }.is_baseline());
    assert!(!ObjectRef { sequence: 2, index: 0 }.is_baseline());
}
