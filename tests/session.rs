use karma_calculator::command::{parse_command, step_for, Command};
use karma_calculator::phase::{
    transition, Direction, Event, Fault, GameRequest, Phase, Step,
};
use karma_calculator::share_matrix::ShareMatrix;
use karma_calculator::transport::{
    initial_eggs, response_outcome, starting_coords, Method, Payload, WebClient, BOARD_SIZE,
};

type Session = Phase<u32, u64, &'static str>;

fn init() -> Session {
    Phase::Init { name: "alice".to_string(), client: 7 }
}

fn roster() -> Vec<String> {
    vec!["alice".to_string(), "bob".to_string(), "carol".to_string(), "dave".to_string()]
}

fn label(p: &Session) -> &'static str {
    match p {
        Phase::Init { .. } => "Init",
        Phase::Setup { .. } => "Setup",
        Phase::ConcludedRegistration { .. } => "ConcludedRegistration",
        Phase::SubmittedKeyShare { .. } => "SubmittedKeyShare",
        Phase::TriggeredRun { .. } => "TriggeredRun",
        Phase::DownloadedOutput { .. } => "DownloadedOutput",
        Phase::Decrypted { .. } => "Decrypted",
    }
}

fn ok(r: Result<Session, (Fault, Session)>) -> Session {
    match r {
        Ok(p) => p,
        Err((f, _)) => panic!("unexpected fault {:?}", f),
    }
}

fn share(o: usize, p: usize) -> Vec<u64> {
    vec![(o * 10 + p) as u64, 1]
}

/// Advances a fresh session of participant 1 among four to `DownloadedOutput`
/// with four outputs.
fn downloaded() -> Session {
    let s = ok(transition(init(), Step::Register, Event::Registered { key: 99, participant: 1 }));
    let s = ok(transition(s, Step::CheckRoster, Event::Roster { concluded: true, names: roster() }));
    let s = ok(transition(s, Step::SubmitKeyShare, Event::Acknowledged));
    let s = ok(transition(s, Step::TriggerRun, Event::Acknowledged));
    let own: Vec<(usize, Vec<u64>)> = (0..4).map(|o| (o, share(o, 1))).collect();
    ok(transition(s, Step::DownloadOutput, Event::OutputReady { output: "ct", outputs: 4, own }))
}

/// Fetches every missing share in the order the session asks for them,
/// failing on the `fail_at`-th fetch if given; returns the pairs fetched.
fn aggregate(s: &mut Session, fail_at: Option<usize>) -> Vec<(usize, usize)> {
    let mut fetched = Vec::new();
    while let Some((o, p)) = s.missing_share() {
        if fail_at == Some(fetched.len()) {
            break;
        }
        fetched.push((o, p));
        assert!(s.record_share(o, p, share(o, p)));
    }
    fetched
}

#[test]
fn successful_run_follows_protocol_order() {
    let mut order = vec![];
    let s = init();
    order.push(label(&s));
    let s = ok(transition(s, Step::Register, Event::Registered { key: 5, participant: 0 }));
    order.push(label(&s));
    let s = ok(transition(s, Step::CheckRoster, Event::Roster { concluded: true, names: roster() }));
    order.push(label(&s));
    assert_eq!(s.key_share_request(), Some((0, 4)));
    let s = ok(transition(s, Step::SubmitKeyShare, Event::Acknowledged));
    order.push(label(&s));
    let s = ok(transition(s, Step::TriggerRun, Event::Acknowledged));
    order.push(label(&s));
    let own: Vec<(usize, Vec<u64>)> = vec![(0, share(0, 0)), (1, share(1, 0))];
    let mut s =
        ok(transition(s, Step::DownloadOutput, Event::OutputReady { output: "ct", outputs: 2, own }));
    order.push(label(&s));
    assert_eq!(aggregate(&mut s, None).len(), 6);
    let lists = s.share_lists().unwrap();
    assert_eq!(lists.len(), 2);
    assert_eq!(lists[1], vec![share(1, 0), share(1, 1), share(1, 2), share(1, 3)]);
    let s = ok(transition(s, Step::Decrypt, Event::Plaintext(vec![vec![true], vec![false]])));
    order.push(label(&s));
    assert_eq!(
        order,
        vec![
            "Init",
            "Setup",
            "ConcludedRegistration",
            "SubmittedKeyShare",
            "TriggeredRun",
            "DownloadedOutput",
            "Decrypted"
        ]
    );
    assert_eq!(s.plaintext(), Some(&vec![vec![true], vec![false]]));
    assert_eq!(s.roster(), Some(&roster()));
}

#[test]
fn failing_transitions_keep_the_phase() {
    let (f, s) = transition(init(), Step::Register, Event::Failed(Fault::Transport("refused".to_string())))
        .err()
        .unwrap();
    assert!(matches!(f, Fault::Transport(t) if t == "refused"));
    assert!(matches!(&s, Phase::Init { name, client: 7 } if name == "alice"));

    let s = ok(transition(init(), Step::Register, Event::Registered { key: 3, participant: 2 }));
    let (f, s) = transition(s, Step::CheckRoster, Event::Acknowledged).err().unwrap();
    assert!(matches!(f, Fault::UnexpectedOutcome));
    assert!(matches!(&s, Phase::Setup { name, client: 7, key: 3, participant: 2 } if name == "alice"));

    let s = ok(transition(s, Step::CheckRoster, Event::Roster { concluded: true, names: roster() }));
    let s = ok(transition(s, Step::SubmitKeyShare, Event::Acknowledged));
    let s = ok(transition(s, Step::TriggerRun, Event::Acknowledged));
    let (f, s) = transition(s, Step::DownloadOutput, Event::RunPending).err().unwrap();
    assert!(matches!(f, Fault::StillRunning));
    assert!(matches!(&s, Phase::TriggeredRun { participant: 2, key: 3, roster: r, .. } if *r == roster()));
}

#[test]
fn decrypted_is_terminal() {
    let mut s = downloaded();
    aggregate(&mut s, None);
    let s = ok(transition(s, Step::Decrypt, Event::Plaintext(vec![vec![true, false]])));
    let step = step_for(&s, Command::Next);
    assert_eq!(step, Step::Finish);
    let s = ok(transition(s, step, Event::Acknowledged));
    let s = ok(transition(s, Step::Finish, Event::Failed(Fault::StillRunning)));
    assert!(matches!(label(&s), "Decrypted"));
    assert_eq!(s.plaintext(), Some(&vec![vec![true, false]]));
    let (f, s) = transition(s, Step::TriggerRun, Event::Acknowledged).err().unwrap();
    assert!(matches!(f, Fault::OutOfOrder(Step::TriggerRun)));
    assert_eq!(label(&s), "Decrypted");
}

#[test]
fn present_shares_are_never_fetched_again() {
    let mut s = downloaded();
    let first = aggregate(&mut s, Some(5));
    assert_eq!(first.len(), 5);
    let rest = aggregate(&mut s, None);
    assert_eq!(rest.len(), 7);
    for pair in &rest {
        assert!(!first.contains(pair));
    }
    assert!(aggregate(&mut s, None).is_empty());
    assert!(!s.record_share(0, 0, vec![42]));
    assert_eq!(s.share_lists().unwrap()[0][0], share(0, 0));
}

#[test]
fn decryption_needs_every_share() {
    let mut s = downloaded();
    assert!(matches!(s.share_lists(), Err(Fault::IncompleteShares)));
    let (f, back) = transition(s, Step::Decrypt, Event::Plaintext(vec![])).err().unwrap();
    assert!(matches!(f, Fault::IncompleteShares));
    s = back;
    aggregate(&mut s, Some(11));
    assert!(matches!(s.share_lists(), Err(Fault::IncompleteShares)));
    aggregate(&mut s, None);
    assert!(s.share_lists().is_ok());
    assert!(transition(s, Step::Decrypt, Event::Plaintext(vec![])).is_ok());
    assert!(matches!(init().share_lists(), Err(Fault::OutOfOrder(Step::Decrypt))));
}

#[test]
fn four_participants_fetch_each_missing_share_once_in_order() {
    for me in 0..4usize {
        let mut m = ShareMatrix::new(4, 4);
        for o in 0..4 {
            assert!(m.insert(o, me, share(o, me)));
        }
        let planned = m.missing_pairs();
        let mut fetched = Vec::new();
        while let Some((o, p)) = m.next_missing() {
            fetched.push((o, p));
            m.insert(o, p, share(o, p));
        }
        assert_eq!(fetched.len(), 12);
        assert_eq!(fetched, planned);
        for w in fetched.windows(2) {
            assert!(w[0] < w[1]);
        }
        assert!(fetched.iter().all(|&(_, p)| p != me));
        let lists = m.assemble().unwrap();
        for o in 0..4 {
            for p in 0..4 {
                assert_eq!(lists[o][p], share(o, p));
            }
        }
    }
}

#[test]
fn seeded_matrix_holds_own_shares_only() {
    let own = vec![(0, vec![1]), (2, vec![3]), (0, vec![9]), (7, vec![5])];
    let m = ShareMatrix::seeded(3, 2, 1, &own);
    assert!(m.contains(0, 1));
    assert!(m.contains(2, 1));
    assert!(!m.contains(1, 1));
    assert!(!m.contains(0, 0));
    assert_eq!(m.missing_pairs(), vec![(0, 0), (1, 0), (1, 1), (2, 0)]);
    assert_eq!(m.outputs(), 3);
    assert_eq!(m.participants(), 2);
}

#[test]
fn key_share_submission_from_init_is_out_of_order() {
    let (f, s) = transition(init(), Step::SubmitKeyShare, Event::Acknowledged).err().unwrap();
    assert!(matches!(f, Fault::OutOfOrder(Step::SubmitKeyShare)));
    assert!(matches!(&s, Phase::Init { name, client: 7 } if name == "alice"));
    let (f, _) = transition(init(), Step::Game(GameRequest::Lay), Event::Acknowledged).err().unwrap();
    assert!(matches!(f, Fault::OutOfOrder(Step::Game(GameRequest::Lay))));
}

#[test]
fn open_registration_stays_in_setup() {
    let s = ok(transition(init(), Step::Register, Event::Registered { key: 8, participant: 3 }));
    let r = transition(s, Step::CheckRoster, Event::Roster { concluded: false, names: vec!["alice".to_string()] });
    assert!(r.is_ok());
    let s = r.ok().unwrap();
    assert!(matches!(&s, Phase::Setup { name, client: 7, key: 8, participant: 3 } if name == "alice"));
    assert_eq!(s.roster(), None);
}

#[test]
fn duplicate_registration_reports_coordinator_text() {
    let fault = response_outcome(409, "duplicate registration".to_string()).err().unwrap();
    let (f, s) = transition(init(), Step::Register, Event::Failed(fault)).err().unwrap();
    assert!(matches!(f, Fault::Coordinator(t) if t == "duplicate registration"));
    assert_eq!(label(&s), "Init");
    assert_eq!(s.name(), Some(&"alice".to_string()));
    assert_eq!(response_outcome(200, "{}".to_string()).ok(), Some("{}".to_string()));
}

#[test]
fn game_requests_only_after_key_share() {
    let s = ok(transition(init(), Step::Register, Event::Registered { key: 1, participant: 0 }));
    let s = ok(transition(s, Step::CheckRoster, Event::Roster { concluded: true, names: roster() }));
    let s = ok(transition(s, Step::SubmitKeyShare, Event::Acknowledged));
    let step = step_for(&s, Command::Game(GameRequest::Move(Direction::Left)));
    let s = ok(transition(s, step, Event::Acknowledged));
    assert_eq!(label(&s), "SubmittedKeyShare");
    assert_eq!(s.label(), "SubmittedSks");
    let s = ok(transition(s, Step::Status, Event::Acknowledged));
    let s = ok(transition(s, Step::Skip, Event::Failed(Fault::MissingDirection)));
    assert_eq!(s.credentials(), Some((&1, 0)));
    assert_eq!(step_for(&s, Command::Next), Step::TriggerRun);
}

#[test]
fn parses_commands() {
    assert_eq!(parse_command("next").ok(), Some(Command::Next));
    assert_eq!(parse_command("  status\t").ok(), Some(Command::Status));
    assert_eq!(parse_command("setup_game").ok(), Some(Command::Game(GameRequest::SetupGame)));
    assert_eq!(parse_command("init").ok(), Some(Command::Game(GameRequest::InitGame)));
    assert_eq!(parse_command("lay").ok(), Some(Command::Game(GameRequest::Lay)));
    assert_eq!(parse_command("pickup").ok(), Some(Command::Game(GameRequest::Pickup)));
    assert_eq!(parse_command("done").ok(), Some(Command::Game(GameRequest::Done)));
    assert_eq!(
        parse_command(" move  right extra").ok(),
        Some(Command::Game(GameRequest::Move(Direction::Right)))
    );
    assert_eq!(parse_command("move up").ok(), Some(Command::Game(GameRequest::Move(Direction::Up))));
    assert_eq!(parse_command("").ok(), Some(Command::Skip));
    assert_eq!(parse_command("   ").ok(), Some(Command::Skip));
    assert_eq!(parse_command("# next").ok(), Some(Command::Skip));
    assert_eq!(parse_command("#note").ok(), Some(Command::Skip));
}

#[test]
fn rejects_malformed_commands() {
    assert!(matches!(parse_command("move"), Err(Fault::MissingDirection)));
    assert!(matches!(parse_command("move   "), Err(Fault::MissingDirection)));
    assert!(matches!(parse_command("move sideways"), Err(Fault::InvalidDirection(t)) if t == "sideways"));
    assert!(matches!(parse_command("jump now"), Err(Fault::UnknownCommand(t)) if t == "jump"));
    assert!(matches!(parse_command("Next"), Err(Fault::UnknownCommand(t)) if t == "Next"));
    assert!(matches!(parse_command("nextt"), Err(Fault::UnknownCommand(t)) if t == "nextt"));
}

#[test]
fn requests_fix_method_route_and_payload() {
    let c = WebClient::new("http://coord:8000");
    assert_eq!(c.url(), "http://coord:8000");
    assert_eq!(c.path("/dashboard"), "http://coord:8000//dashboard");
    let r = c.get_seed();
    assert_eq!(r.method, Method::Get);
    assert_eq!(r.url, "http://coord:8000//param");
    assert!(matches!(r.payload, Payload::Empty));
    let r = c.register("alice");
    assert_eq!(r.method, Method::Post);
    assert_eq!(r.url, "http://coord:8000//register");
    assert!(matches!(r.payload, Payload::Raw(ref b) if b == b"alice"));
    let r = c.submit_sks(3);
    assert_eq!(r.url, "http://coord:8000//submit_sks");
    assert!(matches!(r.payload, Payload::KeyShare { participant: 3 }));
    let r = c.move_player(105, Direction::Down);
    assert_eq!(r.method, Method::Post);
    assert_eq!(r.url, "http://coord:8000//request_action/105");
    assert!(matches!(
        r.payload,
        Payload::Action { participant: 105, request: GameRequest::Move(Direction::Down) }
    ));
    let r = c.init_game(0, &vec![true, false]);
    assert_eq!(r.url, "http://coord:8000//request_action/0");
    assert!(matches!(r.payload, Payload::InitGame { participant: 0, ref initial_eggs } if *initial_eggs == vec![true, false]));
    let r = c.set_starting_coords(4, &vec![(3, 1)]);
    assert_eq!(r.url, "http://coord:8000//request_action/4");
    assert!(matches!(r.payload, Payload::StartingCoords { participant: 4, ref starting_coords } if *starting_coords == vec![(3, 1)]));
    assert!(matches!(c.lay_egg(2).payload, Payload::Action { participant: 2, request: GameRequest::Lay }));
    assert_eq!(c.trigger_fhe_run().method, Method::Post);
    assert_eq!(c.trigger_fhe_run().url, "http://coord:8000//run");
    assert_eq!(c.get_fhe_output().url, "http://coord:8000//fhe_output");
    assert_eq!(c.get_dashboard().url, "http://coord:8000//dashboard");
    let r = c.submit_decryption_shares(1);
    assert_eq!(r.url, "http://coord:8000//submit_decryption_shares");
    assert!(matches!(r.payload, Payload::DecryptionShares { participant: 1 }));
    assert_eq!(c.pickup_egg(6).url, "http://coord:8000//request_action/6");
    assert!(matches!(c.get_cell(6).payload, Payload::Action { participant: 6, request: GameRequest::GetCell }));
    let r = c.get_decryption_share(3, 12);
    assert_eq!(r.method, Method::Get);
    assert_eq!(r.url, "http://coord:8000//decryption_share/3/12");
    assert_eq!(c.get_decryption_share(0, 9).url, "http://coord:8000//decryption_share/0/9");
}

#[test]
fn phases_name_themselves() {
    let s = init();
    assert_eq!(s.label(), "Initialization");
    assert_eq!(s.instruction(), "Enter `next` to continue");
    let s = ok(transition(s, Step::Register, Event::Registered { key: 1, participant: 0 }));
    assert_eq!(s.label(), "Setup");
    assert_eq!(s.instruction(), "Enter `next` to check whether registration has concluded");
    let mut s = downloaded();
    assert_eq!(s.label(), "Downloaded Output");
    aggregate(&mut s, None);
    let s = ok(transition(s, Step::Decrypt, Event::Plaintext(vec![])));
    assert_eq!(s.label(), "Decrypted");
    assert_eq!(s.instruction(), "Exit with `CTRL-D`");
}

#[test]
fn board_commands_carry_the_board() {
    let c = WebClient::new("http://coord");
    assert_eq!(initial_eggs(), vec![false; BOARD_SIZE]);
    assert_eq!(starting_coords(), vec![(0, 0), (2, 0), (1, 1), (1, 1)]);
    let r = c.game_request(0, GameRequest::InitGame);
    assert_eq!(r.method, Method::Post);
    assert_eq!(r.url, "http://coord//request_action/0");
    assert!(matches!(r.payload, Payload::InitGame { participant: 0, ref initial_eggs } if *initial_eggs == vec![false; BOARD_SIZE]));
    let r = c.game_request(2, GameRequest::SetupGame);
    assert_eq!(r.url, "http://coord//request_action/2");
    assert!(matches!(r.payload, Payload::StartingCoords { participant: 2, ref starting_coords } if *starting_coords == vec![(0, 0), (2, 0), (1, 1), (1, 1)]));
    let r = c.game_request(3, GameRequest::Lay);
    assert!(matches!(r.payload, Payload::Action { participant: 3, request: GameRequest::Lay }));
}

#[test]
fn unicode_white_space_separates_words() {
    assert_eq!(parse_command("\u{a0}").ok(), Some(Command::Skip));
    assert_eq!(parse_command("\u{3000}\u{2009}\u{85}").ok(), Some(Command::Skip));
    assert_eq!(
        parse_command("move up\u{3000}x").ok(),
        Some(Command::Game(GameRequest::Move(Direction::Up)))
    );
    assert_eq!(parse_command("\u{2028}next\u{202f}").ok(), Some(Command::Next));
    assert!(matches!(parse_command("move\u{1680}\u{205f}"), Err(Fault::MissingDirection)));
    assert!(matches!(parse_command("ne\u{200b}xt"), Err(Fault::UnknownCommand(t)) if t == "ne\u{200b}xt"));
}
