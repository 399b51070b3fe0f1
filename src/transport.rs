use vstd::prelude::*;
use crate::phase::{Direction, Fault, GameRequest};
use crate::text::{decimal, push_decimal, push_str, string_from_chars};
use vstd::string::StringSliceAdditionalSpecFns;

verus! {

/// The request method.
#[derive(Clone, Copy, Debug, PartialEq, Eq, Structural)]
pub enum Method {
    Get,
    Post,
}

/// What a request carries. Payloads other than `Raw` are encoded by the
/// transport (as compact binary and streamed), from the values named here
/// and the participant's own artifacts.
#[derive(Debug)]
pub enum Payload {
    /// No body.
    Empty,
    /// The body as given.
    Raw(Vec<u8>),
    /// The participant's key-share fragment.
    KeyShare { participant: usize },
    /// The initial board: whether each cell holds an egg.
    InitGame { participant: usize, initial_eggs: Vec<bool> },
    /// The players' starting cells, as `(x, y)`.
    StartingCoords { participant: usize, starting_coords: Vec<(u8, u8)> },
    /// Any other board request.
    Action { participant: usize, request: GameRequest },
    /// The participant's own decryption shares.
    DecryptionShares { participant: usize },
}

/// One request to the coordinator: method, full address and payload.
pub struct Request {
    pub method: Method,
    pub url: String,
    pub payload: Payload,
}

/// The number of cells on the board.
pub const BOARD_SIZE: usize = 16;

/// The board a game starts from: no cell holds an egg.
pub fn initial_eggs() -> (r: Vec<bool>)
    ensures
        r@.len() == BOARD_SIZE,
        forall|i: int| 0 <= i < r@.len() ==> !#[trigger] r@[i],
{
    let mut r: Vec<bool> = Vec::new();
    let mut i: usize = 0;
    while i < BOARD_SIZE
        invariant
            i <= BOARD_SIZE,
            r@.len() == i,
            forall|j: int| 0 <= j < r@.len() ==> !#[trigger] r@[j],
        decreases BOARD_SIZE - i,
    {
        r.push(false);
        i = i + 1;
    }
    r
}

/// The players' starting cells, in participant order.
pub fn starting_coords() -> (r: Vec<(u8, u8)>)
    ensures
        r@ == seq![(0u8, 0u8), (2u8, 0u8), (1u8, 1u8), (1u8, 1u8)],
{
    let r = vec![(0u8, 0u8), (2u8, 0u8), (1u8, 1u8), (1u8, 1u8)];
    assert(r@ =~= seq![(0u8, 0u8), (2u8, 0u8), (1u8, 1u8), (1u8, 1u8)]);
    r
}

/// `base/route`, as the coordinator's address is joined with a route.
pub open spec fn joined(base: Seq<char>, route: Seq<char>) -> Seq<char> {
    base + seq!['/'] + route
}

/// `/request_action/{participant}`.
pub open spec fn action_route(participant: nat) -> Seq<char> {
    "/request_action/"@ + decimal(participant)
}

/// `/decryption_share/{output}/{participant}`.
pub open spec fn share_route(output: nat, participant: nat) -> Seq<char> {
    "/decryption_share/"@ + decimal(output) + seq!['/'] + decimal(participant)
}

/// The coordinator client: a stateless facade that fixes, for each protocol
/// operation, the method, the route and what the body carries. Sending is
/// the transport's part.
pub struct WebClient {
    url: String,
}

impl WebClient {
    /// The coordinator's base address.
    pub closed spec fn base(&self) -> Seq<char> {
        self.url@
    }

    pub fn new(url: &str) -> (r: Self)
        ensures
            r.base() == url@,
    {
        WebClient { url: url.to_owned() }
    }

    /// The coordinator's base address.
    pub fn url(&self) -> (r: String)
        ensures
            r@ == self.base(),
    {
        self.url.clone()
    }

    /// The full address of `route`.
    pub fn path(&self, route: &str) -> (r: String)
        ensures
            r@ == joined(self.base(), route@),
    {
        let mut cs: Vec<char> = Vec::new();
        push_str(&mut cs, self.url.as_str());
        cs.push('/');
        push_str(&mut cs, route);
        assert(cs@ =~= joined(self.base(), route@));
        string_from_chars(cs.as_slice())
    }

    fn request(&self, method: Method, route: &str, payload: Payload) -> (r: Request)
        ensures
            r.method == method,
            r.url@ == joined(self.base(), route@),
            r.payload == payload,
    {
        Request { method, url: self.path(route), payload }
    }

    /// `GET /param`: the seed.
    pub fn get_seed(&self) -> (r: Request)
        ensures
            r.method == Method::Get,
            r.url@ == joined(self.base(), "/param"@),
            r.payload == Payload::Empty,
    {
        self.request(Method::Get, "/param", Payload::Empty)
    }

    /// `POST /register` with the display name's bytes.
    pub fn register(&self, name: &str) -> (r: Request)
        ensures
            r.method == Method::Post,
            r.url@ == joined(self.base(), "/register"@),
            (r.payload matches Payload::Raw(b) && b@ == name.spec_bytes()),
    {
        let body = vstd::slice::slice_to_vec(name.as_bytes());
        self.request(Method::Post, "/register", Payload::Raw(body))
    }

    /// `GET /dashboard`: the roster status.
    pub fn get_dashboard(&self) -> (r: Request)
        ensures
            r.method == Method::Get,
            r.url@ == joined(self.base(), "/dashboard"@),
            r.payload == Payload::Empty,
    {
        self.request(Method::Get, "/dashboard", Payload::Empty)
    }

    /// `POST /submit_sks` with the key-share fragment of `user_id`.
    pub fn submit_sks(&self, user_id: usize) -> (r: Request)
        ensures
            r.method == Method::Post,
            r.url@ == joined(self.base(), "/submit_sks"@),
            r.payload == (Payload::KeyShare { participant: user_id }),
    {
        self.request(Method::Post, "/submit_sks", Payload::KeyShare { participant: user_id })
    }

    /// `POST /request_action/{user_id}` with a board request.
    fn request_action(&self, user_id: usize, request: GameRequest) -> (r: Request)
        ensures
            r.method == Method::Post,
            r.url@ == joined(self.base(), action_route(user_id as nat)),
            r.payload == (Payload::Action { participant: user_id, request }),
    {
        let mut route: Vec<char> = Vec::new();
        push_str(&mut route, "/request_action/");
        push_decimal(&mut route, user_id);
        let route = string_from_chars(route.as_slice());
        self.request(
            Method::Post,
            route.as_str(),
            Payload::Action { participant: user_id, request },
        )
    }

    /// `POST /request_action/{user_id}` with the initial board (the first
    /// participant only).
    pub fn init_game(&self, user_id: usize, initial_eggs: &Vec<bool>) -> (r: Request)
        ensures
            r.method == Method::Post,
            r.url@ == joined(self.base(), action_route(user_id as nat)),
            (r.payload matches Payload::InitGame { participant, initial_eggs: e } && participant
                == user_id && e@ == initial_eggs@),
    {
        let eggs = vstd::slice::slice_to_vec(initial_eggs.as_slice());
        let r = self.request_action(user_id, GameRequest::InitGame);
        Request {
            method: r.method,
            url: r.url,
            payload: Payload::InitGame { participant: user_id, initial_eggs: eggs },
        }
    }

    /// `POST /request_action/{user_id}` with the players' starting cells.
    pub fn set_starting_coords(&self, user_id: usize, starting_coords: &Vec<(u8, u8)>) -> (r:
        Request)
        ensures
            r.method == Method::Post,
            r.url@ == joined(self.base(), action_route(user_id as nat)),
            (r.payload matches Payload::StartingCoords { participant, starting_coords: c }
                && participant == user_id && c@ == starting_coords@),
    {
        let coords = vstd::slice::slice_to_vec(starting_coords.as_slice());
        let r = self.request_action(user_id, GameRequest::SetupGame);
        Request {
            method: r.method,
            url: r.url,
            payload: Payload::StartingCoords { participant: user_id, starting_coords: coords },
        }
    }

    /// The board request that moves the player one cell in `direction`.
    pub fn move_player(&self, user_id: usize, direction: Direction) -> (r: Request)
        ensures
            r.method == Method::Post,
            r.url@ == joined(self.base(), action_route(user_id as nat)),
            r.payload == (Payload::Action {
                participant: user_id,
                request: GameRequest::Move(direction),
            }),
    {
        self.request_action(user_id, GameRequest::Move(direction))
    }

    /// The board request that lays an egg.
    pub fn lay_egg(&self, user_id: usize) -> (r: Request)
        ensures
            r.method == Method::Post,
            r.url@ == joined(self.base(), action_route(user_id as nat)),
            r.payload == (Payload::Action { participant: user_id, request: GameRequest::Lay }),
    {
        self.request_action(user_id, GameRequest::Lay)
    }

    /// The board request that picks an egg up.
    pub fn pickup_egg(&self, user_id: usize) -> (r: Request)
        ensures
            r.method == Method::Post,
            r.url@ == joined(self.base(), action_route(user_id as nat)),
            r.payload == (Payload::Action { participant: user_id, request: GameRequest::Pickup }),
    {
        self.request_action(user_id, GameRequest::Pickup)
    }

    /// The board request that asks for the contents of a cell.
    pub fn get_cell(&self, user_id: usize) -> (r: Request)
        ensures
            r.method == Method::Post,
            r.url@ == joined(self.base(), action_route(user_id as nat)),
            r.payload == (Payload::Action { participant: user_id, request: GameRequest::GetCell }),
    {
        self.request_action(user_id, GameRequest::GetCell)
    }

    /// The request for a board command: `init` sends the empty board of
    /// `BOARD_SIZE` cells, `setup_game` the fixed starting cells, and the
    /// other requests go as they are.
    pub fn game_request(&self, user_id: usize, request: GameRequest) -> (r: Request)
        ensures
            r.method == Method::Post,
            r.url@ == joined(self.base(), action_route(user_id as nat)),
            match request {
                GameRequest::InitGame => (r.payload matches Payload::InitGame {
                    participant,
                    initial_eggs: e,
                } && participant == user_id && e@.len() == BOARD_SIZE && forall|i: int|
                    0 <= i < e@.len() ==> !#[trigger] e@[i]),
                GameRequest::SetupGame => (r.payload matches Payload::StartingCoords {
                    participant,
                    starting_coords: c,
                } && participant == user_id && c@ == seq![
                    (0u8, 0u8),
                    (2u8, 0u8),
                    (1u8, 1u8),
                    (1u8, 1u8),
                ]),
                _ => r.payload == (Payload::Action { participant: user_id, request }),
            },
    {
        match request {
            GameRequest::InitGame => self.init_game(user_id, &initial_eggs()),
            GameRequest::SetupGame => self.set_starting_coords(user_id, &starting_coords()),
            _ => self.request_action(user_id, request),
        }
    }

    /// `POST /run`: asks the coordinator to evaluate the circuit.
    pub fn trigger_fhe_run(&self) -> (r: Request)
        ensures
            r.method == Method::Post,
            r.url@ == joined(self.base(), "/run"@),
            r.payload == Payload::Empty,
    {
        self.request(Method::Post, "/run", Payload::Empty)
    }

    /// `GET /fhe_output`: the evaluated output.
    pub fn get_fhe_output(&self) -> (r: Request)
        ensures
            r.method == Method::Get,
            r.url@ == joined(self.base(), "/fhe_output"@),
            r.payload == Payload::Empty,
    {
        self.request(Method::Get, "/fhe_output", Payload::Empty)
    }

    /// `POST /submit_decryption_shares` with the own shares of `user_id`.
    pub fn submit_decryption_shares(&self, user_id: usize) -> (r: Request)
        ensures
            r.method == Method::Post,
            r.url@ == joined(self.base(), "/submit_decryption_shares"@),
            r.payload == (Payload::DecryptionShares { participant: user_id }),
    {
        self.request(
            Method::Post,
            "/submit_decryption_shares",
            Payload::DecryptionShares { participant: user_id },
        )
    }

    /// `GET /decryption_share/{output_id}/{user_id}`: one share.
    pub fn get_decryption_share(&self, output_id: usize, user_id: usize) -> (r: Request)
        ensures
            r.method == Method::Get,
            r.url@ == joined(self.base(), share_route(output_id as nat, user_id as nat)),
            r.payload == Payload::Empty,
    {
        let mut route: Vec<char> = Vec::new();
        push_str(&mut route, "/decryption_share/");
        push_decimal(&mut route, output_id);
        route.push('/');
        push_decimal(&mut route, user_id);
        let route = string_from_chars(route.as_slice());
        self.request(Method::Get, route.as_str(), Payload::Empty)
    }
}

/// Folds a coordinator response into the two outcomes the protocol knows:
/// status 200 hands the body on for decoding; any other status is a
/// coordinator fault that carries the body verbatim.
pub fn response_outcome(status: u16, body: String) -> (r: Result<String, Fault>)
    ensures
        status == 200 ==> (r matches Ok(b) && b@ == body@),
        status != 200 ==> (r matches Err(Fault::Coordinator(t)) && t@ == body@),
{
    if status == 200 {
        Ok(body)
    } else {
        Err(Fault::Coordinator(body))
    }
}

} // verus!
