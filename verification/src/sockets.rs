//! The connected clients.

use crate::decimal::unsigned_text;
use crate::epoch::ConnectionId;
use crate::messages::{process_message, ClientAddr, ClientMessage, Frame};
use crate::pubkey::Pubkey;
use crate::registry::{MapKey, Registry};
use crate::reply::{reply, ContentType, Reply, Status};
use vstd::prelude::*;

verus! {

use crate::decimal::decimal;
use crate::messages::{complete, passes_on, said_with};
use crate::pubkey::pubkey_of_text;
use crate::reply::{bare, ReplyView};

/// How many seconds pass between two rounds of pings.
pub const PING_SECONDS: u64 = 30;

/// What a ping holds.
pub const PING_BYTES: [u8; 3] = [1, 2, 3];

/// The version of the protocol that a client speaks.
#[derive(Clone, Copy, Debug, PartialEq, Eq, Structural)]
pub enum ClientVersion {
    V2,
}

/// A connected client.
#[derive(Clone, Copy, Debug, PartialEq, Eq)]
pub struct AppClientConnection {
    pub uuid: ConnectionId,
    pub pubkey: Pubkey,
    pub miner_id: i32,
    pub client_version: ClientVersion,
}

/// The connected clients, at most one at each address, and whether mining is paused.
pub struct AppState {
    pub sockets: Registry<ClientAddr, AppClientConnection>,
    pub paused: bool,
}

/// What came of a ping.
#[derive(Clone, Copy, Debug, PartialEq, Eq, Structural)]
pub enum PingOutcome {
    /// It was sent.
    Sent,
    /// It could not be sent to the client at this address.
    Failed(ClientAddr),
    /// Nothing is known of it.
    Lost,
}

/// The addresses that a ping could not be sent to.
pub open spec fn failed(outcomes: Seq<PingOutcome>) -> Set<ClientAddr> {
    Set::new(|who: ClientAddr| outcomes.contains(PingOutcome::Failed(who)))
}

/// The addresses of the clients that mine for a key.
pub open spec fn connected_for(
    sockets: Map<ClientAddr, AppClientConnection>,
    key: Seq<u8>,
) -> Set<ClientAddr> {
    sockets.dom().filter(|who: ClientAddr| sockets[who].pubkey@ == key)
}

/// Calls `uuid::Uuid::new_v4`, which draws a random identifier of version 4. The bits that say the
/// version and the variant are fixed, and nothing is promised of the others.
#[verifier::external_body]
fn new_v4() -> (res: ConnectionId)
    ensures
        (res.number >> 76) & 0xf == 4,
        (res.number >> 62) & 0x3 == 2,
{
    ConnectionId { number: uuid::Uuid::new_v4().as_u128() }
}

impl AppState {
    /// No address is connected twice.
    pub open spec fn wf(self) -> bool {
        self.sockets.wf()
    }

    /// A server to which nobody is connected.
    pub fn new() -> (res: AppState)
        ensures
            res.wf(),
            res.sockets.map() == Map::<ClientAddr, AppClientConnection>::empty(),
            !res.paused,
    {
        AppState { sockets: Registry::new(), paused: false }
    }

    /// Connects a client, unless one is connected from its address. Whether it was connected.
    pub fn register(&mut self, who: ClientAddr, connection: AppClientConnection) -> (res: bool)
        requires
            old(self).wf(),
        ensures
            final(self).wf(),
            final(self).paused == old(self).paused,
            res == !old(self).sockets.map().dom().contains(who),
            final(self).sockets.map() == (if res {
                old(self).sockets.map().insert(who, connection)
            } else {
                old(self).sockets.map()
            }),
    {
        if self.sockets.contains_key(who) {
            false
        } else {
            self.sockets.insert(who, connection);
            true
        }
    }

    /// Disconnects the client at an address, if there is one.
    pub fn disconnect(&mut self, who: ClientAddr)
        requires
            old(self).wf(),
        ensures
            final(self).wf(),
            final(self).paused == old(self).paused,
            final(self).sockets.map() == old(self).sockets.map().remove(who),
    {
        self.sockets.remove(who);
    }

    /// The clients that a round of pings goes to: each connected client once.
    pub fn ping_targets(&self) -> (res: Vec<(ClientAddr, AppClientConnection)>)
        requires
            self.wf(),
        ensures
            forall|i: int|
                0 <= i < res@.len() ==> self.sockets.map().dom().contains((#[trigger] res@[i]).0)
                    && self.sockets.map()[res@[i].0] == res@[i].1,
            forall|who: ClientAddr| #[trigger]
                self.sockets.map().dom().contains(who) ==> exists|i: int|
                    0 <= i < res@.len() && (#[trigger] res@[i]).0 == who,
            forall|i: int, j: int|
                0 <= i < j < res@.len() ==> (#[trigger] res@[i]).0 != (#[trigger] res@[j]).0,
    {
        let mut res: Vec<(ClientAddr, AppClientConnection)> = Vec::new();
        let n = self.sockets.len();
        let mut i: usize = 0;
        while i < n
            invariant
                i <= n,
                n == self.sockets.list().len(),
                res@ == self.sockets.list().take(i as int),
            decreases n - i,
        {
            res.push(self.sockets.entry(i));
            i = i + 1;
            assert(res@ =~= self.sockets.list().take(i as int));
        }
        proof {
            assert(res@ =~= self.sockets.list());
            self.sockets.lemma_list();
            assert forall|who: ClientAddr| #[trigger]
                self.sockets.map().dom().contains(who) implies exists|k: int|
                0 <= k < res@.len() && (#[trigger] res@[k]).0 == who by {
                let k = choose|k: int|
                    0 <= k < self.sockets.list().len() && (#[trigger] self.sockets.list()[k]).0.id()
                        == who;
                assert(res@[k].0 == who);
            }
        }
        res
    }

    /// Disconnects the clients that a ping could not be sent to.
    pub fn ping_check_system(&mut self, outcomes: &Vec<PingOutcome>)
        requires
            old(self).wf(),
        ensures
            final(self).wf(),
            final(self).paused == old(self).paused,
            final(self).sockets.map() == old(self).sockets.map().remove_keys(failed(outcomes@)),
    {
        let mut i: usize = 0;
        assert(self.sockets.map() =~= old(self).sockets.map().remove_keys(
            failed(outcomes@.take(0)),
        ));
        while i < outcomes.len()
            invariant
                i <= outcomes@.len(),
                self.wf(),
                self.paused == old(self).paused,
                self.sockets.map() == old(self).sockets.map().remove_keys(
                    failed(outcomes@.take(i as int)),
                ),
            decreases outcomes@.len() - i,
        {
            let ghost done = outcomes@.take(i as int);
            let ghost more = outcomes@.take(i + 1);
            assert(more =~= done.push(outcomes@[i as int]));
            proof {
                assert forall|who: ClientAddr| #[trigger]
                    failed(more).contains(who) <==> (failed(done).contains(who)
                        || outcomes@[i as int] == PingOutcome::Failed(who)) by {
                    if failed(done).contains(who) {
                        let k = choose|k: int|
                            0 <= k < done.len() && done[k] == PingOutcome::Failed(who);
                        assert(more[k] == PingOutcome::Failed(who));
                    }
                    if outcomes@[i as int] == PingOutcome::Failed(who) {
                        assert(more[i as int] == PingOutcome::Failed(who));
                    }
                    if failed(more).contains(who) {
                        let k = choose|k: int|
                            0 <= k < more.len() && more[k] == PingOutcome::Failed(who);
                        if k < i {
                            assert(done[k] == PingOutcome::Failed(who));
                        }
                    }
                }
            }
            if let PingOutcome::Failed(who) = outcomes[i] {
                self.sockets.remove(who);
            }
            assert(self.sockets.map() =~= old(self).sockets.map().remove_keys(failed(more)));
            i = i + 1;
        }
        assert(outcomes@.take(outcomes@.len() as int) =~= outcomes@);
    }

    fn count_connections(&self, key: &Pubkey) -> (res: usize)
        requires
            self.wf(),
        ensures
            connected_for(self.sockets.map(), key@).finite(),
            res == connected_for(self.sockets.map(), key@).len(),
    {
        let n = self.sockets.len();
        let ghost map = self.sockets.map();
        let ghost list = self.sockets.list();
        let ghost mut seen: Set<ClientAddr> = Set::empty();
        proof {
            self.sockets.lemma_list();
        }
        let mut count: usize = 0;
        let mut i: usize = 0;
        while i < n
            invariant
                i <= n,
                count <= i,
                n == self.sockets.list().len(),
                list == self.sockets.list(),
                map == self.sockets.map(),
                seen.finite(),
                seen.len() == count,
                forall|j: int|
                    0 <= j < list.len() ==> map.dom().contains((#[trigger] list[j]).0)
                        && map[list[j].0] == list[j].1,
                forall|a: int, b: int|
                    0 <= a < b < list.len() ==> (#[trigger] list[a]).0 != (#[trigger] list[b]).0,
                forall|who: ClientAddr| #[trigger]
                    seen.contains(who) <==> exists|j: int|
                        0 <= j < i && (#[trigger] list[j]).0 == who && list[j].1.pubkey@ == key@,
            decreases n - i,
        {
            let (who, connection) = self.sockets.entry(i);
            assert(list[i as int] == (who, connection));
            let ghost before = seen;
            if connection.pubkey.same(key) {
                count = count + 1;
                proof {
                    assert(!seen.contains(who));
                    seen = seen.insert(who);
                }
            }
            i = i + 1;
            proof {
                assert forall|other: ClientAddr| #[trigger]
                    seen.contains(other) <==> exists|j: int|
                        0 <= j < i && (#[trigger] list[j]).0 == other && list[j].1.pubkey@
                            == key@ by {
                    if before.contains(other) {
                        let j = choose|j: int|
                            0 <= j < i - 1 && (#[trigger] list[j]).0 == other
                                && list[j].1.pubkey@ == key@;
                        assert(list[j].0 == other);
                    }
                    if seen.contains(other) && !before.contains(other) {
                        assert(list[i - 1].0 == other);
                    }
                }
            }
        }
        proof {
            assert forall|who: ClientAddr| #[trigger]
                seen.contains(who) <==> connected_for(map, key@).contains(who) by {
                if map.dom().contains(who) {
                    let j = choose|j: int|
                        0 <= j < list.len() && (#[trigger] self.sockets.list()[j]).0.id() == who;
                    assert(list[j].0 == who);
                }
            }
            assert(seen =~= connected_for(map, key@));
        }
        count
    }
}

/// What a question how many clients are connected is answered: how many mine for the key where
/// one is given, how many there are where none is.
pub open spec fn connected_miners(
    pubkey: Option<Seq<char>>,
    sockets: Map<ClientAddr, AppClientConnection>,
) -> ReplyView {
    match pubkey {
        Some(text) => match pubkey_of_text(text) {
            Some(key) => bare(Status::Success, decimal(connected_for(sockets, key).len() as int)),
            None => bare(Status::BadRequest, "Invalid Pubkey"@),
        },
        None => bare(Status::Success, decimal(sockets.dom().len() as int)),
    }
}

/// How many clients are connected, or how many mine for the key that `pubkey` denotes.
pub fn get_connected_miners(pubkey: Option<&str>, app_state: &AppState) -> (res: Reply)
    requires
        app_state.wf(),
    ensures
        match pubkey {
            Some(text) => res@ == connected_miners(Some(text@), app_state.sockets.map()),
            None => res@ == connected_miners(None, app_state.sockets.map()),
        },
{
    match pubkey {
        Some(text) => match Pubkey::parse(text) {
            Some(key) => Reply {
                status: Status::Success,
                content_type: ContentType::Unset,
                body: unsigned_text(app_state.count_connections(&key) as u64),
            },
            None => reply(Status::BadRequest, ContentType::Unset, "Invalid Pubkey"),
        },
        None => Reply {
            status: Status::Success,
            content_type: ContentType::Unset,
            body: unsigned_text(app_state.sockets.len() as u64),
        },
    }
}

/// No more clients mine for a key than are connected.
pub proof fn lemma_connected_for_a_key(
    sockets: Map<ClientAddr, AppClientConnection>,
    key: Seq<u8>,
)
    requires
        sockets.dom().finite(),
    ensures
        connected_for(sockets, key).len() <= sockets.dom().len(),
{
    vstd::set_lib::lemma_len_subset(connected_for(sockets, key), sockets.dom());
}

/// How far a connection has come.
#[derive(Clone, Copy, Debug, PartialEq, Eq, Structural)]
pub enum SessionStage {
    /// Send a first ping.
    Ping,
    /// Register the client.
    Register,
    /// Take the next frame.
    Receive,
    /// Disconnect the client.
    Disconnect,
    /// Nothing: the connection is closed.
    Closed,
}

/// What came of what was to be done.
#[derive(Clone, Copy, Debug, PartialEq, Eq, Structural)]
pub enum SessionEvent {
    /// Whether the ping could be sent.
    Pinged(bool),
    /// Whether the client was registered.
    Registered(bool),
    /// Whether a frame came after which the connection goes on.
    Received(bool),
    /// The client is disconnected.
    Disconnected,
}

/// A connection of a client.
#[derive(Clone, Copy, Debug, PartialEq, Eq)]
pub struct Session {
    pub who: ClientAddr,
    pub connection: AppClientConnection,
    pub stage: SessionStage,
}

impl SessionStage {
    /// How far the connection is after an event. An event that does not answer what was to be done
    /// changes nothing.
    pub open spec fn next(self, event: SessionEvent) -> SessionStage {
        match (self, event) {
            (SessionStage::Ping, SessionEvent::Pinged(sent)) => if sent {
                SessionStage::Register
            } else {
                SessionStage::Closed
            },
            (SessionStage::Register, SessionEvent::Registered(done)) => if done {
                SessionStage::Receive
            } else {
                SessionStage::Closed
            },
            (SessionStage::Receive, SessionEvent::Received(goes_on)) => if goes_on {
                SessionStage::Receive
            } else {
                SessionStage::Disconnect
            },
            (SessionStage::Disconnect, SessionEvent::Disconnected) => SessionStage::Closed,
            _ => self,
        }
    }

    /// How far a connection is after a run of events.
    pub open spec fn run(events: Seq<SessionEvent>) -> SessionStage
        decreases events.len(),
    {
        if events.len() == 0 {
            SessionStage::Ping
        } else {
            SessionStage::run(events.drop_last()).next(events.last())
        }
    }
}

/// A new connection of a client at `who`, under a random identifier.
pub fn handle_socket(
    who: ClientAddr,
    pubkey: Pubkey,
    miner_id: i32,
    client_version: ClientVersion,
) -> (res: Session)
    ensures
        res.who == who,
        res.connection.pubkey == pubkey,
        res.connection.miner_id == miner_id,
        res.connection.client_version == client_version,
        (res.connection.uuid.number >> 76) & 0xf == 4,
        (res.connection.uuid.number >> 62) & 0x3 == 2,
        res.stage == SessionStage::Ping,
{
    let uuid = new_v4();
    Session {
        who,
        connection: AppClientConnection { uuid, pubkey, miner_id, client_version },
        stage: SessionStage::Ping,
    }
}

impl Session {
    /// The connection after an event.
    pub fn step(self, event: SessionEvent) -> (res: Session)
        ensures
            res.who == self.who,
            res.connection == self.connection,
            res.stage == self.stage.next(event),
    {
        let stage = match (self.stage, event) {
            (SessionStage::Ping, SessionEvent::Pinged(sent)) => if sent {
                SessionStage::Register
            } else {
                SessionStage::Closed
            },
            (SessionStage::Register, SessionEvent::Registered(done)) => if done {
                SessionStage::Receive
            } else {
                SessionStage::Closed
            },
            (SessionStage::Receive, SessionEvent::Received(goes_on)) => if goes_on {
                SessionStage::Receive
            } else {
                SessionStage::Disconnect
            },
            (SessionStage::Disconnect, SessionEvent::Disconnected) => SessionStage::Closed,
            _ => self.stage,
        };
        Session { who: self.who, connection: self.connection, stage }
    }

    /// Registers the client, unless one is connected from its address. Where it is not to be
    /// registered, nothing changes.
    pub fn register(self, app_state: &mut AppState) -> (res: Session)
        requires
            old(app_state).wf(),
        ensures
            final(app_state).wf(),
            final(app_state).paused == old(app_state).paused,
            res.who == self.who,
            res.connection == self.connection,
            ({
                let clients = old(app_state).sockets.map();
                let free = !clients.dom().contains(self.who);
                &&& res.stage == self.stage.next(SessionEvent::Registered(free))
                &&& final(app_state).sockets.map() == (if self.stage is Register && free {
                    clients.insert(self.who, self.connection)
                } else {
                    clients
                })
            }),
    {
        match self.stage {
            SessionStage::Register => {
                let done = app_state.register(self.who, self.connection);
                self.step(SessionEvent::Registered(done))
            },
            _ => self,
        }
    }

    /// Takes a frame from the client: the message that is passed on, if any. Where none is to be
    /// taken, nothing changes.
    pub fn receive(self, frame: &Frame) -> (res: (Session, Option<ClientMessage>))
        requires
            complete(*frame),
        ensures
            res.0.who == self.who,
            res.0.connection == self.connection,
            res.0.stage == self.stage.next(SessionEvent::Received(*frame !is Close)),
            if self.stage is Receive {
                passes_on(said_with(*frame), self.who, self.connection.uuid, res.1)
            } else {
                res.1 is None
            },
    {
        match self.stage {
            SessionStage::Receive => {
                let (message, goes_on) = process_message(frame, self.connection.uuid, self.who);
                (self.step(SessionEvent::Received(goes_on)), message)
            },
            _ => (self, None),
        }
    }

    /// Disconnects the client. Where it is not to be disconnected, nothing changes.
    pub fn disconnect(self, app_state: &mut AppState) -> (res: Session)
        requires
            old(app_state).wf(),
        ensures
            final(app_state).wf(),
            final(app_state).paused == old(app_state).paused,
            res.who == self.who,
            res.connection == self.connection,
            res.stage == self.stage.next(SessionEvent::Disconnected),
            final(app_state).sockets.map() == (if self.stage is Disconnect {
                old(app_state).sockets.map().remove(self.who)
            } else {
                old(app_state).sockets.map()
            }),
    {
        match self.stage {
            SessionStage::Disconnect => {
                app_state.disconnect(self.who);
                self.step(SessionEvent::Disconnected)
            },
            _ => self,
        }
    }
}

/// A connection takes frames from a client, and disconnects it, only if it was the one that
/// registered it: a second connection from an address leaves the first one alone.
pub proof fn lemma_registered_first(events: Seq<SessionEvent>)
    requires
        SessionStage::run(events) is Receive || SessionStage::run(events) is Disconnect,
    ensures
        events.contains(SessionEvent::Registered(true)),
    decreases events.len(),
{
    let before = events.drop_last();
    let stage = SessionStage::run(before);
    if stage is Receive || stage is Disconnect {
        lemma_registered_first(before);
        let i = choose|i: int|
            0 <= i < before.len() && before[i] == SessionEvent::Registered(true);
        assert(events[i] == SessionEvent::Registered(true));
    } else {
        assert(events[events.len() - 1] == SessionEvent::Registered(true));
    }
}

/// A connection that registered a client is closed only after it has disconnected it.
pub proof fn lemma_disconnected_last(events: Seq<SessionEvent>, more: Seq<SessionEvent>)
    requires
        SessionStage::run(events) is Receive,
        SessionStage::run(events + more) is Closed,
    ensures
        more.contains(SessionEvent::Disconnected),
    decreases more.len(),
{
    if more.len() == 0 {
        assert(events + more =~= events);
    } else {
        let less = more.drop_last();
        assert((events + more).drop_last() =~= events + less);
        assert((events + more).last() == more.last());
        if SessionStage::run(events + less) is Closed {
            lemma_disconnected_last(events, less);
            let i = choose|i: int| 0 <= i < less.len() && less[i] == SessionEvent::Disconnected;
            assert(more[i] == SessionEvent::Disconnected);
        } else {
            lemma_still_registered(events, less);
            assert(more[more.len() - 1] == SessionEvent::Disconnected);
        }
    }
}

proof fn lemma_still_registered(events: Seq<SessionEvent>, more: Seq<SessionEvent>)
    requires
        SessionStage::run(events) is Receive,
    ensures
        ({
            let stage = SessionStage::run(events + more);
            stage is Receive || stage is Disconnect || stage is Closed
        }),
    decreases more.len(),
{
    if more.len() == 0 {
        assert(events + more =~= events);
    } else {
        assert((events + more).drop_last() =~= events + more.drop_last());
        lemma_still_registered(events, more.drop_last());
    }
}

/// A round of pings disconnects a client exactly if some ping to its address failed.
pub proof fn lemma_who_is_disconnected(outcomes: Seq<PingOutcome>, who: ClientAddr)
    ensures
        failed(outcomes).contains(who) <==> exists|i: int|
            0 <= i < outcomes.len() && #[trigger] outcomes[i] == PingOutcome::Failed(who),
{
    if failed(outcomes).contains(who) {
        let i = choose|i: int| 0 <= i < outcomes.len() && outcomes[i] == PingOutcome::Failed(who);
        assert(outcomes[i] == PingOutcome::Failed(who));
    }
}

/// A client counts for a key exactly if it is connected and mines for that key.
pub proof fn lemma_who_counts(
    sockets: Map<ClientAddr, AppClientConnection>,
    key: Seq<u8>,
    who: ClientAddr,
)
    ensures
        connected_for(sockets, key).contains(who) <==> sockets.dom().contains(who)
            && sockets[who].pubkey@ == key,
{
}

/// One more client that mines for a key raises the count for that key by one and leaves the count
/// for every other key as it was.
pub proof fn lemma_count_goes_up(
    sockets: Map<ClientAddr, AppClientConnection>,
    who: ClientAddr,
    connection: AppClientConnection,
    key: Seq<u8>,
)
    requires
        sockets.dom().finite(),
        !sockets.dom().contains(who),
    ensures
        connected_for(sockets.insert(who, connection), key).len() == connected_for(
            sockets,
            key,
        ).len() + (if connection.pubkey@ == key {
            1int
        } else {
            0int
        }),
{
    let more = connected_for(sockets.insert(who, connection), key);
    let before = connected_for(sockets, key);
    assert(before.finite());
    if connection.pubkey@ == key {
        assert(more =~= before.insert(who));
    } else {
        assert(more =~= before);
    }
}

/// What a question about connected clients is answered: a text that denotes no key is a bad
/// request; any other question is answered with a number, written out.
pub proof fn lemma_connected_miners_told(
    text: Seq<char>,
    sockets: Map<ClientAddr, AppClientConnection>,
)
    ensures
        pubkey_of_text(text) is None ==> connected_miners(Some(text), sockets).status
            == Status::BadRequest,
        pubkey_of_text(text) matches Some(key) ==> connected_miners(Some(text), sockets).status
            == Status::Success && connected_miners(Some(text), sockets).body == decimal(
            connected_for(sockets, key).len() as int,
        ),
        connected_miners(None, sockets).status == Status::Success,
        connected_miners(None, sockets).body == decimal(sockets.dom().len() as int),
{
}

/// A client that can be pinged and whose address is free is registered and heard until it says no
/// more; then it is disconnected. One that cannot be pinged, or whose address is taken, is not.
pub proof fn lemma_course_of_a_connection(frames: nat)
    ensures
        ({
            let registering = SessionStage::Ping.next(SessionEvent::Pinged(true));
            let open = registering.next(SessionEvent::Registered(true));
            let heard = heard(open, frames);
            let ending = heard.next(SessionEvent::Received(false));
            &&& SessionStage::Ping.next(SessionEvent::Pinged(false)) is Closed
            &&& registering is Register
            &&& registering.next(SessionEvent::Registered(false)) is Closed
            &&& open is Receive
            &&& heard is Receive
            &&& ending is Disconnect
            &&& ending.next(SessionEvent::Disconnected) is Closed
        }),
    decreases frames,
{
    if frames > 0 {
        lemma_course_of_a_connection((frames - 1) as nat);
    }
}

/// How far a connection is after some frames after which it goes on.
pub open spec fn heard(stage: SessionStage, frames: nat) -> SessionStage
    decreases frames,
{
    if frames == 0 {
        stage
    } else {
        heard(stage, (frames - 1) as nat).next(SessionEvent::Received(true))
    }
}

/// An event that nothing was asked for changes nothing, and a closed connection stays closed.
pub proof fn lemma_only_session_answers_count(stage: SessionStage, event: SessionEvent)
    requires
        !(stage is Ping && event is Pinged),
        !(stage is Register && event is Registered),
        !(stage is Receive && event is Received),
        !(stage is Disconnect && event is Disconnected),
    ensures
        stage.next(event) == stage,
{
}

} // verus!
