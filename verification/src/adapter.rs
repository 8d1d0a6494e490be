//! Adapters, and the options by which an adapter selects sockets.
use crate::config::SocketIoConfig;
use crate::errors::BroadcastError;
use crate::operators::RoomParam;
use crate::packet::Packet;
use crate::sid::same_sid;
use engineioxide::sid::Sid;
use std::borrow::Cow;
use std::time::Duration;
use vstd::prelude::*;

verus! {

/// The name of a room.
pub type Room = Cow<'static, str>;

/// The names of the rooms.
pub open spec fn room_names(rooms: Seq<Room>) -> Seq<Seq<char>> {
    rooms.map_values(|room: Room| room@)
}

/// What to take into account when a packet is emitted.
#[derive(Debug, PartialEq)]
pub enum BroadcastFlags {
    /// Only the sockets of this node
    Local,
    /// All sockets but the current one
    Broadcast,
    /// A timeout for the acknowledgements
    Timeout(Duration),
}

impl BroadcastFlags {
    /// Whether two flags are the same.
    fn same(&self, other: &BroadcastFlags) -> (same: bool)
        ensures
            same == (*self == *other),
    {
        match (self, other) {
            (BroadcastFlags::Local, BroadcastFlags::Local) => true,
            (BroadcastFlags::Broadcast, BroadcastFlags::Broadcast) => true,
            (BroadcastFlags::Timeout(a), BroadcastFlags::Timeout(b)) => *a == *b,
            _ => false,
        }
    }
}

/// A set of flags.
#[derive(Debug)]
pub struct FlagSet {
    flags: Vec<BroadcastFlags>,
}

impl View for FlagSet {
    type V = Set<BroadcastFlags>;

    closed spec fn view(&self) -> Set<BroadcastFlags> {
        self.flags@.to_set()
    }
}

impl FlagSet {
    /// No flag occurs twice.
    #[verifier::type_invariant]
    spec fn distinct(self) -> bool {
        self.flags@.no_duplicates()
    }

    /// The empty set.
    pub fn new() -> (set: FlagSet)
        ensures
            set@ == Set::<BroadcastFlags>::empty(),
    {
        let set = FlagSet { flags: Vec::new() };
        assert(set@ =~= Set::<BroadcastFlags>::empty());
        set
    }

    /// Whether the flag is in the set.
    pub fn contains(&self, flag: &BroadcastFlags) -> (found: bool)
        ensures
            found == self@.contains(*flag),
    {
        for i in 0..self.flags.len()
            invariant
                forall|j: int| 0 <= j < i ==> self.flags@[j] != *flag,
        {
            if self.flags[i].same(flag) {
                assert(self.flags@.contains(self.flags@[i as int]));
                return true;
            }
        }
        false
    }

    /// Puts the flag into the set.
    pub fn insert(&mut self, flag: BroadcastFlags)
        ensures
            final(self)@ == old(self)@.insert(flag),
    {
        proof {
            use_type_invariant(&*self);
        }
        if !self.contains(&flag) {
            let mut flags: Vec<BroadcastFlags> = Vec::new();
            std::mem::swap(&mut flags, &mut self.flags);
            let ghost before = flags@;
            flags.push(flag);
            assert forall|f: BroadcastFlags| #[trigger]
                before.push(flag).to_set().contains(f) <==> before.to_set().insert(flag).contains(
                f,
            ) by {
                if before.contains(f) {
                    let k = choose|k: int| 0 <= k < before.len() && before[k] == f;
                    assert(before.push(flag)[k] == f);
                }
                if f == flag {
                    assert(before.push(flag)[before.len() as int] == f);
                }
            }
            self.flags = flags;
        }
        assert(self@ =~= old(self)@.insert(flag));
    }

    /// A timeout of the set, if there is one.
    pub fn timeout(&self) -> (timeout: Option<Duration>)
        ensures
            match timeout {
                Some(duration) => self@.contains(BroadcastFlags::Timeout(duration)),
                None => forall|duration: Duration| !#[trigger] self@.contains(
                    BroadcastFlags::Timeout(duration),
                ),
            },
    {
        for i in 0..self.flags.len()
            invariant
                forall|j: int| 0 <= j < i ==> !(self.flags@[j] is Timeout),
        {
            if let BroadcastFlags::Timeout(duration) = &self.flags[i] {
                assert(self.flags@.contains(self.flags@[i as int]));
                return Some(*duration);
            }
        }
        None
    }
}

/// The sockets that a packet is for, and how to emit it.
#[derive(Debug)]
pub struct BroadcastOptions {
    /// The rooms to emit to
    pub rooms: Vec<Room>,
    /// The rooms to leave out
    pub except: Vec<Room>,
    /// The flags
    pub flags: FlagSet,
    /// The current socket
    pub sid: Option<Sid>,
}

/// The model of [`BroadcastOptions`].
#[verifier::ext_equal]
pub struct OptionsView {
    pub rooms: Seq<Seq<char>>,
    pub except: Seq<Seq<char>>,
    pub flags: Set<BroadcastFlags>,
    pub sid: Option<Sid>,
}

impl View for BroadcastOptions {
    type V = OptionsView;

    open spec fn view(&self) -> OptionsView {
        OptionsView {
            rooms: room_names(self.rooms@),
            except: room_names(self.except@),
            flags: self.flags@,
            sid: self.sid,
        }
    }
}

/// Some room is in both lists.
pub open spec fn share_room(a: Seq<Seq<char>>, b: Seq<Seq<char>>) -> bool {
    exists|room: Seq<char>| #[trigger] a.contains(room) && b.contains(room)
}

impl OptionsView {
    /// Nothing selected yet, on behalf of a socket or of a whole namespace.
    pub open spec fn new(sid: Option<Sid>) -> OptionsView {
        OptionsView { rooms: seq![], except: seq![], flags: Set::empty(), sid }
    }

    /// More rooms to emit to.
    pub open spec fn within(self, rooms: Seq<Seq<char>>) -> OptionsView {
        OptionsView { rooms: self.rooms + rooms, ..self }
    }

    /// More rooms to emit to, but not to the current socket.
    pub open spec fn to(self, rooms: Seq<Seq<char>>) -> OptionsView {
        self.within(rooms).broadcast()
    }

    /// More rooms to leave out, and the current socket too.
    pub open spec fn except(self, rooms: Seq<Seq<char>>) -> OptionsView {
        OptionsView { except: self.except + rooms, ..self }.broadcast()
    }

    /// One more flag.
    pub open spec fn with_flag(self, flag: BroadcastFlags) -> OptionsView {
        OptionsView { flags: self.flags.insert(flag), ..self }
    }

    /// All sockets but the current one.
    pub open spec fn broadcast(self) -> OptionsView {
        self.with_flag(BroadcastFlags::Broadcast)
    }

    /// Only the sockets of this node.
    pub open spec fn local(self) -> OptionsView {
        self.with_flag(BroadcastFlags::Local)
    }

    /// A timeout for the acknowledgements.
    pub open spec fn timeout(self, timeout: Duration) -> OptionsView {
        self.with_flag(BroadcastFlags::Timeout(timeout))
    }

    /// Some timeout for the acknowledgements was set.
    pub open spec fn has_timeout(self) -> bool {
        exists|timeout: Duration| #[trigger]
            self.flags.contains(BroadcastFlags::Timeout(timeout))
    }

    /// An acknowledgement may be awaited for `timeout`: one that was set, else the
    /// default.
    pub open spec fn may_wait(self, default_timeout: Duration, timeout: Duration) -> bool {
        if self.has_timeout() {
            self.flags.contains(BroadcastFlags::Timeout(timeout))
        } else {
            timeout == default_timeout
        }
    }

    /// All sockets but the current one are meant.
    pub open spec fn is_broadcast(self) -> bool {
        self.flags.contains(BroadcastFlags::Broadcast)
    }

    /// Whether the options select the socket `sid`, which is in the rooms `joined`:
    /// - if rooms were given, it is in one of them;
    /// - it is in no room that was left out;
    /// - if all sockets but the current one are meant, it is not the current one;
    /// - if neither rooms nor a broadcast was asked for, it is the current one.
    pub open spec fn selects(self, sid: Sid, joined: Seq<Seq<char>>) -> bool {
        &&& self.rooms.len() > 0 ==> share_room(self.rooms, joined)
        &&& !share_room(self.except, joined)
        &&& self.is_broadcast() ==> self.sid != Some(sid)
        &&& self.rooms.len() == 0 && !self.is_broadcast() ==> self.sid == Some(sid)
    }
}

/// Whether two rooms have the same name.
fn same_room(a: &Room, b: &Room) -> (same: bool)
    ensures
        same == (a@ == b@),
{
    let left: String = match a {
        Cow::Borrowed(name) => (*name).to_owned(),
        Cow::Owned(name) => name.clone(),
    };
    let right: String = match b {
        Cow::Borrowed(name) => (*name).to_owned(),
        Cow::Owned(name) => name.clone(),
    };
    left == right
}

/// Whether some room is in both lists.
fn have_common_room(a: &Vec<Room>, b: &Vec<Room>) -> (common: bool)
    ensures
        common == share_room(room_names(a@), room_names(b@)),
{
    let ghost left = room_names(a@);
    let ghost right = room_names(b@);
    for i in 0..a.len()
        invariant
            left == room_names(a@),
            right == room_names(b@),
            forall|k: int, l: int|
                0 <= k < i && 0 <= l < right.len() ==> #[trigger] left[k] != #[trigger] right[l],
    {
        for j in 0..b.len()
            invariant
                i < a@.len(),
                left == room_names(a@),
                right == room_names(b@),
                forall|l: int| 0 <= l < j ==> left[i as int] != #[trigger] right[l],
        {
            if same_room(&a[i], &b[j]) {
                assert(left[i as int] == right[j as int]);
                assert(left.contains(left[i as int]) && right.contains(right[j as int]));
                return true;
            }
        }
    }
    false
}

impl BroadcastOptions {
    /// Nothing selected yet, on behalf of a socket or of a whole namespace.
    pub fn new(sid: Option<Sid>) -> (opts: BroadcastOptions)
        ensures
            opts@ == OptionsView::new(sid),
    {
        let opts = BroadcastOptions {
            rooms: Vec::new(),
            except: Vec::new(),
            flags: FlagSet::new(),
            sid,
        };
        assert(opts@ =~= OptionsView::new(sid));
        opts
    }

    /// Whether the options select the socket `sid`, which is in the rooms `joined`.
    pub fn selects(&self, sid: Sid, joined: &Vec<Room>) -> (selected: bool)
        ensures
            selected == self@.selects(sid, room_names(joined@)),
    {
        let current: bool = match self.sid {
            Some(own) => same_sid(own, sid),
            None => false,
        };
        let broadcast = self.flags.contains(&BroadcastFlags::Broadcast);
        if self.rooms.len() > 0 {
            if !have_common_room(&self.rooms, joined) {
                return false;
            }
        } else if !broadcast && !current {
            return false;
        }
        !have_common_room(&self.except, joined) && !(broadcast && current)
    }

    /// How long to wait for an acknowledgement: a timeout that was set with the
    /// options, else the one of the configuration.
    pub fn ack_timeout(&self, config: &SocketIoConfig) -> (timeout: Duration)
        ensures
            self@.may_wait(config.ack_timeout, timeout),
    {
        match self.flags.timeout() {
            Some(timeout) => {
                assert(self@.flags.contains(BroadcastFlags::Timeout(timeout)));
                timeout
            },
            None => {
                assert(self@.flags == self.flags@);
                config.ack_timeout
            },
        }
    }
}

/// Where the sockets and rooms of a namespace are kept. An adapter carries out
/// an operation on the sockets that the options select.
pub trait Adapter: Sized {
    /// What an operation may fail with
    type Error;

    /// A selected socket
    type Socket;

    /// The acknowledgements of a packet
    type AckStream;

    /// The adapter of a new namespace.
    fn new() -> Self;

    /// Emits the packet to the selected sockets.
    fn broadcast(&self, packet: Packet, opts: BroadcastOptions) -> Result<
        (),
        BroadcastError<Self::Error>,
    >;

    /// Emits the packet to the selected sockets and asks for acknowledgements.
    fn broadcast_with_ack(&self, packet: Packet, opts: BroadcastOptions) -> Result<
        Self::AckStream,
        BroadcastError<Self::Error>,
    >;

    /// Gets the selected sockets.
    fn fetch_sockets(&self, opts: BroadcastOptions) -> Result<Vec<Self::Socket>, Self::Error>;

    /// Disconnects the selected sockets.
    fn disconnect_socket(&self, opts: BroadcastOptions) -> Result<
        (),
        BroadcastError<Self::Error>,
    >;

    /// Makes the selected sockets join the rooms.
    fn add_sockets<R: RoomParam>(&self, opts: BroadcastOptions, rooms: R) -> Result<
        (),
        Self::Error,
    >;

    /// Makes the selected sockets leave the rooms.
    fn del_sockets<R: RoomParam>(&self, opts: BroadcastOptions, rooms: R) -> Result<
        (),
        Self::Error,
    >;
}

} // verus!
