use vstd::prelude::*;
use crate::domain::UserId;
use crate::message::{distribute_frame, ChatContent, DistributeMessage, ServerToClient};
use crate::registry::Registry;

verus! {

/// Why the chat service could not take a connection.
#[derive(Clone, Copy, Debug, PartialEq, Eq, Structural)]
pub enum ChatError {
    /// Every connection number has been handed out.
    ConnectionsExhausted,
}

/// A chat message on its way to the dispatcher, with the user who sent it.
#[derive(Debug)]
pub struct Inbound {
    pub sender: UserId,
    pub content: ChatContent,
}

/// One frame to push onto the mailbox of connection `conn`, which serves `recipient`.
#[derive(Debug)]
pub struct Delivery {
    pub recipient: UserId,
    pub conn: u64,
    pub frame: ServerToClient,
}

/// The outcome of registering a connection: the number it was given, and the
/// connection of the same user that it displaced, whose tasks are to be stopped.
#[derive(Clone, Copy, Debug, PartialEq, Eq, Structural)]
pub struct Admission {
    pub user_id: UserId,
    pub conn: u64,
    pub displaced: Option<u64>,
}

/// What a well-formed dispatch of `inbound` against the registry `online` hands
/// out: one `distribute` frame for every online user but the sender, on that
/// user's connection, each recipient and each connection once.
pub open spec fn dispatch_ok(online: Map<u128, u64>, inbound: Inbound, ds: Seq<Delivery>) -> bool {
    &&& forall|i: int|
        #![trigger ds[i]]
        0 <= i < ds.len() ==> {
            &&& online.contains_key(ds[i].recipient.0)
            &&& online[ds[i].recipient.0] == ds[i].conn
            &&& ds[i].recipient != inbound.sender
            &&& ds[i].frame == distribute_frame(inbound.sender, inbound.content)
        }
    &&& forall|i: int, j: int|
        0 <= i < j < ds.len() ==> ds[i].recipient != ds[j].recipient && ds[i].conn != ds[j].conn
    &&& forall|u: u128|
        online.contains_key(u) && u != inbound.sender.0 ==> exists|i: int|
            0 <= i < ds.len() && (#[trigger] ds[i]).recipient.0 == u
}

/// The frames among `ds` that go to connection `conn`, in order.
pub open spec fn frames_to(ds: Seq<Delivery>, conn: u64) -> Seq<ServerToClient>
    decreases ds.len(),
{
    if ds.len() == 0 {
        Seq::empty()
    } else {
        let rest = frames_to(ds.drop_last(), conn);
        if ds.last().conn == conn {
            rest.push(ds.last().frame)
        } else {
            rest
        }
    }
}

/// What the mailbox of connection `conn` receives from a run of dispatches with
/// outcomes `batches`, in the order in which they were made.
pub open spec fn mailbox_of(batches: Seq<Seq<Delivery>>, conn: u64) -> Seq<ServerToClient>
    decreases batches.len(),
{
    if batches.len() == 0 {
        Seq::empty()
    } else {
        mailbox_of(batches.drop_last(), conn) + frames_to(batches.last(), conn)
    }
}

proof fn lemma_frames_to_one(ds: Seq<Delivery>, conn: u64, k: int)
    requires
        0 <= k < ds.len(),
        ds[k].conn == conn,
        forall|i: int| 0 <= i < ds.len() && i != k ==> (#[trigger] ds[i]).conn != conn,
    ensures
        frames_to(ds, conn) == seq![ds[k].frame],
    decreases ds.len(),
{
    if k == ds.len() - 1 {
        lemma_frames_to_none(ds.drop_last(), conn);
        assert(frames_to(ds.drop_last(), conn).push(ds.last().frame) =~= seq![ds[k].frame]);
    } else {
        assert(ds.drop_last()[k] == ds[k]);
        assert forall|i: int| 0 <= i < ds.drop_last().len() && i != k implies (
        #[trigger] ds.drop_last()[i]).conn != conn by {
            assert(ds.drop_last()[i] == ds[i]);
        }
        lemma_frames_to_one(ds.drop_last(), conn, k);
        assert(ds[ds.len() - 1].conn != conn);
    }
}

proof fn lemma_frames_to_none(ds: Seq<Delivery>, conn: u64)
    requires
        forall|i: int| 0 <= i < ds.len() ==> (#[trigger] ds[i]).conn != conn,
    ensures
        frames_to(ds, conn) == Seq::<ServerToClient>::empty(),
    decreases ds.len(),
{
    if ds.len() > 0 {
        assert forall|i: int| 0 <= i < ds.drop_last().len() implies (
        #[trigger] ds.drop_last()[i]).conn != conn by {
            assert(ds.drop_last()[i] == ds[i]);
        }
        lemma_frames_to_none(ds.drop_last(), conn);
        assert(ds[ds.len() - 1].conn != conn);
    }
}

/// A dispatch to a registry in which `recipient` is online on `conn`, by a
/// sender other than `recipient`, puts exactly one frame on `conn`: the
/// `distribute` frame of the message.
pub proof fn lemma_dispatch_reaches_recipient(
    online: Map<u128, u64>,
    inbound: Inbound,
    ds: Seq<Delivery>,
    recipient: u128,
    conn: u64,
)
    requires
        dispatch_ok(online, inbound, ds),
        online.contains_key(recipient),
        online[recipient] == conn,
        recipient != inbound.sender.0,
    ensures
        frames_to(ds, conn) == seq![distribute_frame(inbound.sender, inbound.content)],
{
    let k = choose|k: int| 0 <= k < ds.len() && (#[trigger] ds[k]).recipient.0 == recipient;
    assert forall|i: int| 0 <= i < ds.len() && i != k implies (#[trigger] ds[i]).conn != conn by {
        if i < k {
            assert(ds[i].conn != ds[k].conn);
        } else {
            assert(ds[k].conn != ds[i].conn);
        }
    }
    lemma_frames_to_one(ds, conn, k);
}

/// Per-sender order: when one sender's messages `contents` are dispatched one
/// after another, each user that stays online on the same connection throughout
/// receives their `distribute` frames in the order in which they were sent,
/// each once, whatever else the registry holds at each dispatch.
pub proof fn lemma_sender_order_kept(
    onlines: Seq<Map<u128, u64>>,
    sender: UserId,
    contents: Seq<ChatContent>,
    batches: Seq<Seq<Delivery>>,
    recipient: u128,
    conn: u64,
)
    requires
        onlines.len() == contents.len(),
        batches.len() == contents.len(),
        forall|i: int|
            0 <= i < contents.len() ==> dispatch_ok(
                #[trigger] onlines[i],
                (Inbound { sender, content: contents[i] }),
                batches[i],
            ),
        forall|i: int|
            0 <= i < contents.len() ==> (#[trigger] onlines[i]).contains_key(recipient)
                && onlines[i][recipient] == conn,
        recipient != sender.0,
    ensures
        mailbox_of(batches, conn) == Seq::new(
            contents.len(),
            |i: int| distribute_frame(sender, contents[i]),
        ),
    decreases contents.len(),
{
    if contents.len() > 0 {
        let n = contents.len() - 1;
        assert forall|i: int| 0 <= i < n implies dispatch_ok(
            #[trigger] onlines.drop_last()[i],
            (Inbound { sender, content: contents.drop_last()[i] }),
            batches.drop_last()[i],
        ) by {
            assert(dispatch_ok(onlines[i], (Inbound { sender, content: contents[i] }), batches[i]));
        }
        assert forall|i: int| 0 <= i < n implies (#[trigger] onlines.drop_last()[i]).contains_key(
            recipient,
        ) && onlines.drop_last()[i][recipient] == conn by {
            assert(onlines[i].contains_key(recipient));
        }
        lemma_sender_order_kept(
            onlines.drop_last(),
            sender,
            contents.drop_last(),
            batches.drop_last(),
            recipient,
            conn,
        );
        assert(onlines[n].contains_key(recipient));
        lemma_dispatch_reaches_recipient(
            onlines[n],
            (Inbound { sender, content: contents[n] }),
            batches[n],
            recipient,
            conn,
        );
        assert(mailbox_of(batches, conn) =~= Seq::new(
            contents.len(),
            |i: int| distribute_frame(sender, contents[i]),
        ));
    }
}

/// After a connection's supervisor released it, no user is registered on it
/// any more, and no dispatch hands it a frame.
pub proof fn lemma_released_connection_receives_nothing(
    before: FakeChatService,
    after: FakeChatService,
    user: UserId,
    conn: u64,
    inbound: Inbound,
    ds: Seq<Delivery>,
)
    requires
        before.wf(),
        before.issued().contains_key(conn),
        before.issued()[conn] == user.0,
        after.online() == (if before.online().contains_key(user.0) && before.online()[user.0]
            == conn {
            before.online().remove(user.0)
        } else {
            before.online()
        }),
        dispatch_ok(after.online(), inbound, ds),
    ensures
        forall|u: u128| after.online().contains_key(u) ==> after.online()[u] != conn,
        forall|i: int| 0 <= i < ds.len() ==> (#[trigger] ds[i]).conn != conn,
{
    assert forall|u: u128| after.online().contains_key(u) implies after.online()[u] != conn by {
        assert(before.online().contains_key(u));
        assert(before.online()[u] == after.online()[u]);
    }
    assert forall|i: int| 0 <= i < ds.len() implies (#[trigger] ds[i]).conn != conn by {
        assert(after.online().contains_key(ds[i].recipient.0));
    }
}

/// A connection that is no longer registered stays unregistered when another
/// connection is registered: new connections get numbers never handed out.
pub proof fn lemma_register_keeps_released_out(
    before: FakeChatService,
    after: FakeChatService,
    user: UserId,
    fresh: u64,
    conn: u64,
)
    requires
        before.wf(),
        before.issued().contains_key(conn),
        forall|u: u128| before.online().contains_key(u) ==> before.online()[u] != conn,
        fresh == before.next_conn(),
        after.online() == before.online().insert(user.0, fresh),
    ensures
        forall|u: u128| after.online().contains_key(u) ==> after.online()[u] != conn,
{
}

/// The chat service: the registry of online users and the numbering of
/// connections.
///
/// Messages are broadcast: every user online but the sender receives each one,
/// whatever its conversation. A user has at most one registered connection; a
/// new connection displaces the old one, whose tasks the caller stops, and a
/// connection leaves the registry only through `release` by its own number, so
/// that the end of a displaced connection never takes out its successor.
pub struct FakeChatService {
    online_users: Registry,
    next_conn: u64,
    issued: Ghost<Map<u64, u128>>,
}

impl FakeChatService {
    /// Each online user's key, mapped to the number of its connection.
    pub closed spec fn online(&self) -> Map<u128, u64> {
        self.online_users@
    }

    /// Each connection number handed out so far, mapped to the user it serves.
    pub closed spec fn issued(&self) -> Map<u64, u128> {
        self.issued@
    }

    /// The number that the next registered connection gets.
    pub closed spec fn next_conn(&self) -> u64 {
        self.next_conn
    }

    /// Every registry entry names a connection handed out to that same user, and
    /// every number handed out lies below the next one.
    #[verifier::type_invariant]
    pub closed spec fn wf(self) -> bool {
        &&& forall|u: u128|
            #[trigger] self.online_users@.contains_key(u) ==> self.issued@.contains_key(
                self.online_users@[u],
            ) && self.issued@[self.online_users@[u]] == u
        &&& forall|c: u64| #[trigger] self.issued@.contains_key(c) ==> c < self.next_conn
    }

    /// No two online users share a connection.
    pub proof fn lemma_connections_distinct(&self, u: u128, v: u128)
        requires
            self.wf(),
            self.online().contains_key(u),
            self.online().contains_key(v),
            u != v,
        ensures
            self.online()[u] != self.online()[v],
    {
    }

    pub fn new() -> (r: FakeChatService)
        ensures
            forall|u: u128| !r.online().contains_key(u),
            forall|c: u64| !r.issued().contains_key(c),
            r.next_conn() == 0,
    {
        FakeChatService {
            online_users: Registry::new(),
            next_conn: 0,
            issued: Ghost(Map::empty()),
        }
    }

    /// Registers a new connection for `user` under a fresh number. An entry that
    /// `user` had is replaced and its connection reported as displaced.
    pub fn register(&mut self, user: UserId) -> (r: Result<Admission, ChatError>)
        ensures
            old(self).next_conn() < u64::MAX <==> r is Ok,
            r is Err ==> r == Err::<Admission, ChatError>(ChatError::ConnectionsExhausted)
                && *final(self) == *old(self),
            r matches Ok(a) ==> {
                &&& a.user_id == user
                &&& a.conn == old(self).next_conn()
                &&& !old(self).issued().contains_key(a.conn)
                &&& a.displaced == (if old(self).online().contains_key(user.0) {
                    Some(old(self).online()[user.0])
                } else {
                    None::<u64>
                })
                &&& final(self).online() == old(self).online().insert(user.0, a.conn)
                &&& final(self).issued() == old(self).issued().insert(a.conn, user.0)
                &&& final(self).next_conn() == old(self).next_conn() + 1
            },
    {
        proof {
            use_type_invariant(&*self);
        }
        if self.next_conn == u64::MAX {
            return Err(ChatError::ConnectionsExhausted);
        }
        let conn = self.next_conn;
        let mut online_users = Registry::new();
        std::mem::swap(&mut online_users, &mut self.online_users);
        let displaced = online_users.insert(user.0, conn);
        let issued = Ghost(self.issued@.insert(conn, user.0));
        *self = FakeChatService { online_users, next_conn: conn + 1, issued };
        Ok(Admission { user_id: user, conn, displaced })
    }

    /// Takes `user` out of the registry if its entry is still connection `conn`;
    /// an entry that a later connection of the same user made stays.
    pub fn release(&mut self, user: UserId, conn: u64) -> (removed: bool)
        ensures
            removed == (old(self).online().contains_key(user.0) && old(self).online()[user.0]
                == conn),
            final(self).online() == (if removed {
                old(self).online().remove(user.0)
            } else {
                old(self).online()
            }),
            final(self).issued() == old(self).issued(),
            final(self).next_conn() == old(self).next_conn(),
    {
        proof {
            use_type_invariant(&*self);
        }
        match self.online_users.get(user.0) {
            Some(current) => {
                if current == conn {
                    let mut online_users = Registry::new();
                    std::mem::swap(&mut online_users, &mut self.online_users);
                    online_users.remove(user.0);
                    *self = FakeChatService { online_users, next_conn: self.next_conn, issued: self.issued };
                    true
                } else {
                    false
                }
            },
            None => false,
        }
    }

    /// The connection that serves `user`, if it is online.
    pub fn connection_of(&self, user: UserId) -> (r: Option<u64>)
        ensures
            r == (if self.online().contains_key(user.0) {
                Some(self.online()[user.0])
            } else {
                None::<u64>
            }),
    {
        self.online_users.get(user.0)
    }

    /// How many users are online.
    pub fn online_count(&self) -> (r: usize)
        ensures
            r == self.online().len(),
    {
        self.online_users.len()
    }

    /// Fans `inbound` out to every online user but its sender.
    pub fn dispatch(&self, inbound: &Inbound) -> (r: Vec<Delivery>)
        ensures
            dispatch_ok(self.online(), *inbound, r@),
    {
        proof {
            use_type_invariant(self);
        }
        let entries = self.online_users.snapshot();
        let mut out: Vec<Delivery> = Vec::new();
        let mut i: usize = 0;
        while i < entries.len()
            invariant
                0 <= i <= entries@.len(),
                self.wf(),
                forall|t: int|
                    0 <= t < entries@.len() ==> self.online().contains_key(
                        #[trigger] entries@[t].0,
                    ) && self.online()[entries@[t].0] == entries@[t].1,
                forall|t: int, s: int| 0 <= t < s < entries@.len() ==> entries@[t].0 != entries@[s].0,
                forall|j: int|
                    #![trigger out@[j]]
                    0 <= j < out@.len() ==> {
                        &&& self.online().contains_key(out@[j].recipient.0)
                        &&& self.online()[out@[j].recipient.0] == out@[j].conn
                        &&& out@[j].recipient != inbound.sender
                        &&& out@[j].frame == distribute_frame(inbound.sender, inbound.content)
                    },
                forall|j: int|
                    0 <= j < out@.len() ==> exists|t: int|
                        0 <= t < i && entries@[t].0 == (#[trigger] out@[j]).recipient.0,
                forall|j: int, k: int|
                    0 <= j < k < out@.len() ==> out@[j].recipient != out@[k].recipient,
                forall|t: int|
                    0 <= t < i && (#[trigger] entries@[t]).0 != inbound.sender.0 ==> exists|j: int|
                        0 <= j < out@.len() && out@[j].recipient.0 == entries@[t].0,
            decreases entries@.len() - i,
        {
            let (u, c) = entries[i];
            if u != inbound.sender.0 {
                let frame = ServerToClient::Distribute(
                    DistributeMessage { sender: inbound.sender, content: inbound.content.clone() },
                );
                let ghost old_out = out@;
                out.push(Delivery { recipient: UserId(u), conn: c, frame });
                assert forall|j: int| 0 <= j < out@.len() implies exists|t: int|
                    0 <= t < i + 1 && entries@[t].0 == (#[trigger] out@[j]).recipient.0 by {
                    if j < old_out.len() {
                        assert(old_out[j] == out@[j]);
                    } else {
                        assert(entries@[i as int].0 == out@[j].recipient.0);
                    }
                }
                assert forall|j: int, k: int| 0 <= j < k < out@.len() implies out@[j].recipient
                    != out@[k].recipient by {
                    if k == old_out.len() {
                        assert(old_out[j] == out@[j]);
                        let t = choose|t: int| 0 <= t < i && entries@[t].0 == (#[trigger] old_out[j]).recipient.0;
                        assert(entries@[t].0 != entries@[i as int].0);
                    } else {
                        assert(old_out[j] == out@[j]);
                        assert(old_out[k] == out@[k]);
                    }
                }
                assert forall|t: int|
                    0 <= t < i + 1 && (#[trigger] entries@[t]).0 != inbound.sender.0 implies exists|j: int|
                        0 <= j < out@.len() && out@[j].recipient.0 == entries@[t].0 by {
                    if t < i {
                        let j = choose|j: int| 0 <= j < old_out.len() && old_out[j].recipient.0 == entries@[t].0;
                        assert(out@[j] == old_out[j]);
                    } else {
                        assert(out@[old_out.len() as int].recipient.0 == entries@[t].0);
                    }
                }
            }
            i += 1;
        }
        assert forall|j: int, k: int| 0 <= j < k < out@.len() implies out@[j].conn != out@[k].conn by {
            self.lemma_connections_distinct(out@[j].recipient.0, out@[k].recipient.0);
        }
        assert forall|u: u128| self.online().contains_key(u) && u != inbound.sender.0 implies exists|j: int|
            0 <= j < out@.len() && (#[trigger] out@[j]).recipient.0 == u by {
            let t = choose|t: int| 0 <= t < entries@.len() && (#[trigger] entries@[t]).0 == u;
            assert(entries@[t].0 != inbound.sender.0);
        }
        out
    }
}

} // verus!
