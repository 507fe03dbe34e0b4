//! SendMessage tool: inter-agent messaging within the multi-agent system.

use vstd::prelude::*;
use vstd::string::*;
use crate::error::CliError;
use crate::ext::now_millis;
use crate::text::{byte_len, byte_prefix, cut_ok, decimal, join, join_seq, owned, prefix_bytes,
    str_byte_len, str_eq, u64_to_decimal, views};
use crate::types::tool::{is_text_result, Tool, ToolResult};

verus! {

/// What a message says, as plain values.
pub struct MessageView {
    pub from: Seq<char>,
    pub to: Seq<char>,
    pub message: Seq<char>,
    pub message_type: Seq<char>,
    pub request_id: Option<Seq<char>>,
    pub timestamp: int,
}

/// In-memory message stored for a teammate.
#[derive(Debug)]
pub struct AgentMessage {
    pub from: String,
    pub to: String,
    pub message: String,
    pub message_type: String,
    pub request_id: Option<String>,
    pub timestamp: i64,
}

/// The characters of an optional string.
pub open spec fn opt_view(o: Option<String>) -> Option<Seq<char>> {
    match o {
        Some(s) => Some(s@),
        None => None,
    }
}

fn clone_opt(o: &Option<String>) -> (r: Option<String>)
    ensures
        opt_view(r) == opt_view(*o),
{
    match o {
        Some(s) => Some(s.clone()),
        None => None,
    }
}

impl View for AgentMessage {
    type V = MessageView;

    open spec fn view(&self) -> MessageView {
        MessageView {
            from: self.from@,
            to: self.to@,
            message: self.message@,
            message_type: self.message_type@,
            request_id: opt_view(self.request_id),
            timestamp: self.timestamp as int,
        }
    }
}

impl AgentMessage {
    /// A copy of the message.
    pub fn duplicate(&self) -> (r: Self)
        ensures
            r@ == self@,
    {
        AgentMessage {
            from: self.from.clone(),
            to: self.to.clone(),
            message: self.message.clone(),
            message_type: self.message_type.clone(),
            request_id: clone_opt(&self.request_id),
            timestamp: self.timestamp,
        }
    }
}

/// The views of a queue of messages.
pub open spec fn queue_view(q: Seq<AgentMessage>) -> Seq<MessageView> {
    q.map_values(|m: AgentMessage| m@)
}

/// The queue held for `k`, empty when `k` has none.
pub open spec fn queue(m: Map<Seq<char>, Seq<MessageView>>, k: Seq<char>) -> Seq<MessageView> {
    if m.dom().contains(k) {
        m[k]
    } else {
        seq![]
    }
}

type Entry = (String, Vec<AgentMessage>);

/// Some entry of `s` is named `k`.
pub open spec fn has_key(s: Seq<Entry>, k: Seq<char>) -> bool {
    exists|i: int| 0 <= i < s.len() && s[i].0@ == k
}

/// The position of the entry named `k`.
pub open spec fn key_index(s: Seq<Entry>, k: Seq<char>) -> int {
    choose|i: int| 0 <= i < s.len() && s[i].0@ == k
}

/// No two entries share a name.
pub open spec fn unique_keys(s: Seq<Entry>) -> bool {
    forall|i: int, j: int| 0 <= i < s.len() && 0 <= j < s.len() && i != j ==> s[i].0@ != s[j].0@
}

/// The names of the entries, in order.
pub open spec fn entry_names(s: Seq<Entry>) -> Seq<Seq<char>> {
    s.map_values(|e: Entry| e.0@)
}

/// The queues of the entries, by name.
pub open spec fn entry_map(s: Seq<Entry>) -> Map<Seq<char>, Seq<MessageView>> {
    Map::new(|k: Seq<char>| has_key(s, k), |k: Seq<char>| queue_view(s[key_index(s, k)].1@))
}

proof fn lemma_key_index(s: Seq<Entry>, k: Seq<char>, i: int)
    requires
        unique_keys(s),
        0 <= i < s.len(),
        s[i].0@ == k,
    ensures
        key_index(s, k) == i,
        has_key(s, k),
        entry_map(s).dom().contains(k),
        entry_map(s)[k] == queue_view(s[i].1@),
{
    assert(has_key(s, k));
}

/// Replacing the queue of an existing entry replaces its value in the map.
proof fn lemma_update_entry(s: Seq<Entry>, i: int, e: Entry)
    requires
        unique_keys(s),
        0 <= i < s.len(),
        e.0@ == s[i].0@,
    ensures
        unique_keys(s.update(i, e)),
        entry_map(s.update(i, e)) == entry_map(s).insert(e.0@, queue_view(e.1@)),
        entry_names(s.update(i, e)) == entry_names(s),
{
    let t = s.update(i, e);
    assert forall|a: int, b: int| 0 <= a < t.len() && 0 <= b < t.len() && a != b implies t[a].0@
        != t[b].0@ by {
        assert(t[a].0@ == s[a].0@);
        assert(t[b].0@ == s[b].0@);
    }
    lemma_key_index(t, e.0@, i);
    assert forall|k: Seq<char>| #[trigger] entry_map(t).dom().contains(k) <==> entry_map(s).insert(
        e.0@,
        queue_view(e.1@),
    ).dom().contains(k) by {
        if has_key(s, k) {
            let j = choose|j: int| 0 <= j < s.len() && s[j].0@ == k;
            assert(t[j].0@ == k);
        }
        if has_key(t, k) {
            let j = choose|j: int| 0 <= j < t.len() && t[j].0@ == k;
            assert(s[j].0@ == k);
        }
    }
    assert forall|k: Seq<char>| #[trigger] entry_map(t).dom().contains(k) && k != e.0@ implies entry_map(
        t,
    )[k] == entry_map(s)[k] by {
        let j = choose|j: int| 0 <= j < t.len() && t[j].0@ == k;
        assert(j != i);
        assert(s[j].0@ == k);
        lemma_key_index(t, k, j);
        lemma_key_index(s, k, j);
    }
    assert(entry_map(t) =~= entry_map(s).insert(e.0@, queue_view(e.1@)));
    assert(entry_names(t) =~= entry_names(s));
}

/// Adding an entry with a new name adds it to the map.
proof fn lemma_push_entry(s: Seq<Entry>, e: Entry)
    requires
        unique_keys(s),
        !has_key(s, e.0@),
    ensures
        unique_keys(s.push(e)),
        entry_map(s.push(e)) == entry_map(s).insert(e.0@, queue_view(e.1@)),
        entry_names(s.push(e)) == entry_names(s).push(e.0@),
{
    let t = s.push(e);
    assert forall|a: int, b: int| 0 <= a < t.len() && 0 <= b < t.len() && a != b implies t[a].0@
        != t[b].0@ by {
        if a == s.len() {
            assert(s[b].0@ != e.0@);
        } else if b == s.len() {
            assert(s[a].0@ != e.0@);
        } else {
        }
    }
    lemma_key_index(t, e.0@, s.len() as int);
    assert forall|k: Seq<char>| #[trigger] entry_map(t).dom().contains(k) <==> entry_map(s).insert(
        e.0@,
        queue_view(e.1@),
    ).dom().contains(k) by {
        if has_key(s, k) {
            let j = choose|j: int| 0 <= j < s.len() && s[j].0@ == k;
            assert(t[j].0@ == k);
        }
        if has_key(t, k) && k != e.0@ {
            let j = choose|j: int| 0 <= j < t.len() && t[j].0@ == k;
            assert(j < s.len());
            assert(s[j].0@ == k);
        }
    }
    assert forall|k: Seq<char>| #[trigger] entry_map(t).dom().contains(k) && k != e.0@ implies entry_map(
        t,
    )[k] == entry_map(s)[k] by {
        let j = choose|j: int| 0 <= j < t.len() && t[j].0@ == k;
        assert(j < s.len());
        assert(s[j].0@ == k);
        lemma_key_index(t, k, j);
        lemma_key_index(s, k, j);
    }
    assert(entry_map(t) =~= entry_map(s).insert(e.0@, queue_view(e.1@)));
    assert(entry_names(t) =~= entry_names(s).push(e.0@));
}

/// Law: draining a queue right after a message was pushed to it gives
/// back what it held before, followed by that message; a second drain
/// gives nothing; other queues are left as they were.
pub proof fn lemma_drain_after_push(m: Map<Seq<char>, Seq<MessageView>>, recipient: Seq<char>, msg: MessageView)
    ensures
        queue(m.insert(recipient, queue(m, recipient).push(msg)), recipient) == queue(m, recipient).push(msg),
        queue(m.insert(recipient, seq![]), recipient) == Seq::<MessageView>::empty(),
        forall|other: Seq<char>| other != recipient ==> #[trigger] queue(
            m.insert(recipient, queue(m, recipient).push(msg)),
            other,
        ) == queue(m, other),
{
}

/// A call that changes a mailbox, as its view sees it.
pub enum MailboxCall {
    Push(Seq<char>, MessageView),
    Drain(Seq<char>),
    Clear,
}

/// The mailbox view `m` after one call (see `Mailbox::push`, `drain` and
/// `clear`).
pub open spec fn after_call(m: Map<Seq<char>, Seq<MessageView>>, c: MailboxCall) -> Map<Seq<char>, Seq<MessageView>> {
    match c {
        MailboxCall::Push(r, msg) => m.insert(r, queue(m, r).push(msg)),
        MailboxCall::Drain(r) => m.insert(r, seq![]),
        MailboxCall::Clear => Map::empty(),
    }
}

/// The mailbox view `m` after the calls, made in order.
pub open spec fn after_calls(m: Map<Seq<char>, Seq<MessageView>>, calls: Seq<MailboxCall>) -> Map<Seq<char>, Seq<MessageView>>
    decreases calls.len(),
{
    if calls.len() == 0 {
        m
    } else {
        after_call(after_calls(m, calls.drop_last()), calls.last())
    }
}

/// The messages pushed to `r` by the calls, in order.
pub open spec fn pushes_to(calls: Seq<MailboxCall>, r: Seq<char>) -> Seq<MessageView>
    decreases calls.len(),
{
    if calls.len() == 0 {
        seq![]
    } else {
        pushes_to(calls.drop_last(), r) + match calls.last() {
            MailboxCall::Push(k, msg) => if k == r { seq![msg] } else { seq![] },
            _ => seq![],
        }
    }
}

/// Whether the calls include a drain of `r` or a clear.
pub open spec fn empties(calls: Seq<MailboxCall>, r: Seq<char>) -> bool {
    exists|i: int| 0 <= i < calls.len() && (calls[i] == MailboxCall::Drain(r) || calls[i] == MailboxCall::Clear)
}

/// The names that the calls push to or drain.
pub open spec fn named(calls: Seq<MailboxCall>) -> Set<Seq<char>>
    decreases calls.len(),
{
    if calls.len() == 0 {
        Set::empty()
    } else {
        named(calls.drop_last()) + match calls.last() {
            MailboxCall::Push(k, _) => set![k],
            MailboxCall::Drain(k) => set![k],
            MailboxCall::Clear => Set::empty(),
        }
    }
}

/// Law: while neither a drain of `r` nor a clear comes between, the queue
/// of `r` grows by exactly the messages pushed to it, in push order. So
/// from an empty queue (a new or cleared mailbox, or right after a drain
/// of `r`), a drain of `r` gives back those messages, and `r` has
/// messages exactly when at least one was pushed.
pub proof fn lemma_queue_holds_pushes(m: Map<Seq<char>, Seq<MessageView>>, calls: Seq<MailboxCall>, r: Seq<char>)
    requires
        !empties(calls, r),
    ensures
        queue(after_calls(m, calls), r) == queue(m, r) + pushes_to(calls, r),
        queue(m, r).len() == 0 ==> queue(after_calls(m, calls), r) == pushes_to(calls, r),
        queue(m, r).len() == 0 ==> (queue(after_calls(m, calls), r).len() > 0 <==> pushes_to(calls, r).len() > 0),
    decreases calls.len(),
{
    if calls.len() > 0 {
        let init = calls.drop_last();
        assert(!empties(init, r)) by {
            if empties(init, r) {
                let i = choose|i: int| 0 <= i < init.len() && (init[i] == MailboxCall::Drain(r) || init[i] == MailboxCall::Clear);
                assert(calls[i] == init[i]);
            }
        }
        lemma_queue_holds_pushes(m, init, r);
        assert(calls[calls.len() - 1] == calls.last());
        let prev = after_calls(m, init);
        match calls.last() {
            MailboxCall::Push(k, msg) => {
                if k == r {
                    assert(queue(m, r) + pushes_to(calls, r) =~= (queue(m, r) + pushes_to(init, r)).push(msg));
                } else {
                    assert(pushes_to(calls, r) =~= pushes_to(init, r));
                }
            },
            MailboxCall::Drain(k) => {
                assert(pushes_to(calls, r) =~= pushes_to(init, r));
            },
            MailboxCall::Clear => {},
        }
    } else {
        assert(queue(m, r) + pushes_to(calls, r) =~= queue(m, r));
    }
    if queue(m, r).len() == 0 {
        assert(queue(m, r) + pushes_to(calls, r) =~= pushes_to(calls, r));
    }
}

/// Law: since a mailbox was made or cleared, the names it knows are
/// exactly those that a push or a drain named (`Mailbox::lemma_names`
/// adds that each is listed once).
pub proof fn lemma_known_names(calls: Seq<MailboxCall>)
    requires
        forall|i: int| 0 <= i < calls.len() ==> calls[i] != MailboxCall::Clear,
    ensures
        after_calls(Map::empty(), calls).dom() == named(calls),
    decreases calls.len(),
{
    if calls.len() > 0 {
        let init = calls.drop_last();
        assert forall|i: int| 0 <= i < init.len() implies init[i] != MailboxCall::Clear by {
            assert(calls[i] == init[i]);
        }
        lemma_known_names(init);
        assert(calls[calls.len() - 1] == calls.last());
        assert(after_calls(Map::empty(), calls).dom() =~= named(calls));
    } else {
        assert(after_calls(Map::empty(), calls).dom() =~= named(calls));
    }
}

/// Mailbox mapping each teammate's name to the messages queued for them.
/// The special name "all" holds broadcasts sent while no teammate was
/// known.
#[derive(Debug)]
pub struct Mailbox {
    messages: Vec<Entry>,
}

impl View for Mailbox {
    type V = Map<Seq<char>, Seq<MessageView>>;

    closed spec fn view(&self) -> Map<Seq<char>, Seq<MessageView>> {
        entry_map(self.messages@)
    }
}

impl Mailbox {
    /// The mailbox's internal invariant: names are not repeated.
    pub closed spec fn wf(&self) -> bool {
        unique_keys(self.messages@)
    }

    /// The known teammates, in the order they first received a message.
    pub closed spec fn names(&self) -> Seq<Seq<char>> {
        entry_names(self.messages@)
    }

    /// Law: the known teammates are exactly the names the mailbox holds
    /// queues for, each listed once.
    pub proof fn lemma_names(&self)
        requires
            self.wf(),
        ensures
            self.names().no_duplicates(),
            forall|k: Seq<char>| self@.dom().contains(k) <==> self.names().contains(k),
    {
        let s = self.messages@;
        assert forall|k: Seq<char>| self@.dom().contains(k) <==> self.names().contains(k) by {
            if has_key(s, k) {
                let j = choose|j: int| 0 <= j < s.len() && s[j].0@ == k;
                assert(self.names()[j] == k);
            }
            if self.names().contains(k) {
                let j = choose|j: int| 0 <= j < self.names().len() && self.names()[j] == k;
                assert(s[j].0@ == k);
            }
        }
    }

    /// An empty mailbox.
    pub fn new() -> (r: Self)
        ensures
            r.wf(),
            r@ == Map::<Seq<char>, Seq<MessageView>>::empty(),
            r.names() == Seq::<Seq<char>>::empty(),
    {
        let r = Mailbox { messages: Vec::new() };
        assert(r@ =~= Map::<Seq<char>, Seq<MessageView>>::empty());
        assert(r.names() =~= Seq::<Seq<char>>::empty());
        r
    }

    fn find(&self, name: &str) -> (r: Option<usize>)
        requires
            self.wf(),
        ensures
            match r {
                Some(i) => i < self.messages@.len() && self.messages@[i as int].0@ == name@,
                None => !has_key(self.messages@, name@),
            },
    {
        let mut i: usize = 0;
        while i < self.messages.len()
            invariant
                i <= self.messages@.len(),
                forall|j: int| 0 <= j < i ==> self.messages@[j].0@ != name@,
            decreases self.messages.len() - i,
        {
            if str_eq(self.messages[i].0.as_str(), name) {
                return Some(i);
            }
            i = i + 1;
        }
        None
    }

    /// Adds a message at the end of `recipient`'s queue; a new recipient
    /// becomes the last known teammate.
    pub fn push(&mut self, recipient: &str, msg: AgentMessage)
        requires
            old(self).wf(),
        ensures
            final(self).wf(),
            final(self)@ == old(self)@.insert(recipient@, queue(old(self)@, recipient@).push(msg@)),
            final(self)@ == after_call(old(self)@, MailboxCall::Push(recipient@, msg@)),
            final(self).names() == if old(self)@.dom().contains(recipient@) {
                old(self).names()
            } else {
                old(self).names().push(recipient@)
            },
    {
        let ghost s = self.messages@;
        match self.find(recipient) {
            Some(i) => {
                proof {
                    lemma_key_index(s, recipient@, i as int);
                }
                let (name, mut q) = self.messages.remove(i);
                q.push(msg);
                proof {
                    assert(queue_view(q@) =~= queue_view(s[i as int].1@).push(msg@));
                }
                self.messages.insert(i, (name, q));
                proof {
                    assert(self.messages@ =~= s.update(i as int, (name, q)));
                    lemma_update_entry(s, i as int, (name, q));
                }
            },
            None => {
                let mut q: Vec<AgentMessage> = Vec::new();
                q.push(msg);
                let name = crate::text::owned(recipient);
                proof {
                    assert(queue_view(q@) =~= seq![msg@]);
                    assert(queue(entry_map(s), recipient@) =~= seq![]);
                }
                self.messages.push((name, q));
                proof {
                    lemma_push_entry(s, (name, q));
                }
            },
        }
    }

    /// Takes all messages queued for `recipient`, leaving its queue empty;
    /// a new recipient becomes the last known teammate.
    pub fn drain(&mut self, recipient: &str) -> (r: Vec<AgentMessage>)
        requires
            old(self).wf(),
        ensures
            final(self).wf(),
            queue_view(r@) == queue(old(self)@, recipient@),
            final(self)@ == old(self)@.insert(recipient@, seq![]),
            final(self)@ == after_call(old(self)@, MailboxCall::Drain(recipient@)),
            final(self).names() == if old(self)@.dom().contains(recipient@) {
                old(self).names()
            } else {
                old(self).names().push(recipient@)
            },
    {
        let ghost s = self.messages@;
        match self.find(recipient) {
            Some(i) => {
                proof {
                    lemma_key_index(s, recipient@, i as int);
                }
                let (name, q) = self.messages.remove(i);
                let empty: Vec<AgentMessage> = Vec::new();
                self.messages.insert(i, (name, empty));
                proof {
                    assert(queue_view(empty@) =~= seq![]);
                    assert(self.messages@ =~= s.update(i as int, (name, empty)));
                    lemma_update_entry(s, i as int, (name, empty));
                }
                q
            },
            None => {
                let empty: Vec<AgentMessage> = Vec::new();
                let name = crate::text::owned(recipient);
                proof {
                    assert(queue_view(empty@) =~= seq![]);
                }
                self.messages.push((name, empty));
                proof {
                    lemma_push_entry(s, (name, empty));
                }
                let r: Vec<AgentMessage> = Vec::new();
                assert(queue_view(r@) =~= seq![]);
                r
            },
        }
    }

    /// Whether any message is queued for `recipient`.
    pub fn has_messages(&self, recipient: &str) -> (r: bool)
        requires
            self.wf(),
        ensures
            r == (queue(self@, recipient@).len() > 0),
    {
        match self.find(recipient) {
            Some(i) => {
                proof {
                    lemma_key_index(self.messages@, recipient@, i as int);
                }
                self.messages[i].1.len() > 0
            },
            None => false,
        }
    }

    /// All known teammate names, in the order they first received a
    /// message.
    pub fn teammates(&self) -> (r: Vec<String>)
        requires
            self.wf(),
        ensures
            views(r@) == self.names(),
    {
        let mut r: Vec<String> = Vec::new();
        let mut i: usize = 0;
        while i < self.messages.len()
            invariant
                i <= self.messages@.len(),
                r@.len() == i,
                views(r@) == entry_names(self.messages@).take(i as int),
            decreases self.messages.len() - i,
        {
            let ghost prev = r@;
            r.push(self.messages[i].0.clone());
            assert(views(r@) =~= views(prev).push(self.messages@[i as int].0@));
            assert(views(r@) =~= entry_names(self.messages@).take(i + 1));
            i = i + 1;
        }
        assert(entry_names(self.messages@).take(i as int) =~= entry_names(self.messages@));
        r
    }

    /// Removes every queue and every known teammate.
    pub fn clear(&mut self)
        ensures
            final(self).wf(),
            final(self)@ == Map::<Seq<char>, Seq<MessageView>>::empty(),
            final(self)@ == after_call(old(self)@, MailboxCall::Clear),
            final(self).names() == Seq::<Seq<char>>::empty(),
    {
        self.messages = Vec::new();
        assert(self@ =~= Map::<Seq<char>, Seq<MessageView>>::empty());
        assert(self.names() =~= Seq::<Seq<char>>::empty());
    }
}


/// Input of the SendMessage tool.
#[derive(Debug)]
pub struct SendMessageInput {
    /// Recipient: a teammate's name, "all" to broadcast, or "team-lead".
    pub to: String,
    /// Text content of the message.
    pub message: String,
    /// Message type controlling protocol semantics.
    pub message_type: String,
    /// Optional request id for structured protocol messages.
    pub request_id: Option<String>,
}

/// The message type used when none is given.
pub fn default_message_type() -> (r: String)
    ensures
        r@ == "plain"@,
{
    owned("plain")
}

/// The message that `from` sends with `input` at `timestamp`.
pub open spec fn message_of(from: Seq<char>, input: SendMessageInput, timestamp: int) -> MessageView {
    MessageView {
        from,
        to: input.to@,
        message: input.message@,
        message_type: input.message_type@,
        request_id: opt_view(input.request_id),
        timestamp,
    }
}

/// Every queue except that of `from` and the broadcast queue "all" gets
/// `msg` appended.
pub open spec fn broadcast_map(
    m: Map<Seq<char>, Seq<MessageView>>,
    from: Seq<char>,
    msg: MessageView,
) -> Map<Seq<char>, Seq<MessageView>> {
    Map::new(
        |k: Seq<char>| m.dom().contains(k),
        |k: Seq<char>|
            if k != from && k != "all"@ {
                m[k].push(msg)
            } else {
                m[k]
            },
    )
}

spec fn partial_broadcast(
    m: Map<Seq<char>, Seq<MessageView>>,
    done: Seq<Seq<char>>,
    from: Seq<char>,
    msg: MessageView,
) -> Map<Seq<char>, Seq<MessageView>> {
    Map::new(
        |k: Seq<char>| m.dom().contains(k),
        |k: Seq<char>|
            if done.contains(k) && k != from && k != "all"@ {
                m[k].push(msg)
            } else {
                m[k]
            },
    )
}

/// The teammates a broadcast from `from` reaches: every known name but
/// the sender's and the broadcast queue "all", in order.
pub open spec fn broadcast_targets(names: Seq<Seq<char>>, from: Seq<char>) -> Seq<Seq<char>> {
    names.filter(|k: Seq<char>| k != from && k != "all"@)
}

/// The confirmation for a message sent to `to`.
pub open spec fn direct_text(to: Seq<char>) -> Seq<char> {
    "Message delivered to '"@ + to + "'."@
}

/// The confirmation for a broadcast that reached `targets`.
pub open spec fn broadcast_text(targets: Seq<Seq<char>>) -> Seq<char> {
    "Message broadcast to "@ + decimal(targets.len()) + " teammate(s): "@ + join_seq(targets, ", "@)
}

/// Delivers `msg` (sent by `from`) to each teammate other than the sender
/// (the broadcast queue "all" is no teammate), and reports which were
/// reached.
fn broadcast(mailbox: &mut Mailbox, from: &str, msg: AgentMessage) -> (r: String)
    requires
        old(mailbox).wf(),
    ensures
        final(mailbox).wf(),
        broadcast_targets(old(mailbox).names(), from@).len() == 0 ==> {
            &&& final(mailbox)@ == old(mailbox)@.insert("all"@, queue(old(mailbox)@, "all"@).push(msg@))
            &&& r@ == "Broadcast queued for future teammates. No current teammates registered."@
        },
        broadcast_targets(old(mailbox).names(), from@).len() > 0 ==> {
            &&& final(mailbox)@ == broadcast_map(old(mailbox)@, from@, msg@)
            &&& final(mailbox).names() == old(mailbox).names()
            &&& r@ == broadcast_text(broadcast_targets(old(mailbox).names(), from@))
        },
{
    let ghost old_map = mailbox@;
    let ghost names = mailbox.names();
    let ghost pred = |k: Seq<char>| k != from@ && k != "all"@;
    proof {
        mailbox.lemma_names();
    }
    let teammates = mailbox.teammates();
    let mut delivered: Vec<String> = Vec::new();
    let mut i: usize = 0;
    assert(partial_broadcast(old_map, names.take(0), from@, msg@) =~= old_map);
    while i < teammates.len()
        invariant
            mailbox.wf(),
            views(teammates@) == names,
            names.no_duplicates(),
            forall|k: Seq<char>| old_map.dom().contains(k) <==> names.contains(k),
            i <= teammates@.len(),
            mailbox.names() == names,
            mailbox@ == partial_broadcast(old_map, names.take(i as int), from@, msg@),
            views(delivered@) == names.take(i as int).filter(pred),
            pred == (|k: Seq<char>| k != from@ && k != "all"@),
        decreases teammates.len() - i,
    {
        let ghost prev = mailbox@;
        let ghost n = names[i as int];
        assert(teammates@[i as int]@ == n);
        assert(names.take(i + 1) =~= names.take(i as int).push(n));
        assert(!names.take(i as int).contains(n)) by {
            if names.take(i as int).contains(n) {
                let j = choose|j: int| 0 <= j < i && names.take(i as int)[j] == n;
                assert(names[j] == names[i as int]);
            }
        }
        assert(names.contains(n)) by {
            assert(names[i as int] == n);
        }
        proof {
            reveal(Seq::filter);
            assert(names.take(i + 1).drop_last() =~= names.take(i as int));
        }
        if !str_eq(teammates[i].as_str(), from) && !str_eq(teammates[i].as_str(), "all") {
            let ghost dprev = delivered@;
            delivered.push(teammates[i].clone());
            assert(views(delivered@) =~= views(dprev).push(n));
            assert(n != from@ && n != "all"@);
            assert(old_map.dom().contains(n));
            assert(queue(prev, n) == old_map[n]);
            mailbox.push(teammates[i].as_str(), msg.duplicate());
            let ghost t1 = names.take(i + 1);
            let ghost t0 = names.take(i as int);
            assert forall|k: Seq<char>| t1.contains(k) <==> (t0.contains(k) || k == n) by {
                if t1.contains(k) {
                    let j = choose|j: int| 0 <= j < t1.len() && #[trigger] t1[j] == k;
                    if j < i {
                        assert(t0[j] == k);
                    }
                }
                if t0.contains(k) {
                    let j = choose|j: int| 0 <= j < t0.len() && #[trigger] t0[j] == k;
                    assert(t1[j] == k);
                }
                if k == n {
                    assert(t1[i as int] == k);
                }
            }
            assert(mailbox@ =~= partial_broadcast(old_map, names.take(i + 1), from@, msg@));
        } else {
            assert(partial_broadcast(old_map, names.take(i + 1), from@, msg@) =~= partial_broadcast(
                old_map,
                names.take(i as int),
                from@,
                msg@,
            ));
        }
        i = i + 1;
    }
    assert(names.take(i as int) =~= names);
    if delivered.len() == 0 {
        let ghost before = mailbox@;
        assert forall|k: Seq<char>| old_map.dom().contains(k) implies (k == from@ || k == "all"@) by {
            assert(names.contains(k));
            let j = choose|j: int| 0 <= j < names.len() && names[j] == k;
            if k != from@ && k != "all"@ {
                names.lemma_filter_contains(pred, j);
            }
        }
        assert(before =~= old_map);
        mailbox.push("all", msg);
        return owned("Broadcast queued for future teammates. No current teammates registered.");
    }
    assert(mailbox@ =~= broadcast_map(old_map, from@, msg@));
    let mut r = owned("Message broadcast to ");
    let count = u64_to_decimal(delivered.len() as u64);
    r.append(count.as_str());
    r.append(" teammate(s): ");
    let joined = join(&delivered, ", ");
    r.append(joined.as_str());
    r
}

/// `after` is `before` once `from` has sent `input` at time `t`, with
/// confirmation `r`: a message to "all" reaches every known teammate but
/// the sender, the broadcast queue "all" being no teammate (or is kept
/// under "all" while there is none); any other
/// recipient gets the message at the end of its queue.
pub open spec fn delivered(
    before: Mailbox,
    after: Mailbox,
    r: Seq<char>,
    from: Seq<char>,
    input: SendMessageInput,
    t: int,
) -> bool {
    let msg = message_of(from, input, t);
    let targets = broadcast_targets(before.names(), from);
    if input.to@ == "all"@ {
        if targets.len() == 0 {
            &&& after@ == before@.insert("all"@, queue(before@, "all"@).push(msg))
            &&& r == "Broadcast queued for future teammates. No current teammates registered."@
        } else {
            &&& after@ == broadcast_map(before@, from, msg)
            &&& after.names() == before.names()
            &&& r == broadcast_text(targets)
        }
    } else {
        &&& after@ == before@.insert(input.to@, queue(before@, input.to@).push(msg))
        &&& r == direct_text(input.to@)
    }
}

/// Delivers a message to a teammate or broadcasts it to all.
pub struct SendMessageTool {
    _priv: (),
}

impl SendMessageTool {
    pub fn new() -> (r: Self) {
        SendMessageTool { _priv: () }
    }

    /// Sends `input` from `from` with the given timestamp. A message to
    /// "all" reaches every known teammate but the sender (the broadcast
    /// queue "all" is no teammate), or is kept under
    /// "all" while no other teammate is known; any other recipient gets the
    /// message at the end of its queue.
    pub fn deliver_at(&self, mailbox: &mut Mailbox, from: &str, input: &SendMessageInput, timestamp: i64) -> (r: String)
        requires
            old(mailbox).wf(),
        ensures
            final(mailbox).wf(),
            delivered(*old(mailbox), *final(mailbox), r@, from@, *input, timestamp as int),
    {
        let msg = AgentMessage {
            from: owned(from),
            to: input.to.clone(),
            message: input.message.clone(),
            message_type: input.message_type.clone(),
            request_id: clone_opt(&input.request_id),
            timestamp,
        };
        if str_eq(input.to.as_str(), "all") {
            broadcast(mailbox, from, msg)
        } else {
            mailbox.push(input.to.as_str(), msg);
            let mut r = owned("Message delivered to '");
            r.append(input.to.as_str());
            r.append("'.");
            r
        }
    }

    /// Sends `input` from `from`, stamped with the current time; see
    /// `deliver_at`.
    pub fn deliver(&self, mailbox: &mut Mailbox, from: &str, input: &SendMessageInput) -> (r: String)
        requires
            old(mailbox).wf(),
        ensures
            final(mailbox).wf(),
            exists|t: i64| #[trigger] delivered(*old(mailbox), *final(mailbox), r@, from@, *input, t as int),
    {
        let t = now_millis();
        self.deliver_at(mailbox, from, input, t)
    }

    /// Runs the tool on its parsed arguments, or on the parse error's text:
    /// the message comes from the calling agent; arguments that did not
    /// parse give the error "invalid input: <error>".
    pub fn call(&self, mailbox: &mut Mailbox, agent_id: &str, input: Result<&SendMessageInput, &str>) -> (r: Result<
        ToolResult,
        CliError,
    >)
        requires
            old(mailbox).wf(),
        ensures
            final(mailbox).wf(),
            input matches Err(e) ==> (r matches Err(CliError::ToolExecution(m)) && m@ == "invalid input: "@ + e@
                && final(mailbox)@ == old(mailbox)@),
            input matches Ok(i) ==> (r matches Ok(res) && exists|t: i64, text: Seq<char>| #[trigger] delivered(
                *old(mailbox),
                *final(mailbox),
                text,
                agent_id@,
                *i,
                t as int,
            ) && is_text_result(res, text, false)),
    {
        match input {
            Err(e) => {
                let mut m = owned("invalid input: ");
                m.append(e);
                Err(CliError::ToolExecution(m))
            },
            Ok(i) => {
                let confirmation = self.deliver(mailbox, agent_id, i);
                Ok(ToolResult::text(confirmation))
            },
        }
    }

    /// The line shown when the tool is used; `input` is `None` when the
    /// arguments could not be read.
    pub fn render_use_message(&self, input: Option<&SendMessageInput>) -> (r: String)
        requires
            input matches Some(i) ==> cut_ok(i.message@, 60),
        ensures
            r@ == match input {
                Some(i) => "Sending message to '"@ + i.to@ + "': "@ + (if byte_len(i.message@) > 60 {
                    byte_prefix(i.message@, 60) + "..."@
                } else {
                    i.message@
                }),
                None => "Sending a message"@,
            },
    {
        match input {
            Some(i) => {
                let mut r = owned("Sending message to '");
                r.append(i.to.as_str());
                r.append("': ");
                if str_byte_len(i.message.as_str()) > 60 {
                    r.append(prefix_bytes(i.message.as_str(), 60));
                    r.append("...");
                } else {
                    r.append(i.message.as_str());
                }
                r
            },
            None => owned("Sending a message"),
        }
    }
}

impl Default for SendMessageTool {
    fn default() -> (r: Self) {
        SendMessageTool::new()
    }
}

impl Tool for SendMessageTool {
    open spec fn spec_name(&self) -> Seq<char> {
        "SendMessage"@
    }

    open spec fn spec_aliases(&self) -> Seq<Seq<char>> {
        seq![]
    }

    open spec fn spec_description(&self) -> Seq<char> {
        "Sends a message to a teammate, the team-lead, or broadcasts to all teammates. Messages are queued in memory and can be retrieved by the recipient. Use message_type to signal structured protocol messages such as 'shutdown_request', 'plan_response', or 'plan_approval_response'."@
    }

    open spec fn spec_read_only(&self) -> bool {
        false
    }

    fn name(&self) -> (r: &str) {
        "SendMessage"
    }

    fn aliases(&self) -> (r: Vec<String>) {
        let r: Vec<String> = Vec::new();
        assert(views(r@) =~= seq![]);
        r
    }

    fn description(&self) -> (r: String) {
        owned("Sends a message to a teammate, the team-lead, or broadcasts to all teammates. Messages are queued in memory and can be retrieved by the recipient. Use message_type to signal structured protocol messages such as 'shutdown_request', 'plan_response', or 'plan_approval_response'.")
    }

    fn is_read_only(&self) -> (r: bool)
        ensures
            !r,
    {
        false
    }
}

} // verus!
