use vstd::prelude::*;

use crate::communicator::{CommunicatorType, Error};

verus! {

/// Connection status of a backend server.
#[derive(PartialEq, Eq, Structural, Clone, Copy, Debug)]
pub enum CommunicatorStatus {
    DISCONNECTED,
    CONNECTING,
    CONNECTED,
    MISSING,
}

/// Direction of a logged message: a command sent in, or a response coming out.
#[derive(PartialEq, Eq, Structural, Clone, Copy, Debug)]
pub enum MessageType {
    IN,
    OUT,
}

/// One entry of a server's message log.
#[derive(Debug)]
pub struct Message {
    pub timestamp: i64,
    pub body: String,
    pub msg_type: MessageType,
}

/// Relies on chrono's `Utc::now().timestamp()`: the current time in seconds
/// since the Unix epoch. Nothing is promised of its value.
#[verifier::external_body]
fn now_timestamp() -> (r: i64) {
    chrono::Utc::now().timestamp()
}

impl Message {
    /// A message stamped with the current time.
    pub fn new(body: String, msg_type: MessageType) -> (r: Message)
        ensures
            r.body@ == body@,
            r.msg_type == msg_type,
    {
        Message { timestamp: now_timestamp(), body, msg_type }
    }

    /// A field-by-field copy.
    pub fn copied(&self) -> (r: Message)
        ensures
            r == *self,
    {
        Message { timestamp: self.timestamp, body: self.body.clone(), msg_type: self.msg_type }
    }
}

/// An arbitrary JSON value, carried through without being read.
#[verifier::external_type_specification]
#[verifier::external_body]
pub struct ExJsonValue(serde_json::Value);

/// Relies on serde_json's derived `Clone` for `Value`: a deep copy, equal to the value it was taken from.
pub assume_specification[ <serde_json::Value as Clone>::clone ](v: &serde_json::Value) -> (r: serde_json::Value)
    ensures
        r == *v,
;

/// Relies on `serde_json::Value::Null`, the JSON `null`.
#[verifier::external_body]
fn json_null() -> (r: serde_json::Value) {
    serde_json::Value::Null
}

/// A value snapshot of a server, safe to hand to other tasks.
#[derive(Debug)]
pub struct ServerInfo {
    pub id: u128,
    pub name: String,
    pub communicator: CommunicatorStatus,
    pub settings: serde_json::Value,
    pub clients: serde_json::Value,
}

impl ServerInfo {
    /// A field-by-field copy.
    pub fn copied(&self) -> (r: ServerInfo)
        ensures
            r == *self,
    {
        ServerInfo {
            id: self.id,
            name: self.name.clone(),
            communicator: self.communicator,
            settings: self.settings.clone(),
            clients: self.clients.clone(),
        }
    }
}

/// Number of messages in one page of a server's log.
pub const PAGE_SIZE: usize = 50;

/// The response recorded when a command is sent to a server without a communicator.
pub open spec fn no_communicator_text() -> Seq<char> {
    "No communicator has been set up!"@
}

/// Messages `p * PAGE_SIZE .. min((p + 1) * PAGE_SIZE, len)` of a log; empty past its end.
pub open spec fn page_of(log: Seq<Message>, p: int) -> Seq<Message> {
    let start = p * PAGE_SIZE as int;
    if start >= log.len() {
        Seq::empty()
    } else if start + PAGE_SIZE as int >= log.len() {
        log.subrange(start, log.len() as int)
    } else {
        log.subrange(start, start + PAGE_SIZE as int)
    }
}

/// What a log records of each message: its body and direction.
pub open spec fn entries(log: Seq<Message>) -> Seq<(Seq<char>, MessageType)> {
    log.map_values(|m: Message| (m.body@, m.msg_type))
}

/// Identity, name, communicator, and the snapshot's settings and clients are kept.
pub open spec fn same_identity<C>(before: Server<C>, after: Server<C>) -> bool {
    &&& after.id_view() == before.id_view()
    &&& after.name_view() == before.name_view()
    &&& after.has_communicator() == before.has_communicator()
    &&& after.info_view().settings == before.info_view().settings
    &&& after.info_view().clients == before.info_view().clients
}

/// What `begin_connect` does: `CONNECTING` when it dispatches, `MISSING`
/// otherwise; the log is untouched.
pub open spec fn connect_begun<C>(before: Server<C>, after: Server<C>, dispatch: bool) -> bool {
    &&& same_identity(before, after)
    &&& after.log() == before.log()
    &&& after.status() == if dispatch {
        CommunicatorStatus::CONNECTING
    } else {
        CommunicatorStatus::MISSING
    }
}

/// What `finish_connect` does: `CONNECTED` and `Ok` on success,
/// `DISCONNECTED` and `ConnectionError` on failure; the log is untouched.
pub open spec fn connect_finished<C>(
    before: Server<C>,
    after: Server<C>,
    connected: bool,
    r: Result<(), Error>,
) -> bool {
    &&& same_identity(before, after)
    &&& after.log() == before.log()
    &&& connected ==> r is Ok && after.status() == CommunicatorStatus::CONNECTED
    &&& !connected ==> r == Err::<(), Error>(Error::ConnectionError) && after.status()
        == CommunicatorStatus::DISCONNECTED
}

/// What `begin_send_cmd` does: the old log is kept as a prefix, the command
/// is logged `IN`, and without a communicator the notice is logged `OUT` and
/// returned.
pub open spec fn send_begun<C>(
    before: Server<C>,
    after: Server<C>,
    cmd: Seq<char>,
    r: Option<String>,
) -> bool {
    &&& same_identity(before, after)
    &&& after.status() == before.status()
    &&& after.log().len() >= before.log().len()
    &&& after.log().subrange(0, before.log().len() as int) == before.log()
    &&& r matches Some(s) ==> s@ == no_communicator_text()
    &&& entries(after.log()) == if r is None {
        entries(before.log()).push((cmd, MessageType::IN))
    } else {
        entries(before.log()).push((cmd, MessageType::IN)).push(
            (no_communicator_text(), MessageType::OUT),
        )
    }
}

/// What `finish_send_cmd` does: the response is appended to the log as `OUT`.
pub open spec fn send_finished<C>(before: Server<C>, after: Server<C>, response: Seq<char>) -> bool {
    &&& same_identity(before, after)
    &&& after.status() == before.status()
    &&& after.log().drop_last() == before.log()
    &&& entries(after.log()) == entries(before.log()).push((response, MessageType::OUT))
}

/// A backend server: its identity, its connection status, the communicator
/// that talks to it (if one was configured) and the log of exchanged messages.
pub struct Server<C> {
    id: u128,
    info: ServerInfo,
    communicator: Option<C>,
    messages: Vec<Message>,
}

impl<C> Server<C> {
    pub closed spec fn id_view(&self) -> u128 {
        self.id
    }

    pub closed spec fn name_view(&self) -> Seq<char> {
        self.info.name@
    }

    pub closed spec fn status(&self) -> CommunicatorStatus {
        self.info.communicator
    }

    pub closed spec fn has_communicator(&self) -> bool {
        self.communicator is Some
    }

    /// The communicator (meaningful when `has_communicator()`).
    pub closed spec fn communicator_view(&self) -> C {
        self.communicator.unwrap()
    }

    pub closed spec fn log(&self) -> Seq<Message> {
        self.messages@
    }

    pub closed spec fn info_view(&self) -> ServerInfo {
        self.info
    }

    /// The snapshot agrees with the server's own id, and the status is
    /// `MISSING` exactly when there is no communicator.
    pub closed spec fn wf(&self) -> bool {
        &&& self.info.id == self.id
        &&& (self.info.communicator == CommunicatorStatus::MISSING <==> self.communicator is None)
    }

    /// A server with an empty log: `DISCONNECTED` with a communicator, `MISSING` without.
    pub fn new_with_id(id: u128, name: String, communicator: Option<C>) -> (r: Server<C>)
        ensures
            r.wf(),
            r.id_view() == id,
            r.name_view() == name@,
            r.has_communicator() == communicator is Some,
            r.status() == if communicator is Some {
                CommunicatorStatus::DISCONNECTED
            } else {
                CommunicatorStatus::MISSING
            },
            r.log() == Seq::<Message>::empty(),
            r.info_view().id == r.id_view(),
    {
        let status = match &communicator {
            Some(_) => CommunicatorStatus::DISCONNECTED,
            None => CommunicatorStatus::MISSING,
        };
        Server {
            id,
            info: ServerInfo {
                id,
                name,
                communicator: status,
                settings: json_null(),
                clients: json_null(),
            },
            communicator,
            messages: Vec::new(),
        }
    }

    /// A server with a freshly generated id; see `new_with_id`.
    pub fn new(name: String, communicator: Option<C>) -> (r: Server<C>)
        ensures
            r.wf(),
            r.name_view() == name@,
            r.has_communicator() == communicator is Some,
            r.status() == if communicator is Some {
                CommunicatorStatus::DISCONNECTED
            } else {
                CommunicatorStatus::MISSING
            },
            r.log() == Seq::<Message>::empty(),
            r.info_view().id == r.id_view(),
    {
        Server::new_with_id(crate::ids::fresh_id(), name, communicator)
    }

    /// A server whose communicator, if a kind is given, is the one `make`
    /// builds for that kind; see `new`.
    pub fn create<F: Fn(CommunicatorType) -> C>(
        name: String,
        communicator: Option<CommunicatorType>,
        make: F,
    ) -> (r: Server<C>)
        requires
            forall|k: CommunicatorType| make.requires((k,)),
        ensures
            r.wf(),
            r.name_view() == name@,
            r.has_communicator() == communicator is Some,
            r.status() == if communicator is Some {
                CommunicatorStatus::DISCONNECTED
            } else {
                CommunicatorStatus::MISSING
            },
            r.log() == Seq::<Message>::empty(),
            r.info_view().id == r.id_view(),
    {
        let c = match communicator {
            Some(kind) => Some(make(kind)),
            None => None,
        };
        Server::new(name, c)
    }

    pub fn id(&self) -> (r: u128)
        ensures
            r == self.id_view(),
    {
        self.id
    }

    pub fn name(&self) -> (r: &String)
        ensures
            r@ == self.name_view(),
    {
        &self.info.name
    }

    pub fn set_name(&mut self, name: String)
        requires
            old(self).wf(),
        ensures
            final(self).wf(),
            final(self).name_view() == name@,
            final(self).id_view() == old(self).id_view(),
            final(self).status() == old(self).status(),
            final(self).has_communicator() == old(self).has_communicator(),
            final(self).log() == old(self).log(),
    {
        self.info.name = name;
    }

    pub fn status_now(&self) -> (r: CommunicatorStatus)
        ensures
            r == self.status(),
    {
        self.info.communicator
    }

    /// The communicator, if one was configured.
    pub fn communicator(&self) -> (r: Option<&C>)
        ensures
            r is Some == self.has_communicator(),
    {
        self.communicator.as_ref()
    }

    /// The communicator's settings, as `read` gives them; JSON `null` when
    /// there is no communicator.
    pub fn get_settings<F: Fn(&C) -> serde_json::Value>(&self, read: F) -> (r: serde_json::Value)
        requires
            forall|c: &C| read.requires((c,)),
        ensures
            self.has_communicator() ==> read.ensures((&self.communicator_view(),), r),
    {
        match &self.communicator {
            Some(c) => read(c),
            None => json_null(),
        }
    }

    pub fn message_count(&self) -> (r: usize)
        ensures
            r == self.log().len(),
    {
        self.messages.len()
    }

    pub fn info(&self) -> (r: ServerInfo)
        ensures
            r == self.info_view(),
            self.wf() ==> r.id == self.id_view(),
            r.name@ == self.name_view(),
            r.communicator == self.status(),
    {
        self.info.copied()
    }

    /// First half of `connect`. Without a communicator there is nothing to
    /// do: the status stays `MISSING` and the result is `Some(Ok(()))`, the
    /// outcome of the whole connect. Otherwise the status becomes
    /// `CONNECTING` and the result is `None`: the caller makes the
    /// communicator's connect call and reports its outcome to `finish_connect`.
    pub fn begin_connect(&mut self) -> (r: Option<Result<(), Error>>)
        requires
            old(self).wf(),
        ensures
            final(self).wf(),
            r is None == old(self).has_communicator(),
            r matches Some(res) ==> res is Ok,
            connect_begun(*old(self), *final(self), r is None),
    {
        match &self.communicator {
            Some(_) => {
                self.info.communicator = CommunicatorStatus::CONNECTING;
                None
            },
            None => {
                self.info.communicator = CommunicatorStatus::MISSING;
                Some(Ok(()))
            },
        }
    }

    /// Second half of `connect`: `CONNECTED` and `Ok` when the communicator
    /// connected, `DISCONNECTED` and `ConnectionError` when it did not.
    pub fn finish_connect(&mut self, connected: bool) -> (r: Result<(), Error>)
        requires
            old(self).wf(),
            old(self).has_communicator(),
        ensures
            final(self).wf(),
            connect_finished(*old(self), *final(self), connected, r),
    {
        if connected {
            self.info.communicator = CommunicatorStatus::CONNECTED;
            Ok(())
        } else {
            self.info.communicator = CommunicatorStatus::DISCONNECTED;
            Err(Error::ConnectionError)
        }
    }

    /// First half of `send_cmd`: logs the command as an `IN` message. Without
    /// a communicator it also logs the no-communicator notice as the `OUT`
    /// message and returns it (`Some`); with one it returns `None`, and the
    /// caller sends the command through the communicator and hands the
    /// response to `finish_send_cmd`.
    pub fn begin_send_cmd(&mut self, cmd: String) -> (r: Option<String>)
        requires
            old(self).wf(),
        ensures
            final(self).wf(),
            r is None == old(self).has_communicator(),
            send_begun(*old(self), *final(self), cmd@, r),
    {
        let ghost before = self.messages@;
        self.messages.push(Message::new(cmd, MessageType::IN));
        match &self.communicator {
            Some(_) => {
                assert(entries(self.messages@) =~= entries(before).push((cmd@, MessageType::IN)));
                assert(self.messages@.subrange(0, before.len() as int) =~= before);
                None
            },
            None => {
                let s = String::from_str("No communicator has been set up!");
                proof {
                    reveal_strlit("No communicator has been set up!");
                }
                self.messages.push(Message::new(s.clone(), MessageType::OUT));
                assert(self.messages@.subrange(0, before.len() as int) =~= before);
                assert(entries(self.messages@) =~= entries(before).push((cmd@, MessageType::IN)).push(
                    (no_communicator_text(), MessageType::OUT),
                ));
                Some(s)
            },
        }
    }

    /// Second half of `send_cmd`: logs the communicator's response as an
    /// `OUT` message and returns it.
    pub fn finish_send_cmd(&mut self, response: String) -> (r: String)
        requires
            old(self).wf(),
        ensures
            final(self).wf(),
            r@ == response@,
            send_finished(*old(self), *final(self), response@),
    {
        self.messages.push(Message::new(response.clone(), MessageType::OUT));
        assert(self.messages@.drop_last() =~= old(self).messages@);
        assert(entries(self.messages@) =~= entries(old(self).messages@).push((response@, MessageType::OUT)));
        response
    }

    /// Page `page_no` of the log, `PAGE_SIZE` messages to a page; empty past the end.
    pub fn get_page(&self, page_no: usize) -> (r: Vec<Message>)
        ensures
            r@ == page_of(self.log(), page_no as int),
    {
        let len = self.messages.len();
        let mut out: Vec<Message> = Vec::new();
        if page_no > len / PAGE_SIZE {
            assert(page_no * PAGE_SIZE >= len) by (nonlinear_arith)
                requires page_no > len / PAGE_SIZE, PAGE_SIZE == 50;
            assert(out@ =~= page_of(self.log(), page_no as int));
            return out;
        }
        assert(page_no * PAGE_SIZE <= len) by (nonlinear_arith)
            requires page_no <= len / PAGE_SIZE, PAGE_SIZE == 50;
        let start: usize = page_no * PAGE_SIZE;
        let end: usize = if len - start < PAGE_SIZE { len } else { start + PAGE_SIZE };
        let mut i: usize = start;
        while i < end
            invariant
                start <= i <= end <= len,
                len == self.messages@.len(),
                out@ =~= self.messages@.subrange(start as int, i as int),
            decreases end - i,
        {
            out.push(self.messages[i].copied());
            i = i + 1;
        }
        assert(out@ =~= page_of(self.log(), page_no as int));
        out
    }
}

/// A well-formed server's snapshot carries the server's own id.
pub proof fn lemma_info_id<C>(s: Server<C>)
    requires
        s.wf(),
    ensures
        s.info_view().id == s.id_view(),
{
}

/// A page that starts at or past the end of the log is empty.
pub proof fn lemma_page_past_end(log: Seq<Message>, p: int)
    requires
        p >= 0,
        p * PAGE_SIZE as int >= log.len(),
    ensures
        page_of(log, p) == Seq::<Message>::empty(),
{
}

/// A connect attempt, whatever its outcome, leaves every page of the log as
/// it was: a page read before it and one read after it are the same.
pub proof fn lemma_pages_unchanged_by_connect<C>(
    before: Server<C>,
    mid: Server<C>,
    after: Server<C>,
    dispatch: bool,
    connected: bool,
    r: Result<(), Error>,
    p: int,
)
    requires
        connect_begun(before, mid, dispatch),
        connect_finished(mid, after, connected, r),
    ensures
        page_of(before.log(), p) == page_of(after.log(), p),
{
}

} // verus!
