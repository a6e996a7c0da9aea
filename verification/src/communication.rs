//! The serial link to the microcontroller, without the port itself.
//!
//! A [`Connection`] keeps the state of the link and decides what is to be
//! transmitted and what has been received; the caller owns the serial port,
//! writes the bytes that [`Connection::write`] hands out and passes the bytes
//! that arrived to [`Connection::read`].
//!
//! Outgoing data is framed by a leading [`PREFIX`]. Incoming bytes are cut
//! into messages of [`MESSAGE_LEN`] bytes: a [`PREFIX`] starts a message
//! afresh, and a message is complete once the byte that follows it arrives.

use serialport::SerialPortBuilder;
use std::collections::VecDeque;
use std::time::Duration;
use vstd::prelude::*;

verus! {

/// Marks the start of a message on the wire (a carriage return).
pub const PREFIX: u8 = 13;

/// Number of payload bytes in a message.
pub const MESSAGE_LEN: usize = 8;

/// How long, in milliseconds, the serial port waits for data before a read
/// gives up.
pub const TIMEOUT_MILLIS: u64 = 100;

/// The payload of one message.
pub type Message = Vec<u8>;

/// The settings that a serial port is opened with, as `serialport` keeps
/// them. The link composes them and hands them to the caller, who opens the
/// port; it never looks inside.
#[verifier::external_type_specification]
#[verifier::external_body]
pub struct ExSerialPortBuilder(serialport::SerialPortBuilder);

/// The settings that `serialport::new` gives for a port's name and speed:
/// those two as given, and the defaults of `serialport` for all others.
pub uninterp spec fn port_settings(path: Seq<char>, baud_rate: u32) -> SerialPortBuilder;

/// The settings that `SerialPortBuilder::timeout` makes of `settings`: the
/// same but for the time to wait for data, which is `millis` milliseconds.
pub uninterp spec fn timed(settings: SerialPortBuilder, millis: u64) -> SerialPortBuilder;

/// Calls `serialport::new`, which only fills in the settings and opens
/// nothing. Assumed: the result depends on the name and the speed alone.
#[verifier::external_body]
fn settings_for(path: &str, baud_rate: u32) -> (settings: SerialPortBuilder)
    ensures
        settings == port_settings(path@, baud_rate),
{
    serialport::new(path, baud_rate)
}

/// Calls `SerialPortBuilder::timeout` with a duration of `millis`
/// milliseconds. Assumed: the result depends on the settings and the
/// duration alone.
#[verifier::external_body]
fn with_timeout(settings: SerialPortBuilder, millis: u64) -> (changed: SerialPortBuilder)
    ensures
        changed == timed(settings, millis),
{
    settings.timeout(Duration::from_millis(millis))
}

/// The error of a failed read or write on the serial port. The link only
/// carries it from the port to the caller inside [`ComError::Error`].
#[verifier::external_type_specification]
#[verifier::external_body]
pub struct ExIoError(std::io::Error);

/// Why the link could not transfer data.
#[derive(Debug)]
pub enum ComError {
    /// The serial port has not been opened.
    NotConnected,
    /// The serial port reported an error.
    Error(std::io::Error),
}

/// State of the link.
#[derive(Debug)]
pub struct Connection {
    /// Name of the serial port.
    pub port: &'static str,
    /// Speed of the serial port.
    pub baud: u32,
    /// Whether the caller holds the opened serial port.
    pub connected: bool,
    /// Bytes of the message that is being received.
    pub read_buf: Vec<u8>,
    /// Complete messages that have not been handed out yet, oldest first.
    pub msg_buf: VecDeque<Message>,
    /// While set, nothing is opened, written or read: every operation
    /// succeeds without effect. Meant for running without the hardware.
    pub no_connect: bool,
}

/// The receiving side of a link as plain data: the bytes of the message in
/// progress and the complete messages waiting to be handed out.
pub struct Inbox {
    pub partial: Seq<u8>,
    pub queue: Seq<Seq<u8>>,
}

/// The data as it is put on the wire: a [`PREFIX`], then the data.
pub open spec fn framed(data: Seq<u8>) -> Seq<u8> {
    seq![PREFIX] + data
}

/// The payloads of a queue of messages.
pub open spec fn payloads(queue: Seq<Message>) -> Seq<Seq<u8>> {
    queue.map_values(|message: Message| message@)
}

impl Inbox {
    /// The inbox after one more byte has arrived.
    pub open spec fn accept(self, byte: u8) -> Inbox {
        if byte == PREFIX {
            Inbox { partial: Seq::empty(), queue: self.queue }
        } else if self.partial.len() == MESSAGE_LEN {
            Inbox { partial: seq![byte], queue: self.queue.push(self.partial) }
        } else {
            Inbox { partial: self.partial.push(byte), queue: self.queue }
        }
    }

    /// The inbox after the bytes have arrived, in their order.
    pub open spec fn absorb(self, bytes: Seq<u8>) -> Inbox
        decreases bytes.len(),
    {
        if bytes.len() == 0 {
            self
        } else {
            self.absorb(bytes.drop_last()).accept(bytes.last())
        }
    }

    /// The oldest waiting message, if there is one.
    pub open spec fn front(self) -> Option<Seq<u8>> {
        if self.queue.len() == 0 {
            None
        } else {
            Some(self.queue[0])
        }
    }

    /// The inbox after its oldest waiting message, if any, was handed out.
    pub open spec fn without_front(self) -> Inbox {
        if self.queue.len() == 0 {
            self
        } else {
            Inbox { partial: self.partial, queue: self.queue.drop_first() }
        }
    }

    /// Whether the bytes can be the payload of a message: the right number
    /// of them, and no [`PREFIX`] among them.
    pub open spec fn is_payload(bytes: Seq<u8>) -> bool {
        bytes.len() == MESSAGE_LEN && !bytes.contains(PREFIX)
    }

    /// Holds of every inbox that started empty: the message in progress has
    /// not outgrown a message, and all that was collected is payload.
    pub open spec fn wf(self) -> bool {
        &&& self.partial.len() <= MESSAGE_LEN
        &&& !self.partial.contains(PREFIX)
        &&& forall|i: int| 0 <= i < self.queue.len() ==> Inbox::is_payload(#[trigger] self.queue[i])
    }
}

impl Connection {
    /// The receiving side of the link as plain data.
    pub open spec fn inbox(&self) -> Inbox {
        Inbox { partial: self.read_buf@, queue: payloads(self.msg_buf@) }
    }

    /// See [`Inbox::wf`].
    pub open spec fn wf(&self) -> bool {
        self.inbox().wf()
    }

    /// Whether the two links are set up alike: same port, speed and flags.
    pub open spec fn same_setup(&self, other: &Connection) -> bool {
        &&& self.port == other.port
        &&& self.baud == other.baud
        &&& self.connected == other.connected
        &&& self.no_connect == other.no_connect
    }

    /// A link for the given port with nothing received. It starts with
    /// `no_connect` set.
    pub fn new(port: &'static str, baud: u32) -> (connection: Connection)
        ensures
            connection.port == port,
            connection.baud == baud,
            !connection.connected,
            connection.no_connect,
            connection.inbox() == (Inbox { partial: Seq::empty(), queue: Seq::empty() }),
            connection.wf(),
    {
        let connection = Connection {
            port,
            baud,
            connected: false,
            read_buf: Vec::new(),
            msg_buf: VecDeque::new(),
            no_connect: true,
        };
        assert(connection.inbox().queue =~= Seq::empty());
        connection
    }

    /// The settings that the serial port of this link is opened with: its
    /// name and speed, and a timeout of [`TIMEOUT_MILLIS`].
    pub open spec fn settings(&self) -> SerialPortBuilder {
        timed(port_settings(self.port@, self.baud), TIMEOUT_MILLIS)
    }

    /// What connecting takes: the settings with which the caller has to open
    /// the serial port, or nothing under `no_connect`. Once the port is open
    /// the caller reports it with [`Connection::attach`].
    pub fn connect(&self) -> (open: Option<SerialPortBuilder>)
        ensures
            self.no_connect ==> open is None,
            !self.no_connect ==> open == Some(self.settings()),
    {
        if self.no_connect {
            None
        } else {
            Some(with_timeout(settings_for(self.port, self.baud), TIMEOUT_MILLIS))
        }
    }

    /// Records that the caller has opened the serial port.
    pub fn attach(&mut self)
        ensures
            final(self).connected,
            final(self).port == old(self).port,
            final(self).baud == old(self).baud,
            final(self).no_connect == old(self).no_connect,
            final(self).read_buf == old(self).read_buf,
            final(self).msg_buf == old(self).msg_buf,
    {
        self.connected = true;
    }

    /// Whether data can be transferred now: `Ok(false)` under `no_connect`,
    /// when the transfer is to be left out; else `NotConnected` while the
    /// serial port is not open; else `Ok(true)`.
    pub fn ready(&self) -> (ready: Result<bool, ComError>)
        ensures
            self.no_connect ==> ready == Ok::<bool, ComError>(false),
            !self.no_connect && !self.connected ==> ready == Err::<bool, ComError>(
                ComError::NotConnected,
            ),
            !self.no_connect && self.connected ==> ready == Ok::<bool, ComError>(true),
    {
        if self.no_connect {
            Ok(false)
        } else if !self.connected {
            Err(ComError::NotConnected)
        } else {
            Ok(true)
        }
    }

    /// The bytes to put on the serial port so that `data` is sent as it is,
    /// with no framing: `data` itself when the link is ready, nothing under
    /// `no_connect`, and `NotConnected` while the serial port is not open.
    pub fn write_raw(&self, data: &[u8]) -> (outgoing: Result<Option<Vec<u8>>, ComError>)
        ensures
            self.no_connect ==> outgoing == Ok::<Option<Vec<u8>>, ComError>(None),
            !self.no_connect && !self.connected ==> outgoing == Err::<Option<Vec<u8>>, ComError>(
                ComError::NotConnected,
            ),
            !self.no_connect && self.connected ==> (outgoing matches Ok(Some(bytes)) && bytes@
                == data@),
    {
        match self.ready() {
            Err(error) => Err(error),
            Ok(false) => Ok(None),
            Ok(true) => {
                let mut bytes: Vec<u8> = Vec::new();
                let mut i: usize = 0;
                while i < data.len()
                    invariant
                        i <= data.len(),
                        bytes@ == data@.take(i as int),
                    decreases data.len() - i,
                {
                    bytes.push(data[i]);
                    i += 1;
                }
                Ok(Some(bytes))
            },
        }
    }

    /// The bytes to put on the serial port so that `data` is sent as one
    /// message: `data` behind a [`PREFIX`] when the link is ready, nothing
    /// under `no_connect`, and `NotConnected` while the serial port is not
    /// open. A message that cannot be sent now is dropped, never kept for
    /// later, and the caller has to allow that.
    pub fn write(&self, data: &[u8], allow_dropped: bool) -> (outgoing: Result<
        Option<Vec<u8>>,
        ComError,
    >)
        requires
            allow_dropped,
        ensures
            self.no_connect ==> outgoing == Ok::<Option<Vec<u8>>, ComError>(None),
            !self.no_connect && !self.connected ==> outgoing == Err::<Option<Vec<u8>>, ComError>(
                ComError::NotConnected,
            ),
            !self.no_connect && self.connected ==> (outgoing matches Ok(Some(bytes)) && bytes@
                == framed(data@)),
    {
        let message = frame(data);
        self.write_raw(message.as_slice())
    }

    /// Takes in the bytes that arrived on the serial port and hands out the
    /// oldest complete message, if there is one.
    ///
    /// Under `no_connect`, and while the serial port is not open, nothing is
    /// taken in and the link stays as it is. Otherwise the bytes are cut into
    /// messages as [`Inbox::absorb`] says, and the oldest message leaves the
    /// queue.
    pub fn read(&mut self, received: &[u8]) -> (message: Result<Option<Message>, ComError>)
        ensures
            final(self).same_setup(old(self)),
            old(self).no_connect ==> message == Ok::<Option<Message>, ComError>(None),
            !old(self).no_connect && !old(self).connected ==> message == Err::<
                Option<Message>,
                ComError,
            >(ComError::NotConnected),
            old(self).no_connect || !old(self).connected ==> final(self).inbox() == old(
                self,
            ).inbox(),
            !old(self).no_connect && old(self).connected ==> {
                let inbox = old(self).inbox().absorb(received@);
                &&& final(self).inbox() == inbox.without_front()
                &&& match inbox.front() {
                    Some(payload) => (message matches Ok(Some(bytes)) && bytes@ == payload),
                    None => message == Ok::<Option<Message>, ComError>(None),
                }
            },
            old(self).wf() ==> final(self).wf(),
    {
        match self.ready() {
            Err(error) => {
                return Err(error);
            },
            Ok(false) => {
                return Ok(None);
            },
            Ok(true) => {},
        }
        let mut i: usize = 0;
        while i < received.len()
            invariant
                i <= received.len(),
                self.same_setup(old(self)),
                self.inbox() == old(self).inbox().absorb(received@.take(i as int)),
            decreases received.len() - i,
        {
            let byte = received[i];
            proof {
                assert(received@.take(i + 1).drop_last() == received@.take(i as int));
                assert(received@.take(i + 1).last() == byte);
            }
            if byte == PREFIX {
                self.read_buf.clear();
            } else {
                if self.read_buf.len() == MESSAGE_LEN {
                    let mut complete: Vec<u8> = Vec::new();
                    std::mem::swap(&mut self.read_buf, &mut complete);
                    self.msg_buf.push_back(complete);
                }
                self.read_buf.push(byte);
            }
            assert(self.inbox().queue == old(self).inbox().absorb(received@.take(i + 1)).queue);
            i += 1;
        }
        proof {
            assert(received@.take(received@.len() as int) == received@);
            if old(self).wf() {
                lemma_absorb_wf(old(self).inbox(), received@);
            }
        }
        let message = self.msg_buf.pop_front();
        assert(self.inbox().queue == old(self).inbox().absorb(received@).without_front().queue);
        Ok(message)
    }
}

impl Default for Connection {
    /// A link without a port and with nothing received. Unlike the one of
    /// [`Connection::new`] it starts with `no_connect` cleared.
    fn default() -> (connection: Connection)
        ensures
            connection.port@ == Seq::<char>::empty(),
            connection.baud == 0,
            !connection.connected,
            !connection.no_connect,
            connection.inbox() == (Inbox { partial: Seq::empty(), queue: Seq::empty() }),
            connection.wf(),
    {
        let connection = Connection {
            port: "",
            baud: 0,
            connected: false,
            read_buf: Vec::new(),
            msg_buf: VecDeque::new(),
            no_connect: false,
        };
        proof {
            reveal_strlit("");
        }
        assert(connection.inbox().queue =~= Seq::empty());
        connection
    }
}

/// Puts the data into a frame: a [`PREFIX`], then the data.
pub fn frame(data: &[u8]) -> (message: Vec<u8>)
    ensures
        message@ == framed(data@),
{
    let mut message: Vec<u8> = Vec::new();
    message.push(PREFIX);
    let mut i: usize = 0;
    while i < data.len()
        invariant
            i <= data.len(),
            message@ == framed(data@.take(i as int)),
        decreases data.len() - i,
    {
        message.push(data[i]);
        i += 1;
    }
    message
}

/// What a transfer on the serial port amounts to for the link: success
/// however many bytes went through, and the port's error wrapped in
/// [`ComError::Error`].
pub fn transferred(outcome: Result<usize, std::io::Error>) -> (result: Result<(), ComError>)
    ensures
        outcome is Ok ==> result is Ok,
        outcome matches Err(error) ==> (result == Err::<(), ComError>(ComError::Error(error))),
{
    match outcome {
        Ok(_) => Ok(()),
        Err(error) => Err(ComError::Error(error)),
    }
}

/// Receiving keeps an inbox well formed, and so does handing a message out.
pub proof fn lemma_absorb_wf(inbox: Inbox, bytes: Seq<u8>)
    requires
        inbox.wf(),
    ensures
        inbox.absorb(bytes).wf(),
        inbox.absorb(bytes).without_front().wf(),
    decreases bytes.len(),
{
    if bytes.len() > 0 {
        lemma_absorb_wf(inbox, bytes.drop_last());
    }
}

/// It makes no difference in how many pieces a stream arrives: taking in
/// `first` and then `second` leaves the inbox as taking in both at once does.
pub proof fn lemma_absorb_concat(inbox: Inbox, first: Seq<u8>, second: Seq<u8>)
    ensures
        inbox.absorb(first).absorb(second) == inbox.absorb(first + second),
    decreases second.len(),
{
    if second.len() == 0 {
        assert(first + second =~= first);
    } else {
        lemma_absorb_concat(inbox, first, second.drop_last());
        assert((first + second).drop_last() =~= first + second.drop_last());
    }
}

/// Receiving never drops or reorders a message that is already waiting: the
/// queue only grows at its end.
pub proof fn lemma_absorb_keeps_queue(inbox: Inbox, bytes: Seq<u8>)
    ensures
        inbox.queue.is_prefix_of(inbox.absorb(bytes).queue),
    decreases bytes.len(),
{
    if bytes.len() > 0 {
        lemma_absorb_keeps_queue(inbox, bytes.drop_last());
    }
}

/// Bytes without a [`PREFIX`] that still fit into the message in progress
/// are appended to it, and no message is completed.
pub proof fn lemma_absorb_partial(inbox: Inbox, bytes: Seq<u8>)
    requires
        !bytes.contains(PREFIX),
        inbox.partial.len() + bytes.len() <= MESSAGE_LEN,
    ensures
        inbox.absorb(bytes) == (Inbox { partial: inbox.partial + bytes, queue: inbox.queue }),
    decreases bytes.len(),
{
    if bytes.len() == 0 {
        assert(inbox.partial + bytes =~= inbox.partial);
    } else {
        let front = bytes.drop_last();
        assert(bytes.last() == bytes[bytes.len() - 1]);
        assert(forall|i: int| 0 <= i < front.len() ==> front[i] == bytes[i]);
        lemma_absorb_partial(inbox, front);
        assert((inbox.partial + front).push(bytes.last()) =~= inbox.partial + bytes);
    }
}

/// A framed payload gets through whatever came before it: once the byte
/// after it has arrived, the payload is the newest waiting message, and that
/// byte begins the next message in progress.
pub proof fn lemma_absorb_frame(inbox: Inbox, payload: Seq<u8>, next: u8)
    requires
        Inbox::is_payload(payload),
        next != PREFIX,
    ensures
        inbox.absorb(framed(payload) + seq![next]) == (Inbox {
            partial: seq![next],
            queue: inbox.queue.push(payload),
        }),
{
    let opened = Inbox { partial: Seq::empty(), queue: inbox.queue };
    assert(inbox.absorb(seq![PREFIX]) == opened) by {
        assert(seq![PREFIX].drop_last() =~= Seq::<u8>::empty());
        reveal_with_fuel(Inbox::absorb, 2);
    }
    lemma_absorb_partial(opened, payload);
    assert(opened.partial + payload =~= payload);
    lemma_absorb_concat(inbox, seq![PREFIX], payload);
    assert(inbox.absorb(framed(payload)).absorb(seq![next]) == inbox.absorb(framed(payload)).accept(
        next,
    )) by {
        assert(seq![next].drop_last() =~= Seq::<u8>::empty());
        reveal_with_fuel(Inbox::absorb, 2);
    }
    lemma_absorb_concat(inbox, framed(payload), seq![next]);
}

/// A message that is cut off by the start of the next one is lost: a
/// [`PREFIX`] empties the message in progress, however far it had come.
pub proof fn lemma_absorb_prefix_resets(inbox: Inbox, bytes: Seq<u8>)
    ensures
        inbox.absorb(bytes.push(PREFIX)) == (Inbox {
            partial: Seq::empty(),
            queue: inbox.absorb(bytes).queue,
        }),
{
    assert(bytes.push(PREFIX).drop_last() =~= bytes);
}

} // verus!
