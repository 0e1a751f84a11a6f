//! Transaction tracker for the device side of the register bus.
//!
//! Bus events arrive one at a time: an address phase with its direction,
//! bytes written by the controller, bytes requested by the controller, and
//! the stop condition. [`BusStatus`] folds them into register transactions
//! and keeps at most one finalized [`BusCommand`] in a take-once mailbox.
//!
//! The payload the controller writes and the response the dispatcher
//! installs are kept apart: a byte request is answered from the response
//! alone, and a new write address empties it.
//!
//! Every operation is described by a transition of the mathematical model
//! [`Transaction`]; the executable methods are proved to follow it.

use vstd::prelude::*;

verus! {

/// Bytes in the wire buffer.
pub const BUFFER_SIZE: usize = 20;

/// Payload bytes one transaction can carry: the wire buffer less the
/// register-select byte.
pub const MAX_PAYLOAD: usize = 19;

/// Byte served when the controller reads past the available data.
pub const NO_DATA: u8 = 0xFF;

/// Mathematical model of a finalized command.
pub struct Command {
    pub register: u8,
    pub data: Seq<u8>,
    pub data_size: nat,
    pub read_direction: bool,
}

impl Command {
    /// The buffer has the wire size and the length stays within the payload capacity.
    pub open spec fn wf(self) -> bool {
        &&& self.data.len() == BUFFER_SIZE
        &&& self.data_size <= MAX_PAYLOAD
    }

    /// The bytes the command carries.
    pub open spec fn payload(self) -> Seq<u8> {
        self.data.take(self.data_size as int)
    }
}

/// The three phases of the bus as seen by the device.
pub enum Phase {
    Idle,
    Writing,
    Reading,
}

/// Mathematical model of the tracker: the transaction in progress, the
/// response on offer and the mailbox.
pub struct Transaction {
    /// Register selected by the first byte of the last write, if any.
    pub active_register: Option<u8>,
    /// Direction of the transaction in progress: `true` when the controller reads.
    pub read_direction: bool,
    /// The payload buffer.
    pub data: Seq<u8>,
    /// Number of payload bytes written since the last write address.
    pub data_size: nat,
    /// The response buffer.
    pub response: Seq<u8>,
    /// Number of response bytes on offer.
    pub response_size: nat,
    /// Read position in the response.
    pub cursor: nat,
    /// Whether the last transaction was closed by a stop condition.
    pub stopped: bool,
    /// The finalized command that was not taken yet.
    pub mailbox: Option<Command>,
}

impl Transaction {
    /// Both buffers have the wire size, payload and response stay within
    /// the payload capacity, and the read position stays within the
    /// response.
    pub open spec fn wf(self) -> bool {
        &&& self.data.len() == BUFFER_SIZE
        &&& self.data_size <= MAX_PAYLOAD
        &&& self.response.len() == BUFFER_SIZE
        &&& self.cursor <= self.response_size <= MAX_PAYLOAD
        &&& self.mailbox matches Some(c) ==> c.wf()
    }

    /// The state at construction: idle, no register, nothing buffered, empty mailbox.
    pub open spec fn initial() -> Transaction {
        Transaction {
            active_register: None,
            read_direction: false,
            data: Seq::new(BUFFER_SIZE as nat, |i: int| 0u8),
            data_size: 0,
            response: Seq::new(BUFFER_SIZE as nat, |i: int| 0u8),
            response_size: 0,
            cursor: 0,
            stopped: true,
            mailbox: None,
        }
    }

    pub open spec fn phase(self) -> Phase {
        if self.stopped {
            Phase::Idle
        } else if self.read_direction {
            Phase::Reading
        } else {
            Phase::Writing
        }
    }

    /// Position of the next byte of the transaction in progress: the
    /// payload length while the controller writes, the read position while
    /// it reads.
    pub open spec fn moved(self) -> nat {
        if self.read_direction {
            self.cursor
        } else {
            self.data_size
        }
    }

    /// The command that closing the transaction now would produce.
    pub open spec fn pending(self) -> Option<Command> {
        match self.active_register {
            Some(register) => Some(
                Command {
                    register,
                    data: self.data,
                    data_size: self.data_size,
                    read_direction: self.read_direction,
                },
            ),
            None => None,
        }
    }

    /// Closes the transaction: with a register selected its command replaces
    /// whatever the mailbox held, without one the mailbox keeps its content.
    pub open spec fn finalize(self) -> Transaction {
        match self.pending() {
            Some(c) => Transaction { mailbox: Some(c), ..self },
            None => self,
        }
    }

    /// Stop condition.
    pub open spec fn on_stop(self) -> Transaction {
        Transaction { stopped: true, ..self.finalize() }
    }

    /// Address phase. A transaction left open is closed first (repeated
    /// start). A write then starts from scratch: register, payload and
    /// response are dropped. A read keeps all three and starts at the head
    /// of the response.
    pub open spec fn on_address(self, read_direction: bool) -> Transaction {
        let closed = if self.stopped {
            self
        } else {
            self.finalize()
        };
        if read_direction {
            Transaction { stopped: false, read_direction, cursor: 0, ..closed }
        } else {
            Transaction {
                stopped: false,
                read_direction,
                cursor: 0,
                active_register: None,
                data_size: 0,
                response_size: 0,
                ..closed
            }
        }
    }

    /// Whether a byte written now is kept: it selects the register, or the
    /// payload has room for it.
    pub open spec fn accepts_byte(self) -> bool {
        self.active_register is None || self.data_size < MAX_PAYLOAD
    }

    /// Byte written by the controller. The first one after a write address
    /// selects the register; later ones are appended to the payload; one
    /// that finds the payload full is dropped. The response is left alone.
    pub open spec fn on_byte_written(self, byte: u8) -> Transaction {
        if self.active_register is None {
            Transaction { active_register: Some(byte), ..self }
        } else if self.data_size < MAX_PAYLOAD {
            Transaction {
                data: self.data.update(self.data_size as int, byte),
                data_size: self.data_size + 1,
                ..self
            }
        } else {
            self
        }
    }

    /// The state after the bytes of `bytes` were written one after the other.
    pub open spec fn after_writes(self, bytes: Seq<u8>) -> Transaction
        decreases bytes.len(),
    {
        if bytes.len() == 0 {
            self
        } else {
            self.after_writes(bytes.drop_last()).on_byte_written(bytes.last())
        }
    }

    /// The byte served to a request made now: the response byte at the
    /// read position, or `NO_DATA` past the end of the response.
    pub open spec fn served_byte(self) -> u8 {
        if self.cursor < self.response_size {
            self.response[self.cursor as int]
        } else {
            NO_DATA
        }
    }

    /// Byte requested by the controller: the read position moves on until
    /// it reaches the end of the response.
    pub open spec fn on_byte_requested(self) -> Transaction {
        if self.cursor < self.response_size {
            Transaction { cursor: self.cursor + 1, ..self }
        } else {
            self
        }
    }

    /// The mailbox after its content was taken.
    pub open spec fn on_take(self) -> Transaction {
        Transaction { mailbox: None, ..self }
    }

    /// Whether response data for `register` is accepted now.
    pub open spec fn accepts_response(self, register: u8, size: nat) -> bool {
        self.active_register == Some(register) && size <= MAX_PAYLOAD
    }

    /// Response data offered for `register`: it becomes the response when
    /// that register is still the active one and the length fits, and is
    /// discarded otherwise. The payload is left alone.
    pub open spec fn on_install(self, register: u8, data: Seq<u8>, size: nat) -> Transaction {
        if self.accepts_response(register, size) {
            Transaction { response: data, response_size: size, cursor: 0, ..self }
        } else {
            self
        }
    }

    /// The state after `n` consecutive byte requests.
    pub open spec fn after_requests(self, n: nat) -> Transaction
        decreases n,
    {
        if n == 0 {
            self
        } else {
            self.after_requests((n - 1) as nat).on_byte_requested()
        }
    }

    /// The bytes served to `n` consecutive byte requests.
    pub open spec fn requested_bytes(self, n: nat) -> Seq<u8> {
        Seq::new(n, |k: int| self.after_requests(k as nat).served_byte())
    }
}

/// A finalized register transaction, as handed to the dispatcher.
#[derive(Clone, Copy)]
pub struct BusCommand {
    pub register: u8,
    pub data: [u8; 20],
    pub data_size: usize,
    pub read_direction: bool,
}

impl View for BusCommand {
    type V = Command;

    open spec fn view(&self) -> Command {
        Command {
            register: self.register,
            data: self.data@,
            data_size: self.data_size as nat,
            read_direction: self.read_direction,
        }
    }
}

pub open spec fn command_view(command: Option<BusCommand>) -> Option<Command> {
    match command {
        Some(c) => Some(c@),
        None => None,
    }
}

/// The tracker: working state of the transaction in progress, the response
/// on offer and the mailbox.
pub struct BusStatus {
    last_register: Option<u8>,
    read_direction: bool,
    data: [u8; 20],
    data_size: usize,
    response: [u8; 20],
    response_size: usize,
    response_index: usize,
    command: Option<BusCommand>,
    stopped: bool,
}

impl View for BusStatus {
    type V = Transaction;

    closed spec fn view(&self) -> Transaction {
        Transaction {
            active_register: self.last_register,
            read_direction: self.read_direction,
            data: self.data@,
            data_size: self.data_size as nat,
            response: self.response@,
            response_size: self.response_size as nat,
            cursor: self.response_index as nat,
            stopped: self.stopped,
            mailbox: command_view(self.command),
        }
    }
}

impl BusStatus {
    #[verifier::type_invariant]
    spec fn inv(self) -> bool {
        self@.wf()
    }

    /// An idle tracker with no register selected and an empty mailbox.
    pub fn new() -> (status: Self)
        ensures
            status@ == Transaction::initial(),
            status@.wf(),
    {
        let status = Self {
            last_register: None,
            read_direction: false,
            data: [0u8; 20],
            data_size: 0,
            response: [0u8; 20],
            response_size: 0,
            response_index: 0,
            command: None,
            stopped: true,
        };
        assert(status@.data =~= Transaction::initial().data);
        assert(status@.response =~= Transaction::initial().response);
        status
    }

    /// Handles a stop condition.
    pub fn stop(&mut self)
        ensures
            final(self)@ == old(self)@.on_stop(),
            final(self)@.wf(),
    {
        self.build_command();
        self.stopped = true;
    }

    /// Closes the transaction in progress: with a register selected, its
    /// command replaces the mailbox content.
    pub fn build_command(&mut self)
        ensures
            final(self)@ == old(self)@.finalize(),
            final(self)@.wf(),
    {
        proof {
            use_type_invariant(&*self);
        }
        if let Some(last_register) = self.last_register {
            let result = BusCommand {
                register: last_register,
                data: self.data,
                data_size: self.data_size,
                read_direction: self.read_direction,
            };
            self.command = Some(result);
        }
    }

    /// Handles an address phase with its direction (`true`: the controller reads).
    pub fn addr(&mut self, read_direction: bool)
        ensures
            final(self)@ == old(self)@.on_address(read_direction),
            final(self)@.wf(),
    {
        proof {
            use_type_invariant(&*self);
        }
        if !self.stopped {
            self.build_command();
        }
        self.stopped = false;
        self.read_direction = read_direction;
        self.response_index = 0;

        if !read_direction {
            self.last_register = None;
            self.data_size = 0;
            self.response_size = 0;
        }
    }

    /// Direction of the transaction in progress.
    pub fn is_reading(&self) -> (reading: bool)
        ensures
            reading == self@.read_direction,
    {
        self.read_direction
    }

    /// Handles a byte written by the controller. Returns whether the byte
    /// was kept, as register or as payload.
    pub fn write_data(&mut self, data: u8) -> (kept: bool)
        ensures
            final(self)@ == old(self)@.on_byte_written(data),
            kept == old(self)@.accepts_byte(),
            final(self)@.wf(),
    {
        proof {
            use_type_invariant(&*self);
        }
        if self.last_register.is_none() {
            self.last_register = Some(data);
            true
        } else if self.data_size < MAX_PAYLOAD {
            self.data[self.data_size] = data;
            self.data_size += 1;
            true
        } else {
            false
        }
    }

    /// Handles a byte request of the controller: the next byte of the
    /// response, or [`NO_DATA`] once the response is exhausted.
    pub fn read_data(&mut self) -> (byte: u8)
        ensures
            byte == old(self)@.served_byte(),
            final(self)@ == old(self)@.on_byte_requested(),
            final(self)@.wf(),
    {
        proof {
            use_type_invariant(&*self);
        }
        if self.response_index < self.response_size {
            let result = self.response[self.response_index];
            self.response_index += 1;
            result
        } else {
            NO_DATA
        }
    }

    /// Removes and returns the finalized command, if there is one.
    pub fn process(&mut self) -> (command: Option<BusCommand>)
        ensures
            command_view(command) == old(self)@.mailbox,
            final(self)@ == old(self)@.on_take(),
            final(self)@.wf(),
            command matches Some(c) ==> c@.wf(),
    {
        proof {
            use_type_invariant(&*self);
        }
        let result = self.command;
        self.command = None;
        result
    }

    /// Offers response data computed for `register`. It becomes the
    /// response only while `register` is still the active register and
    /// `data_size` fits the payload capacity; otherwise the call changes
    /// nothing.
    pub fn provide_data(&mut self, register: u8, data: &[u8; 20], data_size: usize)
        ensures
            final(self)@ == old(self)@.on_install(register, data@, data_size as nat),
            final(self)@.wf(),
    {
        proof {
            use_type_invariant(&*self);
        }
        match self.last_register {
            Some(active) => {
                if active == register && data_size <= MAX_PAYLOAD {
                    self.response_index = 0;
                    self.response_size = data_size;
                    self.response = *data;
                }
            },
            None => {},
        }
    }

    /// The register selected by the last write, if any.
    pub fn last_register(&self) -> (register: Option<u8>)
        ensures
            register == self@.active_register,
    {
        self.last_register
    }

    /// Number of payload bytes written since the last write address.
    pub fn data_size(&self) -> (size: usize)
        ensures
            size == self@.data_size,
            size <= MAX_PAYLOAD,
    {
        proof {
            use_type_invariant(self);
        }
        self.data_size
    }

    /// Position of the next byte of the transaction in progress: the
    /// payload length while the controller writes, the read position while
    /// it reads.
    pub fn data_index(&self) -> (index: usize)
        ensures
            index == self@.moved(),
            index <= MAX_PAYLOAD,
    {
        proof {
            use_type_invariant(self);
        }
        if self.read_direction {
            self.response_index
        } else {
            self.data_size
        }
    }

    /// A copy of the payload buffer.
    pub fn data(&self) -> (data: [u8; 20])
        ensures
            data@ == self@.data,
    {
        self.data
    }

    /// Number of response bytes on offer.
    pub fn response_size(&self) -> (size: usize)
        ensures
            size == self@.response_size,
            size <= MAX_PAYLOAD,
    {
        proof {
            use_type_invariant(self);
        }
        self.response_size
    }

    /// A copy of the response buffer.
    pub fn response(&self) -> (response: [u8; 20])
        ensures
            response@ == self@.response,
    {
        self.response
    }

    /// Whether a finalized command waits in the mailbox.
    pub fn has_command(&self) -> (waiting: bool)
        ensures
            waiting == self@.mailbox.is_some(),
    {
        self.command.is_some()
    }

    /// Whether the last transaction was closed by a stop condition.
    pub fn is_stopped(&self) -> (stopped: bool)
        ensures
            stopped == self@.stopped,
    {
        self.stopped
    }
}

/// Every transition keeps the model well formed.
pub proof fn lemma_transitions_preserve_wf(
    t: Transaction,
    read_direction: bool,
    byte: u8,
    register: u8,
    data: Seq<u8>,
    size: nat,
)
    requires
        t.wf(),
        data.len() == BUFFER_SIZE,
    ensures
        Transaction::initial().wf(),
        t.finalize().wf(),
        t.on_stop().wf(),
        t.on_address(read_direction).wf(),
        t.on_byte_written(byte).wf(),
        t.on_byte_requested().wf(),
        t.on_take().wf(),
        t.on_install(register, data, size).wf(),
{
}

/// The first byte written after a write address becomes the active register.
/// It is not stored as payload, and it leaves the mailbox as the address
/// phase left it: no command appears before a stop or a new address.
pub proof fn lemma_first_written_byte_selects_register(t: Transaction, byte: u8)
    requires
        t.wf(),
    ensures
        t.on_address(false).on_byte_written(byte).active_register == Some(byte),
        t.on_address(false).on_byte_written(byte).data_size == 0,
        t.on_address(false).on_byte_written(byte).data == t.on_address(false).data,
        t.on_address(false).on_byte_written(byte).response_size == 0,
        t.on_address(false).on_byte_written(byte).mailbox == t.on_address(false).mailbox,
        t.on_address(false).on_byte_written(byte).phase() == Phase::Writing,
{
}

/// Only closing a transaction fills the mailbox: written bytes, requested
/// bytes and offered responses leave it as it is.
pub proof fn lemma_data_bytes_keep_mailbox(
    t: Transaction,
    byte: u8,
    register: u8,
    data: Seq<u8>,
    size: nat,
)
    ensures
        t.on_byte_written(byte).mailbox == t.mailbox,
        t.on_byte_requested().mailbox == t.mailbox,
        t.on_install(register, data, size).mailbox == t.mailbox,
{
}

/// Only an offered response and a write address change the response:
/// written bytes, a stop, a read address and a take leave it as it is, and
/// written bytes keep the state well formed.
pub proof fn lemma_response_is_kept(t: Transaction, bytes: Seq<u8>)
    requires
        t.wf(),
    ensures
        t.after_writes(bytes).wf(),
        t.after_writes(bytes).response == t.response,
        t.after_writes(bytes).response_size == t.response_size,
        t.after_writes(bytes).cursor == t.cursor,
        t.on_stop().response == t.response,
        t.on_stop().response_size == t.response_size,
        t.on_address(true).response == t.response,
        t.on_address(true).response_size == t.response_size,
        t.on_take().response == t.response,
        t.on_take().response_size == t.response_size,
    decreases bytes.len(),
{
    if bytes.len() > 0 {
        lemma_response_is_kept(t, bytes.drop_last());
    }
}

/// A command is delivered at most once: after a take the mailbox is empty
/// until a transaction is closed again.
pub proof fn lemma_take_empties_mailbox(t: Transaction)
    ensures
        t.on_take().mailbox is None,
        t.on_take().on_take() == t.on_take(),
{
}

/// Consecutive byte requests walk the response from the read position on
/// and then stay at its end.
pub proof fn lemma_after_requests(t: Transaction, n: nat)
    requires
        t.wf(),
    ensures
        t.after_requests(n) == (Transaction {
            cursor: if t.cursor + n <= t.response_size {
                t.cursor + n
            } else {
                t.response_size
            },
            ..t
        }),
    decreases n,
{
    if n > 0 {
        lemma_after_requests(t, (n - 1) as nat);
    }
}

/// The bytes served to consecutive requests are the response bytes from the
/// read position up to the end of the response, then `NO_DATA` without end.
pub proof fn lemma_requested_bytes(t: Transaction, n: nat, k: int)
    requires
        t.wf(),
        0 <= k < n,
    ensures
        t.requested_bytes(n).len() == n,
        t.cursor + k < t.response_size ==> t.requested_bytes(n)[k] == t.response[t.cursor + k],
        t.cursor + k >= t.response_size ==> t.requested_bytes(n)[k] == NO_DATA,
{
    lemma_after_requests(t, k as nat);
}

/// A read transaction is answered with `NO_DATA` for every requested byte
/// exactly when the response on offer holds no byte other than `NO_DATA`.
pub proof fn lemma_read_serves_no_data_only(t: Transaction)
    requires
        t.wf(),
    ensures
        (forall|n: nat, k: int|
            0 <= k < n ==> #[trigger] t.on_address(true).requested_bytes(n)[k] == NO_DATA) <==> (
        forall|i: int| 0 <= i < t.response_size ==> #[trigger] t.response[i] == NO_DATA),
{
    let read = t.on_address(true);
    if forall|i: int| 0 <= i < t.response_size ==> #[trigger] t.response[i] == NO_DATA {
        assert forall|n: nat, k: int| 0 <= k < n implies #[trigger] read.requested_bytes(n)[k]
            == NO_DATA by {
            lemma_requested_bytes(read, n, k);
        }
    }
    if forall|n: nat, k: int| 0 <= k < n ==> #[trigger] read.requested_bytes(n)[k] == NO_DATA {
        assert forall|i: int| 0 <= i < t.response_size implies #[trigger] t.response[i]
            == NO_DATA by {
            lemma_requested_bytes(read, (i + 1) as nat, i);
            assert(read.requested_bytes((i + 1) as nat)[i] == NO_DATA);
        }
    }
}

/// A read transaction for a register with no response installed is
/// answered with `NO_DATA` for every requested byte, whatever was written
/// before it: after a write address and any bytes of register and payload,
/// closed by a stop or not, every byte a read transaction requests is
/// `NO_DATA`.
pub proof fn lemma_read_without_response_serves_no_data(
    t: Transaction,
    bytes: Seq<u8>,
    n: nat,
    k: int,
)
    requires
        t.wf(),
        0 <= k < n,
    ensures
        t.on_address(false).after_writes(bytes).on_address(true).requested_bytes(n)[k] == NO_DATA,
        t.on_address(false).after_writes(bytes).on_stop().on_address(true).requested_bytes(n)[k]
            == NO_DATA,
{
    let written = t.on_address(false).after_writes(bytes);
    lemma_response_is_kept(t.on_address(false), bytes);
    lemma_requested_bytes(written.on_address(true), n, k);
    lemma_requested_bytes(written.on_stop().on_address(true), n, k);
}

/// Response data installed for the active register is what the next read
/// transaction serves: its `size` bytes in order, then `NO_DATA`.
pub proof fn lemma_installed_response_is_served(
    t: Transaction,
    register: u8,
    data: Seq<u8>,
    size: nat,
    n: nat,
    k: int,
)
    requires
        t.wf(),
        data.len() == BUFFER_SIZE,
        t.active_register == Some(register),
        size <= MAX_PAYLOAD,
        0 <= k < n,
    ensures
        k < size ==> t.on_install(register, data, size).on_address(true).requested_bytes(n)[k]
            == data[k],
        k >= size ==> t.on_install(register, data, size).on_address(true).requested_bytes(n)[k]
            == NO_DATA,
{
    lemma_requested_bytes(t.on_install(register, data, size).on_address(true), n, k);
}

/// Response data offered for another register than the active one is
/// discarded, so a read that follows is served as if nothing was offered.
pub proof fn lemma_stale_response_is_discarded(
    t: Transaction,
    register: u8,
    data: Seq<u8>,
    size: nat,
)
    requires
        t.active_register != Some(register),
    ensures
        t.on_install(register, data, size) == t,
{
}

/// A new write address drops installed response data: the read that
/// follows the next write is answered with `NO_DATA`, also where the same
/// register is selected again.
pub proof fn lemma_write_address_drops_response(
    t: Transaction,
    register: u8,
    data: Seq<u8>,
    size: nat,
    bytes: Seq<u8>,
    n: nat,
    k: int,
)
    requires
        t.wf(),
        data.len() == BUFFER_SIZE,
        0 <= k < n,
    ensures
        t.on_install(register, data, size).on_address(false).after_writes(bytes).on_address(
            true,
        ).requested_bytes(n)[k] == NO_DATA,
{
    lemma_read_without_response_serves_no_data(t.on_install(register, data, size), bytes, n, k);
}

} // verus!
